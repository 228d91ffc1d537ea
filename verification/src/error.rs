//! Errors of the rendering subsystem.
use vstd::prelude::*;

verus! {

/// What a backend says of a request that it could not fulfil.
#[derive(Debug)]
pub struct BackendError {
    pub message: String,
}

/// An `#include` directive that could not be followed.
#[derive(Debug)]
pub enum IncludeError {
    /// A file includes itself, directly or through others.
    RecursiveInclude {
        in_file: Option<String>,
        line_num: usize,
        problem_include: String,
        include_stack: Vec<String>,
    },
    /// No file has the included name.
    FileNotFound { in_file: Option<String>, line_num: usize, problem_include: String },
}

/// The contents of an [`IncludeError`].
pub enum IncludeErrorView {
    RecursiveInclude {
        in_file: Option<Seq<char>>,
        line_num: nat,
        problem_include: Seq<char>,
        include_stack: Seq<Seq<char>>,
    },
    FileNotFound { in_file: Option<Seq<char>>, line_num: nat, problem_include: Seq<char> },
}

/// The characters of an optional string.
pub open spec fn text_of(text: Option<String>) -> Option<Seq<char>> {
    match text {
        Some(text) => Some(text@),
        None => None,
    }
}

impl View for IncludeError {
    type V = IncludeErrorView;

    open spec fn view(&self) -> IncludeErrorView {
        match *self {
            IncludeError::RecursiveInclude {
                in_file,
                line_num,
                problem_include,
                include_stack,
            } => IncludeErrorView::RecursiveInclude {
                in_file: text_of(in_file),
                line_num: line_num as nat,
                problem_include: problem_include@,
                include_stack: include_stack@.map_values(|name: String| name@),
            },
            IncludeError::FileNotFound { in_file, line_num, problem_include } =>
                IncludeErrorView::FileNotFound {
                in_file: text_of(in_file),
                line_num: line_num as nat,
                problem_include: problem_include@,
            },
        }
    }
}

/// Which part of a texture could not be created.
#[derive(Debug)]
pub enum CombinedError {
    /// The texture itself.
    Texture(BackendError),
    /// A view through which shaders read it.
    Resource(BackendError),
    /// A view through which it is rendered to.
    Target(BackendError),
}

/// One of many possible errors of the rendering subsystem.
#[derive(Debug)]
pub enum RenderError {
    /// A shader did not compile, a program did not link, or a pipeline was refused.
    PipelineError(BackendError),
    /// A texture or a view of it could not be created.
    CombinedError(CombinedError),
    /// A buffer could not be created.
    BufferCreationError(BackendError),
    /// A buffer could not be written to.
    UpdateError(BackendError),
    /// A copy from a texture was refused.
    CopyError(BackendError),
    /// A buffer could not be read back.
    MappingError(BackendError),
    /// A shader includes what it cannot.
    IncludeError(IncludeError),
}

/// The contents of a [`RenderError`].
pub enum RenderErrorView {
    PipelineError(BackendError),
    CombinedError(CombinedError),
    BufferCreationError(BackendError),
    UpdateError(BackendError),
    CopyError(BackendError),
    MappingError(BackendError),
    IncludeError(IncludeErrorView),
}

impl View for RenderError {
    type V = RenderErrorView;

    open spec fn view(&self) -> RenderErrorView {
        match *self {
            RenderError::PipelineError(error) => RenderErrorView::PipelineError(error),
            RenderError::CombinedError(error) => RenderErrorView::CombinedError(error),
            RenderError::BufferCreationError(error) => RenderErrorView::BufferCreationError(error),
            RenderError::UpdateError(error) => RenderErrorView::UpdateError(error),
            RenderError::CopyError(error) => RenderErrorView::CopyError(error),
            RenderError::MappingError(error) => RenderErrorView::MappingError(error),
            RenderError::IncludeError(error) => RenderErrorView::IncludeError(error@),
        }
    }
}

/// An optional error, taken by its contents.
pub open spec fn error_view(error: Option<RenderError>) -> Option<RenderErrorView> {
    match error {
        Some(error) => Some(error@),
        None => None,
    }
}

/// A result whose error is taken by its contents.
pub open spec fn result_view<T>(result: Result<T, RenderError>) -> Result<T, RenderErrorView> {
    match result {
        Ok(value) => Ok(value),
        Err(error) => Err(error@),
    }
}

} // verus!
