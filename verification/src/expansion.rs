//! Expansion of `#include` directives.
use crate::error::IncludeError;
use crate::error::IncludeErrorView;
use glsl_include::Context;
use vstd::prelude::*;

verus! {

/// `glsl_include::Context`: named files that the directives of a source can refer to.
#[verifier::external_type_specification]
#[verifier::external_body]
pub struct ExContext<'a>(glsl_include::Context<'a>);

/// The files of a context, by name.
pub uninterp spec fn included_files(context: Context<'static>) -> Map<Seq<char>, Seq<char>>;

/// What the expansion of a source against some files gives.
pub uninterp spec fn expansion(files: Map<Seq<char>, Seq<char>>, source: Seq<char>) -> Result<
    Seq<char>,
    IncludeErrorView,
>;

/// The contents of the result of an expansion.
pub open spec fn expanded_view(result: Result<String, IncludeError>) -> Result<
    Seq<char>,
    IncludeErrorView,
> {
    match result {
        Ok(text) => Ok(text@),
        Err(error) => Err(error@),
    }
}

/// `Context::expand`: the result depends on the files of the context and on the source
/// alone.
#[verifier::external_body]
pub(crate) fn expand(context: &Context<'static>, source: &str) -> (result: Result<
    String,
    IncludeError,
>)
    ensures
        expanded_view(result) == expansion(included_files(*context), source@),
{
    match context.expand(source) {
        Ok(text) => Ok(text),
        Err(glsl_include::Error::RecursiveInclude {
            in_file,
            line_num,
            problem_include,
            include_stack,
        }) => Err(
            IncludeError::RecursiveInclude { in_file, line_num, problem_include, include_stack },
        ),
        Err(glsl_include::Error::FileNotFound { in_file, line_num, problem_include }) => Err(
            IncludeError::FileNotFound { in_file, line_num, problem_include },
        ),
    }
}

} // verus!
