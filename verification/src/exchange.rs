//! The questions that the library puts to a backend, and the answers.
use crate::draw::Command;
use crate::error::{BackendError, CombinedError};
use crate::pipelines::PipelineKind;
use crate::resources::{
    DepthStencilView, DownloadBuffer, Encoder, PipelineState, Program, RawTexture,
    RenderTargetView, ResourceView, Sampler, ShaderSet, WinColorView,
};
use crate::state::{DepthStencilTest, Rasterizer};
use crate::texture::{FilterMethod, SamplerInfo, Swizzle, TextureInfo, WrapMode};
use glsl_include::Context;
use vstd::prelude::*;

verus! {

/// The shaders of a pipeline.
#[derive(Clone, Copy, Debug, PartialEq, Eq)]
pub enum Shaders {
    Program(Program),
    ShaderSet(ShaderSet),
}

/// How vertices make up primitives.
#[derive(Clone, Copy, Debug, PartialEq, Eq)]
pub enum Primitive {
    TriangleList,
}

/// A pipeline state object to be created.
#[derive(Clone, Copy, Debug, PartialEq, Eq)]
pub struct PipelineInfo {
    pub kind: PipelineKind,
    pub shaders: Shaders,
    pub primitive: Primitive,
    pub rasterizer: Rasterizer,
    /// Takes the place of the depth and stencil test that the kind declares.
    pub depth_stencil: Option<DepthStencilTest>,
}

/// A part of a texture, to be copied.
#[derive(Clone, Copy, Debug, PartialEq, Eq)]
pub struct ImageInfo {
    pub xoffset: u16,
    pub yoffset: u16,
    pub zoffset: u16,
    pub width: u16,
    pub height: u16,
    pub depth: u16,
    pub mipmap: u8,
}

/// Something that only a backend can do. The library goes on when it is given the
/// [`Reply`].
#[derive(Debug)]
pub enum Request {
    /// Load the text of a shader, and watch its file for changes.
    LoadShader { specifier: String },
    /// Make a context for the expansion of directives, with these names and files.
    BuildContext { files: Vec<(String, String)> },
    /// Compile and link a vertex and a fragment shader.
    LinkProgram { vertex: String, fragment: String },
    /// Compile a vertex, a geometry and a fragment shader.
    LinkShaderSet { vertex: String, geometry: String, fragment: String },
    CreatePipeline { info: PipelineInfo },
    CreateTexture { info: TextureInfo },
    /// View the mipmap levels from `min_level` to `max_level` of a texture in shaders.
    ViewAsShaderResource { texture: RawTexture, min_level: u8, max_level: u8, swizzle: Swizzle },
    /// View one mipmap level, and one layer or all of them, as a target for colors.
    ViewAsRenderTarget { texture: RawTexture, level: u8, layer: Option<u16> },
    /// View a whole texture as a target for depths.
    ViewAsDepthStencil { texture: RawTexture },
    CreateSampler { info: SamplerInfo },
    /// Create a sampler that filters linearly and clamps.
    CreateLinearSampler,
    CreateEncoder,
    /// Load an image and create a texture from it.
    LoadTexture { specifier: String, filter: FilterMethod, wrap: WrapMode },
    /// Carry out the commands in their order, and find out whether a watched shader file
    /// has changed since this was last asked.
    Submit { commands: Vec<Command> },
    /// Create a buffer for `len` pixels that can be read back.
    CreateDownloadBuffer { len: usize },
    /// Record that a part of the texture behind `view` is to be copied to `buffer`,
    /// `offset` bytes from its start.
    CopyToBuffer {
        encoder: Encoder,
        view: WinColorView,
        info: ImageInfo,
        buffer: DownloadBuffer,
        offset: usize,
    },
    /// Read the `len` pixels of a buffer.
    ReadBuffer { buffer: DownloadBuffer, len: usize },
}

/// The contents of a [`Request`].
pub enum RequestView {
    LoadShader { specifier: Seq<char> },
    BuildContext { files: Seq<(Seq<char>, Seq<char>)> },
    LinkProgram { vertex: Seq<char>, fragment: Seq<char> },
    LinkShaderSet { vertex: Seq<char>, geometry: Seq<char>, fragment: Seq<char> },
    CreatePipeline { info: PipelineInfo },
    CreateTexture { info: TextureInfo },
    ViewAsShaderResource { texture: RawTexture, min_level: u8, max_level: u8, swizzle: Swizzle },
    ViewAsRenderTarget { texture: RawTexture, level: u8, layer: Option<u16> },
    ViewAsDepthStencil { texture: RawTexture },
    CreateSampler { info: SamplerInfo },
    CreateLinearSampler,
    CreateEncoder,
    LoadTexture { specifier: Seq<char>, filter: FilterMethod, wrap: WrapMode },
    Submit { commands: Seq<Command> },
    CreateDownloadBuffer { len: nat },
    CopyToBuffer {
        encoder: Encoder,
        view: WinColorView,
        info: ImageInfo,
        buffer: DownloadBuffer,
        offset: nat,
    },
    ReadBuffer { buffer: DownloadBuffer, len: nat },
}

/// The names and the texts of files.
pub open spec fn files_view(files: Seq<(String, String)>) -> Seq<(Seq<char>, Seq<char>)> {
    files.map_values(|file: (String, String)| (file.0@, file.1@))
}

impl View for Request {
    type V = RequestView;

    open spec fn view(&self) -> RequestView {
        match *self {
            Request::LoadShader { specifier } => RequestView::LoadShader {
                specifier: specifier@,
            },
            Request::BuildContext { files } => RequestView::BuildContext {
                files: files_view(files@),
            },
            Request::LinkProgram { vertex, fragment } => RequestView::LinkProgram {
                vertex: vertex@,
                fragment: fragment@,
            },
            Request::LinkShaderSet { vertex, geometry, fragment } => RequestView::LinkShaderSet {
                vertex: vertex@,
                geometry: geometry@,
                fragment: fragment@,
            },
            Request::CreatePipeline { info } => RequestView::CreatePipeline { info },
            Request::CreateTexture { info } => RequestView::CreateTexture { info },
            Request::ViewAsShaderResource { texture, min_level, max_level, swizzle } =>
                RequestView::ViewAsShaderResource { texture, min_level, max_level, swizzle },
            Request::ViewAsRenderTarget { texture, level, layer } =>
                RequestView::ViewAsRenderTarget { texture, level, layer },
            Request::ViewAsDepthStencil { texture } => RequestView::ViewAsDepthStencil { texture },
            Request::CreateSampler { info } => RequestView::CreateSampler { info },
            Request::CreateLinearSampler => RequestView::CreateLinearSampler,
            Request::CreateEncoder => RequestView::CreateEncoder,
            Request::LoadTexture { specifier, filter, wrap } => RequestView::LoadTexture {
                specifier: specifier@,
                filter,
                wrap,
            },
            Request::Submit { commands } => RequestView::Submit { commands: commands@ },
            Request::CreateDownloadBuffer { len } => RequestView::CreateDownloadBuffer {
                len: len as nat,
            },
            Request::CopyToBuffer { encoder, view, info, buffer, offset } =>
                RequestView::CopyToBuffer { encoder, view, info, buffer, offset: offset as nat },
            Request::ReadBuffer { buffer, len } => RequestView::ReadBuffer {
                buffer,
                len: len as nat,
            },
        }
    }
}

/// The answer of a backend.
#[derive(Debug)]
pub enum Reply {
    Shader(String),
    Context(Context<'static>),
    Program(Program),
    ShaderSet(ShaderSet),
    Pipeline(PipelineState),
    Texture(RawTexture),
    ResourceView(ResourceView),
    RenderTargetView(RenderTargetView),
    DepthStencilView(DepthStencilView),
    Sampler(Sampler),
    Encoder(Encoder),
    LoadedTexture { srv: ResourceView, sampler: Sampler },
    /// The texture of an image could not be created.
    TextureFailed(CombinedError),
    Submitted { reloaded: bool },
    DownloadBuffer(DownloadBuffer),
    Copied,
    Pixels(Vec<[u8; 4]>),
    /// The request could not be fulfilled.
    Failed(BackendError),
}

impl Reply {
    /// The reply is one that `request` can be given. A shader that cannot be loaded, a
    /// context, a sampler and an encoder that cannot be made, and a frame that cannot be
    /// submitted have no reply.
    ///
    /// A texture has the shape that it was asked for, a view of its first mipmap level has
    /// the texture's size, and a part without an area cannot be copied.
    pub open spec fn answers(self, request: RequestView) -> bool {
        match request {
            RequestView::LoadShader { .. } => self is Shader,
            RequestView::BuildContext { .. } => self is Context,
            RequestView::LinkProgram { .. } => self is Program || self is Failed,
            RequestView::LinkShaderSet { .. } => self is ShaderSet || self is Failed,
            RequestView::CreatePipeline { .. } => self is Pipeline || self is Failed,
            RequestView::CreateTexture { info } => match self {
                Reply::Texture(texture) => texture.kind == info.kind,
                Reply::Failed(_) => true,
                _ => false,
            },
            RequestView::ViewAsShaderResource { .. } => self is ResourceView || self is Failed,
            RequestView::ViewAsRenderTarget { texture, level, .. } => match self {
                Reply::RenderTargetView(view) => level == 0 ==> view.size() == texture.kind.size(),
                Reply::Failed(_) => true,
                _ => false,
            },
            RequestView::ViewAsDepthStencil { texture } => match self {
                Reply::DepthStencilView(view) => view.size() == texture.kind.size(),
                Reply::Failed(_) => true,
                _ => false,
            },
            RequestView::CreateSampler { .. } => self is Sampler,
            RequestView::CreateLinearSampler => self is Sampler,
            RequestView::CreateEncoder => self is Encoder,
            RequestView::LoadTexture { .. } => self is LoadedTexture || self is TextureFailed,
            RequestView::Submit { .. } => self is Submitted,
            RequestView::CreateDownloadBuffer { .. } => self is DownloadBuffer || self is Failed,
            RequestView::CopyToBuffer { info, .. } => {
                ||| self is Failed
                ||| self is Copied && info.width > 0 && info.height > 0
            },
            RequestView::ReadBuffer { len, .. } => match self {
                Reply::Pixels(pixels) => pixels@.len() == len,
                Reply::Failed(_) => true,
                _ => false,
            },
        }
    }
}

/// Where an operation stands: it waits for the reply to `request`, which its `task` is to
/// be resumed with, or it has ended.
pub enum Step<T, R, Q = Request> {
    Ask { request: Q, task: T },
    Done(R),
}

/// Where an operation stands, as a function of the replies that it was given.
pub enum Next<R, Q = RequestView> {
    Ask(Q),
    Done(R),
}

} // verus!
