//! Names for the objects that live on the GPU.
//!
//! The backend that owns an object hands out a number for it. The library passes these
//! numbers on; all that it knows of an object besides is the shape of a texture and the size
//! of a view.
use crate::geometry::Vec2;
use crate::texture::Kind;
use core::marker::PhantomData;
use vstd::prelude::*;

verus! {

/// A vertex, instance or constant buffer.
#[derive(Clone, Copy, Debug, PartialEq, Eq)]
pub struct Buffer {
    pub id: u32,
}

/// A buffer that the GPU writes and the program reads back.
#[derive(Clone, Copy, Debug, PartialEq, Eq)]
pub struct DownloadBuffer {
    pub id: u32,
}

/// The storage of a texture, without a view on it.
#[derive(Clone, Copy, Debug, PartialEq, Eq)]
pub struct RawTexture {
    pub id: u32,
    /// The shape that it was created with.
    pub kind: Kind,
}

/// A view through which shaders read a texture.
#[derive(Clone, Copy, Debug, PartialEq, Eq)]
pub struct ResourceView {
    pub id: u32,
}

/// A view through which pixels are written to a texture.
#[derive(Clone, Copy, Debug, PartialEq, Eq)]
pub struct RenderTargetView {
    pub id: u32,
    pub width: u16,
    pub height: u16,
}

impl RenderTargetView {
    /// The width and the height.
    pub open spec fn size(self) -> Vec2 {
        Vec2 { x: self.width, y: self.height }
    }
}

/// A view through which depth and stencil values are written to a texture.
#[derive(Clone, Copy, Debug, PartialEq, Eq)]
pub struct DepthStencilView {
    pub id: u32,
    pub width: u16,
    pub height: u16,
}

impl DepthStencilView {
    /// The width and the height.
    pub open spec fn size(self) -> Vec2 {
        Vec2 { x: self.width, y: self.height }
    }
}

/// A rule for reading between the texels of a texture.
#[derive(Clone, Copy, Debug, PartialEq, Eq)]
pub struct Sampler {
    pub id: u32,
}

/// A queue of commands that have not been handed to the GPU yet.
#[derive(Clone, Copy, Debug, PartialEq, Eq)]
pub struct Encoder {
    pub id: u32,
}

/// A linked pair of a vertex and a fragment shader.
#[derive(Clone, Copy, Debug, PartialEq, Eq)]
pub struct Program {
    pub id: u32,
}

/// A compiled set of a vertex, a geometry and a fragment shader.
#[derive(Clone, Copy, Debug, PartialEq, Eq)]
pub struct ShaderSet {
    pub id: u32,
}

/// A pipeline state object: shaders together with the fixed-function state.
#[derive(Clone, Copy, Debug, PartialEq, Eq)]
pub struct PipelineState {
    pub id: u32,
}

/// A handle to a pre-processed color target.
pub type TgtColorView = RenderTargetView;

/// A handle to a pre-processed depth target.
pub type TgtDepthStencilView = DepthStencilView;

/// A handle to a window color target.
pub type WinColorView = RenderTargetView;

/// A handle to a window depth target.
pub type WinDepthView = DepthStencilView;

/// A handle to a shadow depth target.
pub type ShadowDepthStencilView = DepthStencilView;

/// A handle to a shadow depth target as a resource.
pub type ShadowResourceView = ResourceView;

/// A handle to a render color target as a resource.
pub type TgtColorRes = ResourceView;

/// The format of level-of-detail shadow textures.
#[derive(Clone, Copy, Debug, PartialEq, Eq)]
pub struct LodTextureFmt;

/// The format of level-of-detail color textures.
#[derive(Clone, Copy, Debug, PartialEq, Eq)]
pub struct LodColorFmt;

/// The format of the noise texture.
#[derive(Clone, Copy, Debug, PartialEq, Eq)]
pub struct NoiseFmt;

/// The format of textures that say nothing else.
#[derive(Clone, Copy, Debug, PartialEq, Eq)]
pub struct PlainFmt;

/// A texture that shaders can read, with its sampler; `F` tells textures of different
/// formats apart.
#[derive(Debug, PartialEq, Eq)]
pub struct Texture<F> {
    pub srv: ResourceView,
    pub sampler: Sampler,
    pub format: PhantomData<F>,
}

impl<F> Texture<F> {
    /// The texture seen through `srv` and sampled by `sampler`.
    pub fn new(srv: ResourceView, sampler: Sampler) -> (texture: Self)
        ensures
            texture.srv == srv,
            texture.sampler == sampler,
    {
        Texture { srv, sampler, format: PhantomData }
    }

    /// What a shader is given of the texture.
    pub open spec fn binding(self) -> (ResourceView, Sampler) {
        (self.srv, self.sampler)
    }
}

/// A buffer of shader constants; `T` tells constants of different layouts apart.
#[derive(Debug, PartialEq, Eq)]
pub struct Consts<T> {
    pub buf: Buffer,
    pub layout: PhantomData<T>,
}

impl<T> Consts<T> {
    /// The constants in `buf`.
    pub fn new(buf: Buffer) -> (consts: Self)
        ensures
            consts.buf == buf,
    {
        Consts { buf, layout: PhantomData }
    }
}

/// A buffer of per-instance attributes.
#[derive(Debug, PartialEq, Eq)]
pub struct Instances<T> {
    pub ibuf: Buffer,
    pub count: usize,
    pub layout: PhantomData<T>,
}

impl<T> Instances<T> {
    /// The `count` instances in `ibuf`.
    pub fn new(ibuf: Buffer, count: usize) -> (instances: Self)
        ensures
            instances.ibuf == ibuf,
            instances.count == count,
    {
        Instances { ibuf, count, layout: PhantomData }
    }
}

/// The vertices `start`, `start + 1`, .. up to but without `end`.
#[derive(Clone, Copy, Debug, PartialEq, Eq)]
pub struct VertexRange {
    pub start: u32,
    pub end: u32,
}

/// A mesh on the GPU that pipelines of the kind `P` draw.
#[derive(Debug, PartialEq, Eq)]
pub struct Model<P> {
    pub vbuf: Buffer,
    pub vertex_range: VertexRange,
    pub pipeline: PhantomData<P>,
}

impl<P> Model<P> {
    /// The vertices `vertex_range` of `vbuf`.
    pub fn new(vbuf: Buffer, vertex_range: VertexRange) -> (model: Self)
        ensures
            model.vbuf == vbuf,
            model.vertex_range == vertex_range,
    {
        Model { vbuf, vertex_range, pipeline: PhantomData }
    }
}

} // verus!
