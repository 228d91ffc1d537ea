//! Commands that need no answer: draw calls, clears and flushes.
use crate::pipelines::{
    figure, fluid, lod_terrain, postprocess, shadow, skybox, sprite, terrain, ui,
};
use crate::resources::{DepthStencilView, Encoder, PipelineState, VertexRange};
use vstd::prelude::*;

verus! {

/// Where the order of the vertices comes from.
#[derive(Clone, Copy, Debug, PartialEq, Eq)]
pub enum IndexBuffer {
    /// The vertices are drawn in the order in which they lie in the buffer.
    Auto,
}

/// The vertices and instances of a draw call.
#[derive(Clone, Copy, Debug, PartialEq, Eq)]
pub struct Slice {
    pub start: u32,
    pub end: u32,
    pub base_vertex: u32,
    /// The number of instances and the first of them.
    pub instances: Option<(u32, u32)>,
    pub buffer: IndexBuffer,
}

impl Slice {
    /// The vertices of `range`, in the order of the buffer.
    pub open spec fn spec_of(range: VertexRange, instances: Option<(u32, u32)>) -> Slice {
        Slice {
            start: range.start,
            end: range.end,
            base_vertex: 0,
            instances,
            buffer: IndexBuffer::Auto,
        }
    }

    /// The vertices of `range`, in the order of the buffer.
    pub fn of(range: VertexRange, instances: Option<(u32, u32)>) -> (slice: Slice)
        ensures
            slice == Slice::spec_of(range, instances),
    {
        Slice {
            start: range.start,
            end: range.end,
            base_vertex: 0,
            instances,
            buffer: IndexBuffer::Auto,
        }
    }
}

/// What a draw call binds, by the kind of its pipeline.
#[derive(Clone, Copy, Debug, PartialEq, Eq)]
pub enum DrawData {
    Skybox(skybox::Data),
    Figure(figure::Data),
    Terrain(terrain::Data),
    Fluid(fluid::Data),
    Sprite(sprite::Data),
    LodTerrain(lod_terrain::Data),
    Shadow(shadow::Data),
    Ui(ui::Data),
    PostProcess(postprocess::Data),
}

/// A draw call, to be recorded by `encoder`.
#[derive(Clone, Copy, Debug, PartialEq, Eq)]
pub struct Draw {
    pub encoder: Encoder,
    pub slice: Slice,
    pub pso: PipelineState,
    pub data: DrawData,
}

/// A command that is not a draw call.
#[derive(Clone, Copy, Debug, PartialEq, Eq)]
pub enum Command {
    /// Record that every depth of `view` becomes `depth`, from 0 (near) to 1 (far).
    ClearDepth { encoder: Encoder, view: DepthStencilView, depth: u8 },
    /// Record that every stencil value of `view` becomes `stencil`.
    ClearStencil { encoder: Encoder, view: DepthStencilView, stencil: u8 },
    /// Hand everything that `encoder` has recorded to the GPU.
    Flush { encoder: Encoder },
    /// Free what was discarded.
    Cleanup,
}

} // verus!
