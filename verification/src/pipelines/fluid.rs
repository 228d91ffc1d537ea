//! Chunks of fluid; their constants are those of a chunk of terrain.
use crate::resources::{Buffer, ResourceView, Sampler, TgtColorView, TgtDepthStencilView};
use vstd::prelude::*;

verus! {

/// The pipeline that draws them.
#[derive(Clone, Copy, Debug, PartialEq, Eq)]
pub struct FluidPipeline;

/// What one draw call binds.
#[derive(Clone, Copy, Debug, PartialEq, Eq)]
pub struct Data {
    pub vbuf: Buffer,
    pub locals: Buffer,
    pub globals: Buffer,
    pub lights: Buffer,
    pub shadows: Buffer,
    pub shadow_maps: (ResourceView, Sampler),
    pub map: (ResourceView, Sampler),
    pub horizon: (ResourceView, Sampler),
    pub noise: (ResourceView, Sampler),
    pub waves: (ResourceView, Sampler),
    pub tgt_color: TgtColorView,
    pub tgt_depth_stencil: (TgtDepthStencilView, (u8, u8)),
}

} // verus!
