//! Distant terrain at a low level of detail.
use crate::resources::{Buffer, ResourceView, Sampler, TgtColorView, TgtDepthStencilView};
use vstd::prelude::*;

verus! {

/// The pipeline that draws them.
#[derive(Clone, Copy, Debug, PartialEq, Eq)]
pub struct LodTerrainPipeline;

/// The constants of the distant terrain.
#[derive(Clone, Copy, Debug, PartialEq, Eq)]
pub struct Locals;

/// What one draw call binds.
#[derive(Clone, Copy, Debug, PartialEq, Eq)]
pub struct Data {
    pub vbuf: Buffer,
    pub locals: Buffer,
    pub globals: Buffer,
    pub noise: (ResourceView, Sampler),
    pub map: (ResourceView, Sampler),
    pub horizon: (ResourceView, Sampler),
    pub tgt_color: TgtColorView,
    pub tgt_depth_stencil: (TgtDepthStencilView, (u8, u8)),
}

} // verus!
