//! Terrain as seen from the lights, drawn to the shadow map.
use crate::resources::{Buffer, ResourceView, Sampler, ShadowDepthStencilView};
use vstd::prelude::*;

verus! {

/// The pipeline that draws them.
#[derive(Clone, Copy, Debug, PartialEq, Eq)]
pub struct ShadowPipeline;

/// The constants of the light views.
#[derive(Clone, Copy, Debug, PartialEq, Eq)]
pub struct Locals;

/// What one draw call binds.
#[derive(Clone, Copy, Debug, PartialEq, Eq)]
pub struct Data {
    pub vbuf: Buffer,
    pub locals: Buffer,
    pub globals: Buffer,
    pub lights: Buffer,
    pub shadows: Buffer,
    pub noise: (ResourceView, Sampler),
    pub map: (ResourceView, Sampler),
    pub horizon: (ResourceView, Sampler),
    pub light_shadows: Buffer,
    pub tgt_depth_stencil: ShadowDepthStencilView,
}

} // verus!
