//! Sprites, drawn as many instances of one model.
use crate::resources::{Buffer, ResourceView, Sampler, TgtColorView, TgtDepthStencilView};
use vstd::prelude::*;

verus! {

/// The pipeline that draws them.
#[derive(Clone, Copy, Debug, PartialEq, Eq)]
pub struct SpritePipeline;

/// The attributes of one instance.
#[derive(Clone, Copy, Debug, PartialEq, Eq)]
pub struct Instance;

/// What one draw call binds.
#[derive(Clone, Copy, Debug, PartialEq, Eq)]
pub struct Data {
    pub vbuf: Buffer,
    pub ibuf: Buffer,
    pub globals: Buffer,
    pub lights: Buffer,
    pub shadows: Buffer,
    pub shadow_maps: (ResourceView, Sampler),
    pub noise: (ResourceView, Sampler),
    pub map: (ResourceView, Sampler),
    pub horizon: (ResourceView, Sampler),
    pub tgt_color: TgtColorView,
    pub tgt_depth_stencil: (TgtDepthStencilView, (u8, u8)),
}

} // verus!
