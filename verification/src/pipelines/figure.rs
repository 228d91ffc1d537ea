//! Figures: creatures, characters and items.
use crate::resources::{Buffer, ResourceView, Sampler, TgtColorView, TgtDepthStencilView};
use vstd::prelude::*;

verus! {

/// The pipeline that draws them.
#[derive(Clone, Copy, Debug, PartialEq, Eq)]
pub struct FigurePipeline;

/// The constants of one figure.
#[derive(Clone, Copy, Debug, PartialEq, Eq)]
pub struct Locals;

/// The constants of one bone.
#[derive(Clone, Copy, Debug, PartialEq, Eq)]
pub struct BoneData;

/// What one draw call binds.
#[derive(Clone, Copy, Debug, PartialEq, Eq)]
pub struct Data {
    pub vbuf: Buffer,
    pub locals: Buffer,
    pub globals: Buffer,
    pub bones: Buffer,
    pub lights: Buffer,
    pub shadows: Buffer,
    pub shadow_maps: (ResourceView, Sampler),
    pub noise: (ResourceView, Sampler),
    pub map: (ResourceView, Sampler),
    pub horizon: (ResourceView, Sampler),
    pub tgt_color: TgtColorView,
    pub tgt_depth_stencil: (TgtDepthStencilView, (u8, u8)),
}

} // verus!
