//! Post-processing: the rendered scene, drawn to the window.
use crate::resources::{Buffer, ResourceView, Sampler, WinColorView, WinDepthView};
use vstd::prelude::*;

verus! {

/// The pipeline that draws them.
#[derive(Clone, Copy, Debug, PartialEq, Eq)]
pub struct PostProcessPipeline;

/// The constants of the post-processing pass.
#[derive(Clone, Copy, Debug, PartialEq, Eq)]
pub struct Locals;

/// What one draw call binds.
#[derive(Clone, Copy, Debug, PartialEq, Eq)]
pub struct Data {
    pub vbuf: Buffer,
    pub locals: Buffer,
    pub globals: Buffer,
    pub src_sampler: (ResourceView, Sampler),
    pub tgt_color: WinColorView,
    pub tgt_depth: WinDepthView,
}

} // verus!
