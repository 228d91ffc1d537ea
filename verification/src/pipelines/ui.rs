//! Elements of the user interface, drawn to the window.
use crate::geometry::Rect;
use crate::resources::{Buffer, ResourceView, Sampler, WinColorView, WinDepthView};
use vstd::prelude::*;

verus! {

/// The pipeline that draws them.
#[derive(Clone, Copy, Debug, PartialEq, Eq)]
pub struct UiPipeline;

/// The constants of one element.
#[derive(Clone, Copy, Debug, PartialEq, Eq)]
pub struct Locals;

/// What one draw call binds.
#[derive(Clone, Copy, Debug, PartialEq, Eq)]
pub struct Data {
    pub vbuf: Buffer,
    pub scissor: Rect,
    pub tex: (ResourceView, Sampler),
    pub locals: Buffer,
    pub globals: Buffer,
    pub tgt_color: WinColorView,
    pub tgt_depth: WinDepthView,
}

} // verus!
