//! Plain two-dimensional geometry.
use vstd::prelude::*;

verus! {

/// A pair of unsigned sixteen-bit coordinates, or a width and a height.
#[derive(Clone, Copy, Debug, PartialEq, Eq)]
pub struct Vec2 {
    pub x: u16,
    pub y: u16,
}

impl Vec2 {
    /// The pair of `x` and `y`.
    pub fn new(x: u16, y: u16) -> (v: Self)
        ensures
            v.x == x,
            v.y == y,
    {
        Vec2 { x, y }
    }
}

/// An axis-aligned rectangle given by its two extreme corners.
#[derive(Clone, Copy, Debug, PartialEq, Eq)]
pub struct Aabr {
    pub min: Vec2,
    pub max: Vec2,
}

impl Aabr {
    /// The minimum corner does not lie beyond the maximum corner on either axis.
    pub open spec fn is_valid(self) -> bool {
        &&& self.min.x <= self.max.x
        &&& self.min.y <= self.max.y
    }
}

/// A rectangle given by its minimum corner and its extent, as a scissor test takes it.
#[derive(Clone, Copy, Debug, PartialEq, Eq)]
pub struct Rect {
    pub x: u16,
    pub y: u16,
    pub w: u16,
    pub h: u16,
}

} // verus!
