//! Fixed-function state of the graphics pipeline.
use vstd::prelude::*;

verus! {

/// The winding order of front-facing triangles.
#[derive(Clone, Copy, Debug, PartialEq, Eq)]
pub enum FrontFace {
    Clockwise,
    CounterClockwise,
}

/// Which faces are not drawn.
#[derive(Clone, Copy, Debug, PartialEq, Eq)]
pub enum CullFace {
    Nothing,
    Front,
    Back,
}

impl CullFace {
    /// The opposite side; nothing stays nothing.
    pub open spec fn spec_flipped(self) -> CullFace {
        match self {
            CullFace::Front => CullFace::Back,
            CullFace::Back => CullFace::Front,
            CullFace::Nothing => CullFace::Nothing,
        }
    }

    /// The opposite side; nothing stays nothing.
    pub fn flipped(self) -> (flipped: CullFace)
        ensures
            flipped == self.spec_flipped(),
    {
        match self {
            CullFace::Front => CullFace::Back,
            CullFace::Back => CullFace::Front,
            CullFace::Nothing => CullFace::Nothing,
        }
    }
}

/// How a primitive becomes pixels.
#[derive(Clone, Copy, Debug, PartialEq, Eq)]
pub enum RasterMethod {
    Point,
    Line(i32),
    Fill,
}

/// A slope factor and a number of units by which depths are offset.
#[derive(Clone, Copy, Debug, PartialEq, Eq)]
pub struct Offset {
    pub slope: i32,
    pub units: i32,
}

/// Rasterizer state.
#[derive(Clone, Copy, Debug, PartialEq, Eq)]
pub struct Rasterizer {
    pub front_face: FrontFace,
    pub cull_face: CullFace,
    pub method: RasterMethod,
    pub offset: Option<Offset>,
    /// Whether multisampling is on.
    pub multisample: bool,
}

impl Rasterizer {
    /// Counter-clockwise triangles are the front, filled, without a depth offset.
    pub open spec fn filling(cull_face: CullFace, multisample: bool) -> Rasterizer {
        Rasterizer {
            front_face: FrontFace::CounterClockwise,
            cull_face,
            method: RasterMethod::Fill,
            offset: None,
            multisample,
        }
    }

    /// The rasterizer of a scene pipeline: multisampled, culling `cull_face`.
    pub fn for_scene(cull_face: CullFace) -> (rasterizer: Rasterizer)
        ensures
            rasterizer == Rasterizer::filling(cull_face, true),
    {
        Rasterizer {
            front_face: FrontFace::CounterClockwise,
            cull_face,
            method: RasterMethod::Fill,
            offset: None,
            multisample: true,
        }
    }

    /// The rasterizer of a shadow map pipeline: not multisampled, and culling the side
    /// opposite to `cull_face`.
    ///
    /// Drawing the far sides of objects (second-depth shadow mapping) reduces z-fighting
    /// where every object is watertight.
    pub fn for_shadow_map(cull_face: CullFace) -> (rasterizer: Rasterizer)
        ensures
            rasterizer == Rasterizer::filling(cull_face.spec_flipped(), false),
    {
        Rasterizer {
            front_face: FrontFace::CounterClockwise,
            cull_face: cull_face.flipped(),
            method: RasterMethod::Fill,
            offset: None,
            multisample: false,
        }
    }
}

/// A test between a new value and a stored one.
#[derive(Clone, Copy, Debug, PartialEq, Eq)]
pub enum Comparison {
    Never,
    Less,
    LessEqual,
    Equal,
    GreaterEqual,
    Greater,
    NotEqual,
    Always,
}

/// A change of a stencil value.
#[derive(Clone, Copy, Debug, PartialEq, Eq)]
pub enum StencilOp {
    Keep,
    Zero,
    Replace,
    IncrementClamp,
    IncrementWrap,
    DecrementClamp,
    DecrementWrap,
    Invert,
}

/// The stencil test of one side of a face.
#[derive(Clone, Copy, Debug, PartialEq, Eq)]
pub struct StencilSide {
    pub fun: Comparison,
    pub mask_read: u8,
    pub mask_write: u8,
    pub op_fail: StencilOp,
    pub op_depth_fail: StencilOp,
    pub op_pass: StencilOp,
}

/// The stencil tests of both sides of a face.
#[derive(Clone, Copy, Debug, PartialEq, Eq)]
pub struct Stencil {
    pub front: StencilSide,
    pub back: StencilSide,
}

impl Stencil {
    /// The same test on both sides: `fun` under `mask`, with the operations for a failed
    /// stencil test, a failed depth test and two passed tests, in this order.
    pub open spec fn spec_new(
        fun: Comparison,
        mask: u8,
        ops: (StencilOp, StencilOp, StencilOp),
    ) -> Stencil {
        let side = StencilSide {
            fun,
            mask_read: mask,
            mask_write: mask,
            op_fail: ops.0,
            op_depth_fail: ops.1,
            op_pass: ops.2,
        };
        Stencil { front: side, back: side }
    }

    /// The same test on both sides: `fun` under `mask`, with the operations for a failed
    /// stencil test, a failed depth test and two passed tests, in this order.
    pub fn new(fun: Comparison, mask: u8, ops: (StencilOp, StencilOp, StencilOp)) -> (stencil:
        Stencil)
        ensures
            stencil == Stencil::spec_new(fun, mask, ops),
    {
        let side = StencilSide {
            fun,
            mask_read: mask,
            mask_write: mask,
            op_fail: ops.0,
            op_depth_fail: ops.1,
            op_pass: ops.2,
        };
        Stencil { front: side, back: side }
    }
}

/// The depth test.
#[derive(Clone, Copy, Debug, PartialEq, Eq)]
pub struct Depth {
    pub fun: Comparison,
    /// Whether a drawn pixel's depth is stored.
    pub write: bool,
}

/// A depth and a stencil test that take the place of those that a pipeline declares.
#[derive(Clone, Copy, Debug, PartialEq, Eq)]
pub struct DepthStencilTest {
    pub depth: Depth,
    pub stencil: Stencil,
}

impl DepthStencilTest {
    /// Draws where the stencil value equals the reference, whatever the depth, and changes
    /// neither the depth nor the stencil value.
    pub open spec fn spec_silhouette() -> DepthStencilTest {
        DepthStencilTest {
            depth: Depth { fun: Comparison::Always, write: false },
            stencil: Stencil::spec_new(
                Comparison::Equal,
                0xff,
                (StencilOp::Keep, StencilOp::Keep, StencilOp::Keep),
            ),
        }
    }

    /// The test of the player silhouette: draws where the stencil value equals the
    /// reference, whatever the depth, and changes neither the depth nor the stencil value.
    pub fn silhouette() -> (test: DepthStencilTest)
        ensures
            test == DepthStencilTest::spec_silhouette(),
    {
        DepthStencilTest {
            depth: Depth { fun: Comparison::Always, write: false },
            stencil: Stencil::new(
                Comparison::Equal,
                0xff,
                (StencilOp::Keep, StencilOp::Keep, StencilOp::Keep),
            ),
        }
    }
}

} // verus!
