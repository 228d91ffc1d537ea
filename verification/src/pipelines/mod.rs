//! The kinds of pipelines and what each of them binds.
use crate::state::CullFace;
use vstd::prelude::*;

pub mod figure;
pub mod fluid;
pub mod lod_terrain;
pub mod postprocess;
pub mod shadow;
pub mod skybox;
pub mod sprite;
pub mod terrain;
pub mod ui;

verus! {

/// The constants that every pipeline shares.
#[derive(Clone, Copy, Debug, PartialEq, Eq)]
pub struct Globals;

/// The constants of one light.
#[derive(Clone, Copy, Debug, PartialEq, Eq)]
pub struct Light;

/// The constants of one drop shadow.
#[derive(Clone, Copy, Debug, PartialEq, Eq)]
pub struct Shadow;

/// The pipelines of a renderer.
#[derive(Clone, Copy, Debug, PartialEq, Eq)]
pub enum PipelineKind {
    Skybox,
    Figure,
    Terrain,
    Fluid,
    Sprite,
    Ui,
    LodTerrain,
    PostProcess,
    /// The silhouette of the player where something hides it; binds what a figure binds.
    PlayerShadow,
    /// The shadow map.
    Shadow,
}

impl PipelineKind {
    /// The number of pipelines besides that of the shadow map.
    pub open spec fn scene_count() -> nat {
        9
    }

    /// The pipelines besides that of the shadow map, in the order in which they are made.
    pub open spec fn spec_scene(index: int) -> PipelineKind {
        if index == 0 {
            PipelineKind::Skybox
        } else if index == 1 {
            PipelineKind::Figure
        } else if index == 2 {
            PipelineKind::Terrain
        } else if index == 3 {
            PipelineKind::Fluid
        } else if index == 4 {
            PipelineKind::Sprite
        } else if index == 5 {
            PipelineKind::Ui
        } else if index == 6 {
            PipelineKind::LodTerrain
        } else if index == 7 {
            PipelineKind::PostProcess
        } else {
            PipelineKind::PlayerShadow
        }
    }

    /// The pipelines besides that of the shadow map, in the order in which they are made.
    pub fn scene(index: usize) -> (kind: PipelineKind)
        requires
            index < PipelineKind::scene_count(),
        ensures
            kind == PipelineKind::spec_scene(index as int),
    {
        match index {
            0 => PipelineKind::Skybox,
            1 => PipelineKind::Figure,
            2 => PipelineKind::Terrain,
            3 => PipelineKind::Fluid,
            4 => PipelineKind::Sprite,
            5 => PipelineKind::Ui,
            6 => PipelineKind::LodTerrain,
            7 => PipelineKind::PostProcess,
            _ => PipelineKind::PlayerShadow,
        }
    }

    /// Fluids are seen from both sides; everything else shows its front only.
    pub open spec fn spec_cull_face(self) -> CullFace {
        if self is Fluid {
            CullFace::Nothing
        } else {
            CullFace::Back
        }
    }

    /// Fluids are seen from both sides; everything else shows its front only.
    pub fn cull_face(self) -> (cull_face: CullFace)
        ensures
            cull_face == self.spec_cull_face(),
    {
        match self {
            PipelineKind::Fluid => CullFace::Nothing,
            _ => CullFace::Back,
        }
    }
}

} // verus!
