//! The state of a renderer.
use crate::create_pipelines::{BuiltPipelinesView, ScenePipelines};
use crate::draw::Command;
use crate::geometry::Vec2;
use crate::modes::Modes;
use crate::resources::{
    Encoder, NoiseFmt, PipelineState, Sampler, ShadowDepthStencilView, ShadowResourceView,
    TgtColorView, TgtDepthStencilView, Texture, WinColorView, WinDepthView,
};
use crate::targets::RenderTargets;
use vstd::prelude::*;

verus! {

/// Shadow map data. Since shadow mapping may not be supported on all platforms, it is kept
/// separate.
#[derive(Clone, Copy, Debug, PartialEq, Eq)]
pub struct ShadowMapRenderer {
    pub encoder: Encoder,
    pub depth_stencil_view: ShadowDepthStencilView,
    pub res: ShadowResourceView,
    pub sampler: Sampler,
    pub pipeline: PipelineState,
}

/// The rendering state: the targets, the pipelines and the modes that they were made for.
#[derive(Debug, PartialEq, Eq)]
pub struct Renderer {
    pub encoder: Encoder,
    pub win_color_view: WinColorView,
    pub win_depth_view: WinDepthView,
    pub targets: RenderTargets,
    pub sampler: Sampler,
    pub shadow_map: Option<ShadowMapRenderer>,
    pub pipelines: ScenePipelines,
    pub noise_tex: Texture<NoiseFmt>,
    pub modes: Modes,
    /// The largest side of a texture that the device supports.
    pub max_texture_size: usize,
}

impl Renderer {
    /// The size of the window.
    pub open spec fn window_size(self) -> Vec2 {
        Vec2 { x: self.win_color_view.width, y: self.win_color_view.height }
    }

    /// The renderer with new targets, and otherwise unchanged.
    pub open spec fn with_targets(self, targets: RenderTargets) -> Renderer {
        Renderer { targets, ..self }
    }

    /// The renderer with new pipelines, and otherwise unchanged. The pipeline of the shadow
    /// map is replaced where there is a shadow map and a new pipeline for it.
    pub open spec fn with_pipelines(self, built: BuiltPipelinesView) -> Renderer {
        Renderer {
            pipelines: built.scene,
            shadow_map: match (self.shadow_map, built.shadow) {
                (Some(shadow_map), Ok(pipeline)) => Some(
                    ShadowMapRenderer { pipeline, ..shadow_map },
                ),
                _ => self.shadow_map,
            },
            ..self
        }
    }

    /// References to the internal render target views that get rendered to before
    /// post-processing.
    pub fn tgt_views(&self) -> (views: (&TgtColorView, &TgtDepthStencilView))
        ensures
            *views.0 == self.targets.color_view,
            *views.1 == self.targets.depth_stencil_view,
    {
        (&self.targets.color_view, &self.targets.depth_stencil_view)
    }

    /// References to the render target views that get displayed directly by the window.
    pub fn win_views(&self) -> (views: (&WinColorView, &WinDepthView))
        ensures
            *views.0 == self.win_color_view,
            *views.1 == self.win_depth_view,
    {
        (&self.win_color_view, &self.win_depth_view)
    }

    /// Mutable references to the internal render target views that get rendered to before
    /// post-processing.
    pub fn tgt_views_mut(&mut self) -> (views: (&mut TgtColorView, &mut TgtDepthStencilView))
        ensures
            *views.0 == old(self).targets.color_view,
            *views.1 == old(self).targets.depth_stencil_view,
            *final(self) == (Renderer {
                targets: RenderTargets {
                    color_view: *final(views.0),
                    depth_stencil_view: *final(views.1),
                    color_res: old(self).targets.color_res,
                },
                ..*old(self)
            }),
    {
        (&mut self.targets.color_view, &mut self.targets.depth_stencil_view)
    }

    /// Mutable references to the render target views that get displayed directly by the
    /// window.
    pub fn win_views_mut(&mut self) -> (views: (&mut WinColorView, &mut WinDepthView))
        ensures
            *views.0 == old(self).win_color_view,
            *views.1 == old(self).win_depth_view,
            *final(self) == (Renderer {
                win_color_view: *final(views.0),
                win_depth_view: *final(views.1),
                ..*old(self)
            }),
    {
        (&mut self.win_color_view, &mut self.win_depth_view)
    }

    /// The resolution of the window.
    pub fn get_resolution(&self) -> (resolution: Vec2)
        ensures
            resolution == self.window_size(),
    {
        Vec2::new(self.win_color_view.width, self.win_color_view.height)
    }

    /// The resolution of the shadow map; one by one without a shadow map.
    pub open spec fn shadow_resolution(self) -> Vec2 {
        match self.shadow_map {
            Some(shadow_map) => Vec2 {
                x: shadow_map.depth_stencil_view.width,
                y: shadow_map.depth_stencil_view.height,
            },
            None => Vec2 { x: 1, y: 1 },
        }
    }

    /// The resolution of the shadow map; one by one without a shadow map.
    pub fn get_shadow_resolution(&self) -> (resolution: Vec2)
        ensures
            resolution == self.shadow_resolution(),
    {
        if let Some(shadow_map) = &self.shadow_map {
            Vec2::new(shadow_map.depth_stencil_view.width, shadow_map.depth_stencil_view.height)
        } else {
            Vec2::new(1, 1)
        }
    }

    /// The maximum supported texture size.
    pub fn max_texture_size(&self) -> (size: usize)
        ensures
            size == self.max_texture_size,
    {
        self.max_texture_size
    }

    /// The commands that clear the depths of the window and of the targets, and the
    /// stencil values of the targets.
    pub open spec fn clear_commands(self) -> Seq<Command> {
        seq![
            Command::ClearDepth {
                encoder: self.encoder,
                view: self.targets.depth_stencil_view,
                depth: 1,
            },
            Command::ClearStencil {
                encoder: self.encoder,
                view: self.targets.depth_stencil_view,
                stencil: 0,
            },
            Command::ClearDepth { encoder: self.encoder, view: self.win_depth_view, depth: 1 },
        ]
    }

    /// The clearing of the depth targets, ready for a new frame to be rendered: that of
    /// the shadow map comes first, where there is one.
    pub open spec fn all_clears(self) -> Seq<Command> {
        match self.shadow_map {
            Some(shadow_map) => seq![
                Command::ClearDepth {
                    encoder: shadow_map.encoder,
                    view: shadow_map.depth_stencil_view,
                    depth: 1,
                },
            ] + self.clear_commands(),
            None => self.clear_commands(),
        }
    }

    /// The clearing of the depth targets, ready for a new frame to be rendered: that of
    /// the shadow map comes first, where there is one.
    pub fn clear(&self) -> (commands: Vec<Command>)
        ensures
            commands@ == self.all_clears(),
    {
        let mut commands: Vec<Command> = Vec::new();
        if let Some(shadow_map) = &self.shadow_map {
            commands.push(
                Command::ClearDepth {
                    encoder: shadow_map.encoder,
                    view: shadow_map.depth_stencil_view,
                    depth: 1,
                },
            );
        }
        commands.push(
            Command::ClearDepth {
                encoder: self.encoder,
                view: self.targets.depth_stencil_view,
                depth: 1,
            },
        );
        commands.push(
            Command::ClearStencil {
                encoder: self.encoder,
                view: self.targets.depth_stencil_view,
                stencil: 0,
            },
        );
        commands.push(
            Command::ClearDepth { encoder: self.encoder, view: self.win_depth_view, depth: 1 },
        );
        commands
    }

    /// The command that performs all queued draw calls for shadows; none without a shadow
    /// map.
    pub open spec fn shadow_flush(self) -> Option<Command> {
        match self.shadow_map {
            Some(shadow_map) => Some(Command::Flush { encoder: shadow_map.encoder }),
            None => None,
        }
    }

    /// The command that performs all queued draw calls for shadows; none without a shadow
    /// map.
    pub fn flush_shadows(&self) -> (command: Option<Command>)
        ensures
            command == self.shadow_flush(),
    {
        match &self.shadow_map {
            Some(shadow_map) => Some(Command::Flush { encoder: shadow_map.encoder }),
            None => None,
        }
    }
}

} // verus!
