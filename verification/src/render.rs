//! The draw calls of a renderer.
use crate::draw::{Draw, DrawData, Slice};
use crate::geometry::{Aabr, Rect};
use crate::pipelines::{
    figure, fluid, lod_terrain, postprocess, shadow, skybox, sprite, terrain, ui, Globals, Light,
    Shadow,
};
use crate::renderer::Renderer;
use crate::resources::{
    Consts, Instances, LodColorFmt, LodTextureFmt, Model, PipelineState, PlainFmt, ResourceView,
    Sampler, Texture,
};
use vstd::prelude::*;

verus! {

/// The number of instances of a draw call: the lowest thirty-two bits of their count.
pub open spec fn instance_count(count: usize) -> u32 {
    (count as int % 0x1_0000_0000) as u32
}

/// The lowest thirty-two bits of a count.
fn truncate_count(count: usize) -> (truncated: u32)
    ensures
        truncated == instance_count(count),
{
    let wide: u64 = count as u64;
    assert(wide as u32 == wide % 0x1_0000_0000) by (bit_vector);
    wide as u32
}

/// The rectangle between the corners of `scissor`.
pub open spec fn scissor_rect(scissor: Aabr) -> Rect {
    Rect {
        x: scissor.min.x,
        y: scissor.min.y,
        w: (scissor.max.x - scissor.min.x) as u16,
        h: (scissor.max.y - scissor.min.y) as u16,
    }
}

/// The rectangle between the corners of `scissor`.
fn element_scissor(scissor: Aabr) -> (rect: Rect)
    requires
        scissor.is_valid(),
    ensures
        rect == scissor_rect(scissor),
{
    Rect {
        x: scissor.min.x,
        y: scissor.min.y,
        w: scissor.max.x - scissor.min.x,
        h: scissor.max.y - scissor.min.y,
    }
}

impl Renderer {
    /// What shaders read as the shadow map: without one, the noise texture takes its place.
    pub open spec fn spec_shadow_maps(self) -> (ResourceView, Sampler) {
        match self.shadow_map {
            Some(shadow_map) => (shadow_map.res, shadow_map.sampler),
            None => self.noise_tex.binding(),
        }
    }

    /// What shaders read as the shadow map: without one, the noise texture takes its place.
    fn shadow_maps(&self) -> (binding: (ResourceView, Sampler))
        ensures
            binding == self.spec_shadow_maps(),
    {
        match &self.shadow_map {
            Some(shadow_map) => (shadow_map.res, shadow_map.sampler),
            None => (self.noise_tex.srv, self.noise_tex.sampler),
        }
    }

    /// The draw call for a skybox.
    pub open spec fn skybox_draw(
        self,
        model: &Model<skybox::SkyboxPipeline>,
        globals: &Consts<Globals>,
        locals: &Consts<skybox::Locals>,
        map: &Texture<LodColorFmt>,
        horizon: &Texture<LodTextureFmt>,
    ) -> Draw {
        Draw {
            encoder: self.encoder,
            slice: Slice::spec_of(model.vertex_range, None),
            pso: self.pipelines.skybox,
            data: DrawData::Skybox(
                skybox::Data {
                    vbuf: model.vbuf,
                    locals: locals.buf,
                    globals: globals.buf,
                    noise: self.noise_tex.binding(),
                    map: map.binding(),
                    horizon: horizon.binding(),
                    tgt_color: self.targets.color_view,
                    tgt_depth_stencil: (self.targets.depth_stencil_view, (1, 1)),
                },
            ),
        }
    }

    /// The draw call for a skybox.
    pub fn render_skybox(
        &self,
        model: &Model<skybox::SkyboxPipeline>,
        globals: &Consts<Globals>,
        locals: &Consts<skybox::Locals>,
        map: &Texture<LodColorFmt>,
        horizon: &Texture<LodTextureFmt>,
    ) -> (draw: Draw)
        ensures
            draw == self.skybox_draw(model, globals, locals, map, horizon),
    {
        Draw {
            encoder: self.encoder,
            slice: Slice::of(model.vertex_range, None),
            pso: self.pipelines.skybox,
            data: DrawData::Skybox(
                skybox::Data {
                    vbuf: model.vbuf,
                    locals: locals.buf,
                    globals: globals.buf,
                    noise: (self.noise_tex.srv, self.noise_tex.sampler),
                    map: (map.srv, map.sampler),
                    horizon: (horizon.srv, horizon.sampler),
                    tgt_color: self.targets.color_view,
                    tgt_depth_stencil: (self.targets.depth_stencil_view, (1, 1)),
                },
            ),
        }
    }

    /// The draw call for a figure through the pipeline `pso`, with `reference` as the
    /// stencil reference of both sides.
    pub open spec fn figure_draw(
        self,
        pso: PipelineState,
        reference: u8,
        model: &Model<figure::FigurePipeline>,
        globals: &Consts<Globals>,
        locals: &Consts<figure::Locals>,
        bones: &Consts<figure::BoneData>,
        lights: &Consts<Light>,
        shadows: &Consts<Shadow>,
        map: &Texture<LodColorFmt>,
        horizon: &Texture<LodTextureFmt>,
    ) -> Draw {
        Draw {
            encoder: self.encoder,
            slice: Slice::spec_of(model.vertex_range, None),
            pso,
            data: DrawData::Figure(
                figure::Data {
                    vbuf: model.vbuf,
                    locals: locals.buf,
                    globals: globals.buf,
                    bones: bones.buf,
                    lights: lights.buf,
                    shadows: shadows.buf,
                    shadow_maps: self.spec_shadow_maps(),
                    noise: self.noise_tex.binding(),
                    map: map.binding(),
                    horizon: horizon.binding(),
                    tgt_color: self.targets.color_view,
                    tgt_depth_stencil: (
                        self.targets.depth_stencil_view,
                        (reference, reference),
                    ),
                },
            ),
        }
    }

    /// The draw call for a figure through the pipeline `pso`, with `reference` as the
    /// stencil reference of both sides.
    fn draw_figure(
        &self,
        pso: PipelineState,
        reference: u8,
        model: &Model<figure::FigurePipeline>,
        globals: &Consts<Globals>,
        locals: &Consts<figure::Locals>,
        bones: &Consts<figure::BoneData>,
        lights: &Consts<Light>,
        shadows: &Consts<Shadow>,
        map: &Texture<LodColorFmt>,
        horizon: &Texture<LodTextureFmt>,
    ) -> (draw: Draw)
        ensures
            draw == self.figure_draw(
                pso,
                reference,
                model,
                globals,
                locals,
                bones,
                lights,
                shadows,
                map,
                horizon,
            ),
    {
        Draw {
            encoder: self.encoder,
            slice: Slice::of(model.vertex_range, None),
            pso,
            data: DrawData::Figure(
                figure::Data {
                    vbuf: model.vbuf,
                    locals: locals.buf,
                    globals: globals.buf,
                    bones: bones.buf,
                    lights: lights.buf,
                    shadows: shadows.buf,
                    shadow_maps: self.shadow_maps(),
                    noise: (self.noise_tex.srv, self.noise_tex.sampler),
                    map: (map.srv, map.sampler),
                    horizon: (horizon.srv, horizon.sampler),
                    tgt_color: self.targets.color_view,
                    tgt_depth_stencil: (
                        self.targets.depth_stencil_view,
                        (reference, reference),
                    ),
                },
            ),
        }
    }

    /// The draw call for a figure.
    pub fn render_figure(
        &self,
        model: &Model<figure::FigurePipeline>,
        globals: &Consts<Globals>,
        locals: &Consts<figure::Locals>,
        bones: &Consts<figure::BoneData>,
        lights: &Consts<Light>,
        shadows: &Consts<Shadow>,
        map: &Texture<LodColorFmt>,
        horizon: &Texture<LodTextureFmt>,
    ) -> (draw: Draw)
        ensures
            draw == self.figure_draw(
                self.pipelines.figure,
                1,
                model,
                globals,
                locals,
                bones,
                lights,
                shadows,
                map,
                horizon,
            ),
    {
        self.draw_figure(
            self.pipelines.figure,
            1,
            model,
            globals,
            locals,
            bones,
            lights,
            shadows,
            map,
            horizon,
        )
    }

    /// The draw call for the silhouette of the player: what a figure binds, against a
    /// stencil reference of zero.
    pub fn render_player_shadow(
        &self,
        model: &Model<figure::FigurePipeline>,
        globals: &Consts<Globals>,
        locals: &Consts<figure::Locals>,
        bones: &Consts<figure::BoneData>,
        lights: &Consts<Light>,
        shadows: &Consts<Shadow>,
        map: &Texture<LodColorFmt>,
        horizon: &Texture<LodTextureFmt>,
    ) -> (draw: Draw)
        ensures
            draw == self.figure_draw(
                self.pipelines.player_shadow,
                0,
                model,
                globals,
                locals,
                bones,
                lights,
                shadows,
                map,
                horizon,
            ),
    {
        self.draw_figure(
            self.pipelines.player_shadow,
            0,
            model,
            globals,
            locals,
            bones,
            lights,
            shadows,
            map,
            horizon,
        )
    }

    /// The draw call for the player.
    pub fn render_player(
        &self,
        model: &Model<figure::FigurePipeline>,
        globals: &Consts<Globals>,
        locals: &Consts<figure::Locals>,
        bones: &Consts<figure::BoneData>,
        lights: &Consts<Light>,
        shadows: &Consts<Shadow>,
        map: &Texture<LodColorFmt>,
        horizon: &Texture<LodTextureFmt>,
    ) -> (draw: Draw)
        ensures
            draw == self.figure_draw(
                self.pipelines.figure,
                1,
                model,
                globals,
                locals,
                bones,
                lights,
                shadows,
                map,
                horizon,
            ),
    {
        self.draw_figure(
            self.pipelines.figure,
            1,
            model,
            globals,
            locals,
            bones,
            lights,
            shadows,
            map,
            horizon,
        )
    }

    /// The draw call for a chunk of terrain.
    pub open spec fn terrain_draw(
        self,
        model: &Model<terrain::TerrainPipeline>,
        globals: &Consts<Globals>,
        locals: &Consts<terrain::Locals>,
        lights: &Consts<Light>,
        shadows: &Consts<Shadow>,
        map: &Texture<LodColorFmt>,
        horizon: &Texture<LodTextureFmt>,
    ) -> Draw {
        Draw {
            encoder: self.encoder,
            slice: Slice::spec_of(model.vertex_range, None),
            pso: self.pipelines.terrain,
            data: DrawData::Terrain(
                terrain::Data {
                    vbuf: model.vbuf,
                    locals: locals.buf,
                    globals: globals.buf,
                    lights: lights.buf,
                    shadows: shadows.buf,
                    shadow_maps: self.spec_shadow_maps(),
                    noise: self.noise_tex.binding(),
                    map: map.binding(),
                    horizon: horizon.binding(),
                    tgt_color: self.targets.color_view,
                    tgt_depth_stencil: (self.targets.depth_stencil_view, (1, 1)),
                },
            ),
        }
    }

    /// The draw call for a chunk of terrain.
    pub fn render_terrain_chunk(
        &self,
        model: &Model<terrain::TerrainPipeline>,
        globals: &Consts<Globals>,
        locals: &Consts<terrain::Locals>,
        lights: &Consts<Light>,
        shadows: &Consts<Shadow>,
        map: &Texture<LodColorFmt>,
        horizon: &Texture<LodTextureFmt>,
    ) -> (draw: Draw)
        ensures
            draw == self.terrain_draw(model, globals, locals, lights, shadows, map, horizon),
    {
        Draw {
            encoder: self.encoder,
            slice: Slice::of(model.vertex_range, None),
            pso: self.pipelines.terrain,
            data: DrawData::Terrain(
                terrain::Data {
                    vbuf: model.vbuf,
                    locals: locals.buf,
                    globals: globals.buf,
                    lights: lights.buf,
                    shadows: shadows.buf,
                    shadow_maps: self.shadow_maps(),
                    noise: (self.noise_tex.srv, self.noise_tex.sampler),
                    map: (map.srv, map.sampler),
                    horizon: (horizon.srv, horizon.sampler),
                    tgt_color: self.targets.color_view,
                    tgt_depth_stencil: (self.targets.depth_stencil_view, (1, 1)),
                },
            ),
        }
    }

    /// The draw call for a chunk of terrain in the shadow map; none without a shadow map.
    pub open spec fn shadow_draw(
        self,
        model: &Model<terrain::TerrainPipeline>,
        globals: &Consts<Globals>,
        terrain_locals: &Consts<terrain::Locals>,
        locals: &Consts<shadow::Locals>,
        lights: &Consts<Light>,
        shadows: &Consts<Shadow>,
        map: &Texture<LodColorFmt>,
        horizon: &Texture<LodTextureFmt>,
    ) -> Option<Draw> {
        match self.shadow_map {
            None => None,
            Some(shadow_map) => Some(
                Draw {
                    encoder: shadow_map.encoder,
                    slice: Slice::spec_of(model.vertex_range, None),
                    pso: shadow_map.pipeline,
                    data: DrawData::Shadow(
                        shadow::Data {
                            vbuf: model.vbuf,
                            locals: terrain_locals.buf,
                            globals: globals.buf,
                            lights: lights.buf,
                            shadows: shadows.buf,
                            noise: self.noise_tex.binding(),
                            map: map.binding(),
                            horizon: horizon.binding(),
                            light_shadows: locals.buf,
                            tgt_depth_stencil: shadow_map.depth_stencil_view,
                        },
                    ),
                },
            ),
        }
    }

    /// The draw call for a chunk of terrain in the shadow map; none without a shadow map.
    pub fn render_shadow(
        &self,
        model: &Model<terrain::TerrainPipeline>,
        globals: &Consts<Globals>,
        terrain_locals: &Consts<terrain::Locals>,
        locals: &Consts<shadow::Locals>,
        lights: &Consts<Light>,
        shadows: &Consts<Shadow>,
        map: &Texture<LodColorFmt>,
        horizon: &Texture<LodTextureFmt>,
    ) -> (draw: Option<Draw>)
        ensures
            draw == self.shadow_draw(
                model,
                globals,
                terrain_locals,
                locals,
                lights,
                shadows,
                map,
                horizon,
            ),
    {
        match &self.shadow_map {
            None => None,
            Some(shadow_map) => Some(
                Draw {
                    encoder: shadow_map.encoder,
                    slice: Slice::of(model.vertex_range, None),
                    pso: shadow_map.pipeline,
                    data: DrawData::Shadow(
                        shadow::Data {
                            vbuf: model.vbuf,
                            locals: terrain_locals.buf,
                            globals: globals.buf,
                            lights: lights.buf,
                            shadows: shadows.buf,
                            noise: (self.noise_tex.srv, self.noise_tex.sampler),
                            map: (map.srv, map.sampler),
                            horizon: (horizon.srv, horizon.sampler),
                            light_shadows: locals.buf,
                            tgt_depth_stencil: shadow_map.depth_stencil_view,
                        },
                    ),
                },
            ),
        }
    }

    /// The draw call for a chunk of fluid.
    pub open spec fn fluid_draw(
        self,
        model: &Model<fluid::FluidPipeline>,
        globals: &Consts<Globals>,
        locals: &Consts<terrain::Locals>,
        lights: &Consts<Light>,
        shadows: &Consts<Shadow>,
        map: &Texture<LodColorFmt>,
        horizon: &Texture<LodTextureFmt>,
        waves: &Texture<PlainFmt>,
    ) -> Draw {
        Draw {
            encoder: self.encoder,
            slice: Slice::spec_of(model.vertex_range, None),
            pso: self.pipelines.fluid,
            data: DrawData::Fluid(
                fluid::Data {
                    vbuf: model.vbuf,
                    locals: locals.buf,
                    globals: globals.buf,
                    lights: lights.buf,
                    shadows: shadows.buf,
                    shadow_maps: self.spec_shadow_maps(),
                    map: map.binding(),
                    horizon: horizon.binding(),
                    noise: self.noise_tex.binding(),
                    waves: waves.binding(),
                    tgt_color: self.targets.color_view,
                    tgt_depth_stencil: (self.targets.depth_stencil_view, (1, 1)),
                },
            ),
        }
    }

    /// The draw call for a chunk of fluid.
    pub fn render_fluid_chunk(
        &self,
        model: &Model<fluid::FluidPipeline>,
        globals: &Consts<Globals>,
        locals: &Consts<terrain::Locals>,
        lights: &Consts<Light>,
        shadows: &Consts<Shadow>,
        map: &Texture<LodColorFmt>,
        horizon: &Texture<LodTextureFmt>,
        waves: &Texture<PlainFmt>,
    ) -> (draw: Draw)
        ensures
            draw == self.fluid_draw(model, globals, locals, lights, shadows, map, horizon, waves),
    {
        Draw {
            encoder: self.encoder,
            slice: Slice::of(model.vertex_range, None),
            pso: self.pipelines.fluid,
            data: DrawData::Fluid(
                fluid::Data {
                    vbuf: model.vbuf,
                    locals: locals.buf,
                    globals: globals.buf,
                    lights: lights.buf,
                    shadows: shadows.buf,
                    shadow_maps: self.shadow_maps(),
                    map: (map.srv, map.sampler),
                    horizon: (horizon.srv, horizon.sampler),
                    noise: (self.noise_tex.srv, self.noise_tex.sampler),
                    waves: (waves.srv, waves.sampler),
                    tgt_color: self.targets.color_view,
                    tgt_depth_stencil: (self.targets.depth_stencil_view, (1, 1)),
                },
            ),
        }
    }

    /// The draw call for sprites, with as many instances as there are (as a 32-bit number).
    pub open spec fn sprites_draw(
        self,
        model: &Model<sprite::SpritePipeline>,
        globals: &Consts<Globals>,
        instances: &Instances<sprite::Instance>,
        lights: &Consts<Light>,
        shadows: &Consts<Shadow>,
        map: &Texture<LodColorFmt>,
        horizon: &Texture<LodTextureFmt>,
    ) -> Draw {
        Draw {
            encoder: self.encoder,
            slice: Slice::spec_of(model.vertex_range, Some((instance_count(instances.count), 0))),
            pso: self.pipelines.sprite,
            data: DrawData::Sprite(
                sprite::Data {
                    vbuf: model.vbuf,
                    ibuf: instances.ibuf,
                    globals: globals.buf,
                    lights: lights.buf,
                    shadows: shadows.buf,
                    shadow_maps: self.spec_shadow_maps(),
                    noise: self.noise_tex.binding(),
                    map: map.binding(),
                    horizon: horizon.binding(),
                    tgt_color: self.targets.color_view,
                    tgt_depth_stencil: (self.targets.depth_stencil_view, (1, 1)),
                },
            ),
        }
    }

    /// The draw call for sprites, with as many instances as there are (as a 32-bit number).
    pub fn render_sprites(
        &self,
        model: &Model<sprite::SpritePipeline>,
        globals: &Consts<Globals>,
        instances: &Instances<sprite::Instance>,
        lights: &Consts<Light>,
        shadows: &Consts<Shadow>,
        map: &Texture<LodColorFmt>,
        horizon: &Texture<LodTextureFmt>,
    ) -> (draw: Draw)
        ensures
            draw == self.sprites_draw(model, globals, instances, lights, shadows, map, horizon),
    {
        let count: u32 = truncate_count(instances.count);
        Draw {
            encoder: self.encoder,
            slice: Slice::of(model.vertex_range, Some((count, 0))),
            pso: self.pipelines.sprite,
            data: DrawData::Sprite(
                sprite::Data {
                    vbuf: model.vbuf,
                    ibuf: instances.ibuf,
                    globals: globals.buf,
                    lights: lights.buf,
                    shadows: shadows.buf,
                    shadow_maps: self.shadow_maps(),
                    noise: (self.noise_tex.srv, self.noise_tex.sampler),
                    map: (map.srv, map.sampler),
                    horizon: (horizon.srv, horizon.sampler),
                    tgt_color: self.targets.color_view,
                    tgt_depth_stencil: (self.targets.depth_stencil_view, (1, 1)),
                },
            ),
        }
    }

    /// The draw call for distant terrain.
    pub open spec fn lod_terrain_draw(
        self,
        model: &Model<lod_terrain::LodTerrainPipeline>,
        globals: &Consts<Globals>,
        locals: &Consts<lod_terrain::Locals>,
        map: &Texture<LodColorFmt>,
        horizon: &Texture<LodTextureFmt>,
    ) -> Draw {
        Draw {
            encoder: self.encoder,
            slice: Slice::spec_of(model.vertex_range, None),
            pso: self.pipelines.lod_terrain,
            data: DrawData::LodTerrain(
                lod_terrain::Data {
                    vbuf: model.vbuf,
                    locals: locals.buf,
                    globals: globals.buf,
                    noise: self.noise_tex.binding(),
                    map: map.binding(),
                    horizon: horizon.binding(),
                    tgt_color: self.targets.color_view,
                    tgt_depth_stencil: (self.targets.depth_stencil_view, (1, 1)),
                },
            ),
        }
    }

    /// The draw call for distant terrain.
    pub fn render_lod_terrain(
        &self,
        model: &Model<lod_terrain::LodTerrainPipeline>,
        globals: &Consts<Globals>,
        locals: &Consts<lod_terrain::Locals>,
        map: &Texture<LodColorFmt>,
        horizon: &Texture<LodTextureFmt>,
    ) -> (draw: Draw)
        ensures
            draw == self.lod_terrain_draw(model, globals, locals, map, horizon),
    {
        Draw {
            encoder: self.encoder,
            slice: Slice::of(model.vertex_range, None),
            pso: self.pipelines.lod_terrain,
            data: DrawData::LodTerrain(
                lod_terrain::Data {
                    vbuf: model.vbuf,
                    locals: locals.buf,
                    globals: globals.buf,
                    noise: (self.noise_tex.srv, self.noise_tex.sampler),
                    map: (map.srv, map.sampler),
                    horizon: (horizon.srv, horizon.sampler),
                    tgt_color: self.targets.color_view,
                    tgt_depth_stencil: (self.targets.depth_stencil_view, (1, 1)),
                },
            ),
        }
    }

    /// The draw call for an element of the user interface, within `scissor`.
    pub open spec fn ui_element_draw<F>(
        self,
        model: &Model<ui::UiPipeline>,
        tex: &Texture<F>,
        scissor: Aabr,
        globals: &Consts<Globals>,
        locals: &Consts<ui::Locals>,
    ) -> Draw {
        Draw {
            encoder: self.encoder,
            slice: Slice::spec_of(model.vertex_range, None),
            pso: self.pipelines.ui,
            data: DrawData::Ui(
                ui::Data {
                    vbuf: model.vbuf,
                    scissor: scissor_rect(scissor),
                    tex: tex.binding(),
                    locals: locals.buf,
                    globals: globals.buf,
                    tgt_color: self.win_color_view,
                    tgt_depth: self.win_depth_view,
                },
            ),
        }
    }

    /// The draw call for an element of the user interface, within `scissor`.
    pub fn render_ui_element<F>(
        &self,
        model: &Model<ui::UiPipeline>,
        tex: &Texture<F>,
        scissor: Aabr,
        globals: &Consts<Globals>,
        locals: &Consts<ui::Locals>,
    ) -> (draw: Draw)
        requires
            scissor.is_valid(),
        ensures
            draw == self.ui_element_draw(model, tex, scissor, globals, locals),
    {
        Draw {
            encoder: self.encoder,
            slice: Slice::of(model.vertex_range, None),
            pso: self.pipelines.ui,
            data: DrawData::Ui(
                ui::Data {
                    vbuf: model.vbuf,
                    scissor: element_scissor(scissor),
                    tex: (tex.srv, tex.sampler),
                    locals: locals.buf,
                    globals: globals.buf,
                    tgt_color: self.win_color_view,
                    tgt_depth: self.win_depth_view,
                },
            ),
        }
    }

    /// The draw call for the post-processing pass.
    pub open spec fn post_process_draw(
        self,
        model: &Model<postprocess::PostProcessPipeline>,
        globals: &Consts<Globals>,
        locals: &Consts<postprocess::Locals>,
    ) -> Draw {
        Draw {
            encoder: self.encoder,
            slice: Slice::spec_of(model.vertex_range, None),
            pso: self.pipelines.postprocess,
            data: DrawData::PostProcess(
                postprocess::Data {
                    vbuf: model.vbuf,
                    locals: locals.buf,
                    globals: globals.buf,
                    src_sampler: (self.targets.color_res, self.sampler),
                    tgt_color: self.win_color_view,
                    tgt_depth: self.win_depth_view,
                },
            ),
        }
    }

    /// The draw call for the post-processing pass.
    pub fn render_post_process(
        &self,
        model: &Model<postprocess::PostProcessPipeline>,
        globals: &Consts<Globals>,
        locals: &Consts<postprocess::Locals>,
    ) -> (draw: Draw)
        ensures
            draw == self.post_process_draw(model, globals, locals),
    {
        Draw {
            encoder: self.encoder,
            slice: Slice::of(model.vertex_range, None),
            pso: self.pipelines.postprocess,
            data: DrawData::PostProcess(
                postprocess::Data {
                    vbuf: model.vbuf,
                    locals: locals.buf,
                    globals: globals.buf,
                    src_sampler: (self.targets.color_res, self.sampler),
                    tgt_color: self.win_color_view,
                    tgt_depth: self.win_depth_view,
                },
            ),
        }
    }
}

} // verus!
