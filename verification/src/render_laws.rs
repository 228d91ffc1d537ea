//! What holds of draw calls, clears and the views of a renderer.
use crate::device::{Device, Work};
use crate::draw::{Command, Slice};
use crate::geometry::Aabr;
use crate::pipelines::{
    figure, fluid, lod_terrain, postprocess, shadow, skybox, sprite, terrain, ui, Globals, Light,
    PipelineKind, Shadow,
};
use crate::create_pipelines::{BuiltPipelinesView, ScenePipelines};
use crate::render::{instance_count, scissor_rect};
use crate::renderer::Renderer;
use crate::resources::{
    Consts, DepthStencilView, Encoder, Instances, LodColorFmt, LodTextureFmt, Model,
    PipelineState, PlainFmt, RenderTargetView, ResourceView, Sampler, Texture, VertexRange,
};
use crate::targets::RenderTargets;
use vstd::prelude::*;

verus! {

/// The pipeline of a kind; the shadow map is not among the pipelines of the scene.
pub open spec fn pipeline_of(pipelines: ScenePipelines, kind: PipelineKind) -> PipelineState
    recommends
        !(kind is Shadow),
{
    match kind {
        PipelineKind::Skybox => pipelines.skybox,
        PipelineKind::Figure => pipelines.figure,
        PipelineKind::Terrain => pipelines.terrain,
        PipelineKind::Fluid => pipelines.fluid,
        PipelineKind::Sprite => pipelines.sprite,
        PipelineKind::Ui => pipelines.ui,
        PipelineKind::LodTerrain => pipelines.lod_terrain,
        PipelineKind::PostProcess => pipelines.postprocess,
        PipelineKind::PlayerShadow => pipelines.player_shadow,
        PipelineKind::Shadow => pipelines.terrain,
    }
}

/// The slice shows the vertices of the range, all of them and in their order.
pub open spec fn shows(slice: Slice, range: VertexRange) -> bool {
    &&& slice.start == range.start
    &&& slice.end == range.end
    &&& slice.base_vertex == 0
    &&& slice.buffer is Auto
}

/// A pair of a view and a sampler is that of a texture.
pub open spec fn is_of<F>(pair: (ResourceView, Sampler), texture: Texture<F>) -> bool {
    &&& pair.0 == texture.srv
    &&& pair.1 == texture.sampler
}

/// A pair of a view and a sampler is that of the shadow map; without one, that of the noise.
pub open spec fn is_of_shadow_map(pair: (ResourceView, Sampler), renderer: Renderer) -> bool {
    match renderer.shadow_map {
        Some(shadow_map) => pair.0 == shadow_map.res && pair.1 == shadow_map.sampler,
        None => is_of(pair, renderer.noise_tex),
    }
}

/// A slice of a range shows the range, with the instances that were asked for.
pub proof fn slices_show_their_range(range: VertexRange, instances: Option<(u32, u32)>)
    ensures
        shows(Slice::spec_of(range, instances), range),
        Slice::spec_of(range, instances).instances == instances,
{
}

/// A pixel lies in the scissor of an element exactly if it lies between the corners that were
/// given, the upper ones not counted.
pub proof fn scissors_keep_what_lies_between_the_corners(scissor: Aabr, x: int, y: int)
    requires
        scissor.min.x <= scissor.max.x,
        scissor.min.y <= scissor.max.y,
    ensures
        scissor.is_valid(),
        ({
            let rect = scissor_rect(scissor);
            (rect.x <= x < rect.x + rect.w && rect.y <= y < rect.y + rect.h) <==> (scissor.min.x
                <= x < scissor.max.x && scissor.min.y <= y < scissor.max.y)
        }),
        // An empty scissor lies at its corner, too.
        scissor_rect(scissor).x == scissor.min.x,
        scissor_rect(scissor).y == scissor.min.y,
        scissor_rect(scissor).x + scissor_rect(scissor).w == scissor.max.x,
        scissor_rect(scissor).y + scissor_rect(scissor).h == scissor.max.y,
{
}

/// As many instances are drawn as there are, up to whole multiples of two to the power of
/// thirty-two.
pub proof fn instances_are_counted(count: usize)
    ensures
        count <= u32::MAX ==> instance_count(count) == count,
        exists|rounds: int| count == instance_count(count) + #[trigger] (rounds * 0x1_0000_0000),
{
    let rounds = count as int / 0x1_0000_0000;
    assert(count == instance_count(count) + rounds * 0x1_0000_0000);
}

/// Skyboxes are drawn with their own pipeline, from the model and with the constants and textures that
/// were given, to the targets of the scene.
pub proof fn skybox_draws_bind_what_they_are_given(
    renderer: Renderer,
    model: &Model<skybox::SkyboxPipeline>,
    globals: &Consts<Globals>,
    locals: &Consts<skybox::Locals>,
    map: &Texture<LodColorFmt>,
    horizon: &Texture<LodTextureFmt>,
)
    ensures
        ({
            let draw = renderer.skybox_draw(model, globals, locals, map, horizon);
            let data = draw.data->Skybox_0;
            &&& draw.data is Skybox
            &&& draw.encoder == renderer.encoder
            &&& draw.pso == pipeline_of(renderer.pipelines, PipelineKind::Skybox)
            &&& shows(draw.slice, model.vertex_range)
            &&& draw.slice.instances is None
            &&& data.vbuf == model.vbuf
            &&& data.locals == locals.buf
            &&& data.globals == globals.buf
            &&& is_of(data.noise, renderer.noise_tex)
            &&& is_of(data.map, *map)
            &&& is_of(data.horizon, *horizon)
            &&& data.tgt_color == renderer.targets.color_view
            &&& data.tgt_depth_stencil.0 == renderer.targets.depth_stencil_view
            &&& data.tgt_depth_stencil.1 == (1u8, 1u8)
        }),
{
}

/// A chunk of terrain is drawn with its own pipeline, from the model and with the constants and textures that
/// were given, to the targets of the scene.
pub proof fn terrain_draws_bind_what_they_are_given(
    renderer: Renderer,
    model: &Model<terrain::TerrainPipeline>,
    globals: &Consts<Globals>,
    locals: &Consts<terrain::Locals>,
    lights: &Consts<Light>,
    shadows: &Consts<Shadow>,
    map: &Texture<LodColorFmt>,
    horizon: &Texture<LodTextureFmt>,
)
    ensures
        ({
            let draw = renderer.terrain_draw(model, globals, locals, lights, shadows, map, horizon);
            let data = draw.data->Terrain_0;
            &&& draw.data is Terrain
            &&& draw.encoder == renderer.encoder
            &&& draw.pso == pipeline_of(renderer.pipelines, PipelineKind::Terrain)
            &&& shows(draw.slice, model.vertex_range)
            &&& draw.slice.instances is None
            &&& data.vbuf == model.vbuf
            &&& data.locals == locals.buf
            &&& data.globals == globals.buf
            &&& data.lights == lights.buf
            &&& data.shadows == shadows.buf
            &&& is_of_shadow_map(data.shadow_maps, renderer)
            &&& is_of(data.noise, renderer.noise_tex)
            &&& is_of(data.map, *map)
            &&& is_of(data.horizon, *horizon)
            &&& data.tgt_color == renderer.targets.color_view
            &&& data.tgt_depth_stencil.0 == renderer.targets.depth_stencil_view
            &&& data.tgt_depth_stencil.1 == (1u8, 1u8)
        }),
{
}

/// A chunk of fluid is drawn with its own pipeline, from the model and with the constants and textures that
/// were given, to the targets of the scene.
pub proof fn fluid_draws_bind_what_they_are_given(
    renderer: Renderer,
    model: &Model<fluid::FluidPipeline>,
    globals: &Consts<Globals>,
    locals: &Consts<terrain::Locals>,
    lights: &Consts<Light>,
    shadows: &Consts<Shadow>,
    map: &Texture<LodColorFmt>,
    horizon: &Texture<LodTextureFmt>,
    waves: &Texture<PlainFmt>,
)
    ensures
        ({
            let draw = renderer.fluid_draw(model, globals, locals, lights, shadows, map, horizon, waves);
            let data = draw.data->Fluid_0;
            &&& draw.data is Fluid
            &&& draw.encoder == renderer.encoder
            &&& draw.pso == pipeline_of(renderer.pipelines, PipelineKind::Fluid)
            &&& shows(draw.slice, model.vertex_range)
            &&& draw.slice.instances is None
            &&& data.vbuf == model.vbuf
            &&& data.locals == locals.buf
            &&& data.globals == globals.buf
            &&& data.lights == lights.buf
            &&& data.shadows == shadows.buf
            &&& is_of_shadow_map(data.shadow_maps, renderer)
            &&& is_of(data.noise, renderer.noise_tex)
            &&& is_of(data.map, *map)
            &&& is_of(data.horizon, *horizon)
            &&& is_of(data.waves, *waves)
            &&& data.tgt_color == renderer.targets.color_view
            &&& data.tgt_depth_stencil.0 == renderer.targets.depth_stencil_view
            &&& data.tgt_depth_stencil.1 == (1u8, 1u8)
        }),
{
}

/// Sprites are drawn with their own pipeline, from the model and with the constants and textures that
/// were given, to the targets of the scene.
pub proof fn sprite_draws_bind_what_they_are_given(
    renderer: Renderer,
    model: &Model<sprite::SpritePipeline>,
    globals: &Consts<Globals>,
    instances: &Instances<sprite::Instance>,
    lights: &Consts<Light>,
    shadows: &Consts<Shadow>,
    map: &Texture<LodColorFmt>,
    horizon: &Texture<LodTextureFmt>,
)
    ensures
        ({
            let draw = renderer.sprites_draw(model, globals, instances, lights, shadows, map, horizon);
            let data = draw.data->Sprite_0;
            &&& draw.data is Sprite
            &&& draw.encoder == renderer.encoder
            &&& draw.pso == pipeline_of(renderer.pipelines, PipelineKind::Sprite)
            &&& shows(draw.slice, model.vertex_range)
            &&& draw.slice.instances == Some((instance_count(instances.count), 0u32))
            &&& data.ibuf == instances.ibuf
            &&& data.vbuf == model.vbuf
            &&& data.globals == globals.buf
            &&& data.lights == lights.buf
            &&& data.shadows == shadows.buf
            &&& is_of_shadow_map(data.shadow_maps, renderer)
            &&& is_of(data.noise, renderer.noise_tex)
            &&& is_of(data.map, *map)
            &&& is_of(data.horizon, *horizon)
            &&& data.tgt_color == renderer.targets.color_view
            &&& data.tgt_depth_stencil.0 == renderer.targets.depth_stencil_view
            &&& data.tgt_depth_stencil.1 == (1u8, 1u8)
        }),
{
}

/// Distant terrain is drawn with its own pipeline, from the model and with the constants and textures that
/// were given, to the targets of the scene.
pub proof fn lod_draws_bind_what_they_are_given(
    renderer: Renderer,
    model: &Model<lod_terrain::LodTerrainPipeline>,
    globals: &Consts<Globals>,
    locals: &Consts<lod_terrain::Locals>,
    map: &Texture<LodColorFmt>,
    horizon: &Texture<LodTextureFmt>,
)
    ensures
        ({
            let draw = renderer.lod_terrain_draw(model, globals, locals, map, horizon);
            let data = draw.data->LodTerrain_0;
            &&& draw.data is LodTerrain
            &&& draw.encoder == renderer.encoder
            &&& draw.pso == pipeline_of(renderer.pipelines, PipelineKind::LodTerrain)
            &&& shows(draw.slice, model.vertex_range)
            &&& draw.slice.instances is None
            &&& data.vbuf == model.vbuf
            &&& data.locals == locals.buf
            &&& data.globals == globals.buf
            &&& is_of(data.noise, renderer.noise_tex)
            &&& is_of(data.map, *map)
            &&& is_of(data.horizon, *horizon)
            &&& data.tgt_color == renderer.targets.color_view
            &&& data.tgt_depth_stencil.0 == renderer.targets.depth_stencil_view
            &&& data.tgt_depth_stencil.1 == (1u8, 1u8)
        }),
{
}

/// A figure is drawn with the pipeline and the stencil reference that were chosen, from the
/// model and with the constants and textures that were given, to the targets of the scene.
pub proof fn figure_draws_bind_what_they_are_given(
    renderer: Renderer,
    pso: PipelineState,
    reference: u8,
    model: &Model<figure::FigurePipeline>,
    globals: &Consts<Globals>,
    locals: &Consts<figure::Locals>,
    bones: &Consts<figure::BoneData>,
    lights: &Consts<Light>,
    shadows: &Consts<Shadow>,
    map: &Texture<LodColorFmt>,
    horizon: &Texture<LodTextureFmt>,
)
    ensures
        ({
            let draw = renderer.figure_draw(
                pso,
                reference,
                model,
                globals,
                locals,
                bones,
                lights,
                shadows,
                map,
                horizon,
            );
            let data = draw.data->Figure_0;
            &&& draw.data is Figure
            &&& draw.encoder == renderer.encoder
            &&& draw.pso == pso
            &&& shows(draw.slice, model.vertex_range)
            &&& draw.slice.instances is None
            &&& data.vbuf == model.vbuf
            &&& data.locals == locals.buf
            &&& data.globals == globals.buf
            &&& data.bones == bones.buf
            &&& data.lights == lights.buf
            &&& data.shadows == shadows.buf
            &&& is_of_shadow_map(data.shadow_maps, renderer)
            &&& is_of(data.noise, renderer.noise_tex)
            &&& is_of(data.map, *map)
            &&& is_of(data.horizon, *horizon)
            &&& data.tgt_color == renderer.targets.color_view
            &&& data.tgt_depth_stencil.0 == renderer.targets.depth_stencil_view
            &&& data.tgt_depth_stencil.1 == (reference, reference)
        }),
{
}

/// Shadows are drawn exactly where there is a shadow map: through its encoder, with its
/// pipeline, to its depths, from the model and with the constants and textures that were
/// given.
pub proof fn shadow_draws_bind_what_they_are_given(
    renderer: Renderer,
    model: &Model<terrain::TerrainPipeline>,
    globals: &Consts<Globals>,
    terrain_locals: &Consts<terrain::Locals>,
    locals: &Consts<shadow::Locals>,
    lights: &Consts<Light>,
    shadows: &Consts<Shadow>,
    map: &Texture<LodColorFmt>,
    horizon: &Texture<LodTextureFmt>,
)
    ensures
        ({
            let result = renderer.shadow_draw(
                model,
                globals,
                terrain_locals,
                locals,
                lights,
                shadows,
                map,
                horizon,
            );
            let draw = result->Some_0;
            let data = draw.data->Shadow_0;
            let shadow_map = renderer.shadow_map->Some_0;
            &&& result is Some <==> renderer.shadow_map is Some
            &&& result is Some ==> {
                &&& draw.data is Shadow
                &&& draw.encoder == shadow_map.encoder
                &&& draw.pso == shadow_map.pipeline
                &&& shows(draw.slice, model.vertex_range)
                &&& draw.slice.instances is None
                &&& data.vbuf == model.vbuf
                &&& data.locals == terrain_locals.buf
                &&& data.light_shadows == locals.buf
                &&& data.globals == globals.buf
                &&& data.lights == lights.buf
                &&& data.shadows == shadows.buf
                &&& is_of(data.noise, renderer.noise_tex)
                &&& is_of(data.map, *map)
                &&& is_of(data.horizon, *horizon)
                &&& data.tgt_depth_stencil == shadow_map.depth_stencil_view
            }
        }),
{
}

/// An element of the user interface is drawn to the window, with its texture and constants,
/// and only where it lies between the corners of its scissor.
pub proof fn element_draws_bind_what_they_are_given<F>(
    renderer: Renderer,
    model: &Model<ui::UiPipeline>,
    tex: &Texture<F>,
    scissor: Aabr,
    globals: &Consts<Globals>,
    locals: &Consts<ui::Locals>,
    x: int,
    y: int,
)
    requires
        scissor.is_valid(),
    ensures
        ({
            let draw = renderer.ui_element_draw(model, tex, scissor, globals, locals);
            let data = draw.data->Ui_0;
            let rect = data.scissor;
            &&& draw.data is Ui
            &&& draw.encoder == renderer.encoder
            &&& draw.pso == pipeline_of(renderer.pipelines, PipelineKind::Ui)
            &&& shows(draw.slice, model.vertex_range)
            &&& draw.slice.instances is None
            &&& data.vbuf == model.vbuf
            &&& data.locals == locals.buf
            &&& data.globals == globals.buf
            &&& is_of(data.tex, *tex)
            &&& (rect.x <= x < rect.x + rect.w && rect.y <= y < rect.y + rect.h) <==> (
            scissor.min.x <= x < scissor.max.x && scissor.min.y <= y < scissor.max.y)
            &&& rect.x == scissor.min.x && rect.x + rect.w == scissor.max.x
            &&& rect.y == scissor.min.y && rect.y + rect.h == scissor.max.y
            &&& data.tgt_color == renderer.win_color_view
            &&& data.tgt_depth == renderer.win_depth_view
        }),
{
    scissors_keep_what_lies_between_the_corners(scissor, x, y);
}

/// Post-processing reads the color target through the linear sampler of the renderer and draws
/// to the window.
pub proof fn post_process_draws_bind_what_they_are_given(
    renderer: Renderer,
    model: &Model<postprocess::PostProcessPipeline>,
    globals: &Consts<Globals>,
    locals: &Consts<postprocess::Locals>,
)
    ensures
        ({
            let draw = renderer.post_process_draw(model, globals, locals);
            let data = draw.data->PostProcess_0;
            &&& draw.data is PostProcess
            &&& draw.encoder == renderer.encoder
            &&& draw.pso == pipeline_of(renderer.pipelines, PipelineKind::PostProcess)
            &&& shows(draw.slice, model.vertex_range)
            &&& draw.slice.instances is None
            &&& data.vbuf == model.vbuf
            &&& data.locals == locals.buf
            &&& data.globals == globals.buf
            &&& data.src_sampler.0 == renderer.targets.color_res
            &&& data.src_sampler.1 == renderer.sampler
            &&& data.tgt_color == renderer.win_color_view
            &&& data.tgt_depth == renderer.win_depth_view
        }),
{
}

/// The clearing of a frame queues that every depth of the shadow map, of the targets and of
/// the window becomes the farthest and that every stencil value of the targets becomes zero,
/// behind what is queued already, and does nothing else.
pub proof fn clears_reach_every_depth_target(device: Device, renderer: Renderer)
    requires
        renderer.shadow_map matches Some(shadow_map) ==> shadow_map.encoder != renderer.encoder,
    ensures
        ({
            let after = device.carry_out_all(renderer.all_clears());
            &&& after.done == device.done
            &&& after.queue(renderer.encoder) == device.queue(renderer.encoder) + seq![
                Work::ClearDepth { view: renderer.targets.depth_stencil_view, depth: 1 },
                Work::ClearStencil { view: renderer.targets.depth_stencil_view, stencil: 0 },
                Work::ClearDepth { view: renderer.win_depth_view, depth: 1 },
            ]
            &&& renderer.shadow_map matches Some(shadow_map) ==> after.queue(shadow_map.encoder)
                == device.queue(shadow_map.encoder) + seq![
                Work::ClearDepth { view: shadow_map.depth_stencil_view, depth: 1 },
            ]
            &&& forall|other: Encoder|
                other != renderer.encoder && !(renderer.shadow_map matches Some(shadow_map)
                    && shadow_map.encoder == other) ==> #[trigger] after.queue(other)
                    == device.queue(other)
        }),
{
    let commands = renderer.all_clears();
    let n = commands.len() as int;
    reveal_with_fuel(Device::carry_out_all, 5);
    assert(commands.drop_last().drop_last().last() == commands[n - 3]);
    assert(commands.drop_last().last() == commands[n - 2]);
    if renderer.shadow_map is Some {
        assert(commands.drop_last().drop_last().drop_last() =~= seq![commands[0]]);
        assert(seq![commands[0]].drop_last() =~= Seq::<Command>::empty());
    } else {
        assert(commands.drop_last().drop_last().drop_last() =~= Seq::<Command>::empty());
    }
    let after = device.carry_out_all(commands);
    assert(after.queue(renderer.encoder) =~= device.queue(renderer.encoder) + seq![
        Work::ClearDepth { view: renderer.targets.depth_stencil_view, depth: 1 },
        Work::ClearStencil { view: renderer.targets.depth_stencil_view, stencil: 0 },
        Work::ClearDepth { view: renderer.win_depth_view, depth: 1 },
    ]);
    if let Some(shadow_map) = renderer.shadow_map {
        assert(after.queue(shadow_map.encoder) =~= device.queue(shadow_map.encoder) + seq![
            Work::ClearDepth { view: shadow_map.depth_stencil_view, depth: 1 },
        ]);
    }
}

/// Flushing the shadows flushes the encoder of the shadow map, where there is one.
pub proof fn shadow_flushes_concern_the_shadow_map(renderer: Renderer)
    ensures
        renderer.shadow_flush() is Some <==> renderer.shadow_map is Some,
        renderer.shadow_map matches Some(shadow_map) ==> renderer.shadow_flush() == Some(
            Command::Flush { encoder: shadow_map.encoder },
        ),
{
}

/// The resolutions are those of the window's color view and of the view of the shadow map;
/// without a shadow map its resolution is one by one. Views have the size that they carry.
pub proof fn resolutions_are_those_of_the_views(
    renderer: Renderer,
    color: RenderTargetView,
    depth: DepthStencilView,
)
    ensures
        renderer.window_size().x == renderer.win_color_view.width,
        renderer.window_size().y == renderer.win_color_view.height,
        renderer.shadow_map matches Some(shadow_map) ==> renderer.shadow_resolution().x
            == shadow_map.depth_stencil_view.width && renderer.shadow_resolution().y
            == shadow_map.depth_stencil_view.height,
        renderer.shadow_map is None ==> renderer.shadow_resolution().x == 1
            && renderer.shadow_resolution().y == 1,
        color.size().x == color.width,
        color.size().y == color.height,
        depth.size().x == depth.width,
        depth.size().y == depth.height,
{
}

/// A renderer with other targets has these targets, and one with other pipelines has these
/// pipelines; nothing else changes, but that the pipeline of an existing shadow map is
/// replaced where there is a new one.
pub proof fn replacements_change_nothing_else(
    renderer: Renderer,
    targets: RenderTargets,
    built: BuiltPipelinesView,
)
    ensures
        renderer.with_targets(targets).targets == targets,
        (Renderer { targets: renderer.targets, ..renderer.with_targets(targets) }) == renderer,
        renderer.with_pipelines(built).pipelines == built.scene,
        (Renderer {
            pipelines: renderer.pipelines,
            shadow_map: renderer.shadow_map,
            ..renderer.with_pipelines(built)
        }) == renderer,
        renderer.shadow_map is None ==> renderer.with_pipelines(built).shadow_map is None,
        built.shadow is Err ==> renderer.with_pipelines(built).shadow_map == renderer.shadow_map,
        renderer.shadow_map matches Some(old_map) ==> (built.shadow matches Ok(pipeline) ==> {
            &&& renderer.with_pipelines(built).shadow_map matches Some(new_map)
            &&& new_map.pipeline == pipeline
            &&& new_map.encoder == old_map.encoder
            &&& new_map.depth_stencil_view == old_map.depth_stencil_view
            &&& new_map.res == old_map.res
            &&& new_map.sampler == old_map.sampler
        }),
{
}

} // verus!
