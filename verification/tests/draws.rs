use voxygen_render::create_pipelines::ScenePipelines;
use voxygen_render::draw::{Command, Draw, DrawData, IndexBuffer, Slice};
use voxygen_render::geometry::{Aabr, Rect, Vec2};
use voxygen_render::modes::{AaMode, CloudMode, FluidMode, LightingMode, Modes};
use voxygen_render::pipelines::{
    figure, fluid, lod_terrain, postprocess, shadow, skybox, sprite, terrain, ui, Globals, Light,
    Shadow,
};
use voxygen_render::renderer::{Renderer, ShadowMapRenderer};
use voxygen_render::resources::{
    Buffer, Consts, DepthStencilView, Encoder, Instances, LodColorFmt, LodTextureFmt, Model,
    PipelineState, PlainFmt, RenderTargetView, ResourceView, Sampler, Texture, VertexRange,
};
use voxygen_render::targets::RenderTargets;

fn pso(id: u32) -> PipelineState {
    PipelineState { id }
}

fn renderer(with_shadow_map: bool) -> Renderer {
    Renderer {
        encoder: Encoder { id: 1 },
        win_color_view: RenderTargetView { id: 2, width: 640, height: 480 },
        win_depth_view: DepthStencilView { id: 3, width: 640, height: 480 },
        targets: RenderTargets {
            color_view: RenderTargetView { id: 4, width: 640, height: 480 },
            depth_stencil_view: DepthStencilView { id: 5, width: 640, height: 480 },
            color_res: ResourceView { id: 6 },
        },
        sampler: Sampler { id: 7 },
        shadow_map: if with_shadow_map {
            Some(ShadowMapRenderer {
                encoder: Encoder { id: 8 },
                depth_stencil_view: DepthStencilView { id: 9, width: 160, height: 161 },
                res: ResourceView { id: 10 },
                sampler: Sampler { id: 11 },
                pipeline: pso(12),
            })
        } else {
            None
        },
        pipelines: ScenePipelines {
            skybox: pso(20),
            figure: pso(21),
            terrain: pso(22),
            fluid: pso(23),
            sprite: pso(24),
            ui: pso(25),
            lod_terrain: pso(26),
            postprocess: pso(27),
            player_shadow: pso(28),
        },
        noise_tex: Texture::new(ResourceView { id: 30 }, Sampler { id: 31 }),
        modes: Modes {
            aa: AaMode::Off,
            cloud: CloudMode::Regular,
            fluid: FluidMode::Shiny,
            lighting: LightingMode::Lambertian,
        },
        max_texture_size: 8192,
    }
}

fn model<P>() -> Model<P> {
    Model::new(Buffer { id: 40 }, VertexRange { start: 3, end: 33 })
}

fn globals() -> Consts<Globals> {
    Consts::new(Buffer { id: 41 })
}

fn lights() -> Consts<Light> {
    Consts::new(Buffer { id: 42 })
}

fn shadows() -> Consts<Shadow> {
    Consts::new(Buffer { id: 43 })
}

fn map() -> Texture<LodColorFmt> {
    Texture::new(ResourceView { id: 44 }, Sampler { id: 45 })
}

fn horizon() -> Texture<LodTextureFmt> {
    Texture::new(ResourceView { id: 46 }, Sampler { id: 47 })
}

fn binding(view: u32, sampler: u32) -> (ResourceView, Sampler) {
    (ResourceView { id: view }, Sampler { id: sampler })
}

fn slice(instances: Option<(u32, u32)>) -> Slice {
    Slice { start: 3, end: 33, base_vertex: 0, instances, buffer: IndexBuffer::Auto }
}

fn figure_call(renderer: &Renderer, which: &str) -> Draw {
    let locals = Consts::<figure::Locals>::new(Buffer { id: 50 });
    let bones = Consts::<figure::BoneData>::new(Buffer { id: 51 });
    let m = model();
    let (g, l, s, c, h) = (globals(), lights(), shadows(), map(), horizon());
    match which {
        "figure" => renderer.render_figure(&m, &g, &locals, &bones, &l, &s, &c, &h),
        "player" => renderer.render_player(&m, &g, &locals, &bones, &l, &s, &c, &h),
        _ => renderer.render_player_shadow(&m, &g, &locals, &bones, &l, &s, &c, &h),
    }
}

fn figure_data(shadow_maps: (ResourceView, Sampler), reference: u8) -> DrawData {
    DrawData::Figure(figure::Data {
        vbuf: Buffer { id: 40 },
        locals: Buffer { id: 50 },
        globals: Buffer { id: 41 },
        bones: Buffer { id: 51 },
        lights: Buffer { id: 42 },
        shadows: Buffer { id: 43 },
        shadow_maps,
        noise: binding(30, 31),
        map: binding(44, 45),
        horizon: binding(46, 47),
        tgt_color: RenderTargetView { id: 4, width: 640, height: 480 },
        tgt_depth_stencil: (
            DepthStencilView { id: 5, width: 640, height: 480 },
            (reference, reference),
        ),
    })
}

#[test]
fn views_are_those_of_the_renderer() {
    let renderer = renderer(true);
    let (color, depth) = renderer.tgt_views();
    assert_eq!((color.id, depth.id), (4, 5));
    let (color, depth) = renderer.win_views();
    assert_eq!((color.id, depth.id), (2, 3));
}

#[test]
fn mutable_views_change_the_renderer() {
    let mut changed = renderer(false);
    {
        let (color, depth) = changed.tgt_views_mut();
        color.id = 104;
        depth.id = 105;
    }
    {
        let (color, depth) = changed.win_views_mut();
        color.width = 1024;
        depth.width = 1025;
    }
    let mut expected = renderer(false);
    expected.targets.color_view.id = 104;
    expected.targets.depth_stencil_view.id = 105;
    expected.win_color_view.width = 1024;
    expected.win_depth_view.width = 1025;
    assert_eq!(changed, expected);
    assert_eq!(changed.get_resolution(), Vec2::new(1024, 480));
}

#[test]
fn resolutions_are_those_of_the_window_and_the_shadow_map() {
    assert_eq!(renderer(true).get_resolution(), Vec2::new(640, 480));
    assert_eq!(renderer(true).get_shadow_resolution(), Vec2::new(160, 161));
    assert_eq!(renderer(false).get_shadow_resolution(), Vec2::new(1, 1));
    assert_eq!(renderer(false).max_texture_size(), 8192);
}

#[test]
fn clears_come_in_order() {
    let scene = vec![
        Command::ClearDepth {
            encoder: Encoder { id: 1 },
            view: DepthStencilView { id: 5, width: 640, height: 480 },
            depth: 1,
        },
        Command::ClearStencil {
            encoder: Encoder { id: 1 },
            view: DepthStencilView { id: 5, width: 640, height: 480 },
            stencil: 0,
        },
        Command::ClearDepth {
            encoder: Encoder { id: 1 },
            view: DepthStencilView { id: 3, width: 640, height: 480 },
            depth: 1,
        },
    ];
    assert_eq!(renderer(false).clear(), scene);
    let mut all = vec![Command::ClearDepth {
        encoder: Encoder { id: 8 },
        view: DepthStencilView { id: 9, width: 160, height: 161 },
        depth: 1,
    }];
    all.extend(scene);
    assert_eq!(renderer(true).clear(), all);
}

#[test]
fn shadows_are_flushed_where_there_is_a_shadow_map() {
    assert_eq!(
        renderer(true).flush_shadows(),
        Some(Command::Flush { encoder: Encoder { id: 8 } }),
    );
    assert_eq!(renderer(false).flush_shadows(), None);
}

#[test]
fn skyboxes_are_drawn() {
    let locals = Consts::<skybox::Locals>::new(Buffer { id: 50 });
    let draw = renderer(true).render_skybox(&model(), &globals(), &locals, &map(), &horizon());
    assert_eq!(
        draw,
        Draw {
            encoder: Encoder { id: 1 },
            slice: slice(None),
            pso: pso(20),
            data: DrawData::Skybox(skybox::Data {
                vbuf: Buffer { id: 40 },
                locals: Buffer { id: 50 },
                globals: Buffer { id: 41 },
                noise: binding(30, 31),
                map: binding(44, 45),
                horizon: binding(46, 47),
                tgt_color: RenderTargetView { id: 4, width: 640, height: 480 },
                tgt_depth_stencil: (DepthStencilView { id: 5, width: 640, height: 480 }, (1, 1)),
            }),
        },
    );
}

#[test]
fn figures_are_drawn() {
    let draw = figure_call(&renderer(true), "figure");
    assert_eq!((draw.encoder, draw.pso), (Encoder { id: 1 }, pso(21)));
    assert_eq!(draw.slice, slice(None));
    assert_eq!(draw.data, figure_data(binding(10, 11), 1));
}

#[test]
fn noise_takes_the_place_of_a_missing_shadow_map() {
    let draw = figure_call(&renderer(false), "figure");
    assert_eq!(draw.data, figure_data(binding(30, 31), 1));
}

#[test]
fn players_are_drawn_like_figures() {
    assert_eq!(
        figure_call(&renderer(true), "player"),
        figure_call(&renderer(true), "figure"),
    );
}

#[test]
fn silhouettes_have_their_own_pipeline_and_reference() {
    let draw = figure_call(&renderer(true), "silhouette");
    assert_eq!((draw.encoder, draw.pso), (Encoder { id: 1 }, pso(28)));
    assert_eq!(draw.slice, slice(None));
    assert_eq!(draw.data, figure_data(binding(10, 11), 0));
}

#[test]
fn terrain_is_drawn() {
    let locals = Consts::<terrain::Locals>::new(Buffer { id: 50 });
    for (with_shadow_map, shadow_maps) in [(true, binding(10, 11)), (false, binding(30, 31))] {
        let draw = renderer(with_shadow_map).render_terrain_chunk(
            &model(),
            &globals(),
            &locals,
            &lights(),
            &shadows(),
            &map(),
            &horizon(),
        );
        assert_eq!(
            draw,
            Draw {
                encoder: Encoder { id: 1 },
                slice: slice(None),
                pso: pso(22),
                data: DrawData::Terrain(terrain::Data {
                    vbuf: Buffer { id: 40 },
                    locals: Buffer { id: 50 },
                    globals: Buffer { id: 41 },
                    lights: Buffer { id: 42 },
                    shadows: Buffer { id: 43 },
                    shadow_maps,
                    noise: binding(30, 31),
                    map: binding(44, 45),
                    horizon: binding(46, 47),
                    tgt_color: RenderTargetView { id: 4, width: 640, height: 480 },
                    tgt_depth_stencil: (
                        DepthStencilView { id: 5, width: 640, height: 480 },
                        (1, 1),
                    ),
                }),
            },
        );
    }
}

#[test]
fn shadows_are_drawn_where_there_is_a_shadow_map() {
    let terrain_locals = Consts::<terrain::Locals>::new(Buffer { id: 50 });
    let locals = Consts::<shadow::Locals>::new(Buffer { id: 52 });
    let call = |with_shadow_map: bool| {
        renderer(with_shadow_map).render_shadow(
            &model(),
            &globals(),
            &terrain_locals,
            &locals,
            &lights(),
            &shadows(),
            &map(),
            &horizon(),
        )
    };
    assert_eq!(call(false), None);
    assert_eq!(
        call(true),
        Some(Draw {
            encoder: Encoder { id: 8 },
            slice: slice(None),
            pso: pso(12),
            data: DrawData::Shadow(shadow::Data {
                vbuf: Buffer { id: 40 },
                locals: Buffer { id: 50 },
                globals: Buffer { id: 41 },
                lights: Buffer { id: 42 },
                shadows: Buffer { id: 43 },
                noise: binding(30, 31),
                map: binding(44, 45),
                horizon: binding(46, 47),
                light_shadows: Buffer { id: 52 },
                tgt_depth_stencil: DepthStencilView { id: 9, width: 160, height: 161 },
            }),
        }),
    );
}

#[test]
fn fluids_are_drawn_with_their_waves() {
    let locals = Consts::<terrain::Locals>::new(Buffer { id: 50 });
    let waves = Texture::<PlainFmt>::new(ResourceView { id: 60 }, Sampler { id: 61 });
    for (with_shadow_map, shadow_maps) in [(true, binding(10, 11)), (false, binding(30, 31))] {
        let draw = renderer(with_shadow_map).render_fluid_chunk(
            &model(),
            &globals(),
            &locals,
            &lights(),
            &shadows(),
            &map(),
            &horizon(),
            &waves,
        );
        assert_eq!((draw.encoder, draw.pso), (Encoder { id: 1 }, pso(23)));
        assert_eq!(draw.slice, slice(None));
        assert_eq!(
            draw.data,
            DrawData::Fluid(fluid::Data {
                vbuf: Buffer { id: 40 },
                locals: Buffer { id: 50 },
                globals: Buffer { id: 41 },
                lights: Buffer { id: 42 },
                shadows: Buffer { id: 43 },
                shadow_maps,
                map: binding(44, 45),
                horizon: binding(46, 47),
                noise: binding(30, 31),
                waves: binding(60, 61),
                tgt_color: RenderTargetView { id: 4, width: 640, height: 480 },
                tgt_depth_stencil: (DepthStencilView { id: 5, width: 640, height: 480 }, (1, 1)),
            }),
        );
    }
}

#[test]
fn sprites_are_drawn_once_per_instance() {
    let instances = Instances::<sprite::Instance>::new(Buffer { id: 70 }, 1234);
    for (with_shadow_map, shadow_maps) in [(true, binding(10, 11)), (false, binding(30, 31))] {
        let draw = renderer(with_shadow_map).render_sprites(
            &model(),
            &globals(),
            &instances,
            &lights(),
            &shadows(),
            &map(),
            &horizon(),
        );
        assert_eq!((draw.encoder, draw.pso), (Encoder { id: 1 }, pso(24)));
        assert_eq!(draw.slice, slice(Some((1234, 0))));
        assert_eq!(
            draw.data,
            DrawData::Sprite(sprite::Data {
                vbuf: Buffer { id: 40 },
                ibuf: Buffer { id: 70 },
                globals: Buffer { id: 41 },
                lights: Buffer { id: 42 },
                shadows: Buffer { id: 43 },
                shadow_maps,
                noise: binding(30, 31),
                map: binding(44, 45),
                horizon: binding(46, 47),
                tgt_color: RenderTargetView { id: 4, width: 640, height: 480 },
                tgt_depth_stencil: (DepthStencilView { id: 5, width: 640, height: 480 }, (1, 1)),
            }),
        );
    }
}

#[test]
fn counts_of_instances_are_truncated() {
    let instances = Instances::<sprite::Instance>::new(Buffer { id: 70 }, 0x3_0000_0007);
    let draw = renderer(false).render_sprites(
        &model(),
        &globals(),
        &instances,
        &lights(),
        &shadows(),
        &map(),
        &horizon(),
    );
    assert_eq!(draw.slice.instances, Some((7, 0)));
}

#[test]
fn distant_terrain_is_drawn() {
    let locals = Consts::<lod_terrain::Locals>::new(Buffer { id: 50 });
    let draw =
        renderer(true).render_lod_terrain(&model(), &globals(), &locals, &map(), &horizon());
    assert_eq!(
        draw,
        Draw {
            encoder: Encoder { id: 1 },
            slice: slice(None),
            pso: pso(26),
            data: DrawData::LodTerrain(lod_terrain::Data {
                vbuf: Buffer { id: 40 },
                locals: Buffer { id: 50 },
                globals: Buffer { id: 41 },
                noise: binding(30, 31),
                map: binding(44, 45),
                horizon: binding(46, 47),
                tgt_color: RenderTargetView { id: 4, width: 640, height: 480 },
                tgt_depth_stencil: (DepthStencilView { id: 5, width: 640, height: 480 }, (1, 1)),
            }),
        },
    );
}

#[test]
fn elements_are_drawn_inside_their_scissor() {
    let locals = Consts::<ui::Locals>::new(Buffer { id: 50 });
    let tex = Texture::<PlainFmt>::new(ResourceView { id: 60 }, Sampler { id: 61 });
    let scissor = Aabr { min: Vec2::new(10, 20), max: Vec2::new(110, 20) };
    let draw = renderer(true).render_ui_element(&model(), &tex, scissor, &globals(), &locals);
    assert_eq!(
        draw,
        Draw {
            encoder: Encoder { id: 1 },
            slice: slice(None),
            pso: pso(25),
            data: DrawData::Ui(ui::Data {
                vbuf: Buffer { id: 40 },
                scissor: Rect { x: 10, y: 20, w: 100, h: 0 },
                tex: binding(60, 61),
                locals: Buffer { id: 50 },
                globals: Buffer { id: 41 },
                tgt_color: RenderTargetView { id: 2, width: 640, height: 480 },
                tgt_depth: DepthStencilView { id: 3, width: 640, height: 480 },
            }),
        },
    );
}

#[test]
fn post_processing_reads_the_targets_and_draws_to_the_window() {
    let locals = Consts::<postprocess::Locals>::new(Buffer { id: 50 });
    let draw = renderer(true).render_post_process(&model(), &globals(), &locals);
    assert_eq!(
        draw,
        Draw {
            encoder: Encoder { id: 1 },
            slice: slice(None),
            pso: pso(27),
            data: DrawData::PostProcess(postprocess::Data {
                vbuf: Buffer { id: 40 },
                locals: Buffer { id: 50 },
                globals: Buffer { id: 41 },
                src_sampler: binding(6, 7),
                tgt_color: RenderTargetView { id: 2, width: 640, height: 480 },
                tgt_depth: DepthStencilView { id: 3, width: 640, height: 480 },
            }),
        },
    );
}
