use glsl_include::Context;
use voxygen_render::capture::ScreenshotTask;
use voxygen_render::draw::Command;
use voxygen_render::error::{BackendError, CombinedError, RenderError};
use voxygen_render::exchange::{ImageInfo, Reply, Request, Step};
use voxygen_render::geometry::Vec2;
use voxygen_render::modes::{AaMode, CloudMode, FluidMode, LightingMode, Modes};
use voxygen_render::operations::{FlushTask, ModeTask, Rebuild, RecreateTask, ResizeTask};
use voxygen_render::pipelines::PipelineKind;
use voxygen_render::renderer::Renderer;
use voxygen_render::resources::{
    Buffer, DepthStencilView, DownloadBuffer, Encoder, PipelineState, Program, RawTexture,
    RenderTargetView, ResourceView, Sampler, ShaderSet,
};
use voxygen_render::screenshot::flip_rows;
use voxygen_render::setup::SetupTask;
use voxygen_render::texture::{FilterMethod, Kind, Samples, WrapMode};
use voxygen_render::uploads::{
    BufferUsage, ConstsTask, InstancesTask, UploadReply, UploadRequest,
};

/// Answers every request with objects that have new numbers, and keeps a trace.
struct Backend {
    next_id: u32,
    trace: Vec<String>,
    commands: Vec<Command>,
    /// The first request whose label begins with this text fails.
    fail: Option<&'static str>,
    reloaded: bool,
    pixels: Vec<[u8; 4]>,
    /// The text that every shader gets instead of its own specifier.
    text: Option<&'static str>,
}

impl Backend {
    fn new(first_id: u32) -> Backend {
        Backend {
            next_id: first_id,
            trace: Vec::new(),
            commands: Vec::new(),
            fail: None,
            reloaded: false,
            pixels: Vec::new(),
            text: None,
        }
    }

    fn failing(first_id: u32, fail: &'static str) -> Backend {
        Backend { fail: Some(fail), ..Backend::new(first_id) }
    }

    fn answer(&mut self, request: Request) -> Reply {
        let id = self.next_id;
        self.next_id += 1;
        let (label, reply) = match request {
            Request::LoadShader { specifier } => {
                let text = self.text.map(|text| text.to_string()).unwrap_or(specifier.clone());
                (format!("load {}", specifier), Reply::Shader(text))
            },
            Request::BuildContext { files } => {
                (format!("context {}", files[0].1), Reply::Context(Context::new()))
            },
            Request::LinkProgram { vertex, fragment } => {
                (format!("link {} {}", vertex, fragment), Reply::Program(Program { id }))
            },
            Request::LinkShaderSet { .. } => {
                ("link set".to_string(), Reply::ShaderSet(ShaderSet { id }))
            },
            Request::CreatePipeline { info } => {
                let label = format!("pipeline {:?}", info.kind);
                (label, Reply::Pipeline(PipelineState { id }))
            },
            Request::CreateTexture { info } => {
                let texture = RawTexture { id, kind: info.kind };
                (format!("texture {:?}", info.kind), Reply::Texture(texture))
            },
            Request::ViewAsShaderResource { .. } => {
                ("resource view".to_string(), Reply::ResourceView(ResourceView { id }))
            },
            Request::ViewAsRenderTarget { texture, .. } => {
                let (width, height) = size_of(texture);
                let view = RenderTargetView { id, width, height };
                ("target view".to_string(), Reply::RenderTargetView(view))
            },
            Request::ViewAsDepthStencil { texture } => {
                let (width, height) = size_of(texture);
                let view = DepthStencilView { id, width, height };
                ("depth view".to_string(), Reply::DepthStencilView(view))
            },
            Request::CreateSampler { .. } => {
                ("sampler".to_string(), Reply::Sampler(Sampler { id }))
            },
            Request::CreateLinearSampler => {
                ("linear sampler".to_string(), Reply::Sampler(Sampler { id }))
            },
            Request::CreateEncoder => ("encoder".to_string(), Reply::Encoder(Encoder { id })),
            Request::LoadTexture { specifier, filter, wrap } => {
                assert_eq!((filter, wrap), (FilterMethod::Bilinear, WrapMode::Tile));
                (
                    format!("image {}", specifier),
                    Reply::LoadedTexture { srv: ResourceView { id }, sampler: Sampler { id } },
                )
            },
            Request::Submit { commands } => {
                self.commands.extend(commands);
                ("submit".to_string(), Reply::Submitted { reloaded: self.reloaded })
            },
            Request::CreateDownloadBuffer { len } => (
                format!("download {}", len),
                Reply::DownloadBuffer(DownloadBuffer { id }),
            ),
            Request::CopyToBuffer { encoder, view, info, buffer, offset } => {
                assert_eq!(
                    info,
                    ImageInfo {
                        xoffset: 0,
                        yoffset: 0,
                        zoffset: 0,
                        width: view.width,
                        height: view.height,
                        depth: 0,
                        mipmap: 0,
                    },
                );
                let label = format!("copy {} {} {} {}", encoder.id, view.id, buffer.id, offset);
                let reply = if info.width > 0 && info.height > 0 {
                    Reply::Copied
                } else {
                    Reply::Failed(BackendError { message: "no area".to_string() })
                };
                (label, reply)
            },
            Request::ReadBuffer { buffer, len } => {
                (format!("read {} {}", buffer.id, len), Reply::Pixels(self.pixels.clone()))
            },
        };
        let fails = match self.fail {
            Some(prefix) => label.starts_with(prefix),
            None => false,
        };
        if fails {
            self.fail = None;
        }
        self.trace.push(label);
        let error = BackendError { message: "no".to_string() };
        match (fails, reply) {
            (true, Reply::LoadedTexture { .. }) => {
                Reply::TextureFailed(CombinedError::Resource(error))
            },
            (true, _) => Reply::Failed(error),
            (false, reply) => reply,
        }
    }

    fn drive<T, R>(&mut self, first: Step<T, R>, resume: fn(T, Reply) -> Step<T, R>) -> R {
        let mut step = first;
        loop {
            match step {
                Step::Done(result) => return result,
                Step::Ask { request, task } => {
                    let reply = self.answer(request);
                    step = resume(task, reply);
                },
            }
        }
    }

    /// The requests for other things than the text of shaders.
    fn decisions(&self) -> Vec<&str> {
        let mut found: Vec<&str> = Vec::new();
        for label in &self.trace {
            let seen = ["load", "context", "link"].iter().any(|word| label.starts_with(word));
            if !seen {
                found.push(label);
            }
        }
        found
    }
}

fn size_of(texture: RawTexture) -> (u16, u16) {
    match texture.kind {
        Kind::D2(width, height, _) => (width, height),
        Kind::Cube(side) => (side, side),
    }
}

fn window(width: u16, height: u16) -> (RenderTargetView, DepthStencilView) {
    (
        RenderTargetView { id: 1, width, height },
        DepthStencilView { id: 2, width, height },
    )
}

fn make(
    backend: &mut Backend,
    width: u16,
    height: u16,
) -> (Result<Renderer, RenderError>, Option<RenderError>) {
    let (color, depth) = window(width, height);
    let step = Renderer::new(
        color,
        depth,
        4096,
        AaMode::MsaaX8,
        CloudMode::Regular,
        FluidMode::Shiny,
        LightingMode::Ashikmin,
    );
    backend.drive(step, SetupTask::resume)
}

fn made(width: u16, height: u16) -> Renderer {
    make(&mut Backend::new(100), width, height).0.unwrap()
}

fn without_shadow_map() -> Renderer {
    make(&mut Backend::failing(100, "pipeline Shadow"), 64, 32).0.unwrap()
}

const SCENE: [&str; 9] = [
    "pipeline Skybox",
    "pipeline Figure",
    "pipeline Terrain",
    "pipeline Fluid",
    "pipeline Sprite",
    "pipeline Ui",
    "pipeline LodTerrain",
    "pipeline PostProcess",
    "pipeline PlayerShadow",
];

const TARGETS: [&str; 5] = [
    "texture D2(64, 32, Multi(8))",
    "resource view",
    "target view",
    "texture D2(64, 32, Multi(8))",
    "depth view",
];

fn concat(parts: &[&[&'static str]]) -> Vec<&'static str> {
    let mut all: Vec<&'static str> = Vec::new();
    for part in parts {
        all.extend_from_slice(part);
    }
    all
}

#[test]
fn renderers_are_made_in_order() {
    let mut backend = Backend::new(100);
    let (result, shadow_error) = make(&mut backend, 64, 32);
    assert!(shadow_error.is_none());
    let renderer = result.unwrap();
    let expected = concat(&[
        &SCENE,
        &["pipeline Shadow"],
        &TARGETS,
        &["texture Cube(16)", "sampler", "depth view", "resource view"],
        &["encoder", "linear sampler", "image voxygen.texture.noise", "encoder"],
    ]);
    assert_eq!(backend.decisions(), expected);
    assert_eq!(renderer.win_color_view, window(64, 32).0);
    assert_eq!(renderer.win_depth_view, window(64, 32).1);
    assert_eq!(renderer.max_texture_size, 4096);
    assert_eq!(
        renderer.modes,
        Modes {
            aa: AaMode::MsaaX8,
            cloud: CloudMode::Regular,
            fluid: FluidMode::Shiny,
            lighting: LightingMode::Ashikmin,
        },
    );
    // 51 replies for the pipelines, numbered from 100 on.
    let first = 151;
    assert_eq!(renderer.pipelines.skybox.id, 100 + 13);
    assert_eq!(renderer.pipelines.player_shadow.id, 100 + 45);
    assert_eq!(renderer.targets.color_res.id, first + 1);
    assert_eq!(renderer.targets.color_view.id, first + 2);
    assert_eq!(renderer.targets.depth_stencil_view.id, first + 4);
    let shadow_map = renderer.shadow_map.unwrap();
    assert_eq!(shadow_map.pipeline.id, 150);
    assert_eq!(shadow_map.sampler.id, first + 6);
    assert_eq!(shadow_map.depth_stencil_view.id, first + 7);
    assert_eq!(shadow_map.res.id, first + 8);
    assert_eq!(shadow_map.encoder.id, first + 9);
    assert_eq!(renderer.sampler.id, first + 10);
    assert_eq!(renderer.noise_tex.srv.id, first + 11);
    assert_eq!(renderer.encoder.id, first + 12);
}

#[test]
fn the_longer_side_decides_the_shadow_map() {
    let mut backend = Backend::new(100);
    let renderer = make(&mut backend, 32, 401).0.unwrap();
    assert_eq!(renderer.get_shadow_resolution(), Vec2::new(100, 100));
    assert!(backend.trace.contains(&"texture Cube(100)".to_string()));
}

#[test]
fn a_renderer_without_a_scene_pipeline_is_not_made() {
    let mut backend = Backend::failing(100, "pipeline Ui");
    match make(&mut backend, 64, 32) {
        (Err(RenderError::PipelineError(error)), None) => assert_eq!(error.message, "no"),
        other => panic!("{:?}", other),
    }
    assert_eq!(backend.decisions(), SCENE[..6].to_vec());
}

#[test]
fn a_renderer_without_targets_is_not_made() {
    let mut backend = Backend::failing(100, "target view");
    match make(&mut backend, 64, 32) {
        (Err(RenderError::CombinedError(CombinedError::Target(error))), None) => {
            assert_eq!(error.message, "no");
        },
        other => panic!("{:?}", other),
    }
    assert_eq!(backend.trace.last().unwrap(), "target view");
}

#[test]
fn a_renderer_without_noise_is_not_made() {
    let mut backend = Backend::failing(100, "image");
    match make(&mut backend, 64, 32) {
        (Err(RenderError::CombinedError(CombinedError::Resource(error))), None) => {
            assert_eq!(error.message, "no");
        },
        other => panic!("{:?}", other),
    }
    assert_eq!(backend.trace.last().unwrap(), "image voxygen.texture.noise");
}

#[test]
fn a_renderer_needs_no_shadow_pipeline() {
    for cause in ["link set", "pipeline Shadow"] {
        let mut backend = Backend::failing(100, cause);
        let (result, shadow_error) = make(&mut backend, 64, 32);
        let renderer = result.unwrap();
        assert!(matches!(shadow_error, Some(RenderError::PipelineError(_))));
        assert_eq!(renderer.shadow_map, None);
        // No views are asked for.
        assert!(!backend.trace.contains(&"texture Cube(16)".to_string()));
        assert_eq!(backend.trace.iter().filter(|label| *label == "encoder").count(), 1);
    }
}

#[test]
fn a_renderer_needs_no_shadow_views() {
    let mut backend = Backend::failing(100, "texture Cube");
    let (result, shadow_error) = make(&mut backend, 64, 32);
    let renderer = result.unwrap();
    assert!(matches!(
        shadow_error,
        Some(RenderError::CombinedError(CombinedError::Texture(_))),
    ));
    assert_eq!(renderer.shadow_map, None);
    assert_eq!(renderer.get_shadow_resolution(), Vec2::new(1, 1));
    assert_eq!(
        backend.decisions()[15..].to_vec(),
        ["texture Cube(16)", "linear sampler", "image voxygen.texture.noise", "encoder"],
    );
}

#[test]
fn resizing_replaces_the_targets() {
    let mut renderer = made(64, 32);
    renderer.win_color_view.width = 50;
    let mut backend = Backend::new(500);
    let (resized, result) = backend.drive(renderer.on_resize(), ResizeTask::resume);
    assert!(result.is_ok());
    assert_eq!(backend.trace[0], format!("texture {:?}", Kind::D2(50, 32, Samples::Multi(8))));
    assert_eq!(backend.trace.len(), 5);
    let mut expected = made(64, 32);
    expected.win_color_view.width = 50;
    expected.targets.color_res.id = 501;
    expected.targets.color_view = RenderTargetView { id: 502, width: 50, height: 32 };
    expected.targets.depth_stencil_view = DepthStencilView { id: 504, width: 50, height: 32 };
    assert_eq!(resized, expected);
    assert_eq!(resized.get_shadow_resolution(), Vec2::new(16, 16));
}

#[test]
fn windows_without_an_area_are_left_alone() {
    for (width, height) in [(0, 32), (64, 0), (0, 0)] {
        let mut renderer = made(64, 32);
        renderer.win_color_view.width = width;
        renderer.win_color_view.height = height;
        let mut backend = Backend::new(500);
        let (resized, result) = backend.drive(renderer.on_resize(), ResizeTask::resume);
        assert!(result.is_ok());
        assert!(backend.trace.is_empty());
        assert_eq!(resized.targets, made(64, 32).targets);
    }
}

#[test]
fn a_failed_resize_keeps_the_targets() {
    let mut backend = Backend::failing(500, "depth view");
    let (resized, result) = backend.drive(made(64, 32).on_resize(), ResizeTask::resume);
    match result {
        Err(RenderError::CombinedError(CombinedError::Target(error))) => {
            assert_eq!(error.message, "no");
        },
        other => panic!("{:?}", other),
    }
    assert_eq!(resized, made(64, 32));
}

#[test]
fn recreation_replaces_the_pipelines() {
    let mut backend = Backend::new(500);
    let (renderer, rebuild) =
        backend.drive(made(64, 32).recreate_pipelines(), RecreateTask::resume);
    assert!(matches!(rebuild, Rebuild::Complete));
    let mut expected = made(64, 32);
    expected.pipelines.skybox.id = 513;
    expected.pipelines.figure.id = 517;
    expected.pipelines.terrain.id = 521;
    expected.pipelines.fluid.id = 525;
    expected.pipelines.sprite.id = 529;
    expected.pipelines.ui.id = 533;
    expected.pipelines.lod_terrain.id = 537;
    expected.pipelines.postprocess.id = 541;
    expected.pipelines.player_shadow.id = 545;
    let mut shadow_map = expected.shadow_map.unwrap();
    shadow_map.pipeline.id = 550;
    expected.shadow_map = Some(shadow_map);
    assert_eq!(renderer, expected);
}

#[test]
fn recreation_makes_no_shadow_map() {
    let mut backend = Backend::new(500);
    let (renderer, rebuild) =
        backend.drive(without_shadow_map().recreate_pipelines(), RecreateTask::resume);
    assert!(matches!(rebuild, Rebuild::Complete));
    assert_eq!(renderer.shadow_map, None);
    assert_eq!(renderer.pipelines.skybox.id, 513);
}

#[test]
fn recreation_without_a_shadow_pipeline_keeps_the_old_one() {
    let mut backend = Backend::failing(500, "pipeline Shadow");
    let (renderer, rebuild) =
        backend.drive(made(64, 32).recreate_pipelines(), RecreateTask::resume);
    assert!(matches!(rebuild, Rebuild::WithoutShadowMap(RenderError::PipelineError(_))));
    assert_eq!(renderer.shadow_map, made(64, 32).shadow_map);
    assert_eq!(renderer.pipelines.skybox.id, 513);
}

#[test]
fn a_failed_recreation_keeps_the_pipelines() {
    let mut backend = Backend::failing(500, "pipeline PlayerShadow");
    let (renderer, rebuild) =
        backend.drive(made(64, 32).recreate_pipelines(), RecreateTask::resume);
    assert!(matches!(rebuild, Rebuild::Failed(RenderError::PipelineError(_))));
    assert_eq!(renderer, made(64, 32));
    assert_eq!(backend.decisions(), SCENE.to_vec());
}

#[test]
fn anti_aliasing_can_be_changed() {
    let mut backend = Backend::new(500);
    let step = made(64, 32).set_aa_mode(AaMode::SsaaX4);
    let (renderer, result) = backend.drive(step, ModeTask::resume);
    assert!(matches!(result, Ok(Rebuild::Complete)));
    assert_eq!(renderer.modes, Modes { aa: AaMode::SsaaX4, ..made(64, 32).modes });
    assert_eq!(backend.trace[0], "texture D2(128, 64, Single)");
    assert!(backend.trace.contains(&"load voxygen.shaders.antialias.none".to_string()));
    assert_eq!(renderer.targets.color_view.id, 502);
    assert_eq!(renderer.pipelines.skybox.id, 518);
}

#[test]
fn clouds_can_be_changed() {
    let mut backend = Backend::new(500);
    let step = made(64, 32).set_cloud_mode(CloudMode::Off);
    let (renderer, result) = backend.drive(step, ModeTask::resume);
    assert!(result.is_ok());
    assert_eq!(renderer.modes, Modes { cloud: CloudMode::Off, ..made(64, 32).modes });
    assert!(backend.trace.contains(&"load voxygen.shaders.include.cloud.none".to_string()));
    assert_eq!(backend.decisions()[..5].to_vec(), TARGETS.to_vec());
}

#[test]
fn fluids_can_be_changed() {
    let mut backend = Backend::new(500);
    let step = made(64, 32).set_fluid_mode(FluidMode::Cheap);
    let (renderer, result) = backend.drive(step, ModeTask::resume);
    assert!(result.is_ok());
    assert_eq!(renderer.modes, Modes { fluid: FluidMode::Cheap, ..made(64, 32).modes });
    assert!(backend.trace.contains(&"load voxygen.shaders.fluid-frag.cheap".to_string()));
}

#[test]
fn lighting_can_be_changed() {
    let mut backend = Backend::new(500);
    let step = made(64, 32).set_lighting_mode(LightingMode::BlinnPhong);
    let (renderer, result) = backend.drive(step, ModeTask::resume);
    assert!(result.is_ok());
    assert_eq!(
        renderer.modes,
        Modes { lighting: LightingMode::BlinnPhong, ..made(64, 32).modes },
    );
    let context = backend.trace.iter().find(|label| label.starts_with("context")).unwrap();
    assert!(context.contains("#define LIGHTING_ALGORITHM LIGHTING_ALGORITHM_BLINN_PHONG\n"));
}

#[test]
fn a_new_mode_stays_when_the_targets_fail() {
    let mut backend = Backend::failing(500, "texture");
    let step = made(64, 32).set_aa_mode(AaMode::Off);
    let (renderer, result) = backend.drive(step, ModeTask::resume);
    assert!(matches!(
        result,
        Err(RenderError::CombinedError(CombinedError::Texture(_))),
    ));
    let mut expected = made(64, 32);
    expected.modes.aa = AaMode::Off;
    assert_eq!(renderer, expected);
    assert_eq!(backend.trace.len(), 1);
}

#[test]
fn a_new_mode_stays_when_the_pipelines_fail() {
    let mut backend = Backend::failing(500, "link");
    let step = made(64, 32).set_cloud_mode(CloudMode::Off);
    let (renderer, result) = backend.drive(step, ModeTask::resume);
    assert!(matches!(result, Ok(Rebuild::Failed(RenderError::PipelineError(_)))));
    assert_eq!(renderer.modes.cloud, CloudMode::Off);
    assert_eq!(renderer.pipelines, made(64, 32).pipelines);
    assert_eq!(renderer.targets.color_view.id, 502);
}

#[test]
fn a_mode_can_be_changed_without_a_window() {
    let mut renderer = made(64, 32);
    renderer.win_color_view.width = 0;
    let mut backend = Backend::new(500);
    let (renderer, result) =
        backend.drive(renderer.set_fluid_mode(FluidMode::Cheap), ModeTask::resume);
    assert!(result.is_ok());
    assert_eq!(renderer.targets, made(64, 32).targets);
    assert_eq!(renderer.pipelines.skybox.id, 513);
}

#[test]
fn frames_are_submitted_shadows_first() {
    let renderer = made(64, 32);
    let (scene, shadows) = (renderer.encoder, renderer.shadow_map.unwrap().encoder);
    let mut backend = Backend::new(500);
    let (flushed, rebuild) = backend.drive(renderer.flush(), FlushTask::resume);
    assert!(rebuild.is_none());
    assert_eq!(
        backend.commands,
        [
            Command::Flush { encoder: shadows },
            Command::Flush { encoder: scene },
            Command::Cleanup,
        ],
    );
    assert_eq!(backend.trace, ["submit"]);
    assert_eq!(flushed, made(64, 32));
}

#[test]
fn frames_without_a_shadow_map_are_submitted() {
    let renderer = without_shadow_map();
    let scene = renderer.encoder;
    let mut backend = Backend::new(500);
    backend.drive(renderer.flush(), FlushTask::resume);
    assert_eq!(backend.commands, [Command::Flush { encoder: scene }, Command::Cleanup]);
}

#[test]
fn changed_shaders_are_reloaded_after_a_frame() {
    let mut backend = Backend { reloaded: true, ..Backend::new(500) };
    let (flushed, rebuild) = backend.drive(made(64, 32).flush(), FlushTask::resume);
    assert!(matches!(rebuild, Some(Rebuild::Complete)));
    assert_eq!(backend.trace[0], "submit");
    assert_eq!(flushed.pipelines.skybox.id, 514);
    assert_eq!(flushed.targets, made(64, 32).targets);
}

#[test]
fn broken_shaders_are_not_taken_over() {
    let mut backend = Backend { reloaded: true, ..Backend::failing(500, "link") };
    let (flushed, rebuild) = backend.drive(made(64, 32).flush(), FlushTask::resume);
    assert!(matches!(rebuild, Some(Rebuild::Failed(RenderError::PipelineError(_)))));
    assert_eq!(flushed, made(64, 32));
}

#[test]
fn reloaded_shaders_with_unknown_files_are_reported() {
    let text = Some("#include <unknown.glsl>");
    let mut backend = Backend { reloaded: true, text, ..Backend::new(500) };
    let (flushed, rebuild) = backend.drive(made(64, 32).flush(), FlushTask::resume);
    assert_eq!(flushed, made(64, 32));
    match rebuild {
        Some(Rebuild::Failed(RenderError::IncludeError(error))) => {
            assert!(format!("{:?}", error).contains("unknown.glsl"));
        },
        other => panic!("{:?}", other),
    }
}

#[test]
fn supersampling_is_undone() {
    let mut backend = Backend::new(500);
    let step = made(64, 32).set_aa_mode(AaMode::SsaaX4);
    let (doubled, _) = backend.drive(step, ModeTask::resume);
    let view = doubled.targets.color_view;
    assert_eq!((view.width, view.height), (128, 64));
    let (undone, _) = backend.drive(doubled.set_aa_mode(AaMode::Off), ModeTask::resume);
    let view = undone.targets.color_view;
    assert_eq!((view.width, view.height), (64, 32));
    let view = undone.targets.depth_stencil_view;
    assert_eq!((view.width, view.height), (64, 32));
    assert_eq!(undone.get_shadow_resolution(), Vec2::new(16, 16));
    assert_eq!(undone.get_resolution(), Vec2::new(64, 32));
}

#[test]
fn screenshots_are_upright_pictures() {
    let renderer = made(2, 3);
    let encoder = renderer.encoder.id;
    let mut backend = Backend::new(500);
    backend.pixels = (0u8..6).map(|i| [4 * i, 4 * i + 1, 4 * i + 2, 4 * i + 3]).collect();
    let (after, rebuild, result) = backend.drive(renderer.create_screenshot(), ScreenshotTask::resume);
    let copy = format!("copy {} 1 500 0", encoder);
    assert_eq!(backend.trace, ["download 6", copy.as_str(), "submit", "read 500 6"]);
    assert_eq!(after, made(2, 3));
    assert!(rebuild.is_none());
    let image = result.unwrap();
    assert!(matches!(image, image::DynamicImage::ImageRgba8(_)));
    let picture = image.to_rgba8();
    assert_eq!(picture.dimensions(), (2, 3));
    let expected: Vec<u8> = (16u8..24).chain(8..16).chain(0..8).collect();
    assert_eq!(picture.into_raw(), expected);
}

#[test]
fn windows_without_an_area_have_no_screenshot() {
    for (width, height) in [(0, 3), (2, 0), (0, 0)] {
        let mut renderer = made(2, 3);
        renderer.win_color_view.width = width;
        renderer.win_color_view.height = height;
        let mut backend = Backend::new(500);
        let (after, rebuild, result) =
            backend.drive(renderer.create_screenshot(), ScreenshotTask::resume);
        match result {
            Err(RenderError::CopyError(error)) => assert_eq!(error.message, "no area"),
            other => panic!("{:?}", other.map(|image| image.to_rgba8().dimensions())),
        }
        assert!(rebuild.is_none());
        assert!(backend.commands.is_empty());
        assert_eq!(backend.trace[0], "download 0");
        assert_eq!(backend.trace.len(), 2);
        assert_eq!(after.pipelines, made(2, 3).pipelines);
    }
}

#[test]
fn screenshots_reload_changed_shaders() {
    let mut backend = Backend { reloaded: true, ..Backend::new(500) };
    backend.pixels = vec![[0; 4]; 6];
    let (after, rebuild, result) =
        backend.drive(made(2, 3).create_screenshot(), ScreenshotTask::resume);
    assert!(result.is_ok());
    assert!(matches!(rebuild, Some(Rebuild::Complete)));
    assert_eq!(after.pipelines.skybox.id, 516);
    assert_eq!(backend.trace.last().unwrap(), "read 500 6");
}

#[test]
fn screenshots_say_what_failed() {
    let mut backend = Backend::failing(500, "download");
    let (after, rebuild, result) =
        backend.drive(made(2, 3).create_screenshot(), ScreenshotTask::resume);
    assert!(matches!(result, Err(RenderError::BufferCreationError(_))));
    assert!(rebuild.is_none());
    assert_eq!((after, backend.trace.len()), (made(2, 3), 1));

    let mut backend = Backend::failing(500, "copy");
    let (after, rebuild, result) =
        backend.drive(made(2, 3).create_screenshot(), ScreenshotTask::resume);
    assert!(matches!(result, Err(RenderError::CopyError(_))));
    assert!(rebuild.is_none());
    assert_eq!((after, backend.trace.len()), (made(2, 3), 2));

    let mut backend = Backend::failing(500, "read");
    let (after, rebuild, result) =
        backend.drive(made(2, 3).create_screenshot(), ScreenshotTask::resume);
    assert!(matches!(result, Err(RenderError::MappingError(_))));
    assert!(rebuild.is_none());
    assert_eq!((after, backend.trace.len()), (made(2, 3), 4));
}

#[test]
fn rows_are_reversed_and_remainders_dropped() {
    let pixels: Vec<[u8; 4]> = (0u8..5).map(|i| [i; 4]).collect();
    assert_eq!(
        flip_rows(2, &pixels),
        [2, 2, 2, 2, 3, 3, 3, 3, 0, 0, 0, 0, 1, 1, 1, 1],
    );
    assert_eq!(flip_rows(6, &pixels), []);
}

#[test]
fn reversed_rows_can_be_reversed_again() {
    let pixels: Vec<[u8; 4]> = (0u8..6).map(|i| [i; 4]).collect();
    let once: Vec<[u8; 4]> =
        flip_rows(3, &pixels).chunks(4).map(|c| [c[0], c[1], c[2], c[3]]).collect();
    let twice: Vec<[u8; 4]> =
        flip_rows(3, &once).chunks(4).map(|c| [c[0], c[1], c[2], c[3]]).collect();
    assert_ne!(once, pixels);
    assert_eq!(twice, pixels);
}

/// Answers requests for a buffer; the request with the number `fail_at` fails.
fn upload<T, R>(
    first: Step<T, R, UploadRequest<u64>>,
    resume: fn(T, UploadReply) -> Step<T, R, UploadRequest<u64>>,
    fail_at: Option<usize>,
) -> (Vec<UploadRequest<u64>>, R) {
    let mut requests: Vec<UploadRequest<u64>> = Vec::new();
    let mut step = first;
    loop {
        match step {
            Step::Done(result) => return (requests, result),
            Step::Ask { request, task } => {
                let reply = if fail_at == Some(requests.len()) {
                    UploadReply::Failed(BackendError { message: "no".to_string() })
                } else {
                    match &request {
                        UploadRequest::Create { .. } => UploadReply::Created(Buffer { id: 500 }),
                        UploadRequest::Write { .. } => UploadReply::Written,
                    }
                };
                requests.push(request);
                step = resume(task, reply);
            },
        }
    }
}

#[test]
fn constants_are_created_with_their_values() {
    let renderer = made(64, 32);
    let vals: [u64; 3] = [7, 5, 9];
    let (requests, result) = upload(renderer.create_consts(&vals), ConstsTask::resume, None);
    assert_eq!(result.unwrap().buf, Buffer { id: 500 });
    assert_eq!(
        requests,
        [
            UploadRequest::Create { usage: BufferUsage::Constants, len: 3 },
            UploadRequest::Write {
                encoder: renderer.encoder,
                buffer: Buffer { id: 500 },
                values: vec![7, 5, 9],
            },
        ],
    );
}

#[test]
fn constants_that_cannot_be_written_are_not_handed_out() {
    let step = made(64, 32).create_consts(&[1u64]);
    match upload(step, ConstsTask::resume, Some(1)).1 {
        Err(RenderError::UpdateError(error)) => assert_eq!(error.message, "no"),
        _ => panic!("no update error"),
    }
}

#[test]
fn instances_are_created_with_their_values() {
    let renderer = made(64, 32);
    let vals: [u64; 4] = [1, 2, 3, 4];
    let (requests, result) =
        upload(renderer.create_instances(&vals), InstancesTask::resume, None);
    let instances = result.unwrap();
    assert_eq!((instances.ibuf, instances.count), (Buffer { id: 500 }, 4));
    assert_eq!(
        requests,
        [
            UploadRequest::Create { usage: BufferUsage::Instances, len: 4 },
            UploadRequest::Write {
                encoder: renderer.encoder,
                buffer: Buffer { id: 500 },
                values: vec![1, 2, 3, 4],
            },
        ],
    );
}

#[test]
fn instances_say_what_failed() {
    let step = made(64, 32).create_instances(&[1u64, 2]);
    let (requests, result) = upload(step, InstancesTask::resume, Some(0));
    assert!(matches!(result, Err(RenderError::BufferCreationError(_))));
    assert_eq!(requests.len(), 1);

    let step = made(64, 32).create_instances(&[1u64, 2]);
    let (requests, result) = upload(step, InstancesTask::resume, Some(1));
    assert!(matches!(result, Err(RenderError::UpdateError(_))));
    assert_eq!(requests.len(), 2);
}

#[test]
fn fluids_are_seen_from_both_sides() {
    assert_eq!(PipelineKind::scene(3), PipelineKind::Fluid);
    assert_eq!(format!("{:?}", PipelineKind::Fluid.cull_face()), "Nothing");
    assert_eq!(format!("{:?}", PipelineKind::Terrain.cull_face()), "Back");
}
