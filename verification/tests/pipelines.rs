use glsl_include::Context;
use voxygen_render::create_pipelines::{
    create_pipelines, link_set_sources, link_sources, scene_pipeline, shadow_pipeline,
    BuiltPipelines, PipelinesTask,
};
use voxygen_render::error::{BackendError, IncludeError, RenderError};
use voxygen_render::exchange::{Primitive, Reply, Request, Shaders, Step};
use voxygen_render::modes::{AaMode, CloudMode, FluidMode, LightingMode, Modes};
use voxygen_render::pipelines::PipelineKind;
use voxygen_render::resources::{PipelineState, Program, ShaderSet};
use voxygen_render::state::{
    Comparison, CullFace, FrontFace, RasterMethod, StencilOp,
};

type PipelinesStep = Step<PipelinesTask, Result<BuiltPipelines, RenderError>>;

fn modes() -> Modes {
    Modes {
        aa: AaMode::MsaaX4,
        cloud: CloudMode::Regular,
        fluid: FluidMode::Shiny,
        lighting: LightingMode::BlinnPhong,
    }
}

fn failed(message: &str) -> Reply {
    Reply::Failed(BackendError { message: message.to_string() })
}

/// Answers requests until `stop` replies were given or the creation has ended. The reply
/// with the number `fail_at` is a failure; the text of every shader is `body`.
fn run(
    modes: Modes,
    body: &dyn Fn(&str) -> String,
    fail_at: Option<usize>,
) -> (Vec<String>, Result<BuiltPipelines, RenderError>) {
    let mut trace: Vec<String> = Vec::new();
    let mut step: PipelinesStep = create_pipelines(modes);
    let mut next_id: u32 = 100;
    loop {
        match step {
            Step::Done(result) => return (trace, result),
            Step::Ask { request, task } => {
                let index = trace.len();
                let id = next_id;
                next_id += 1;
                let (label, reply) = match request {
                    Request::LoadShader { specifier } => {
                        let text = body(&specifier);
                        (specifier, Reply::Shader(text))
                    },
                    Request::BuildContext { files } => {
                        let names: Vec<String> = files.into_iter().map(|file| file.0).collect();
                        (names.join(" "), Reply::Context(Context::new()))
                    },
                    Request::LinkProgram { vertex, fragment } => {
                        (format!("link {} {}", vertex, fragment), Reply::Program(Program { id }))
                    },
                    Request::LinkShaderSet { vertex, geometry, fragment } => (
                        format!("link {} {} {}", vertex, geometry, fragment),
                        Reply::ShaderSet(ShaderSet { id }),
                    ),
                    Request::CreatePipeline { info } => (
                        format!("create {:?}", info.kind),
                        Reply::Pipeline(PipelineState { id }),
                    ),
                    other => panic!("unexpected request {:?}", other),
                };
                trace.push(label);
                let reply = if fail_at == Some(index) { failed("no") } else { reply };
                step = task.resume(reply);
            },
        }
    }
}

fn plain(specifier: &str) -> String {
    format!("text of {}", specifier)
}

#[test]
fn all_pipelines_are_created_in_order() {
    let (trace, result) = run(modes(), &plain, None);
    assert_eq!(trace.len(), 51);
    assert_eq!(trace[0], "voxygen.shaders.include.constants");
    assert_eq!(trace[6], "voxygen.shaders.include.lod");
    assert_eq!(trace[7], "voxygen.shaders.antialias.msaa-x4");
    assert_eq!(trace[8], "voxygen.shaders.include.cloud.regular");
    assert_eq!(
        trace[9],
        "constants.glsl globals.glsl sky.glsl light.glsl srgb.glsl random.glsl lod.glsl \
         anti-aliasing.glsl cloud.glsl"
    );
    assert_eq!(trace[10], "voxygen.shaders.skybox-vert");
    assert_eq!(trace[11], "voxygen.shaders.skybox-frag");
    assert_eq!(
        trace[12],
        "link text of voxygen.shaders.skybox-vert text of voxygen.shaders.skybox-frag"
    );
    assert_eq!(trace[13], "create Skybox");
    let kinds: Vec<&str> = trace
        .iter()
        .filter(|label| label.starts_with("create "))
        .map(|label| &label[7..])
        .collect();
    assert_eq!(
        kinds,
        vec![
            "Skybox", "Figure", "Terrain", "Fluid", "Sprite", "Ui", "LodTerrain", "PostProcess",
            "PlayerShadow", "Shadow",
        ]
    );
    assert_eq!(trace[23], "voxygen.shaders.fluid-frag.shiny");
    assert_eq!(trace[42], "voxygen.shaders.figure-vert");
    assert_eq!(trace[43], "voxygen.shaders.player-shadow-frag");
    assert_eq!(trace[46], "voxygen.shaders.light-shadows-vert");
    assert_eq!(trace[47], "voxygen.shaders.light-shadows-geom");
    assert_eq!(trace[48], "voxygen.shaders.light-shadows-frag");

    let built = result.unwrap();
    assert_eq!(built.scene.skybox, PipelineState { id: 113 });
    assert_eq!(built.scene.figure, PipelineState { id: 117 });
    assert_eq!(built.scene.terrain, PipelineState { id: 121 });
    assert_eq!(built.scene.fluid, PipelineState { id: 125 });
    assert_eq!(built.scene.sprite, PipelineState { id: 129 });
    assert_eq!(built.scene.ui, PipelineState { id: 133 });
    assert_eq!(built.scene.lod_terrain, PipelineState { id: 137 });
    assert_eq!(built.scene.postprocess, PipelineState { id: 141 });
    assert_eq!(built.scene.player_shadow, PipelineState { id: 145 });
    assert_eq!(built.shadow.unwrap(), PipelineState { id: 150 });
}

#[test]
fn a_program_that_does_not_link_ends_the_creation() {
    let (trace, result) = run(modes(), &plain, Some(16));
    assert_eq!(trace.len(), 17);
    match result {
        Err(RenderError::PipelineError(error)) => assert_eq!(error.message, "no"),
        other => panic!("{:?}", other),
    }
}

#[test]
fn a_pipeline_that_is_refused_ends_the_creation() {
    let (trace, result) = run(modes(), &plain, Some(45));
    assert_eq!(trace.len(), 46);
    assert!(matches!(result, Err(RenderError::PipelineError(_))));
}

#[test]
fn a_shadow_set_that_does_not_compile_is_left_out() {
    let (trace, result) = run(modes(), &plain, Some(49));
    assert_eq!(trace.len(), 50);
    let built = result.unwrap();
    match built.shadow {
        Err(RenderError::PipelineError(error)) => assert_eq!(error.message, "no"),
        other => panic!("{:?}", other),
    }
    assert_eq!(built.scene.player_shadow, PipelineState { id: 145 });
}

#[test]
fn a_shadow_pipeline_that_is_refused_is_left_out() {
    let (trace, result) = run(modes(), &plain, Some(50));
    assert_eq!(trace.len(), 51);
    assert!(matches!(result.unwrap().shadow, Err(RenderError::PipelineError(_))));
}

#[test]
fn expansion_normalizes_the_ends_of_lines() {
    let body = |_: &str| "a\r\nb\n".to_string();
    let (trace, _) = run(modes(), &body, None);
    assert_eq!(trace[12], "link a\nb a\nb");
}

#[test]
fn a_missing_file_ends_the_creation() {
    let body = |specifier: &str| {
        if specifier == "voxygen.shaders.figure-frag" {
            "void main() {}\n#include <missing.glsl>\n".to_string()
        } else {
            "void main() {}".to_string()
        }
    };
    let (trace, result) = run(modes(), &body, None);
    assert_eq!(trace.len(), 16);
    match result {
        Err(RenderError::IncludeError(IncludeError::FileNotFound {
            in_file,
            line_num,
            problem_include,
        })) => {
            assert_eq!(in_file, None);
            assert_eq!(line_num, 1);
            assert_eq!(problem_include, "missing.glsl");
        },
        other => panic!("{:?}", other),
    }
}

#[test]
fn a_missing_file_in_a_shadow_shader_leaves_the_shadow_pipeline_out() {
    let body = |specifier: &str| {
        if specifier == "voxygen.shaders.light-shadows-geom" {
            "#include <missing.glsl>".to_string()
        } else {
            "void main() {}".to_string()
        }
    };
    let (trace, result) = run(modes(), &body, None);
    assert_eq!(trace.len(), 49);
    assert_eq!(missing_name(result.unwrap().shadow), "missing.glsl");
}

#[test]
fn the_context_gets_the_configured_constants() {
    let mut step = create_pipelines(modes());
    let mut loaded: usize = 0;
    let files = loop {
        step = match step {
            Step::Ask { request: Request::LoadShader { .. }, task } => {
                loaded += 1;
                task.resume(Reply::Shader(format!("file {}", loaded)))
            },
            Step::Ask { request: Request::BuildContext { files }, .. } => break files,
            _ => panic!("unexpected step"),
        };
    };
    assert_eq!(loaded, 9);
    assert_eq!(files.len(), 9);
    assert_eq!(files[0].0, "constants.glsl");
    assert_eq!(
        files[0].1,
        "\nfile 1\n\n#define VOXYGEN_COMPUTATION_PREERENCE \
         VOXYGEN_COMPUTATION_PREERENCE_FRAGMENT\n#define FLUID_MODE FLUID_MODE_SHINY\n\
         #define CLOUD_MODE CLOUD_MODE_REGULAR\n\
         #define LIGHTING_ALGORITHM LIGHTING_ALGORITHM_BLINN_PHONG\n\n"
    );
    assert_eq!(files[7], ("anti-aliasing.glsl".to_string(), "file 8".to_string()));
    assert_eq!(files[8], ("cloud.glsl".to_string(), "file 9".to_string()));
}

fn missing(name: &str) -> IncludeError {
    IncludeError::FileNotFound {
        in_file: Some("sky.glsl".to_string()),
        line_num: 3,
        problem_include: name.to_string(),
    }
}

#[test]
fn the_first_error_among_expansions_counts() {
    let both = link_sources(Ok("v".to_string()), Ok("f".to_string()));
    assert_eq!(both.unwrap(), ("v".to_string(), "f".to_string()));
    match link_sources(Err(missing("a")), Err(missing("b"))) {
        Err(RenderError::IncludeError(IncludeError::FileNotFound { problem_include, .. })) => {
            assert_eq!(problem_include, "a")
        },
        other => panic!("{:?}", other),
    }
    let recursive = IncludeError::RecursiveInclude {
        in_file: Some("a".to_string()),
        line_num: 0,
        problem_include: "a".to_string(),
        include_stack: vec!["a".to_string()],
    };
    match link_sources(Ok("v".to_string()), Err(recursive)) {
        Err(RenderError::IncludeError(IncludeError::RecursiveInclude {
            include_stack, ..
        })) => {
            assert_eq!(include_stack, vec!["a".to_string()])
        },
        other => panic!("{:?}", other),
    }
}

/// The name of the file that an expansion did not find.
fn missing_name<T: std::fmt::Debug>(result: Result<T, RenderError>) -> String {
    match result {
        Err(RenderError::IncludeError(IncludeError::FileNotFound { problem_include, .. })) => {
            problem_include
        },
        other => panic!("{:?}", other),
    }
}

#[test]
fn a_shader_set_needs_all_expansions() {
    let ok = |text: &str| Ok(text.to_string());
    assert_eq!(
        link_set_sources(ok("v"), ok("g"), ok("f")).unwrap(),
        ("v".to_string(), "g".to_string(), "f".to_string())
    );
    let all = link_set_sources(Err(missing("a")), Err(missing("b")), Err(missing("c")));
    assert_eq!(missing_name(all), "a");
    assert_eq!(missing_name(link_set_sources(ok("v"), Err(missing("b")), Err(missing("c")))), "b");
    assert_eq!(missing_name(link_set_sources(ok("v"), ok("g"), Err(missing("c")))), "c");
}

#[test]
fn scene_pipelines_are_multisampled() {
    let info = scene_pipeline(PipelineKind::Terrain, Program { id: 3 });
    assert_eq!(info.kind, PipelineKind::Terrain);
    assert_eq!(info.shaders, Shaders::Program(Program { id: 3 }));
    assert_eq!(info.primitive, Primitive::TriangleList);
    assert_eq!(info.rasterizer.front_face, FrontFace::CounterClockwise);
    assert_eq!(info.rasterizer.cull_face, CullFace::Back);
    assert_eq!(info.rasterizer.method, RasterMethod::Fill);
    assert_eq!(info.rasterizer.offset, None);
    assert!(info.rasterizer.multisample);
    assert_eq!(info.depth_stencil, None);
    let fluid = scene_pipeline(PipelineKind::Fluid, Program { id: 4 });
    assert_eq!(fluid.rasterizer.cull_face, CullFace::Nothing);
}

#[test]
fn the_silhouette_passes_every_depth_and_equal_stencils() {
    let info = scene_pipeline(PipelineKind::PlayerShadow, Program { id: 3 });
    let test = info.depth_stencil.unwrap();
    assert_eq!(test.depth.fun, Comparison::Always);
    assert!(!test.depth.write);
    assert_eq!(test.stencil.front, test.stencil.back);
    assert_eq!(test.stencil.front.fun, Comparison::Equal);
    assert_eq!(test.stencil.front.mask_read, 0xff);
    assert_eq!(test.stencil.front.mask_write, 0xff);
    assert_eq!(test.stencil.front.op_fail, StencilOp::Keep);
    assert_eq!(test.stencil.front.op_depth_fail, StencilOp::Keep);
    assert_eq!(test.stencil.front.op_pass, StencilOp::Keep);
}

#[test]
fn the_shadow_pipeline_culls_the_front() {
    let info = shadow_pipeline(ShaderSet { id: 5 });
    assert_eq!(info.kind, PipelineKind::Shadow);
    assert_eq!(info.shaders, Shaders::ShaderSet(ShaderSet { id: 5 }));
    assert_eq!(info.rasterizer.cull_face, CullFace::Front);
    assert!(!info.rasterizer.multisample);
    assert_eq!(CullFace::Front.flipped(), CullFace::Back);
    assert_eq!(CullFace::Nothing.flipped(), CullFace::Nothing);
}
