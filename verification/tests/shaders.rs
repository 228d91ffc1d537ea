use voxygen_render::modes::{AaMode, CloudMode, FluidMode, LightingMode, Modes};
use voxygen_render::pipelines::PipelineKind;
use voxygen_render::shaders::{
    configure_constants, fragment_shader, geometry_shader, load_specifier, name_of_file,
    vertex_shader,
};

fn modes(aa: AaMode, cloud: CloudMode, fluid: FluidMode, lighting: LightingMode) -> Modes {
    Modes { aa, cloud, fluid, lighting }
}

#[test]
fn anti_aliasing_selects_its_shader() {
    let suffixes = [
        (AaMode::Off, "none"),
        (AaMode::Fxaa, "fxaa"),
        (AaMode::MsaaX4, "msaa-x4"),
        (AaMode::MsaaX8, "msaa-x8"),
        (AaMode::MsaaX16, "msaa-x16"),
        (AaMode::SsaaX4, "none"),
    ];
    for (aa, suffix) in suffixes.iter() {
        let modes = modes(*aa, CloudMode::Off, FluidMode::Cheap, LightingMode::Ashikmin);
        assert_eq!(load_specifier(modes, 7), format!("voxygen.shaders.antialias.{}", suffix));
    }
}

#[test]
fn shader_files_have_names_and_assets() {
    let modes = modes(AaMode::Off, CloudMode::Off, FluidMode::Cheap, LightingMode::Ashikmin);
    let expected = [
        ("voxygen.shaders.include.constants", "constants.glsl"),
        ("voxygen.shaders.include.globals", "globals.glsl"),
        ("voxygen.shaders.include.sky", "sky.glsl"),
        ("voxygen.shaders.include.light", "light.glsl"),
        ("voxygen.shaders.include.srgb", "srgb.glsl"),
        ("voxygen.shaders.include.random", "random.glsl"),
        ("voxygen.shaders.include.lod", "lod.glsl"),
        ("voxygen.shaders.antialias.none", "anti-aliasing.glsl"),
        ("voxygen.shaders.include.cloud.none", "cloud.glsl"),
    ];
    for (index, (specifier, name)) in expected.iter().enumerate() {
        assert_eq!(load_specifier(modes, index), *specifier);
        assert_eq!(name_of_file(index), *name);
    }
}

#[test]
fn pipelines_have_their_shaders() {
    assert_eq!(vertex_shader(PipelineKind::PlayerShadow), "voxygen.shaders.figure-vert");
    assert_eq!(
        fragment_shader(PipelineKind::PlayerShadow, FluidMode::Cheap),
        "voxygen.shaders.player-shadow-frag"
    );
    assert_eq!(
        fragment_shader(PipelineKind::Fluid, FluidMode::Cheap),
        "voxygen.shaders.fluid-frag.cheap"
    );
    assert_eq!(
        fragment_shader(PipelineKind::Fluid, FluidMode::Shiny),
        "voxygen.shaders.fluid-frag.shiny"
    );
    assert_eq!(vertex_shader(PipelineKind::LodTerrain), "voxygen.shaders.lod-terrain-vert");
    assert_eq!(
        fragment_shader(PipelineKind::PostProcess, FluidMode::Shiny),
        "voxygen.shaders.postprocess-frag"
    );
    assert_eq!(geometry_shader(), "voxygen.shaders.light-shadows-geom");
}

#[test]
fn constants_carry_the_settings() {
    let text = configure_constants(
        modes(AaMode::Off, CloudMode::Off, FluidMode::Cheap, LightingMode::Ashikmin),
        "#define A 1",
    );
    assert_eq!(
        text,
        r#"
#define A 1

#define VOXYGEN_COMPUTATION_PREERENCE VOXYGEN_COMPUTATION_PREERENCE_FRAGMENT
#define FLUID_MODE FLUID_MODE_CHEAP
#define CLOUD_MODE CLOUD_MODE_NONE
#define LIGHTING_ALGORITHM LIGHTING_ALGORITHM_ASHIKHMIN

"#
    );
}

#[test]
fn constants_differ_for_every_setting() {
    let mut texts: Vec<String> = Vec::new();
    for fluid in [FluidMode::Cheap, FluidMode::Shiny].iter() {
        for cloud in [CloudMode::Off, CloudMode::Regular].iter() {
            for lighting in
                [LightingMode::Ashikmin, LightingMode::BlinnPhong, LightingMode::Lambertian].iter()
            {
                texts.push(configure_constants(
                    modes(AaMode::Off, *cloud, *fluid, *lighting),
                    "",
                ));
            }
        }
    }
    texts.sort();
    texts.dedup();
    assert_eq!(texts.len(), 12);
    assert!(texts.iter().any(|text| text.ends_with("#define LIGHTING_ALGORITHM CLOUD_MODE_NONE\n\n")));
}
