//! The shader assets and the text of the constants file.
use crate::modes::{AaMode, CloudMode, FluidMode, LightingMode, Modes};
use crate::pipelines::PipelineKind;
use vstd::prelude::*;

verus! {

/// The suffix of the anti-aliasing shader. Supersampling needs none beyond rendering at a
/// higher resolution.
pub open spec fn aa_suffix(aa: AaMode) -> Seq<char> {
    match aa {
        AaMode::Off => "none"@,
        AaMode::SsaaX4 => "none"@,
        AaMode::Fxaa => "fxaa"@,
        AaMode::MsaaX4 => "msaa-x4"@,
        AaMode::MsaaX8 => "msaa-x8"@,
        AaMode::MsaaX16 => "msaa-x16"@,
    }
}

/// The suffix of the cloud shader.
pub open spec fn cloud_suffix(cloud: CloudMode) -> Seq<char> {
    match cloud {
        CloudMode::Off => "none"@,
        CloudMode::Regular => "regular"@,
    }
}

/// The suffix of the fragment shader of fluids.
pub open spec fn fluid_suffix(fluid: FluidMode) -> Seq<char> {
    match fluid {
        FluidMode::Cheap => "cheap"@,
        FluidMode::Shiny => "shiny"@,
    }
}

/// The number of shader files that other shaders can refer to.
pub open spec fn file_count() -> nat {
    9
}

/// The assets of the shader files that other shaders can refer to, in the order in which
/// they are loaded.
pub open spec fn file_specifier(modes: Modes, index: int) -> Seq<char> {
    if index == 0 {
        "voxygen.shaders.include.constants"@
    } else if index == 1 {
        "voxygen.shaders.include.globals"@
    } else if index == 2 {
        "voxygen.shaders.include.sky"@
    } else if index == 3 {
        "voxygen.shaders.include.light"@
    } else if index == 4 {
        "voxygen.shaders.include.srgb"@
    } else if index == 5 {
        "voxygen.shaders.include.random"@
    } else if index == 6 {
        "voxygen.shaders.include.lod"@
    } else if index == 7 {
        "voxygen.shaders.antialias."@ + aa_suffix(modes.aa)
    } else {
        "voxygen.shaders.include.cloud."@ + cloud_suffix(modes.cloud)
    }
}

/// The name under which shaders refer to each of these files.
pub open spec fn file_name(index: int) -> Seq<char> {
    if index == 0 {
        "constants.glsl"@
    } else if index == 1 {
        "globals.glsl"@
    } else if index == 2 {
        "sky.glsl"@
    } else if index == 3 {
        "light.glsl"@
    } else if index == 4 {
        "srgb.glsl"@
    } else if index == 5 {
        "random.glsl"@
    } else if index == 6 {
        "lod.glsl"@
    } else if index == 7 {
        "anti-aliasing.glsl"@
    } else {
        "cloud.glsl"@
    }
}

/// The asset of the vertex shader of a pipeline. The player silhouette has that of figures.
pub open spec fn vertex_specifier(kind: PipelineKind) -> Seq<char> {
    match kind {
        PipelineKind::Skybox => "voxygen.shaders.skybox-vert"@,
        PipelineKind::Figure => "voxygen.shaders.figure-vert"@,
        PipelineKind::Terrain => "voxygen.shaders.terrain-vert"@,
        PipelineKind::Fluid => "voxygen.shaders.fluid-vert"@,
        PipelineKind::Sprite => "voxygen.shaders.sprite-vert"@,
        PipelineKind::Ui => "voxygen.shaders.ui-vert"@,
        PipelineKind::LodTerrain => "voxygen.shaders.lod-terrain-vert"@,
        PipelineKind::PostProcess => "voxygen.shaders.postprocess-vert"@,
        PipelineKind::PlayerShadow => "voxygen.shaders.figure-vert"@,
        PipelineKind::Shadow => "voxygen.shaders.light-shadows-vert"@,
    }
}

/// The asset of the geometry shader of the shadow map pipeline, the only one that has one.
pub open spec fn geometry_specifier() -> Seq<char> {
    "voxygen.shaders.light-shadows-geom"@
}

/// The asset of the fragment shader of a pipeline.
pub open spec fn fragment_specifier(kind: PipelineKind, fluid: FluidMode) -> Seq<char> {
    match kind {
        PipelineKind::Skybox => "voxygen.shaders.skybox-frag"@,
        PipelineKind::Figure => "voxygen.shaders.figure-frag"@,
        PipelineKind::Terrain => "voxygen.shaders.terrain-frag"@,
        PipelineKind::Fluid => "voxygen.shaders.fluid-frag."@ + fluid_suffix(fluid),
        PipelineKind::Sprite => "voxygen.shaders.sprite-frag"@,
        PipelineKind::Ui => "voxygen.shaders.ui-frag"@,
        PipelineKind::LodTerrain => "voxygen.shaders.lod-terrain-frag"@,
        PipelineKind::PostProcess => "voxygen.shaders.postprocess-frag"@,
        PipelineKind::PlayerShadow => "voxygen.shaders.player-shadow-frag"@,
        PipelineKind::Shadow => "voxygen.shaders.light-shadows-frag"@,
    }
}

/// The setting that a fluid mode makes in the constants file.
pub open spec fn fluid_define(fluid: FluidMode) -> Seq<char> {
    match fluid {
        FluidMode::Cheap => "FLUID_MODE_CHEAP"@,
        FluidMode::Shiny => "FLUID_MODE_SHINY"@,
    }
}

/// The setting that a cloud mode makes in the constants file.
pub open spec fn cloud_define(cloud: CloudMode) -> Seq<char> {
    match cloud {
        CloudMode::Off => "CLOUD_MODE_NONE"@,
        CloudMode::Regular => "CLOUD_MODE_REGULAR"@,
    }
}

/// The setting that a lighting mode makes in the constants file. The diffuse algorithm is
/// selected by a name that belongs to none of the others.
pub open spec fn lighting_define(lighting: LightingMode) -> Seq<char> {
    match lighting {
        LightingMode::Ashikmin => "LIGHTING_ALGORITHM_ASHIKHMIN"@,
        LightingMode::BlinnPhong => "LIGHTING_ALGORITHM_BLINN_PHONG"@,
        LightingMode::Lambertian => "CLOUD_MODE_NONE"@,
    }
}

/// The constants file as shaders see it: the asset, followed by the settings that the
/// modes make.
pub open spec fn constants_text(modes: Modes, asset: Seq<char>) -> Seq<char> {
    "\n"@ + asset + "\n\n#define VOXYGEN_COMPUTATION_PREERENCE "@
        + "VOXYGEN_COMPUTATION_PREERENCE_FRAGMENT"@ + "\n#define FLUID_MODE "@ + fluid_define(
        modes.fluid,
    ) + "\n#define CLOUD_MODE "@ + cloud_define(modes.cloud) + "\n#define LIGHTING_ALGORITHM "@
        + lighting_define(modes.lighting) + "\n\n"@
}

/// `prefix` followed by `suffix`.
fn join(prefix: &str, suffix: &str) -> (text: String)
    ensures
        text@ == prefix@ + suffix@,
{
    let mut text = prefix.to_owned();
    text.append(suffix);
    text
}

/// The asset of one of the shader files that other shaders can refer to.
pub fn load_specifier(modes: Modes, index: usize) -> (specifier: String)
    requires
        index < file_count(),
    ensures
        specifier@ == file_specifier(modes, index as int),
{
    match index {
        0 => "voxygen.shaders.include.constants".to_owned(),
        1 => "voxygen.shaders.include.globals".to_owned(),
        2 => "voxygen.shaders.include.sky".to_owned(),
        3 => "voxygen.shaders.include.light".to_owned(),
        4 => "voxygen.shaders.include.srgb".to_owned(),
        5 => "voxygen.shaders.include.random".to_owned(),
        6 => "voxygen.shaders.include.lod".to_owned(),
        7 => join(
            "voxygen.shaders.antialias.",
            match modes.aa {
                AaMode::Off | AaMode::SsaaX4 => "none",
                AaMode::Fxaa => "fxaa",
                AaMode::MsaaX4 => "msaa-x4",
                AaMode::MsaaX8 => "msaa-x8",
                AaMode::MsaaX16 => "msaa-x16",
            },
        ),
        _ => join(
            "voxygen.shaders.include.cloud.",
            match modes.cloud {
                CloudMode::Off => "none",
                CloudMode::Regular => "regular",
            },
        ),
    }
}

/// The name under which shaders refer to one of these files.
pub fn name_of_file(index: usize) -> (name: String)
    requires
        index < file_count(),
    ensures
        name@ == file_name(index as int),
{
    match index {
        0 => "constants.glsl".to_owned(),
        1 => "globals.glsl".to_owned(),
        2 => "sky.glsl".to_owned(),
        3 => "light.glsl".to_owned(),
        4 => "srgb.glsl".to_owned(),
        5 => "random.glsl".to_owned(),
        6 => "lod.glsl".to_owned(),
        7 => "anti-aliasing.glsl".to_owned(),
        _ => "cloud.glsl".to_owned(),
    }
}

/// The asset of the vertex shader of a pipeline.
pub fn vertex_shader(kind: PipelineKind) -> (specifier: String)
    ensures
        specifier@ == vertex_specifier(kind),
{
    match kind {
        PipelineKind::Skybox => "voxygen.shaders.skybox-vert".to_owned(),
        PipelineKind::Figure => "voxygen.shaders.figure-vert".to_owned(),
        PipelineKind::Terrain => "voxygen.shaders.terrain-vert".to_owned(),
        PipelineKind::Fluid => "voxygen.shaders.fluid-vert".to_owned(),
        PipelineKind::Sprite => "voxygen.shaders.sprite-vert".to_owned(),
        PipelineKind::Ui => "voxygen.shaders.ui-vert".to_owned(),
        PipelineKind::LodTerrain => "voxygen.shaders.lod-terrain-vert".to_owned(),
        PipelineKind::PostProcess => "voxygen.shaders.postprocess-vert".to_owned(),
        PipelineKind::PlayerShadow => "voxygen.shaders.figure-vert".to_owned(),
        PipelineKind::Shadow => "voxygen.shaders.light-shadows-vert".to_owned(),
    }
}

/// The asset of the geometry shader of the shadow map pipeline.
pub fn geometry_shader() -> (specifier: String)
    ensures
        specifier@ == geometry_specifier(),
{
    "voxygen.shaders.light-shadows-geom".to_owned()
}

/// The asset of the fragment shader of a pipeline.
pub fn fragment_shader(kind: PipelineKind, fluid: FluidMode) -> (specifier: String)
    ensures
        specifier@ == fragment_specifier(kind, fluid),
{
    match kind {
        PipelineKind::Skybox => "voxygen.shaders.skybox-frag".to_owned(),
        PipelineKind::Figure => "voxygen.shaders.figure-frag".to_owned(),
        PipelineKind::Terrain => "voxygen.shaders.terrain-frag".to_owned(),
        PipelineKind::Fluid => join(
            "voxygen.shaders.fluid-frag.",
            match fluid {
                FluidMode::Cheap => "cheap",
                FluidMode::Shiny => "shiny",
            },
        ),
        PipelineKind::Sprite => "voxygen.shaders.sprite-frag".to_owned(),
        PipelineKind::Ui => "voxygen.shaders.ui-frag".to_owned(),
        PipelineKind::LodTerrain => "voxygen.shaders.lod-terrain-frag".to_owned(),
        PipelineKind::PostProcess => "voxygen.shaders.postprocess-frag".to_owned(),
        PipelineKind::PlayerShadow => "voxygen.shaders.player-shadow-frag".to_owned(),
        PipelineKind::Shadow => "voxygen.shaders.light-shadows-frag".to_owned(),
    }
}

/// Adds the settings that the modes make to the constants file.
pub fn configure_constants(modes: Modes, asset: &str) -> (text: String)
    ensures
        text@ == constants_text(modes, asset@),
{
    let mut text = "\n".to_owned();
    text.append(asset);
    text.append("\n\n#define VOXYGEN_COMPUTATION_PREERENCE ");
    text.append("VOXYGEN_COMPUTATION_PREERENCE_FRAGMENT");
    text.append("\n#define FLUID_MODE ");
    text.append(
        match modes.fluid {
            FluidMode::Cheap => "FLUID_MODE_CHEAP",
            FluidMode::Shiny => "FLUID_MODE_SHINY",
        },
    );
    text.append("\n#define CLOUD_MODE ");
    text.append(
        match modes.cloud {
            CloudMode::Off => "CLOUD_MODE_NONE",
            CloudMode::Regular => "CLOUD_MODE_REGULAR",
        },
    );
    text.append("\n#define LIGHTING_ALGORITHM ");
    text.append(
        match modes.lighting {
            LightingMode::Ashikmin => "LIGHTING_ALGORITHM_ASHIKHMIN",
            LightingMode::BlinnPhong => "LIGHTING_ALGORITHM_BLINN_PHONG",
            LightingMode::Lambertian => "CLOUD_MODE_NONE",
        },
    );
    text.append("\n\n");
    text
}

} // verus!
