//! What holds of the shader assets and of the constants file.
use crate::modes::{AaMode, CloudMode, FluidMode, Modes};
use crate::pipelines::PipelineKind;
use crate::shaders::{
    aa_suffix, cloud_define, cloud_suffix, constants_text, file_count, file_name, file_specifier,
    fluid_define, fluid_suffix, fragment_specifier, geometry_specifier, lighting_define,
    vertex_specifier,
};
use crate::targets::{target_kind, targets_fit};
use crate::geometry::Vec2;
use crate::texture::{Kind, Samples};
use vstd::prelude::*;

verus! {

/// What the assets of a pipeline are called.
pub open spec fn stem(kind: PipelineKind) -> Seq<char> {
    match kind {
        PipelineKind::Skybox => "skybox"@,
        PipelineKind::Figure => "figure"@,
        PipelineKind::Terrain => "terrain"@,
        PipelineKind::Fluid => "fluid"@,
        PipelineKind::Sprite => "sprite"@,
        PipelineKind::Ui => "ui"@,
        PipelineKind::LodTerrain => "lod-terrain"@,
        PipelineKind::PostProcess => "postprocess"@,
        PipelineKind::PlayerShadow => "player-shadow"@,
        PipelineKind::Shadow => "light-shadows"@,
    }
}

/// Makes the texts known that the names of assets are put together from.
proof fn lemma_reveal_stems()
    ensures
        "voxygen.shaders."@.len() == 16,
        "-vert"@.len() == 5,
        "-frag"@.len() == 5,
{
    reveal_strlit("voxygen.shaders.");
    reveal_strlit("-vert");
    reveal_strlit("-frag");
}

/// The vertex shader of every pipeline is its own asset, but for the silhouette of the player,
/// which has the shape of a figure.
pub proof fn vertex_shaders_are_those_of_their_pipelines(kind: PipelineKind)
    ensures
        vertex_specifier(kind) == "voxygen.shaders."@ + (if kind is PlayerShadow {
            stem(PipelineKind::Figure)
        } else {
            stem(kind)
        }) + "-vert"@,
{
    reveal_strlit("voxygen.shaders.");
    reveal_strlit("-vert");
    reveal_strlit("skybox");
    reveal_strlit("figure");
    reveal_strlit("terrain");
    reveal_strlit("fluid");
    reveal_strlit("sprite");
    reveal_strlit("ui");
    reveal_strlit("lod-terrain");
    reveal_strlit("postprocess");
    reveal_strlit("player-shadow");
    reveal_strlit("light-shadows");
    reveal_strlit("voxygen.shaders.skybox-vert");
    reveal_strlit("voxygen.shaders.figure-vert");
    reveal_strlit("voxygen.shaders.terrain-vert");
    reveal_strlit("voxygen.shaders.fluid-vert");
    reveal_strlit("voxygen.shaders.sprite-vert");
    reveal_strlit("voxygen.shaders.ui-vert");
    reveal_strlit("voxygen.shaders.lod-terrain-vert");
    reveal_strlit("voxygen.shaders.postprocess-vert");
    reveal_strlit("voxygen.shaders.light-shadows-vert");
    assert(vertex_specifier(kind) =~= "voxygen.shaders."@ + (if kind is PlayerShadow {
        stem(PipelineKind::Figure)
    } else {
        stem(kind)
    }) + "-vert"@);
}

/// The fragment shader of every pipeline is its own asset. Only that of fluids comes in
/// several versions, one for each fluid mode. The shadow map has a geometry shader too.
pub proof fn fragment_shaders_are_those_of_their_pipelines(kind: PipelineKind, fluid: FluidMode)
    ensures
        fragment_specifier(kind, fluid) == "voxygen.shaders."@ + stem(kind) + "-frag"@ + (
        if kind is Fluid {
            match fluid {
                FluidMode::Cheap => ".cheap"@,
                FluidMode::Shiny => ".shiny"@,
            }
        } else {
            Seq::empty()
        }),
        geometry_specifier() == "voxygen.shaders."@ + stem(PipelineKind::Shadow) + "-geom"@,
{
    reveal_strlit("voxygen.shaders.");
    reveal_strlit("-frag");
    reveal_strlit("-geom");
    reveal_strlit("skybox");
    reveal_strlit("figure");
    reveal_strlit("terrain");
    reveal_strlit("fluid");
    reveal_strlit("sprite");
    reveal_strlit("ui");
    reveal_strlit("lod-terrain");
    reveal_strlit("postprocess");
    reveal_strlit("player-shadow");
    reveal_strlit("light-shadows");
    reveal_strlit(".cheap");
    reveal_strlit(".shiny");
    reveal_strlit("cheap");
    reveal_strlit("shiny");
    reveal_strlit("voxygen.shaders.skybox-frag");
    reveal_strlit("voxygen.shaders.figure-frag");
    reveal_strlit("voxygen.shaders.terrain-frag");
    reveal_strlit("voxygen.shaders.fluid-frag.");
    reveal_strlit("voxygen.shaders.sprite-frag");
    reveal_strlit("voxygen.shaders.ui-frag");
    reveal_strlit("voxygen.shaders.lod-terrain-frag");
    reveal_strlit("voxygen.shaders.postprocess-frag");
    reveal_strlit("voxygen.shaders.player-shadow-frag");
    reveal_strlit("voxygen.shaders.light-shadows-frag");
    reveal_strlit("voxygen.shaders.light-shadows-geom");
    assert(fragment_specifier(kind, fluid) =~= "voxygen.shaders."@ + stem(kind) + "-frag"@ + (
    if kind is Fluid {
        match fluid {
            FluidMode::Cheap => ".cheap"@,
            FluidMode::Shiny => ".shiny"@,
        }
    } else {
        Seq::empty()
    }));
    assert(geometry_specifier() =~= "voxygen.shaders."@ + stem(PipelineKind::Shadow) + "-geom"@);
}

/// No two pipelines are called the same.
proof fn lemma_stems_differ(first: PipelineKind, second: PipelineKind)
    requires
        first != second,
    ensures
        stem(first).len() != stem(second).len() || exists|i: int|
            0 <= i < 2 && #[trigger] stem(first)[i] != stem(second)[i],
        2 <= stem(first).len() <= 13,
        2 <= stem(second).len() <= 13,
{
    reveal_strlit("skybox");
    reveal_strlit("figure");
    reveal_strlit("terrain");
    reveal_strlit("fluid");
    reveal_strlit("sprite");
    reveal_strlit("ui");
    reveal_strlit("lod-terrain");
    reveal_strlit("postprocess");
    reveal_strlit("player-shadow");
    reveal_strlit("light-shadows");
    let one = stem(first);
    let other = stem(second);
    assert(one.len() != other.len() || one[0] != other[0] || one[1] != other[1]);
}

/// No two pipelines have the same fragment shader, whatever the fluid modes, and the two
/// versions of that of fluids differ.
pub proof fn fragment_shaders_differ(
    first: PipelineKind,
    second: PipelineKind,
    fluid: FluidMode,
    other_fluid: FluidMode,
)
    ensures
        first != second ==> fragment_specifier(first, fluid) != fragment_specifier(
            second,
            other_fluid,
        ),
        first is Fluid && fluid != other_fluid ==> fragment_specifier(first, fluid)
            != fragment_specifier(first, other_fluid),
{
    fragment_shaders_are_those_of_their_pipelines(first, fluid);
    fragment_shaders_are_those_of_their_pipelines(second, other_fluid);
    fragment_shaders_are_those_of_their_pipelines(first, other_fluid);
    lemma_reveal_stems();
    reveal_strlit(".cheap");
    reveal_strlit(".shiny");
    reveal_strlit("fluid");
    let one = fragment_specifier(first, fluid);
    let other = fragment_specifier(second, other_fluid);
    if first != second {
        lemma_stems_differ(first, second);
        reveal_strlit("skybox");
        reveal_strlit("figure");
        reveal_strlit("terrain");
        reveal_strlit("sprite");
        reveal_strlit("ui");
        reveal_strlit("lod-terrain");
        reveal_strlit("postprocess");
        reveal_strlit("player-shadow");
        reveal_strlit("light-shadows");
        assert(one[16] == stem(first)[0] && one[17] == stem(first)[1]);
        assert(other[16] == stem(second)[0] && other[17] == stem(second)[1]);
        assert(one.len() != other.len() || one[16] != other[16] || one[17] != other[17]);
    }
    if first is Fluid && fluid != other_fluid {
        let same = fragment_specifier(first, other_fluid);
        assert(one[27] != same[27]);
    }
}

/// No two pipelines have the same vertex shader, but for figures and the silhouette.
pub proof fn vertex_shaders_differ(first: PipelineKind, second: PipelineKind)
    ensures
        first != second && !(first is PlayerShadow) && !(second is PlayerShadow)
            ==> vertex_specifier(first) != vertex_specifier(second),
{
    vertex_shaders_are_those_of_their_pipelines(first);
    vertex_shaders_are_those_of_their_pipelines(second);
    lemma_reveal_stems();
    if first != second && !(first is PlayerShadow) && !(second is PlayerShadow) {
        lemma_stems_differ(first, second);
        let one = vertex_specifier(first);
        let other = vertex_specifier(second);
        assert(one[16] == stem(first)[0] && one[17] == stem(first)[1]);
        assert(other[16] == stem(second)[0] && other[17] == stem(second)[1]);
        reveal_strlit("skybox");
        reveal_strlit("figure");
        reveal_strlit("terrain");
        reveal_strlit("fluid");
        reveal_strlit("sprite");
        reveal_strlit("ui");
        reveal_strlit("lod-terrain");
        reveal_strlit("postprocess");
        reveal_strlit("light-shadows");
        assert(one.len() != other.len() || one[16] != other[16] || one[17] != other[17]);
    }
}

/// The names, without their ending, under which shaders refer to the files.
pub open spec fn file_stem(index: int) -> Seq<char> {
    seq![
        "constants"@,
        "globals"@,
        "sky"@,
        "light"@,
        "srgb"@,
        "random"@,
        "lod"@,
        "anti-aliasing"@,
        "cloud"@,
    ][index]
}

/// Shaders refer to a file by the name of its asset. The files for anti-aliasing and for
/// clouds come in versions; shaders refer to all of them by one name.
pub proof fn files_are_called_like_their_assets(modes: Modes, index: int)
    requires
        0 <= index < 9,
    ensures
        file_count() == 9,
        file_name(index) == file_stem(index) + ".glsl"@,
        index < 7 ==> file_specifier(modes, index) == "voxygen.shaders.include."@ + file_stem(
            index,
        ),
        index == 7 ==> file_specifier(modes, index) == "voxygen.shaders.antialias."@ + aa_suffix(
            modes.aa,
        ),
        index == 8 ==> file_specifier(modes, index) == "voxygen.shaders.include."@ + file_stem(8)
            + "."@ + cloud_suffix(modes.cloud),
{
    reveal_strlit(".glsl");
    reveal_strlit(".");
    reveal_strlit("voxygen.shaders.include.");
    reveal_strlit("voxygen.shaders.include.cloud.");
    reveal_strlit("constants");
    reveal_strlit("globals");
    reveal_strlit("sky");
    reveal_strlit("light");
    reveal_strlit("srgb");
    reveal_strlit("random");
    reveal_strlit("lod");
    reveal_strlit("anti-aliasing");
    reveal_strlit("cloud");
    reveal_strlit("constants.glsl");
    reveal_strlit("globals.glsl");
    reveal_strlit("sky.glsl");
    reveal_strlit("light.glsl");
    reveal_strlit("srgb.glsl");
    reveal_strlit("random.glsl");
    reveal_strlit("lod.glsl");
    reveal_strlit("anti-aliasing.glsl");
    reveal_strlit("cloud.glsl");
    reveal_strlit("voxygen.shaders.include.constants");
    reveal_strlit("voxygen.shaders.include.globals");
    reveal_strlit("voxygen.shaders.include.sky");
    reveal_strlit("voxygen.shaders.include.light");
    reveal_strlit("voxygen.shaders.include.srgb");
    reveal_strlit("voxygen.shaders.include.random");
    reveal_strlit("voxygen.shaders.include.lod");
    assert(file_name(index) =~= file_stem(index) + ".glsl"@);
    if index < 7 {
        assert(file_specifier(modes, index) =~= "voxygen.shaders.include."@ + file_stem(index));
    }
    if index == 8 {
        assert(file_specifier(modes, index) =~= "voxygen.shaders.include."@ + file_stem(8) + "."@
            + cloud_suffix(modes.cloud));
    }
}

/// Every anti-aliasing mode has its shader: multisampling that for the number of samples of
/// the targets, and supersampling none beyond that of a renderer without anti-aliasing.
pub proof fn anti_aliasing_shaders_fit_the_targets(size: Vec2, aa: AaMode)
    requires
        targets_fit(size, aa),
    ensures
        aa_suffix(aa) == (match aa {
            AaMode::Fxaa => "fxaa"@,
            AaMode::Off => "none"@,
            AaMode::SsaaX4 => "none"@,
            _ => "msaa-x"@ + (match target_kind(size, aa) {
                Kind::D2(_, _, Samples::Multi(4)) => "4"@,
                Kind::D2(_, _, Samples::Multi(8)) => "8"@,
                Kind::D2(_, _, Samples::Multi(16)) => "16"@,
                _ => ""@,
            }),
        }),
        target_kind(size, aa) matches Kind::D2(_, _, Samples::Multi(count)) ==> count == 4 || count
            == 8 || count == 16,
        aa is MsaaX4 ==> aa_suffix(aa) == "msaa-x4"@,
        aa is MsaaX8 ==> aa_suffix(aa) == "msaa-x8"@,
        aa is MsaaX16 ==> aa_suffix(aa) == "msaa-x16"@,
{
    reveal_strlit("msaa-x");
    reveal_strlit("4");
    reveal_strlit("8");
    reveal_strlit("16");
    reveal_strlit("");
    reveal_strlit("msaa-x4");
    reveal_strlit("msaa-x8");
    reveal_strlit("msaa-x16");
    assert("msaa-x4"@ =~= "msaa-x"@ + "4"@);
    assert("msaa-x8"@ =~= "msaa-x"@ + "8"@);
    assert("msaa-x16"@ =~= "msaa-x"@ + "16"@);
}

/// The capital letter of a small one.
pub open spec fn capital(c: char) -> char {
    if 'a' <= c <= 'z' {
        ((c as u32 - 32) as u32) as char
    } else {
        c
    }
}

/// `upper` is `lower` in capital letters.
pub open spec fn is_in_capitals(upper: Seq<char>, lower: Seq<char>) -> bool {
    &&& upper.len() == lower.len()
    &&& forall|i: int| 0 <= i < lower.len() ==> #[trigger] upper[i] == capital(lower[i])
}

/// The settings for fluids and clouds are called like the versions of the shaders that go
/// with them. Those for lighting are names of algorithms; diffuse lighting has the name that
/// stands for no clouds.
pub proof fn settings_are_called_like_the_shaders(modes: Modes)
    ensures
        fluid_define(modes.fluid).take(11) == "FLUID_MODE_"@,
        is_in_capitals(fluid_define(modes.fluid).skip(11), fluid_suffix(modes.fluid)),
        cloud_define(modes.cloud).take(11) == "CLOUD_MODE_"@,
        is_in_capitals(cloud_define(modes.cloud).skip(11), cloud_suffix(modes.cloud)),
        fluid_suffix(modes.fluid) == (if modes.fluid is Cheap {
            "cheap"@
        } else {
            "shiny"@
        }),
        cloud_suffix(modes.cloud) == (if modes.cloud is Off {
            "none"@
        } else {
            "regular"@
        }),
        modes.lighting is Ashikmin ==> lighting_define(modes.lighting) == "LIGHTING_ALGORITHM_"@
            + "ASHIKHMIN"@,
        modes.lighting is BlinnPhong ==> lighting_define(modes.lighting) == "LIGHTING_ALGORITHM_"@
            + "BLINN_PHONG"@,
        modes.lighting is Lambertian ==> lighting_define(modes.lighting) == cloud_define(
            CloudMode::Off,
        ),
{
    reveal_strlit("FLUID_MODE_");
    reveal_strlit("CLOUD_MODE_");
    reveal_strlit("FLUID_MODE_CHEAP");
    reveal_strlit("FLUID_MODE_SHINY");
    reveal_strlit("CLOUD_MODE_NONE");
    reveal_strlit("CLOUD_MODE_REGULAR");
    reveal_strlit("cheap");
    reveal_strlit("shiny");
    reveal_strlit("none");
    reveal_strlit("regular");
    reveal_strlit("LIGHTING_ALGORITHM_");
    reveal_strlit("ASHIKHMIN");
    reveal_strlit("BLINN_PHONG");
    reveal_strlit("LIGHTING_ALGORITHM_ASHIKHMIN");
    reveal_strlit("LIGHTING_ALGORITHM_BLINN_PHONG");
    assert(fluid_define(modes.fluid).take(11) =~= "FLUID_MODE_"@);
    assert(cloud_define(modes.cloud).take(11) =~= "CLOUD_MODE_"@);
    assert("LIGHTING_ALGORITHM_ASHIKHMIN"@ =~= "LIGHTING_ALGORITHM_"@ + "ASHIKHMIN"@);
    assert("LIGHTING_ALGORITHM_BLINN_PHONG"@ =~= "LIGHTING_ALGORITHM_"@ + "BLINN_PHONG"@);
}

/// A line that gives a name a meaning.
pub open spec fn define_line(name: Seq<char>, meaning: Seq<char>) -> Seq<char> {
    "#define "@ + name + " "@ + meaning + "\n"@
}

/// The constants file is the asset between line ends and an empty line, a line for each of the
/// four settings, and an empty line.
pub proof fn constants_are_the_asset_and_four_lines(modes: Modes, asset: Seq<char>)
    ensures
        constants_text(modes, asset) == "\n"@ + asset + "\n"@ + "\n"@ + define_line(
            "VOXYGEN_COMPUTATION_PREERENCE"@,
            "VOXYGEN_COMPUTATION_PREERENCE_FRAGMENT"@,
        ) + define_line("FLUID_MODE"@, fluid_define(modes.fluid)) + define_line(
            "CLOUD_MODE"@,
            cloud_define(modes.cloud),
        ) + define_line("LIGHTING_ALGORITHM"@, lighting_define(modes.lighting)) + "\n"@,
{
    reveal_strlit("\n");
    reveal_strlit("\n\n");
    reveal_strlit(" ");
    reveal_strlit("#define ");
    reveal_strlit("VOXYGEN_COMPUTATION_PREERENCE");
    reveal_strlit("FLUID_MODE");
    reveal_strlit("CLOUD_MODE");
    reveal_strlit("LIGHTING_ALGORITHM");
    reveal_strlit("\n\n#define VOXYGEN_COMPUTATION_PREERENCE ");
    reveal_strlit("\n#define FLUID_MODE ");
    reveal_strlit("\n#define CLOUD_MODE ");
    reveal_strlit("\n#define LIGHTING_ALGORITHM ");
    let n = "\n"@;
    let d = "#define "@;
    let s = " "@;
    assert("\n\n#define VOXYGEN_COMPUTATION_PREERENCE "@ =~= n + n + d
        + "VOXYGEN_COMPUTATION_PREERENCE"@ + s);
    assert("\n#define FLUID_MODE "@ =~= n + d + "FLUID_MODE"@ + s);
    assert("\n#define CLOUD_MODE "@ =~= n + d + "CLOUD_MODE"@ + s);
    assert("\n#define LIGHTING_ALGORITHM "@ =~= n + d + "LIGHTING_ALGORITHM"@ + s);
    assert("\n\n"@ =~= n + n);
    assert(constants_text(modes, asset) =~= n + asset + n + n + define_line(
        "VOXYGEN_COMPUTATION_PREERENCE"@,
        "VOXYGEN_COMPUTATION_PREERENCE_FRAGMENT"@,
    ) + define_line("FLUID_MODE"@, fluid_define(modes.fluid)) + define_line(
        "CLOUD_MODE"@,
        cloud_define(modes.cloud),
    ) + define_line("LIGHTING_ALGORITHM"@, lighting_define(modes.lighting)) + n);
}

} // verus!
