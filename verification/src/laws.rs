//! What holds of the renderer as a whole.
use crate::capture::{create_screenshot_next, download_next, ScreenshotReplies};
use crate::create_pipelines::{
    create_pipelines_next, expanded, full_length, scene_info, scene_pipelines, scene_start,
    shader_files, shadow_info, shadow_start, text, BuiltPipelinesView,
};
use crate::draw::{Command, Draw, DrawData};
use crate::error::{BackendError, RenderErrorView};
use crate::exchange::{Next, Reply, RequestView, Step};
use crate::expansion::{expansion, included_files};
use crate::geometry::Vec2;
use crate::modes::{AaMode, Modes};
use crate::operations::{
    flush_next, on_resize_next, recreate_next, set_modes_next, FlushReplies, ModeReplies,
    RebuildView,
};
use crate::pipelines::{figure, sprite, Globals, Light, PipelineKind, Shadow};
use crate::renderer::Renderer;
use crate::resources::{
    Buffer, Consts, Encoder, Instances, LodColorFmt, LodTextureFmt, Model, Program, ShaderSet, Texture,
};
use crate::screenshot::{bottom_up, bytes, lemma_bottom_up_len, picture_of, ImageView};
use crate::setup::{new_next, Setup, SetupReplies};
use crate::shaders::{
    cloud_define, constants_text, file_count, file_name, file_specifier, fluid_define,
    fragment_specifier, lighting_define,
};
use crate::state::CullFace;
use crate::targets::{
    color_info, create_rt_views_next, create_shadow_views_next, depth_info, targets_fit,
};
use crate::texture::Kind;
use crate::uploads::{
    instances_step, upload_next, BufferUsage, UploadReply, UploadRequestView,
};
use vstd::prelude::*;

verus! {

// The creation of the pipelines.

/// The replies were given one after the other, each to what was asked for after those
/// before it.
pub open spec fn is_pipelines_run(modes: Modes, replies: Seq<Reply>) -> bool {
    forall|k: int|
        0 <= k < replies.len() ==> (#[trigger] create_pipelines_next(modes, replies.take(k))
            matches Next::Ask(request) && replies[k].answers(request))
}

/// The creation of the pipelines ends, after at most as many replies as a creation without
/// a failure takes.
pub proof fn pipelines_creation_ends(modes: Modes, replies: Seq<Reply>)
    requires
        is_pipelines_run(modes, replies),
    ensures
        replies.len() <= full_length(),
        replies.len() == full_length() ==> create_pipelines_next(modes, replies) is Done,
{
    if replies.len() > full_length() {
        let k = full_length() as int;
        assert(create_pipelines_next(modes, replies.take(k)) is Ask);
    }
}

/// A program that does not link, or a pipeline that cannot be created, ends the creation
/// with the backend's error: nothing more is asked for.
pub proof fn scene_failure_ends_creation(modes: Modes, replies: Seq<Reply>, error: BackendError)
    requires
        scene_start() < replies.len() <= shadow_start(),
        replies.last() == Reply::Failed(error),
    ensures
        create_pipelines_next(modes, replies) == Next::<
            Result<BuiltPipelinesView, RenderErrorView>,
        >::Done(Err(RenderErrorView::PipelineError(error))),
{
}

/// Once all other pipelines are there, the creation cannot fail any more: whatever goes
/// wrong with the pipeline of the shadow map only takes its place.
pub proof fn shadow_pipeline_is_optional(modes: Modes, replies: Seq<Reply>)
    requires
        shadow_start() < replies.len(),
    ensures
        create_pipelines_next(modes, replies) matches Next::Done(result) ==> result is Ok
            && result->Ok_0.scene == scene_pipelines(replies),
        replies.last() is Failed && replies.len() > shadow_start() + 3 ==> create_pipelines_next(
            modes,
            replies,
        ) == Next::<Result<BuiltPipelinesView, RenderErrorView>>::Done(
            Ok(
                BuiltPipelinesView {
                    scene: scene_pipelines(replies),
                    shadow: Err(RenderErrorView::PipelineError(replies.last()->Failed_0)),
                },
            ),
        ),
{
}

/// A pipeline that is handed out was created for its kind, of a program that was linked
/// from the expansions of the two shaders that were loaded just before.
pub proof fn pipelines_are_made_of_their_shaders(modes: Modes, replies: Seq<Reply>, p: int)
    requires
        is_pipelines_run(modes, replies),
        create_pipelines_next(modes, replies) matches Next::Done(Ok(_)),
        0 <= p < PipelineKind::scene_count(),
    ensures
        ({
            let first = scene_start() + 4 * p;
            let kind = PipelineKind::spec_scene(p);
            &&& replies[first] is Shader
            &&& replies[first + 1] is Shader
            &&& expanded(replies, first) is Ok
            &&& expanded(replies, first + 1) is Ok
            &&& create_pipelines_next(modes, replies.take(first + 2)) == Next::<
                Result<BuiltPipelinesView, RenderErrorView>,
            >::Ask(
                RequestView::LinkProgram {
                    vertex: expanded(replies, first)->Ok_0,
                    fragment: expanded(replies, first + 1)->Ok_0,
                },
            )
            &&& create_pipelines_next(modes, replies.take(first + 3)) == Next::<
                Result<BuiltPipelinesView, RenderErrorView>,
            >::Ask(
                RequestView::CreatePipeline {
                    info: scene_info(kind, replies[first + 2]->Program_0),
                },
            )
            &&& replies[first + 3] is Pipeline
        }),
{
    let first = scene_start() + 4 * p;
    let n = replies.len() as int;
    // A creation that succeeds has gone through all pipelines.
    assert(n > shadow_start());
    assert forall|k: int| 0 <= k < n implies (#[trigger] create_pipelines_next(
        modes,
        replies.take(k),
    )) is Ask && replies[k].answers(
        create_pipelines_next(modes, replies.take(k))->Ask_0,
    ) by {}
    assert forall|k: int| 0 <= k < n && k > 0 implies (#[trigger] replies.take(k)).last()
        == replies[k - 1] by {}
    assert((first + 0 - scene_start()) % 4 == 0 && (first - scene_start()) / 4 == p);
    assert((first + 1 - scene_start()) % 4 == 1 && (first + 1 - scene_start()) / 4 == p);
    assert((first + 2 - scene_start()) % 4 == 2 && (first + 2 - scene_start()) / 4 == p);
    assert((first + 3 - scene_start()) % 4 == 3 && (first + 3 - scene_start()) / 4 == p);
    assert(create_pipelines_next(modes, replies.take(first)) is Ask);
    assert(create_pipelines_next(modes, replies.take(first + 1)) is Ask);
    assert(create_pipelines_next(modes, replies.take(first + 2)) is Ask);
    assert(create_pipelines_next(modes, replies.take(first + 3)) is Ask);
    assert(create_pipelines_next(modes, replies.take(first + 4)) is Ask);
    let linked = replies.take(first + 2);
    assert(linked[file_count() as int] == replies[file_count() as int]);
    assert(linked[first] == replies[first]);
    assert(linked[first + 1] == replies[first + 1]);
    assert(expanded(linked, first) == expanded(replies, first));
    assert(expanded(linked, first + 1) == expanded(replies, first + 1));
}

/// Among the modes, only anti-aliasing and clouds decide which files other shaders can
/// refer to, and only fluids decide which fragment shaders are loaded.
pub proof fn assets_depend_on_few_modes(first: Modes, second: Modes, index: int, kind: PipelineKind)
    ensures
        first.aa == second.aa && first.cloud == second.cloud ==> file_specifier(first, index)
            == file_specifier(second, index),
        kind != PipelineKind::Fluid ==> fragment_specifier(kind, first.fluid)
            == fragment_specifier(kind, second.fluid),
{
}

/// No shader file hides another: they have different names.
pub proof fn shader_files_have_different_names(first: int, second: int)
    requires
        0 <= first < second < file_count(),
    ensures
        file_name(first) != file_name(second),
{
    reveal_strlit("constants.glsl");
    reveal_strlit("globals.glsl");
    reveal_strlit("sky.glsl");
    reveal_strlit("light.glsl");
    reveal_strlit("srgb.glsl");
    reveal_strlit("random.glsl");
    reveal_strlit("lod.glsl");
    reveal_strlit("anti-aliasing.glsl");
    reveal_strlit("cloud.glsl");
    // Names of the same length differ in their first letter.
    let one = file_name(first);
    let other = file_name(second);
    assert(one.len() != other.len() || one[0] != other[0]);
}

/// The context holds the given files, under their names, and no others.
pub open spec fn holds_files(
    files: Map<Seq<char>, Seq<char>>,
    given: Seq<(Seq<char>, Seq<char>)>,
) -> bool {
    &&& forall|i: int|
        0 <= i < given.len() ==> files.contains_pair((#[trigger] given[i]).0, given[i].1)
    &&& forall|name: Seq<char>| #[trigger]
        files.contains_key(name) ==> exists|i: int|
            0 <= i < given.len() && (#[trigger] given[i]).0 == name
}

/// Where the context holds the files that it was asked to hold, shaders are expanded
/// against the constants file with the settings, and against each other file as it was
/// loaded.
pub proof fn shaders_see_the_loaded_files(modes: Modes, replies: Seq<Reply>, index: int)
    requires
        replies.len() > file_count(),
        holds_files(
            included_files(replies[file_count() as int]->Context_0),
            shader_files(modes, replies),
        ),
    ensures
        expanded(replies, index) == expansion(
            Map::new(
                |name: Seq<char>| exists|i: int| 0 <= i < file_count() && file_name(i) == name,
                |name: Seq<char>|
                    if name == file_name(0) {
                        constants_text(modes, text(replies, 0))
                    } else {
                        text(
                            replies,
                            choose|i: int| 0 <= i < file_count() && file_name(i) == name,
                        )
                    },
            ),
            text(replies, index),
        ),
{
    let files = included_files(replies[file_count() as int]->Context_0);
    let given = shader_files(modes, replies);
    let loaded = Map::new(
        |name: Seq<char>| exists|i: int| 0 <= i < file_count() && file_name(i) == name,
        |name: Seq<char>|
            if name == file_name(0) {
                constants_text(modes, text(replies, 0))
            } else {
                text(replies, choose|i: int| 0 <= i < file_count() && file_name(i) == name)
            },
    );
    assert forall|name: Seq<char>| files.contains_key(name) <==> loaded.contains_key(name) by {
        if files.contains_key(name) {
            let i = choose|i: int| 0 <= i < given.len() && (#[trigger] given[i]).0 == name;
            assert(file_name(i) == name);
        }
        if loaded.contains_key(name) {
            let i = choose|i: int| 0 <= i < file_count() && file_name(i) == name;
            assert(given[i].0 == name);
        }
    }
    assert forall|name: Seq<char>| loaded.contains_key(name) implies files[name]
        == loaded[name] by {
        let i = choose|i: int| 0 <= i < file_count() && file_name(i) == name;
        assert(given[i].0 == name);
        if 0 < i {
            shader_files_have_different_names(0, i);
        }
    }
    assert(files =~= loaded);
}

/// The constants file keeps the whole asset; the settings come after it.
pub proof fn constants_keep_the_asset(modes: Modes, asset: Seq<char>)
    ensures
        constants_text(modes, asset).len() > asset.len(),
        constants_text(modes, asset).subrange(1, 1 + asset.len() as int) == asset,
{
    reveal_strlit("\n");
    assert(constants_text(modes, asset).subrange(1, 1 + asset.len() as int) =~= asset);
}

/// The names of the settings: how long they are, and where those of the fluid modes differ.
proof fn lemma_defines(modes: Modes)
    ensures
        fluid_define(modes.fluid).len() == 16,
        fluid_define(modes.fluid)[11] == (if modes.fluid is Cheap {
            'C'
        } else {
            'S'
        }),
        cloud_define(modes.cloud).len() == (if modes.cloud is Off {
            15
        } else {
            18int
        }),
        lighting_define(modes.lighting).len() == (if modes.lighting is Ashikmin {
            28
        } else if modes.lighting is BlinnPhong {
            30
        } else {
            15int
        }),
{
    reveal_strlit("FLUID_MODE_CHEAP");
    reveal_strlit("FLUID_MODE_SHINY");
    reveal_strlit("CLOUD_MODE_NONE");
    reveal_strlit("CLOUD_MODE_REGULAR");
    reveal_strlit("LIGHTING_ALGORITHM_ASHIKHMIN");
    reveal_strlit("LIGHTING_ALGORITHM_BLINN_PHONG");
}

/// The length of the constants file.
proof fn lemma_constants_len(modes: Modes, asset: Seq<char>)
    ensures
        constants_text(modes, asset).len() == "\n"@.len() + asset.len()
            + "\n\n#define VOXYGEN_COMPUTATION_PREERENCE "@.len()
            + "VOXYGEN_COMPUTATION_PREERENCE_FRAGMENT"@.len() + "\n#define FLUID_MODE "@.len()
            + fluid_define(modes.fluid).len() + "\n#define CLOUD_MODE "@.len() + cloud_define(
            modes.cloud,
        ).len() + "\n#define LIGHTING_ALGORITHM "@.len() + lighting_define(modes.lighting).len()
            + "\n\n"@.len(),
{
}

/// Every setting reaches the shaders: constants files for different fluid, cloud or
/// lighting modes differ.
pub proof fn settings_reach_the_shaders(first: Modes, second: Modes, asset: Seq<char>)
    requires
        constants_text(first, asset) == constants_text(second, asset),
    ensures
        first.fluid == second.fluid,
        first.cloud == second.cloud,
        first.lighting == second.lighting,
{
    lemma_defines(first);
    lemma_defines(second);
    let head = "\n"@ + asset + "\n\n#define VOXYGEN_COMPUTATION_PREERENCE "@
        + "VOXYGEN_COMPUTATION_PREERENCE_FRAGMENT"@ + "\n#define FLUID_MODE "@;
    assert(constants_text(first, asset)[head.len() as int + 11] == fluid_define(first.fluid)[11]);
    assert(constants_text(second, asset)[head.len() as int + 11] == fluid_define(second.fluid)[11]);
    lemma_constants_len(first, asset);
    lemma_constants_len(second, asset);
    // The lengths of the names tell all pairs of a cloud and a lighting mode apart.
    assert(cloud_define(first.cloud).len() + lighting_define(first.lighting).len() == cloud_define(
        second.cloud,
    ).len() + lighting_define(second.lighting).len());
}

/// The shadow map is drawn with the opposite sides of what the scene shows, and flipping a
/// side twice gives it back.
pub proof fn shadow_map_shows_the_other_sides(
    program: Program,
    shaders: ShaderSet,
    cull_face: CullFace,
)
    ensures
        shadow_info(shaders).rasterizer.cull_face == scene_info(
            PipelineKind::Terrain,
            program,
        ).rasterizer.cull_face.spec_flipped(),
        cull_face.spec_flipped().spec_flipped() == cull_face,
        cull_face.spec_flipped() == cull_face ==> cull_face is Nothing,
{
}

// The targets.

/// The color and the depth target have the same shape. It is the size of the window, or
/// twice that in both directions with supersampling; only multisampling takes more than
/// one sample per pixel.
pub proof fn targets_match_the_window(size: Vec2, aa: AaMode)
    requires
        targets_fit(size, aa),
    ensures
        color_info(size, aa).kind == depth_info(size, aa).kind,
        color_info(size, aa).kind matches Kind::D2(width, height, samples) && (if aa is SsaaX4 {
            width == 2 * size.x && height == 2 * size.y
        } else {
            width == size.x && height == size.y
        }) && (samples is Multi <==> aa is MsaaX4 || aa is MsaaX8 || aa is MsaaX16),
{
}

/// A window without an area leaves the renderer as it is, and asks for nothing.
pub proof fn empty_windows_are_not_resized(renderer: Renderer, replies: Seq<Reply>)
    requires
        renderer.win_color_view.width == 0 || renderer.win_color_view.height == 0,
    ensures
        on_resize_next(renderer, replies) == Next::<
            (Renderer, Result<(), RenderErrorView>),
        >::Done((renderer, Ok(()))),
{
}

/// A resize changes nothing but the targets, and nothing at all if it fails.
pub proof fn resize_keeps_the_rest(renderer: Renderer, replies: Seq<Reply>)
    ensures
        on_resize_next(renderer, replies) matches Next::Done((resized, result)) ==> {
            &&& resized == renderer.with_targets(resized.targets)
            &&& result is Err ==> resized == renderer
        },
{
}

// The operations.

/// `after` differs from `before` in nothing but the targets and the pipelines: the window,
/// the encoders, the noise texture, the modes and the rest of the shadow map are kept.
pub open spec fn keeps_identity(before: Renderer, after: Renderer) -> bool {
    &&& after == (Renderer {
        targets: after.targets,
        pipelines: after.pipelines,
        shadow_map: after.shadow_map,
        ..before
    })
    &&& after.shadow_map is Some <==> before.shadow_map is Some
    &&& after.shadow_map is Some ==> {
        let old_map = before.shadow_map->Some_0;
        let new_map = after.shadow_map->Some_0;
        &&& new_map.encoder == old_map.encoder
        &&& new_map.depth_stencil_view == old_map.depth_stencil_view
        &&& new_map.res == old_map.res
        &&& new_map.sampler == old_map.sampler
    }
}

/// The recreation of the pipelines changes nothing but pipelines, and takes the same steps
/// as their creation. If it fails, the renderer goes on with the pipelines that it has, and
/// the error is handed out; so is that of the shadow map's pipeline.
pub proof fn recreation_keeps_the_rest(renderer: Renderer, replies: Seq<Reply>)
    ensures
        recreate_next(renderer, replies) matches Next::Done((recreated, rebuild)) ==> {
            &&& keeps_identity(renderer, recreated)
            &&& recreated.targets == renderer.targets
            &&& create_pipelines_next(renderer.modes, replies) matches Next::Done(Err(error))
                ==> recreated == renderer && rebuild == RebuildView::Failed(error)
            &&& create_pipelines_next(renderer.modes, replies) matches Next::Done(Ok(built))
                ==> recreated.pipelines == built.scene && (built.shadow matches Err(error)
                ==> recreated.shadow_map == renderer.shadow_map && rebuild
                == RebuildView::WithoutShadowMap(error))
        },
        recreate_next(renderer, replies) is Ask <==> create_pipelines_next(
            renderer.modes,
            replies,
        ) is Ask,
{
}

/// A change of modes leaves the renderer with the new modes, whether or not it succeeds.
/// If the targets cannot be resized, neither they nor the pipelines change.
pub proof fn changed_modes_stay(renderer: Renderer, replies: ModeReplies)
    ensures
        set_modes_next(renderer, replies) matches Next::Done((changed, result)) ==> {
            &&& changed.modes == renderer.modes
            &&& keeps_identity(renderer, changed)
            &&& result is Err ==> changed == renderer
        },
{
}

/// A frame after which no shader file was found changed leaves the renderer as it is;
/// otherwise nothing but its pipelines changes.
pub proof fn flush_keeps_the_rest(renderer: Renderer, replies: FlushReplies)
    ensures
        flush_next(renderer, replies) matches Next::Done((flushed, rebuild)) ==> {
            &&& keeps_identity(renderer, flushed)
            &&& flushed.targets == renderer.targets
            &&& !(replies.submission[0]->reloaded) ==> flushed == renderer && rebuild is None
        },
{
}

/// A flush hands over everything that draw calls and clears were recorded by: the commands
/// of the shadow map first, then all others.
pub proof fn flush_hands_over_every_encoder(renderer: Renderer)
    ensures
        renderer.flush_commands().contains(Command::Flush { encoder: renderer.encoder }),
        renderer.shadow_map matches Some(shadow_map) ==> renderer.flush_commands()[0]
            == (Command::Flush { encoder: shadow_map.encoder }),
        renderer.flush_commands().last() == Command::Cleanup,
{
    let commands = renderer.flush_commands();
    assert(commands[commands.len() - 2] == (Command::Flush { encoder: renderer.encoder }));
}

/// A screenshot changes nothing but pipelines, and nothing at all if the copy of the
/// pixels fails.
pub proof fn screenshot_keeps_the_rest(renderer: Renderer, replies: ScreenshotReplies)
    ensures
        create_screenshot_next(renderer, replies) matches Next::Done((after, _, _)) ==> {
            &&& keeps_identity(renderer, after)
            &&& after.targets == renderer.targets
            &&& download_next(renderer, replies.download) matches Next::Done(Err(_)) ==> after
                == renderer
        },
{
    flush_keeps_the_rest(renderer, replies.flush);
}

/// The replies to the copy of the window's pixels were given one after the other, each to
/// what was asked for after those before it.
pub open spec fn is_download_run(renderer: Renderer, replies: Seq<Reply>) -> bool {
    forall|k: int|
        0 <= k < replies.len() ==> (#[trigger] download_next(renderer, replies.take(k)) matches
            Next::Ask(request) && replies[k].answers(request))
}

/// Where the buffer cannot be created or the pixels cannot be copied, a screenshot is that
/// error, and nothing is flushed. A window without an area has no screenshot.
pub proof fn failed_copies_flush_nothing(renderer: Renderer, replies: ScreenshotReplies)
    requires
        is_download_run(renderer, replies.download),
    ensures
        download_next(renderer, replies.download) matches Next::Done(Err(error))
            ==> create_screenshot_next(renderer, replies) == Next::<
            (Renderer, Option<RebuildView>, Result<ImageView, RenderErrorView>),
        >::Done((renderer, None, Err(error))),
        renderer.win_color_view.width == 0 || renderer.win_color_view.height == 0 ==> match
            download_next(renderer, replies.download) {
            Next::Ask(request) => request is CreateDownloadBuffer || request is CopyToBuffer,
            Next::Done(result) => result is Err,
        },
{
    let run = replies.download;
    if run.len() > 1 {
        assert(download_next(renderer, run.take(1)) is Ask);
    }
}

/// A renderer that is made has the window, the modes and the limits that it was made for,
/// the pipelines and targets that were created, and a shadow map exactly if its pipeline
/// and its views could be created. Without a shadow map, the reason is handed out.
pub proof fn renderers_are_what_was_asked_for(setup: Setup, replies: SetupReplies)
    ensures
        new_next(setup, replies) matches Next::Done((Ok(renderer), shadow_error)) ==> {
            &&& shadow_error is Some <==> renderer.shadow_map is None
            &&& renderer.win_color_view == setup.win_color_view
            &&& renderer.win_depth_view == setup.win_depth_view
            &&& renderer.modes == setup.modes
            &&& renderer.max_texture_size == setup.max_texture_size
            &&& create_rt_views_next(setup.window_size(), setup.modes.aa, replies.targets)
                == Next::<_>::Done(Ok::<_, RenderErrorView>(renderer.targets))
            &&& create_pipelines_next(setup.modes, replies.pipelines) matches Next::Done(Ok(built))
                && built.scene == renderer.pipelines && (renderer.shadow_map is Some <==> (
            built.shadow is Ok && create_shadow_views_next(
                setup.spec_longer_side(),
                replies.shadow_views,
            ) matches Next::Done(Ok(_))))
        },
{
}

/// The views of the shadow map cannot make the making of a renderer fail.
pub proof fn shadow_map_is_optional(setup: Setup, replies: SetupReplies)
    requires
        create_pipelines_next(setup.modes, replies.pipelines) matches Next::Done(Ok(_)),
        create_rt_views_next(setup.window_size(), setup.modes.aa, replies.targets) matches
            Next::Done(Ok(_)),
        replies.rest.len() <= 1,
    ensures
        new_next(setup, replies) is Ask,
{
}

/// A renderer whose modes are changed goes through the same shaders as one that is made
/// for these modes, and both end up with the pipelines that were created.
pub proof fn changes_and_new_renderers_agree(
    renderer: Renderer,
    setup: Setup,
    replies: Seq<Reply>,
    others: SetupReplies,
)
    requires
        renderer.modes == setup.modes,
    ensures
        create_pipelines_next(setup.modes, replies) matches Next::Ask(request) ==> {
            &&& recreate_next(renderer, replies) == Next::<(Renderer, RebuildView)>::Ask(request)
            &&& new_next(setup, SetupReplies { pipelines: replies, ..others }) == Next::<
                (Result<Renderer, RenderErrorView>, Option<RenderErrorView>),
            >::Ask(request)
        },
        create_pipelines_next(setup.modes, replies) matches Next::Done(Ok(built)) ==> {
            &&& recreate_next(renderer, replies) matches Next::Done((recreated, _))
                && recreated.pipelines == built.scene
            &&& new_next(setup, SetupReplies { pipelines: replies, ..others }) matches Next::Done(
                (Ok(made), _),
            ) ==> made.pipelines == built.scene
        },
{
}

/// No part of a change of modes has been given more replies than it takes.
pub open spec fn mode_bound(replies: ModeReplies) -> bool {
    &&& replies.targets.len() <= 5
    &&& replies.pipelines.len() <= full_length()
}

/// A change of modes ends: each reply is one of a bounded number.
pub proof fn mode_changes_end(renderer: Renderer, replies: ModeReplies, reply: Reply)
    requires
        mode_bound(replies),
        set_modes_next(renderer, replies) is Ask,
    ensures
        mode_bound(replies.push(renderer, reply)),
        ({
            let next = replies.push(renderer, reply);
            next.targets.len() + next.pipelines.len() == replies.targets.len()
                + replies.pipelines.len() + 1
        }),
{
}

/// No part of a flush has been given more replies than it takes.
pub open spec fn flush_bound(replies: FlushReplies) -> bool {
    &&& replies.submission.len() <= 1
    &&& replies.pipelines.len() <= full_length()
}

/// A flush ends: each reply is one of a bounded number.
pub proof fn flushes_end(renderer: Renderer, replies: FlushReplies, reply: Reply)
    requires
        flush_bound(replies),
        flush_next(renderer, replies) is Ask,
    ensures
        flush_bound(replies.push(reply)),
        ({
            let next = replies.push(reply);
            next.submission.len() + next.pipelines.len() == replies.submission.len()
                + replies.pipelines.len() + 1
        }),
{
}

/// No part of a screenshot has been given more replies than it takes.
pub open spec fn screenshot_bound(replies: ScreenshotReplies) -> bool {
    &&& replies.download.len() <= 2
    &&& flush_bound(replies.flush)
    &&& replies.read.len() <= 1
}

/// The number of replies to a screenshot.
pub open spec fn screenshot_count(replies: ScreenshotReplies) -> nat {
    replies.download.len() + replies.flush.submission.len() + replies.flush.pipelines.len()
        + replies.read.len()
}

/// A screenshot ends: each reply is one of a bounded number.
pub proof fn screenshots_end(renderer: Renderer, replies: ScreenshotReplies, reply: Reply)
    requires
        screenshot_bound(replies),
        create_screenshot_next(renderer, replies) is Ask,
    ensures
        screenshot_bound(replies.push(renderer, reply)),
        screenshot_count(replies.push(renderer, reply)) == screenshot_count(replies) + 1,
{
}

/// No part of the making of a renderer has been given more replies than it takes.
pub open spec fn setup_bound(replies: SetupReplies) -> bool {
    &&& replies.pipelines.len() <= full_length()
    &&& replies.targets.len() <= 5
    &&& replies.shadow_views.len() <= 4
    &&& replies.shadow_encoder.len() <= 1
    &&& replies.rest.len() <= 3
}

/// The number of replies to the making of a renderer.
pub open spec fn setup_count(replies: SetupReplies) -> nat {
    replies.pipelines.len() + replies.targets.len() + replies.shadow_views.len()
        + replies.shadow_encoder.len() + replies.rest.len()
}

/// The making of a renderer ends: each reply is one of a bounded number.
pub proof fn makings_end(setup: Setup, replies: SetupReplies, reply: Reply)
    requires
        setup_bound(replies),
        new_next(setup, replies) is Ask,
    ensures
        setup_bound(replies.push(setup, reply)),
        setup_count(replies.push(setup, reply)) == setup_count(replies) + 1,
{
}

// The buffers.

/// The replies were given one after the other, each to what was asked for after those
/// before it.
pub open spec fn is_upload_run<T>(
    usage: BufferUsage,
    values: Seq<T>,
    encoder: Encoder,
    replies: Seq<UploadReply>,
) -> bool {
    forall|k: int|
        0 <= k < replies.len() ==> (#[trigger] upload_next(usage, values, encoder, replies.take(k))
            matches Next::Ask(request) && replies[k].answers(request))
}

/// A buffer that is handed out was created for as many values as were given, and exactly
/// these values were written to it, through the renderer's encoder.
pub proof fn buffers_hold_their_values<T>(
    usage: BufferUsage,
    values: Seq<T>,
    encoder: Encoder,
    replies: Seq<UploadReply>,
    buffer: Buffer,
)
    requires
        is_upload_run(usage, values, encoder, replies),
        upload_next(usage, values, encoder, replies) == Next::<
            Result<Buffer, RenderErrorView>,
            UploadRequestView<T>,
        >::Done(Ok(buffer)),
    ensures
        replies =~= seq![UploadReply::Created(buffer), UploadReply::Written],
        upload_next(usage, values, encoder, replies.take(0)) == Next::<
            Result<Buffer, RenderErrorView>,
            UploadRequestView<T>,
        >::Ask(UploadRequestView::Create { usage, len: values.len() }),
        upload_next(usage, values, encoder, replies.take(1)) == Next::<
            Result<Buffer, RenderErrorView>,
            UploadRequestView<T>,
        >::Ask(UploadRequestView::Write { encoder, buffer, values }),
{
    assert(upload_next(usage, values, encoder, replies.take(0)) is Ask);
    assert(upload_next(usage, values, encoder, replies.take(1)) is Ask);
    if replies.len() > 2 {
        assert(upload_next(usage, values, encoder, replies.take(2)) is Ask);
    }
}

/// Buffers are created in at most two steps, and whoever asks for constants is only ever
/// told that their values could not be written.
pub proof fn constants_fail_only_when_written<T>(
    values: Seq<T>,
    encoder: Encoder,
    replies: Seq<UploadReply>,
)
    requires
        is_upload_run(BufferUsage::Constants, values, encoder, replies),
    ensures
        replies.len() <= 2,
        upload_next(BufferUsage::Constants, values, encoder, replies) matches Next::Done(result)
            ==> replies.len() == 2 && (result is Err ==> result->Err_0 is UpdateError),
{
    let usage = BufferUsage::Constants;
    if replies.len() > 0 {
        assert(upload_next(usage, values, encoder, replies.take(0)) is Ask);
    }
    if replies.len() > 2 {
        assert(upload_next(usage, values, encoder, replies.take(2)) is Ask);
    }
}

/// Sprites are drawn once for each of the values that their instances were created with.
pub proof fn sprites_are_drawn_once_per_value(
    renderer: Renderer,
    values: Seq<sprite::Instance>,
    replies: Seq<UploadReply>,
    instances: Instances<sprite::Instance>,
    model: &Model<sprite::SpritePipeline>,
    globals: &Consts<Globals>,
    lights: &Consts<Light>,
    shadows: &Consts<Shadow>,
    map: &Texture<LodColorFmt>,
    horizon: &Texture<LodTextureFmt>,
)
    requires
        instances_step(values, renderer.encoder, replies, Step::Done(Ok(instances))),
        values.len() <= u32::MAX,
    ensures
        ({
            let draw = renderer.sprites_draw(
                model,
                globals,
                &instances,
                lights,
                shadows,
                map,
                horizon,
            );
            &&& draw.slice.instances == Some((values.len() as u32, 0u32))
            &&& draw.data->Sprite_0.ibuf == instances.ibuf
        }),
{
}

// The draw calls.

/// The silhouette of the player is drawn like the player, but for the pipeline and the
/// stencil reference: it shows where the player was not drawn.
pub proof fn silhouette_is_drawn_like_the_player(
    renderer: Renderer,
    model: &Model<figure::FigurePipeline>,
    globals: &Consts<Globals>,
    locals: &Consts<figure::Locals>,
    bones: &Consts<figure::BoneData>,
    lights: &Consts<Light>,
    shadows: &Consts<Shadow>,
    map: &Texture<LodColorFmt>,
    horizon: &Texture<LodTextureFmt>,
)
    ensures
        ({
            let player = renderer.figure_draw(
                renderer.pipelines.figure,
                1,
                model,
                globals,
                locals,
                bones,
                lights,
                shadows,
                map,
                horizon,
            );
            let silhouette = renderer.figure_draw(
                renderer.pipelines.player_shadow,
                0,
                model,
                globals,
                locals,
                bones,
                lights,
                shadows,
                map,
                horizon,
            );
            silhouette == (Draw {
                pso: renderer.pipelines.player_shadow,
                data: DrawData::Figure(
                    figure::Data {
                        tgt_depth_stencil: (renderer.targets.depth_stencil_view, (0, 0)),
                        ..player.data->Figure_0
                    },
                ),
                ..player
            })
        }),
{
}

// Screenshots.

/// Row `y` from the top is row `rows - 1 - y` of the buffer.
proof fn lemma_bottom_up_index(width: nat, rows: nat, pixels: Seq<[u8; 4]>, x: int, y: int)
    requires
        rows * width <= pixels.len(),
        0 <= x < width,
        0 <= y < rows,
    ensures
        bottom_up(width, rows, pixels).len() == rows * width,
        0 <= y * width + x < rows * width,
        bottom_up(width, rows, pixels)[y * width + x] == pixels[(rows - 1 - y) * width + x],
    decreases rows,
{
    lemma_bottom_up_len(width, rows, pixels);
    assert(rows * width == (rows - 1) * width + width && 0 <= (rows - 1) * width)
        by (nonlinear_arith)
        requires
            rows > 0,
    ;
    assert(0 <= y * width && y * width + width <= rows * width) by (nonlinear_arith)
        requires
            0 <= y < rows,
    ;
    if y == 0 {
        assert(y * width == 0) by (nonlinear_arith)
            requires
                y == 0,
        ;
    } else {
        assert(y * width == width + (y - 1) * width) by (nonlinear_arith);
        lemma_bottom_up_index(width, (rows - 1) as nat, pixels, x, y - 1);
    }
}

/// A screenshot shows the window upright: the pixel in column `x` and row `y` of the
/// picture is that in the same column and in row `height - 1 - y` of the buffer, whose rows
/// begin at the bottom of the window.
pub proof fn screenshots_are_upright(
    width: u16,
    height: u16,
    pixels: Seq<[u8; 4]>,
    x: int,
    y: int,
    channel: int,
)
    requires
        pixels.len() == width * height,
        0 <= x < width,
        0 <= y < height,
        0 <= channel < 4,
    ensures
        picture_of(width, height, pixels).samples.len() == 4 * width * height,
        picture_of(width, height, pixels).samples[4 * (y * width + x) + channel] == pixels[(height
            - 1 - y) * width + x][channel],
{
    assert(width * height == height as nat * width as nat) by (nonlinear_arith);
    assert(4 * (height as nat * width as nat) == 4 * width * height) by (nonlinear_arith);
    lemma_bottom_up_index(width as nat, height as nat, pixels, x, y);
    let rows = bottom_up(width as nat, height as nat, pixels);
    let i = 4 * (y * width + x) + channel;
    assert(bytes(rows)[i] == rows[i / 4][i % 4]);
}

/// Reversing the rows twice gives them back.
pub proof fn reversing_rows_twice_gives_them_back(width: nat, rows: nat, pixels: Seq<[u8; 4]>)
    requires
        pixels.len() == rows * width,
    ensures
        bottom_up(width, rows, bottom_up(width, rows, pixels)) == pixels,
{
    let once = bottom_up(width, rows, pixels);
    lemma_bottom_up_len(width, rows, pixels);
    lemma_bottom_up_len(width, rows, once);
    let twice = bottom_up(width, rows, once);
    assert forall|i: int| 0 <= i < pixels.len() implies twice[i] == pixels[i] by {
        assert(width > 0) by (nonlinear_arith)
            requires
                0 <= i < rows * width,
        ;
        let w = width as int;
        let y = i / w;
        let x = i % w;
        assert(i == y * w + x && 0 <= x < w && 0 <= y < rows) by (nonlinear_arith)
            requires
                0 <= i < rows * width,
                w == width > 0,
                y == i / w,
                x == i % w,
        ;
        lemma_bottom_up_index(width, rows, once, x, y);
        lemma_bottom_up_index(width, rows, pixels, x, rows - 1 - y);
    }
    assert(twice =~= pixels);
}

} // verus!
