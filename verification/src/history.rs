//! What holds of a renderer from its making on, through all that is done with it.
use crate::capture::{create_screenshot_next, ScreenshotReplies};
use crate::draw::{Draw, DrawData};
use crate::error::RenderErrorView;
use crate::exchange::{Next, Reply, RequestView};
use crate::geometry::Vec2;
use crate::laws::{flush_keeps_the_rest, screenshot_keeps_the_rest};
use crate::modes::{AaMode, Modes};
use crate::operations::{
    flush_next, on_resize_next, recreate_next, set_modes_next, FlushReplies, ModeReplies,
    RebuildView,
};
use crate::pipelines::{
    figure, fluid, lod_terrain, postprocess, skybox, sprite, terrain, Globals, Light, Shadow,
};
use crate::renderer::Renderer;
use crate::resources::{
    Consts, Instances, LodColorFmt, LodTextureFmt, Model, PipelineState, PlainFmt, RawTexture,
    Texture, TgtColorView, TgtDepthStencilView, WinColorView, WinDepthView,
};
use crate::setup::{new_next, Setup, SetupReplies};
use crate::targets::{
    color_info, create_rt_views_next, create_shadow_views_next, depth_info, resource_view_of,
    targets_fit, RenderTargets, ShadowViews,
};
use vstd::prelude::*;

verus! {

// Views and the textures behind them.

/// The replies to the creation of targets were given one after the other, each to what was
/// asked for after those before it.
pub open spec fn is_targets_run(size: Vec2, aa: AaMode, replies: Seq<Reply>) -> bool {
    forall|k: int|
        0 <= k < replies.len() ==> (#[trigger] create_rt_views_next(size, aa, replies.take(k))
            matches Next::Ask(request) && replies[k].answers(request))
}

/// The replies to the creation of a shadow map were given one after the other, each to what
/// was asked for after those before it.
pub open spec fn is_shadow_run(size: u16, replies: Seq<Reply>) -> bool {
    forall|k: int|
        0 <= k < replies.len() ==> (#[trigger] create_shadow_views_next(size, replies.take(k))
            matches Next::Ask(request) && replies[k].answers(request))
}

/// The size of the targets for a window: twice that of the window with supersampling.
pub open spec fn target_size(window: Vec2, aa: AaMode) -> (int, int) {
    if aa is SsaaX4 {
        (2 * window.x, 2 * window.y)
    } else {
        (window.x as int, window.y as int)
    }
}

/// Both targets have the size that belongs to this window and mode.
pub open spec fn targets_have_size(targets: RenderTargets, window: Vec2, aa: AaMode) -> bool {
    let size = target_size(window, aa);
    &&& targets.color_view.width == size.0
    &&& targets.color_view.height == size.1
    &&& targets.depth_stencil_view.width == size.0
    &&& targets.depth_stencil_view.height == size.1
}

/// The targets were made like this: a texture of the shape for the window and the mode,
/// with its number of samples, was created; the colors that post-processing reads are a view
/// of that texture, and so is the view that the scene is drawn to. The depths are a view of
/// another texture of that shape.
pub open spec fn made_by(
    size: Vec2,
    aa: AaMode,
    replies: Seq<Reply>,
    color: RawTexture,
    depth: RawTexture,
    targets: RenderTargets,
) -> bool {
    &&& replies =~= seq![
        Reply::Texture(color),
        Reply::ResourceView(targets.color_res),
        Reply::RenderTargetView(targets.color_view),
        Reply::Texture(depth),
        Reply::DepthStencilView(targets.depth_stencil_view),
    ]
    &&& create_rt_views_next(size, aa, replies.take(0)) == asks(
        RequestView::CreateTexture { info: color_info(size, aa) },
    )
    &&& create_rt_views_next(size, aa, replies.take(1)) == asks(resource_view_of(color))
    &&& create_rt_views_next(size, aa, replies.take(2)) == asks(
        RequestView::ViewAsRenderTarget { texture: color, level: 0, layer: None },
    )
    &&& create_rt_views_next(size, aa, replies.take(3)) == asks(
        RequestView::CreateTexture { info: depth_info(size, aa) },
    )
    &&& create_rt_views_next(size, aa, replies.take(4)) == asks(
        RequestView::ViewAsDepthStencil { texture: depth },
    )
}

/// The creation of targets asks for `request`.
pub open spec fn asks(request: RequestView) -> Next<Result<RenderTargets, RenderErrorView>> {
    Next::Ask(request)
}

/// Targets that were created are views of one color and one depth texture, and they have
/// the size for the window and the mode.
pub proof fn targets_are_views_of_their_textures(
    size: Vec2,
    aa: AaMode,
    replies: Seq<Reply>,
    targets: RenderTargets,
)
    requires
        targets_fit(size, aa),
        is_targets_run(size, aa, replies),
        create_rt_views_next(size, aa, replies) == Next::<
            Result<RenderTargets, RenderErrorView>,
        >::Done(Ok(targets)),
    ensures
        made_by(size, aa, replies, replies[0]->Texture_0, replies[3]->Texture_0, targets),
        targets_have_size(targets, size, aa),
{
    assert(create_rt_views_next(size, aa, replies.take(0)) is Ask);
    assert(create_rt_views_next(size, aa, replies.take(1)) is Ask);
    assert(create_rt_views_next(size, aa, replies.take(2)) is Ask);
    assert(create_rt_views_next(size, aa, replies.take(3)) is Ask);
    assert(create_rt_views_next(size, aa, replies.take(4)) is Ask);
    if replies.len() > 5 {
        let five = replies.take(5);
        assert(create_rt_views_next(size, aa, five) is Ask);
        assert(five.last() == replies[4]);
    }
}

/// A shadow map that was created has a quarter of the size that it was created for.
pub proof fn shadow_maps_have_their_size(size: u16, replies: Seq<Reply>, views: ShadowViews)
    requires
        is_shadow_run(size, replies),
        create_shadow_views_next(size, replies) == Next::<
            Result<ShadowViews, RenderErrorView>,
        >::Done(Ok(views)),
    ensures
        views.depth_stencil_view.width == size / 4,
        views.depth_stencil_view.height == size / 4,
{
    assert(create_shadow_views_next(size, replies.take(0)) is Ask);
    assert(create_shadow_views_next(size, replies.take(1)) is Ask);
    assert(create_shadow_views_next(size, replies.take(2)) is Ask);
    assert(create_shadow_views_next(size, replies.take(3)) is Ask);
    assert(replies.take(3).last() == replies[2]);
}

// Single operations.

/// A renderer that is made has targets of the size of its window, doubled with
/// supersampling, and what post-processing reads is its color target.
pub proof fn new_targets_match_the_window(
    setup: Setup,
    replies: SetupReplies,
    made: Renderer,
    shadow_error: Option<RenderErrorView>,
)
    requires
        targets_fit(setup.window_size(), setup.modes.aa),
        is_targets_run(setup.window_size(), setup.modes.aa, replies.targets),
        new_next(setup, replies) == Next::<
            (Result<Renderer, RenderErrorView>, Option<RenderErrorView>),
        >::Done((Ok(made), shadow_error)),
    ensures
        targets_have_size(made.targets, setup.window_size(), setup.modes.aa),
        made_by(
            setup.window_size(),
            setup.modes.aa,
            replies.targets,
            replies.targets[0]->Texture_0,
            replies.targets[3]->Texture_0,
            made.targets,
        ),
{
    targets_are_views_of_their_textures(
        setup.window_size(),
        setup.modes.aa,
        replies.targets,
        made.targets,
    );
}

/// A resize of a window with an area gives both targets the size of the window, doubled with
/// supersampling, and what post-processing reads is the new color target.
pub proof fn resized_targets_match_the_window(
    renderer: Renderer,
    replies: Seq<Reply>,
    resized: Renderer,
)
    requires
        renderer.win_color_view.width != 0,
        renderer.win_color_view.height != 0,
        renderer.can_resize(),
        is_targets_run(renderer.window_size(), renderer.modes.aa, replies),
        on_resize_next(renderer, replies) == Next::<
            (Renderer, Result<(), RenderErrorView>),
        >::Done((resized, Ok(()))),
    ensures
        targets_have_size(resized.targets, renderer.window_size(), renderer.modes.aa),
        made_by(
            renderer.window_size(),
            renderer.modes.aa,
            replies,
            replies[0]->Texture_0,
            replies[3]->Texture_0,
            resized.targets,
        ),
{
    targets_are_views_of_their_textures(
        renderer.window_size(),
        renderer.modes.aa,
        replies,
        resized.targets,
    );
}

/// A second resize for the same window and mode gives targets of the same size.
pub proof fn resizing_again_keeps_the_size(
    renderer: Renderer,
    first_replies: Seq<Reply>,
    resized: Renderer,
    second_replies: Seq<Reply>,
    again: Renderer,
)
    requires
        renderer.win_color_view.width != 0,
        renderer.win_color_view.height != 0,
        renderer.can_resize(),
        is_targets_run(renderer.window_size(), renderer.modes.aa, first_replies),
        on_resize_next(renderer, first_replies) == Next::<
            (Renderer, Result<(), RenderErrorView>),
        >::Done((resized, Ok(()))),
        is_targets_run(renderer.window_size(), renderer.modes.aa, second_replies),
        on_resize_next(resized, second_replies) == Next::<
            (Renderer, Result<(), RenderErrorView>),
        >::Done((again, Ok(()))),
    ensures
        again.targets.color_view.width == resized.targets.color_view.width,
        again.targets.color_view.height == resized.targets.color_view.height,
        again.targets.depth_stencil_view.width == resized.targets.depth_stencil_view.width,
        again.targets.depth_stencil_view.height == resized.targets.depth_stencil_view.height,
{
    resized_targets_match_the_window(renderer, first_replies, resized);
    resized_targets_match_the_window(resized, second_replies, again);
}

/// A change of modes that succeeds on a window with an area gives both targets the size for
/// the new modes, and what post-processing reads is the new color target. The resolutions of
/// the window and of the shadow map stay.
pub proof fn mode_changes_resize_the_targets(
    renderer: Renderer,
    modes: Modes,
    replies: ModeReplies,
    changed: Renderer,
    rebuild: RebuildView,
)
    requires
        renderer.win_color_view.width != 0,
        renderer.win_color_view.height != 0,
        targets_fit(renderer.window_size(), modes.aa),
        is_targets_run(renderer.window_size(), modes.aa, replies.targets),
        set_modes_next(renderer.with_modes(modes), replies) == Next::<
            (Renderer, Result<RebuildView, RenderErrorView>),
        >::Done((changed, Ok(rebuild))),
    ensures
        changed.modes == modes,
        targets_have_size(changed.targets, renderer.window_size(), modes.aa),
        made_by(
            renderer.window_size(),
            modes.aa,
            replies.targets,
            replies.targets[0]->Texture_0,
            replies.targets[3]->Texture_0,
            changed.targets,
        ),
        changed.win_color_view == renderer.win_color_view,
        changed.window_size() == renderer.window_size(),
        changed.shadow_resolution() == renderer.shadow_resolution(),
{
    targets_are_views_of_their_textures(
        renderer.window_size(),
        modes.aa,
        replies.targets,
        changed.targets,
    );
}

/// Supersampling can be undone: turning it on and then off again ends with targets of the
/// window's size.
pub proof fn supersampling_can_be_undone(
    renderer: Renderer,
    first_replies: ModeReplies,
    doubled: Renderer,
    first_rebuild: RebuildView,
    second_replies: ModeReplies,
    undone: Renderer,
    second_rebuild: RebuildView,
)
    requires
        renderer.win_color_view.width != 0,
        renderer.win_color_view.height != 0,
        targets_fit(renderer.window_size(), AaMode::SsaaX4),
        is_targets_run(renderer.window_size(), AaMode::SsaaX4, first_replies.targets),
        set_modes_next(
            renderer.with_modes(Modes { aa: AaMode::SsaaX4, ..renderer.modes }),
            first_replies,
        ) == Next::<(Renderer, Result<RebuildView, RenderErrorView>)>::Done(
            (doubled, Ok(first_rebuild)),
        ),
        is_targets_run(renderer.window_size(), AaMode::Off, second_replies.targets),
        set_modes_next(
            doubled.with_modes(Modes { aa: AaMode::Off, ..doubled.modes }),
            second_replies,
        ) == Next::<(Renderer, Result<RebuildView, RenderErrorView>)>::Done(
            (undone, Ok(second_rebuild)),
        ),
    ensures
        doubled.targets.color_view.width == 2 * renderer.win_color_view.width,
        doubled.targets.color_view.height == 2 * renderer.win_color_view.height,
        undone.targets.color_view.width == renderer.win_color_view.width,
        undone.targets.color_view.height == renderer.win_color_view.height,
        undone.targets.depth_stencil_view.width == renderer.win_color_view.width,
        undone.targets.depth_stencil_view.height == renderer.win_color_view.height,
        undone.modes == (Modes { aa: AaMode::Off, ..renderer.modes }),
{
    mode_changes_resize_the_targets(
        renderer,
        Modes { aa: AaMode::SsaaX4, ..renderer.modes },
        first_replies,
        doubled,
        first_rebuild,
    );
    mode_changes_resize_the_targets(
        doubled,
        Modes { aa: AaMode::Off, ..doubled.modes },
        second_replies,
        undone,
        second_rebuild,
    );
}

// The life of a renderer.

/// Something that is done with a renderer, with the replies that it was given. Draw calls,
/// clears and the creation of buffers leave a renderer as it is.
pub enum Change {
    Resize { replies: Seq<Reply> },
    Mode { modes: Modes, replies: ModeReplies },
    Recreate { replies: Seq<Reply> },
    Flush { replies: FlushReplies },
    Screenshot { replies: ScreenshotReplies },
    /// The window's views are replaced, as when its size changes.
    Window { color: WinColorView, depth: WinDepthView },
    /// The target views are replaced from outside.
    Targets { color: TgtColorView, depth: TgtDepthStencilView },
}

impl Change {
    /// The change makes `after` of `before`, whether or not it succeeds.
    pub open spec fn makes(self, before: Renderer, after: Renderer) -> bool {
        match self {
            Change::Resize { replies } => {
                &&& before.can_resize()
                &&& is_targets_run(before.window_size(), before.modes.aa, replies)
                &&& on_resize_next(before, replies) matches Next::Done((resized, _)) && resized
                    == after
            },
            Change::Mode { modes, replies } => {
                &&& before.with_modes(modes).can_resize()
                &&& is_targets_run(before.window_size(), modes.aa, replies.targets)
                &&& set_modes_next(before.with_modes(modes), replies) matches Next::Done(
                    (changed, _),
                ) && changed == after
            },
            Change::Recreate { replies } => {
                recreate_next(before, replies) matches Next::Done((recreated, _)) && recreated
                    == after
            },
            Change::Flush { replies } => {
                flush_next(before, replies) matches Next::Done((flushed, _)) && flushed == after
            },
            Change::Screenshot { replies } => {
                create_screenshot_next(before, replies) matches Next::Done((shot, _, _)) && shot
                    == after
            },
            Change::Window { color, depth } => after == (Renderer {
                win_color_view: color,
                win_depth_view: depth,
                ..before
            }),
            Change::Targets { color, depth } => after == before.with_targets(
                RenderTargets {
                    color_view: color,
                    depth_stencil_view: depth,
                    color_res: before.targets.color_res,
                },
            ),
        }
    }

    /// The size, the mode and the replies that new targets were made with, if the change
    /// made any.
    pub open spec fn new_targets(self, before: Renderer) -> Option<(Vec2, AaMode, Seq<Reply>)> {
        let size = before.window_size();
        match self {
            Change::Resize { replies } => if size.x != 0 && size.y != 0 && create_rt_views_next(
                size,
                before.modes.aa,
                replies,
            ) matches Next::Done(Ok(_)) {
                Some((size, before.modes.aa, replies))
            } else {
                None
            },
            Change::Mode { modes, replies } => if size.x != 0 && size.y != 0
                && create_rt_views_next(size, modes.aa, replies.targets) matches Next::Done(Ok(_)) {
                Some((size, modes.aa, replies.targets))
            } else {
                None
            },
            _ => None,
        }
    }

    /// No view of a target is that of the window: the backend hands out new views, and the
    /// window is not given the target's.
    pub open spec fn keeps_apart(self, before: Renderer) -> bool {
        match self {
            Change::Resize { replies } => views_are_not(replies, before.win_color_view.id),
            Change::Mode { replies, .. } => views_are_not(
                replies.targets,
                before.win_color_view.id,
            ),
            Change::Window { color, .. } => color.id != before.targets.color_view.id,
            _ => true,
        }
    }
}

/// No color view among the replies has this number.
pub open spec fn views_are_not(replies: Seq<Reply>, id: u32) -> bool {
    forall|k: int|
        0 <= k < replies.len() ==> (#[trigger] replies[k] matches Reply::RenderTargetView(view)
            ==> view.id != id)
}

/// `states` are a renderer that was made for `setup`, and what the changes made of it, one
/// after the other.
pub open spec fn is_history(
    setup: Setup,
    replies: SetupReplies,
    changes: Seq<Change>,
    states: Seq<Renderer>,
) -> bool {
    &&& targets_fit(setup.window_size(), setup.modes.aa)
    &&& is_targets_run(setup.window_size(), setup.modes.aa, replies.targets)
    &&& is_shadow_run(setup.spec_longer_side(), replies.shadow_views)
    &&& states.len() == changes.len() + 1
    &&& new_next(setup, replies) matches Next::Done((Ok(made), _)) && made == states[0]
    &&& forall|i: int|
        0 <= i < changes.len() ==> (#[trigger] changes[i]).makes(states[i], states[i + 1])
}

/// A change keeps the shadow map, but for its pipeline.
proof fn lemma_change_keeps_the_shadow_map(change: Change, before: Renderer, after: Renderer)
    requires
        change.makes(before, after),
    ensures
        after.shadow_map is Some <==> before.shadow_map is Some,
        after.shadow_resolution() == before.shadow_resolution(),
{
    match change {
        Change::Flush { replies } => flush_keeps_the_rest(before, replies),
        Change::Screenshot { replies } => screenshot_keeps_the_rest(before, replies),
        _ => {},
    }
}

/// The shadow map is never resized: its resolution stays a quarter of the longer side that
/// the window had when the renderer was made, or one by one if there was no shadow map.
pub proof fn shadow_resolution_stays(
    setup: Setup,
    replies: SetupReplies,
    changes: Seq<Change>,
    states: Seq<Renderer>,
    i: int,
)
    requires
        is_history(setup, replies, changes, states),
        0 <= i < states.len(),
    ensures
        states[i].shadow_map is Some <==> states[0].shadow_map is Some,
        states[i].shadow_map is Some ==> states[i].shadow_resolution() == (Vec2 {
            x: setup.spec_longer_side() / 4,
            y: setup.spec_longer_side() / 4,
        }),
        states[i].shadow_map is None ==> states[i].shadow_resolution() == (Vec2 { x: 1, y: 1 }),
    decreases i,
{
    if i == 0 {
        if states[0].shadow_map is Some {
            let size = setup.spec_longer_side();
            let views = create_shadow_views_next(size, replies.shadow_views)->Done_0->Ok_0;
            shadow_maps_have_their_size(size, replies.shadow_views, views);
        }
    } else {
        shadow_resolution_stays(setup, replies, changes, states, i - 1);
        assert(changes[i - 1].makes(states[i - 1], states[i]));
        lemma_change_keeps_the_shadow_map(changes[i - 1], states[i - 1], states[i]);
    }
}

/// The size, the mode and the replies that the targets of state `i` were made with: those of
/// the last change before it that made any, or those of the making.
pub open spec fn made_from(
    setup: Setup,
    replies: SetupReplies,
    changes: Seq<Change>,
    states: Seq<Renderer>,
    i: int,
) -> (Vec2, AaMode, Seq<Reply>)
    decreases i,
{
    if i <= 0 {
        (setup.window_size(), setup.modes.aa, replies.targets)
    } else {
        match changes[i - 1].new_targets(states[i - 1]) {
            Some(origin) => origin,
            None => made_from(setup, replies, changes, states, i - 1),
        }
    }
}

/// A change makes new targets, which are views of the textures that were created for them,
/// or it keeps the targets.
proof fn lemma_change_of_targets(change: Change, before: Renderer, after: Renderer)
    requires
        change.makes(before, after),
        !(change is Targets),
    ensures
        match change.new_targets(before) {
            Some((size, aa, replies)) => {
                &&& made_by(
                    size,
                    aa,
                    replies,
                    replies[0]->Texture_0,
                    replies[3]->Texture_0,
                    after.targets,
                )
                &&& targets_have_size(after.targets, size, aa)
            },
            None => after.targets == before.targets,
        },
        change.keeps_apart(before) && before.targets.color_view.id != before.win_color_view.id
            ==> after.targets.color_view.id != after.win_color_view.id,
{
    match change.new_targets(before) {
        Some((size, aa, replies)) => {
            targets_are_views_of_their_textures(size, aa, replies, after.targets);
            assert(replies[2] == Reply::RenderTargetView(after.targets.color_view));
        },
        None => {},
    }
    match change {
        Change::Flush { replies } => flush_keeps_the_rest(before, replies),
        Change::Screenshot { replies } => screenshot_keeps_the_rest(before, replies),
        _ => {},
    }
}

/// Post-processing reads the texture that the scene is drawn to. As long as the target views
/// are not replaced from outside, they are those that their last creation made: the color
/// target and what post-processing reads are views of the one color texture that was created
/// then, of the size and with the samples for the window and the mode of that time. Given
/// that no view of a target is that of the window, the color target is not the window's.
pub proof fn targets_stay_together(
    setup: Setup,
    replies: SetupReplies,
    changes: Seq<Change>,
    states: Seq<Renderer>,
    i: int,
)
    requires
        is_history(setup, replies, changes, states),
        0 <= i < states.len(),
        forall|j: int| 0 <= j < i ==> !(#[trigger] changes[j] is Targets),
    ensures
        ({
            let origin = made_from(setup, replies, changes, states, i);
            &&& made_by(
                origin.0,
                origin.1,
                origin.2,
                origin.2[0]->Texture_0,
                origin.2[3]->Texture_0,
                states[i].targets,
            )
            &&& targets_have_size(states[i].targets, origin.0, origin.1)
        }),
        views_are_not(replies.targets, setup.win_color_view.id) && (forall|j: int|
            0 <= j < i ==> (#[trigger] changes[j]).keeps_apart(states[j]))
            ==> states[i].targets.color_view.id != states[i].win_color_view.id,
    decreases i,
{
    if i == 0 {
        let size = setup.window_size();
        let targets = states[0].targets;
        targets_are_views_of_their_textures(size, setup.modes.aa, replies.targets, targets);
        assert(replies.targets[2] == Reply::RenderTargetView(targets.color_view));
    } else {
        targets_stay_together(setup, replies, changes, states, i - 1);
        assert(changes[i - 1].makes(states[i - 1], states[i]));
        lemma_change_of_targets(changes[i - 1], states[i - 1], states[i]);
    }
}

/// Where the colors of a draw call go, if it is one of the scene.
pub open spec fn scene_target(draw: Draw) -> Option<TgtColorView> {
    match draw.data {
        DrawData::Skybox(data) => Some(data.tgt_color),
        DrawData::Figure(data) => Some(data.tgt_color),
        DrawData::Terrain(data) => Some(data.tgt_color),
        DrawData::Fluid(data) => Some(data.tgt_color),
        DrawData::Sprite(data) => Some(data.tgt_color),
        DrawData::LodTerrain(data) => Some(data.tgt_color),
        _ => None,
    }
}

/// Skyboxes, figures, terrain, fluids, sprites and distant terrain are drawn to the color
/// target; post-processing reads the view of it for shaders and draws to the window.
pub proof fn post_processing_shows_the_scene(
    renderer: Renderer,
    skybox_model: &Model<skybox::SkyboxPipeline>,
    skybox_locals: &Consts<skybox::Locals>,
    pso: PipelineState,
    reference: u8,
    figure_model: &Model<figure::FigurePipeline>,
    figure_locals: &Consts<figure::Locals>,
    bones: &Consts<figure::BoneData>,
    terrain_model: &Model<terrain::TerrainPipeline>,
    terrain_locals: &Consts<terrain::Locals>,
    fluid_model: &Model<fluid::FluidPipeline>,
    waves: &Texture<PlainFmt>,
    sprite_model: &Model<sprite::SpritePipeline>,
    instances: &Instances<sprite::Instance>,
    lod_model: &Model<lod_terrain::LodTerrainPipeline>,
    lod_locals: &Consts<lod_terrain::Locals>,
    post_model: &Model<postprocess::PostProcessPipeline>,
    post_locals: &Consts<postprocess::Locals>,
    globals: &Consts<Globals>,
    lights: &Consts<Light>,
    shadows: &Consts<Shadow>,
    map: &Texture<LodColorFmt>,
    horizon: &Texture<LodTextureFmt>,
)
    ensures
        ({
            let target = Some(renderer.targets.color_view);
            let post = renderer.post_process_draw(post_model, globals, post_locals);
            &&& scene_target(
                renderer.skybox_draw(skybox_model, globals, skybox_locals, map, horizon),
            ) == target
            &&& scene_target(
                renderer.figure_draw(
                    pso,
                    reference,
                    figure_model,
                    globals,
                    figure_locals,
                    bones,
                    lights,
                    shadows,
                    map,
                    horizon,
                ),
            ) == target
            &&& scene_target(
                renderer.terrain_draw(
                    terrain_model,
                    globals,
                    terrain_locals,
                    lights,
                    shadows,
                    map,
                    horizon,
                ),
            ) == target
            &&& scene_target(
                renderer.fluid_draw(
                    fluid_model,
                    globals,
                    terrain_locals,
                    lights,
                    shadows,
                    map,
                    horizon,
                    waves,
                ),
            ) == target
            &&& scene_target(
                renderer.sprites_draw(
                    sprite_model,
                    globals,
                    instances,
                    lights,
                    shadows,
                    map,
                    horizon,
                ),
            ) == target
            &&& scene_target(
                renderer.lod_terrain_draw(lod_model, globals, lod_locals, map, horizon),
            ) == target
            &&& post.encoder == renderer.encoder
            &&& post.pso == renderer.pipelines.postprocess
            &&& post.slice.start == post_model.vertex_range.start
            &&& post.slice.end == post_model.vertex_range.end
            &&& post.data->PostProcess_0.src_sampler == (
                renderer.targets.color_res,
                renderer.sampler,
            )
            &&& post.data->PostProcess_0.tgt_color == renderer.win_color_view
            &&& post.data->PostProcess_0.tgt_depth == renderer.win_depth_view
        }),
{
}

} // verus!
