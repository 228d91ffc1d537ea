//! The making of a renderer.
use crate::create_pipelines::{
    create_pipelines, create_pipelines_next, pipelines_step, BuiltPipelines, BuiltPipelinesView,
    PipelinesTask, ScenePipelines,
};
use crate::error::{error_view, result_view, RenderError, RenderErrorView};
use crate::exchange::{Next, Reply, Request, RequestView, Step};
use crate::geometry::Vec2;
use crate::modes::{AaMode, CloudMode, FluidMode, LightingMode, Modes};
use crate::renderer::{Renderer, ShadowMapRenderer};
use crate::resources::{
    Encoder, PipelineState, ResourceView, Sampler, Texture, WinColorView, WinDepthView,
};
use crate::targets::{
    create_rt_views, create_rt_views_next, create_shadow_views, create_shadow_views_next,
    shadow_views_step, targets_fit, targets_step, RenderTargets, ShadowViews, ShadowViewsTask,
    TargetsTask,
};
use crate::texture::{FilterMethod, WrapMode};
use core::marker::PhantomData;
use vstd::pervasive::unreached;
use vstd::prelude::*;

verus! {

/// What a renderer is made of and for.
#[derive(Clone, Copy, Debug, PartialEq, Eq)]
pub struct Setup {
    pub win_color_view: WinColorView,
    pub win_depth_view: WinDepthView,
    pub modes: Modes,
    pub max_texture_size: usize,
}

impl Setup {
    /// The size of the window.
    pub open spec fn window_size(self) -> Vec2 {
        Vec2 { x: self.win_color_view.width, y: self.win_color_view.height }
    }

    /// The longer side of the window.
    pub open spec fn spec_longer_side(self) -> u16 {
        if self.win_color_view.width >= self.win_color_view.height {
            self.win_color_view.width
        } else {
            self.win_color_view.height
        }
    }

    /// The longer side of the window.
    fn longer_side(&self) -> (side: u16)
        ensures
            side == self.spec_longer_side(),
    {
        if self.win_color_view.width >= self.win_color_view.height {
            self.win_color_view.width
        } else {
            self.win_color_view.height
        }
    }
}

/// The replies to the making of a renderer, by what they were asked for.
pub struct SetupReplies {
    pub pipelines: Seq<Reply>,
    pub targets: Seq<Reply>,
    pub shadow_views: Seq<Reply>,
    pub shadow_encoder: Seq<Reply>,
    pub rest: Seq<Reply>,
}

/// How the making of the shadow map goes on after the given replies: with a pipeline for
/// it, its views and an encoder are created. If the pipeline or the views cannot be created,
/// the reason takes the place of the shadow map.
pub open spec fn shadow_map_next(
    pipeline: Result<PipelineState, RenderErrorView>,
    size: u16,
    views: Seq<Reply>,
    encoder: Seq<Reply>,
) -> Next<Result<ShadowMapRenderer, RenderErrorView>> {
    match pipeline {
        Err(error) => Next::Done(Err(error)),
        Ok(pipeline) => match create_shadow_views_next(size, views) {
            Next::Ask(request) => Next::Ask(request),
            Next::Done(Err(error)) => Next::Done(Err(error)),
            Next::Done(Ok(views)) => if encoder.len() == 0 {
                Next::Ask(RequestView::CreateEncoder)
            } else {
                Next::Done(
                    Ok(
                        ShadowMapRenderer {
                            encoder: encoder[0]->Encoder_0,
                            depth_stencil_view: views.depth_stencil_view,
                            res: views.res,
                            sampler: views.sampler,
                            pipeline,
                        },
                    ),
                )
            },
        },
    }
}

/// The outcome, if it was a success.
pub open spec fn success<T>(outcome: Result<T, RenderErrorView>) -> Option<T> {
    match outcome {
        Ok(value) => Some(value),
        Err(_) => None,
    }
}

/// The outcome, if it was a failure.
pub open spec fn failure<T>(outcome: Result<T, RenderErrorView>) -> Option<RenderErrorView> {
    match outcome {
        Ok(_) => None,
        Err(error) => Some(error),
    }
}

/// How the making of a renderer ends, once it has its pipelines, its targets and its
/// shadow map: a sampler, the noise texture and an encoder are still needed.
pub open spec fn finish_next(
    setup: Setup,
    pipelines: ScenePipelines,
    targets: RenderTargets,
    shadow_map: Option<ShadowMapRenderer>,
    replies: Seq<Reply>,
) -> Next<Result<Renderer, RenderErrorView>> {
    if replies.len() == 0 {
        Next::Ask(RequestView::CreateLinearSampler)
    } else if replies.len() == 1 {
        Next::Ask(
            RequestView::LoadTexture {
                specifier: "voxygen.texture.noise"@,
                filter: FilterMethod::Bilinear,
                wrap: WrapMode::Tile,
            },
        )
    } else if replies[1] is TextureFailed {
        Next::Done(Err(RenderErrorView::CombinedError(replies[1]->TextureFailed_0)))
    } else if replies.len() == 2 {
        Next::Ask(RequestView::CreateEncoder)
    } else {
        Next::Done(
            Ok(
                Renderer {
                    encoder: replies[2]->Encoder_0,
                    win_color_view: setup.win_color_view,
                    win_depth_view: setup.win_depth_view,
                    targets,
                    sampler: replies[0]->Sampler_0,
                    shadow_map,
                    pipelines,
                    noise_tex: Texture {
                        srv: replies[1]->srv,
                        sampler: replies[1]->LoadedTexture_sampler,
                        format: PhantomData,
                    },
                    modes: setup.modes,
                    max_texture_size: setup.max_texture_size,
                },
            ),
        )
    }
}

/// How the making of a renderer goes on after the given replies: the pipelines come first,
/// then the targets, then the shadow map, then the rest. A failure of the shadow map
/// leaves it out, and is handed out beside the result; any other failure ends the making.
pub open spec fn new_next(setup: Setup, replies: SetupReplies) -> Next<
    (Result<Renderer, RenderErrorView>, Option<RenderErrorView>),
> {
    match create_pipelines_next(setup.modes, replies.pipelines) {
        Next::Ask(request) => Next::Ask(request),
        Next::Done(Err(error)) => Next::Done((Err(error), None)),
        Next::Done(Ok(built)) => match create_rt_views_next(
            setup.window_size(),
            setup.modes.aa,
            replies.targets,
        ) {
            Next::Ask(request) => Next::Ask(request),
            Next::Done(Err(error)) => Next::Done((Err(error), failure(built.shadow))),
            Next::Done(Ok(targets)) => match shadow_map_next(
                built.shadow,
                setup.spec_longer_side(),
                replies.shadow_views,
                replies.shadow_encoder,
            ) {
                Next::Ask(request) => Next::Ask(request),
                Next::Done(shadow_map) => match finish_next(
                    setup,
                    built.scene,
                    targets,
                    success(shadow_map),
                    replies.rest,
                ) {
                    Next::Ask(request) => Next::Ask(request),
                    Next::Done(result) => Next::Done((result, failure(shadow_map))),
                },
            },
        },
    }
}

impl SetupReplies {
    /// No replies yet.
    pub open spec fn none() -> SetupReplies {
        SetupReplies {
            pipelines: Seq::empty(),
            targets: Seq::empty(),
            shadow_views: Seq::empty(),
            shadow_encoder: Seq::empty(),
            rest: Seq::empty(),
        }
    }

    /// One more reply, to what the making waits for.
    pub open spec fn push(self, setup: Setup, reply: Reply) -> SetupReplies {
        match create_pipelines_next(setup.modes, self.pipelines) {
            Next::Done(Ok(built)) => if create_rt_views_next(
                setup.window_size(),
                setup.modes.aa,
                self.targets,
            ) is Ask {
                SetupReplies { targets: self.targets.push(reply), ..self }
            } else if built.shadow is Ok && create_shadow_views_next(
                setup.spec_longer_side(),
                self.shadow_views,
            ) is Ask {
                SetupReplies { shadow_views: self.shadow_views.push(reply), ..self }
            } else if shadow_map_next(
                built.shadow,
                setup.spec_longer_side(),
                self.shadow_views,
                self.shadow_encoder,
            ) is Ask {
                SetupReplies { shadow_encoder: self.shadow_encoder.push(reply), ..self }
            } else {
                SetupReplies { rest: self.rest.push(reply), ..self }
            },
            _ => SetupReplies { pipelines: self.pipelines.push(reply), ..self },
        }
    }
}

/// What the making of a renderer waits for.
enum SetupStage {
    Pipelines(PipelinesTask),
    Targets { built: BuiltPipelines, task: TargetsTask },
    ShadowViews {
        scene: ScenePipelines,
        targets: RenderTargets,
        pipeline: PipelineState,
        task: ShadowViewsTask,
    },
    ShadowEncoder {
        scene: ScenePipelines,
        targets: RenderTargets,
        pipeline: PipelineState,
        views: ShadowViews,
    },
    Sampler {
        scene: ScenePipelines,
        targets: RenderTargets,
        shadow_map: Result<ShadowMapRenderer, RenderError>,
    },
    Noise {
        scene: ScenePipelines,
        targets: RenderTargets,
        shadow_map: Result<ShadowMapRenderer, RenderError>,
        sampler: Sampler,
    },
    Encoder {
        scene: ScenePipelines,
        targets: RenderTargets,
        shadow_map: Result<ShadowMapRenderer, RenderError>,
        sampler: Sampler,
        noise: (ResourceView, Sampler),
    },
}

/// The pipelines are done, with this outcome.
spec fn has_built(setup: Setup, replies: SetupReplies, built: BuiltPipelinesView) -> bool {
    create_pipelines_next(setup.modes, replies.pipelines) == Next::<
        Result<BuiltPipelinesView, RenderErrorView>,
    >::Done(Ok(built))
}

/// The targets are done, with this outcome.
spec fn has_targets(setup: Setup, replies: SetupReplies, targets: RenderTargets) -> bool {
    create_rt_views_next(setup.window_size(), setup.modes.aa, replies.targets) == Next::<
        Result<RenderTargets, RenderErrorView>,
    >::Done(Ok(targets))
}

/// The pipelines, the targets and the shadow map are done, with these outcomes.
spec fn has_shadow_map(
    setup: Setup,
    replies: SetupReplies,
    scene: ScenePipelines,
    targets: RenderTargets,
    shadow_map: Result<ShadowMapRenderer, RenderError>,
) -> bool {
    &&& has_targets(setup, replies, targets)
    &&& exists|built: BuiltPipelinesView|
        {
            &&& #[trigger] has_built(setup, replies, built)
            &&& built.scene == scene
            &&& shadow_map_next(
                built.shadow,
                setup.spec_longer_side(),
                replies.shadow_views,
                replies.shadow_encoder,
            ) == Next::<Result<ShadowMapRenderer, RenderErrorView>>::Done(result_view(shadow_map))
        }
}

impl SetupStage {
    /// What was kept of the replies is what they brought.
    spec fn agrees(self, setup: Setup, replies: SetupReplies) -> bool {
        let none = Seq::<Reply>::empty();
        match self {
            SetupStage::Pipelines(task) => {
                &&& create_pipelines_next(setup.modes, replies.pipelines) is Ask
                &&& task.modes() == setup.modes
                &&& task.replies() == replies.pipelines
                &&& replies.targets == none
                &&& replies.shadow_views == none
                &&& replies.shadow_encoder == none
                &&& replies.rest == none
            },
            SetupStage::Targets { built, task } => {
                &&& has_built(setup, replies, built@)
                &&& create_rt_views_next(
                    setup.window_size(),
                    setup.modes.aa,
                    replies.targets,
                ) is Ask
                &&& task.size() == setup.window_size()
                &&& task.aa() == setup.modes.aa
                &&& task.replies() == replies.targets
                &&& replies.shadow_views == none
                &&& replies.shadow_encoder == none
                &&& replies.rest == none
            },
            SetupStage::ShadowViews { scene, targets, pipeline, task } => {
                &&& has_built(setup, replies, BuiltPipelinesView { scene, shadow: Ok(pipeline) })
                &&& has_targets(setup, replies, targets)
                &&& create_shadow_views_next(
                    setup.spec_longer_side(),
                    replies.shadow_views,
                ) is Ask
                &&& task.size() == setup.spec_longer_side()
                &&& task.replies() == replies.shadow_views
                &&& replies.shadow_encoder == none
                &&& replies.rest == none
            },
            SetupStage::ShadowEncoder { scene, targets, pipeline, views } => {
                &&& has_built(setup, replies, BuiltPipelinesView { scene, shadow: Ok(pipeline) })
                &&& has_targets(setup, replies, targets)
                &&& create_shadow_views_next(
                    setup.spec_longer_side(),
                    replies.shadow_views,
                ) == Next::<Result<ShadowViews, RenderErrorView>>::Done(Ok(views))
                &&& replies.shadow_encoder == none
                &&& replies.rest == none
            },
            SetupStage::Sampler { scene, targets, shadow_map } => {
                &&& has_shadow_map(setup, replies, scene, targets, shadow_map)
                &&& replies.rest == none
            },
            SetupStage::Noise { scene, targets, shadow_map, sampler } => {
                &&& has_shadow_map(setup, replies, scene, targets, shadow_map)
                &&& replies.rest.len() == 1
                &&& replies.rest[0] == Reply::Sampler(sampler)
            },
            SetupStage::Encoder { scene, targets, shadow_map, sampler, noise } => {
                &&& has_shadow_map(setup, replies, scene, targets, shadow_map)
                &&& replies.rest.len() == 2
                &&& replies.rest[0] == Reply::Sampler(sampler)
                &&& replies.rest[1] == (Reply::LoadedTexture { srv: noise.0, sampler: noise.1 })
            },
        }
    }

    /// The request that the stage waits for an answer to.
    spec fn pending(self) -> RequestView {
        match self {
            SetupStage::Pipelines(task) => task.pending(),
            SetupStage::Targets { task, .. } => task.pending(),
            SetupStage::ShadowViews { task, .. } => task.pending(),
            SetupStage::ShadowEncoder { .. } => RequestView::CreateEncoder,
            SetupStage::Sampler { .. } => RequestView::CreateLinearSampler,
            SetupStage::Noise { .. } => RequestView::LoadTexture {
                specifier: "voxygen.texture.noise"@,
                filter: FilterMethod::Bilinear,
                wrap: WrapMode::Tile,
            },
            SetupStage::Encoder { .. } => RequestView::CreateEncoder,
        }
    }
}

/// The making of a renderer, waiting for a reply.
pub struct SetupTask {
    setup: Setup,
    stage: SetupStage,
    replies: Ghost<SetupReplies>,
}

impl SetupTask {
    /// What the renderer is made of and for.
    pub closed spec fn setup(self) -> Setup {
        self.setup
    }

    /// The replies that the task was given.
    pub closed spec fn replies(self) -> SetupReplies {
        self.replies@
    }

    /// The request that the task waits for an answer to.
    pub closed spec fn pending(self) -> RequestView {
        self.stage.pending()
    }

    #[verifier::type_invariant]
    spec fn inv(self) -> bool {
        &&& targets_fit(self.setup.window_size(), self.setup.modes.aa)
        &&& self.stage.agrees(self.setup, self.replies@)
    }
}

/// `step` is where the making of a renderer stands after `replies`.
pub open spec fn setup_step(
    setup: Setup,
    replies: SetupReplies,
    step: Step<SetupTask, (Result<Renderer, RenderError>, Option<RenderError>)>,
) -> bool {
    match new_next(setup, replies) {
        Next::Ask(next) => step matches Step::Ask { request, task } && request@ == next
            && task.pending() == next && task.setup() == setup && task.replies() == replies,
        Next::Done((next, next_shadow)) => step matches Step::Done((result, shadow_error))
            && result_view(result) == next && error_view(shadow_error) == next_shadow,
    }
}

/// Waits for the answer to `request`.
fn ask(setup: Setup, stage: SetupStage, request: Request, replies: Ghost<SetupReplies>) -> (step:
    Step<SetupTask, (Result<Renderer, RenderError>, Option<RenderError>)>)
    requires
        targets_fit(setup.window_size(), setup.modes.aa),
        stage.agrees(setup, replies@),
        request@ == stage.pending(),
        new_next(setup, replies@) == Next::<
            (Result<Renderer, RenderErrorView>, Option<RenderErrorView>),
        >::Ask(stage.pending()),
    ensures
        setup_step(setup, replies@, step),
{
    Step::Ask { request, task: SetupTask { setup, stage, replies } }
}

/// Goes on once it is known whether there is a shadow map.
fn after_shadow_map(
    setup: Setup,
    scene: ScenePipelines,
    targets: RenderTargets,
    shadow_map: Result<ShadowMapRenderer, RenderError>,
    replies: Ghost<SetupReplies>,
) -> (step: Step<SetupTask, (Result<Renderer, RenderError>, Option<RenderError>)>)
    requires
        targets_fit(setup.window_size(), setup.modes.aa),
        has_shadow_map(setup, replies@, scene, targets, shadow_map),
        replies@.rest == Seq::<Reply>::empty(),
    ensures
        setup_step(setup, replies@, step),
{
    let stage = SetupStage::Sampler { scene, targets, shadow_map };
    ask(setup, stage, Request::CreateLinearSampler, replies)
}

/// Takes over what the creation of the views of the shadow map has come to.
fn after_shadow_views(
    setup: Setup,
    scene: ScenePipelines,
    targets: RenderTargets,
    pipeline: PipelineState,
    step: Step<ShadowViewsTask, Result<ShadowViews, RenderError>>,
    replies: Ghost<SetupReplies>,
) -> (result: Step<SetupTask, (Result<Renderer, RenderError>, Option<RenderError>)>)
    requires
        targets_fit(setup.window_size(), setup.modes.aa),
        has_built(setup, replies@, (BuiltPipelinesView { scene, shadow: Ok(pipeline) })),
        has_targets(setup, replies@, targets),
        shadow_views_step(setup.spec_longer_side(), replies@.shadow_views, step),
        replies@.shadow_encoder == Seq::<Reply>::empty(),
        replies@.rest == Seq::<Reply>::empty(),
    ensures
        setup_step(setup, replies@, result),
{
    match step {
        Step::Ask { request, task } => {
            let stage = SetupStage::ShadowViews { scene, targets, pipeline, task };
            ask(setup, stage, request, replies)
        },
        Step::Done(Ok(views)) => {
            let stage = SetupStage::ShadowEncoder { scene, targets, pipeline, views };
            ask(setup, stage, Request::CreateEncoder, replies)
        },
        Step::Done(Err(error)) => after_shadow_map(setup, scene, targets, Err(error), replies),
    }
}

/// Takes over what the creation of the targets has come to.
fn after_targets(
    setup: Setup,
    built: BuiltPipelines,
    step: Step<TargetsTask, Result<RenderTargets, RenderError>>,
    replies: Ghost<SetupReplies>,
) -> (result: Step<SetupTask, (Result<Renderer, RenderError>, Option<RenderError>)>)
    requires
        targets_fit(setup.window_size(), setup.modes.aa),
        has_built(setup, replies@, built@),
        targets_step(setup.window_size(), setup.modes.aa, replies@.targets, step),
        replies@.shadow_views == Seq::<Reply>::empty(),
        replies@.shadow_encoder == Seq::<Reply>::empty(),
        replies@.rest == Seq::<Reply>::empty(),
    ensures
        setup_step(setup, replies@, result),
{
    match step {
        Step::Ask { request, task } => ask(
            setup,
            SetupStage::Targets { built, task },
            request,
            replies,
        ),
        Step::Done(Ok(targets)) => match built.shadow {
            Ok(pipeline) => after_shadow_views(
                setup,
                built.scene,
                targets,
                pipeline,
                create_shadow_views(setup.longer_side()),
                replies,
            ),
            Err(error) => after_shadow_map(setup, built.scene, targets, Err(error), replies),
        },
        Step::Done(Err(error)) => Step::Done((Err(error), built.shadow.err())),
    }
}

/// Takes over what the creation of the pipelines has come to.
fn after_pipelines(
    setup: Setup,
    step: Step<PipelinesTask, Result<BuiltPipelines, RenderError>>,
    replies: Ghost<SetupReplies>,
) -> (result: Step<SetupTask, (Result<Renderer, RenderError>, Option<RenderError>)>)
    requires
        targets_fit(setup.window_size(), setup.modes.aa),
        pipelines_step(setup.modes, replies@.pipelines, step),
        replies@.targets == Seq::<Reply>::empty(),
        replies@.shadow_views == Seq::<Reply>::empty(),
        replies@.shadow_encoder == Seq::<Reply>::empty(),
        replies@.rest == Seq::<Reply>::empty(),
    ensures
        setup_step(setup, replies@, result),
{
    match step {
        Step::Ask { request, task } => ask(setup, SetupStage::Pipelines(task), request, replies),
        Step::Done(Ok(built)) => {
            let size = Vec2::new(setup.win_color_view.width, setup.win_color_view.height);
            after_targets(setup, built, create_rt_views(size, setup.modes.aa), replies)
        },
        Step::Done(Err(error)) => Step::Done((Err(error), None)),
    }
}

impl SetupTask {
    /// Goes on with the answer to the pending request.
    pub fn resume(self, reply: Reply) -> (step: Step<SetupTask, (Result<Renderer, RenderError>, Option<RenderError>)>)
        requires
            reply.answers(self.pending()),
        ensures
            setup_step(self.setup(), self.replies().push(self.setup(), reply), step),
    {
        proof {
            use_type_invariant(&self);
        }
        let ghost before = self.replies();
        let ghost next = self.replies().push(self.setup(), reply);
        let SetupTask { setup, stage, .. } = self;
        match (stage, reply) {
            (SetupStage::Pipelines(task), reply) => after_pipelines(
                setup,
                task.resume(reply),
                Ghost(next),
            ),
            (SetupStage::Targets { built, task }, reply) => after_targets(
                setup,
                built,
                task.resume(reply),
                Ghost(next),
            ),
            (SetupStage::ShadowViews { scene, targets, pipeline, task }, reply) => {
                after_shadow_views(
                    setup,
                    scene,
                    targets,
                    pipeline,
                    task.resume(reply),
                    Ghost(next),
                )
            },
            (
                SetupStage::ShadowEncoder { scene, targets, pipeline, views },
                Reply::Encoder(encoder),
            ) => {
                let shadow_map = ShadowMapRenderer {
                    encoder,
                    depth_stencil_view: views.depth_stencil_view,
                    res: views.res,
                    sampler: views.sampler,
                    pipeline,
                };
                assert(has_built(setup, next, BuiltPipelinesView { scene, shadow: Ok(pipeline) }));
                after_shadow_map(setup, scene, targets, Ok(shadow_map), Ghost(next))
            },
            (SetupStage::Sampler { scene, targets, shadow_map }, Reply::Sampler(sampler)) => {
                let stage = SetupStage::Noise { scene, targets, shadow_map, sampler };
                let request = Request::LoadTexture {
                    specifier: "voxygen.texture.noise".to_owned(),
                    filter: FilterMethod::Bilinear,
                    wrap: WrapMode::Tile,
                };
                proof {
                    let built = choose|built: BuiltPipelinesView| has_built(setup, before, built);
                    assert(has_built(setup, next, built));
                }
                ask(setup, stage, request, Ghost(next))
            },
            (
                SetupStage::Noise { scene, targets, shadow_map, sampler },
                Reply::LoadedTexture { srv, sampler: noise_sampler },
            ) => {
                let noise = (srv, noise_sampler);
                let stage = SetupStage::Encoder { scene, targets, shadow_map, sampler, noise };
                proof {
                    let built = choose|built: BuiltPipelinesView| has_built(setup, before, built);
                    assert(has_built(setup, next, built));
                }
                ask(setup, stage, Request::CreateEncoder, Ghost(next))
            },
            (SetupStage::Noise { shadow_map, .. }, Reply::TextureFailed(error)) => Step::Done(
                (Err(RenderError::CombinedError(error)), shadow_map.err()),
            ),
            (
                SetupStage::Encoder { scene, targets, shadow_map, sampler, noise },
                Reply::Encoder(encoder),
            ) => {
                let (shadow_map, shadow_error) = match shadow_map {
                    Ok(shadow_map) => (Some(shadow_map), None),
                    Err(error) => (None, Some(error)),
                };
                let renderer = Renderer {
                    encoder,
                    win_color_view: setup.win_color_view,
                    win_depth_view: setup.win_depth_view,
                    targets,
                    sampler,
                    shadow_map,
                    pipelines: scene,
                    noise_tex: Texture { srv: noise.0, sampler: noise.1, format: PhantomData },
                    modes: setup.modes,
                    max_texture_size: setup.max_texture_size,
                };
                Step::Done((Ok(renderer), shadow_error))
            },
            _ => unreached(),
        }
    }
}

impl Renderer {
    /// Starts the making of a renderer for the targets of a window. Beside its result, the
    /// making hands out why there is no shadow map, if there is none.
    pub fn new(
        win_color_view: WinColorView,
        win_depth_view: WinDepthView,
        max_texture_size: usize,
        aa_mode: AaMode,
        cloud_mode: CloudMode,
        fluid_mode: FluidMode,
        lighting_mode: LightingMode,
    ) -> (step: Step<SetupTask, (Result<Renderer, RenderError>, Option<RenderError>)>)
        requires
            targets_fit(Vec2 { x: win_color_view.width, y: win_color_view.height }, aa_mode),
        ensures
            setup_step(
                Setup {
                    win_color_view,
                    win_depth_view,
                    modes: Modes {
                        aa: aa_mode,
                        cloud: cloud_mode,
                        fluid: fluid_mode,
                        lighting: lighting_mode,
                    },
                    max_texture_size,
                },
                SetupReplies::none(),
                step,
            ),
    {
        let modes = Modes {
            aa: aa_mode,
            cloud: cloud_mode,
            fluid: fluid_mode,
            lighting: lighting_mode,
        };
        let setup = Setup { win_color_view, win_depth_view, modes, max_texture_size };
        after_pipelines(setup, create_pipelines(modes), Ghost(SetupReplies::none()))
    }
}

} // verus!
