//! The operations of a renderer that need a backend's answers.
use crate::create_pipelines::{
    create_pipelines, create_pipelines_next, pipelines_step, BuiltPipelines, PipelinesTask,
};
use crate::draw::Command;
use crate::error::{result_view, RenderError, RenderErrorView};
use crate::exchange::{Next, Reply, Request, RequestView, Step};
use crate::modes::{AaMode, CloudMode, FluidMode, LightingMode, Modes};
use crate::renderer::{Renderer, ShadowMapRenderer};
use crate::targets::{
    create_rt_views, create_rt_views_next, targets_fit, targets_step, RenderTargets, TargetsTask,
};
use vstd::pervasive::unreached;
use vstd::prelude::*;

verus! {

impl Renderer {
    /// The targets for the window can be described, or the window has no area.
    pub open spec fn can_resize(self) -> bool {
        ||| self.win_color_view.width == 0
        ||| self.win_color_view.height == 0
        ||| targets_fit(self.window_size(), self.modes.aa)
    }

    /// The renderer with other modes, and otherwise unchanged.
    pub open spec fn with_modes(self, modes: Modes) -> Renderer {
        Renderer { modes, ..self }
    }
}

/// How a resize goes on after the given replies. A window without an area leaves the
/// targets as they are.
pub open spec fn on_resize_next(renderer: Renderer, replies: Seq<Reply>) -> Next<
    (Renderer, Result<(), RenderErrorView>),
> {
    if renderer.win_color_view.width == 0 || renderer.win_color_view.height == 0 {
        Next::Done((renderer, Ok(())))
    } else {
        match create_rt_views_next(renderer.window_size(), renderer.modes.aa, replies) {
            Next::Ask(request) => Next::Ask(request),
            Next::Done(Ok(targets)) => Next::Done((renderer.with_targets(targets), Ok(()))),
            Next::Done(Err(error)) => Next::Done((renderer, Err(error))),
        }
    }
}

/// A resize, waiting for a reply.
pub struct ResizeTask {
    renderer: Renderer,
    task: TargetsTask,
}

impl ResizeTask {
    /// The renderer whose targets are resized, as it is until then.
    pub closed spec fn renderer(self) -> Renderer {
        self.renderer
    }

    /// The replies that the task was given, in their order.
    pub closed spec fn replies(self) -> Seq<Reply> {
        self.task.replies()
    }

    /// The request that the task waits for an answer to.
    pub closed spec fn pending(self) -> RequestView {
        self.task.pending()
    }

    #[verifier::type_invariant]
    spec fn inv(self) -> bool {
        &&& self.task.size() == self.renderer.window_size()
        &&& self.task.aa() == self.renderer.modes.aa
        &&& self.renderer.win_color_view.width != 0
        &&& self.renderer.win_color_view.height != 0
    }
}

/// `step` is where the resize of `renderer` stands after `replies`.
pub open spec fn resize_step(
    renderer: Renderer,
    replies: Seq<Reply>,
    step: Step<ResizeTask, (Renderer, Result<(), RenderError>)>,
) -> bool {
    match on_resize_next(renderer, replies) {
        Next::Ask(next) => step matches Step::Ask { request, task } && request@ == next
            && task.pending() == next && task.renderer() == renderer && task.replies() == replies,
        Next::Done((resized, next)) => step matches Step::Done((result_renderer, result))
            && result_renderer == resized && result_view(result) == next,
    }
}

/// Takes over what the creation of the targets of `renderer` has come to.
fn resize_with(
    renderer: Renderer,
    step: Step<TargetsTask, Result<RenderTargets, RenderError>>,
    replies: Ghost<Seq<Reply>>,
) -> (result: Step<ResizeTask, (Renderer, Result<(), RenderError>)>)
    requires
        renderer.win_color_view.width != 0,
        renderer.win_color_view.height != 0,
        targets_step(renderer.window_size(), renderer.modes.aa, replies@, step),
    ensures
        resize_step(renderer, replies@, result),
{
    match step {
        Step::Ask { request, task } => Step::Ask { request, task: ResizeTask { renderer, task } },
        Step::Done(Ok(targets)) => {
            let mut renderer = renderer;
            renderer.targets = targets;
            Step::Done((renderer, Ok(())))
        },
        Step::Done(Err(error)) => Step::Done((renderer, Err(error))),
    }
}

impl ResizeTask {
    /// Goes on with the answer to the pending request.
    pub fn resume(self, reply: Reply) -> (step: Step<
        ResizeTask,
        (Renderer, Result<(), RenderError>),
    >)
        requires
            reply.answers(self.pending()),
        ensures
            resize_step(self.renderer(), self.replies().push(reply), step),
    {
        proof {
            use_type_invariant(&self);
        }
        let ghost next = self.replies().push(reply);
        let ResizeTask { renderer, task } = self;
        resize_with(renderer, task.resume(reply), Ghost(next))
    }
}

/// What the recreation of the pipelines came to.
#[derive(Debug)]
pub enum Rebuild {
    /// All pipelines were recreated.
    Complete,
    /// All pipelines but that of the shadow map were recreated.
    WithoutShadowMap(RenderError),
    /// The pipelines could not be recreated.
    Failed(RenderError),
}

/// The contents of a [`Rebuild`].
pub enum RebuildView {
    Complete,
    WithoutShadowMap(RenderErrorView),
    Failed(RenderErrorView),
}

impl View for Rebuild {
    type V = RebuildView;

    open spec fn view(&self) -> RebuildView {
        match *self {
            Rebuild::Complete => RebuildView::Complete,
            Rebuild::WithoutShadowMap(error) => RebuildView::WithoutShadowMap(error@),
            Rebuild::Failed(error) => RebuildView::Failed(error@),
        }
    }
}

/// The contents of what a recreation came to, if there was one.
pub open spec fn rebuild_view(rebuild: Option<Rebuild>) -> Option<RebuildView> {
    match rebuild {
        Some(rebuild) => Some(rebuild@),
        None => None,
    }
}

/// The contents of the result of a change of modes.
pub open spec fn mode_view(result: Result<Rebuild, RenderError>) -> Result<
    RebuildView,
    RenderErrorView,
> {
    match result {
        Ok(rebuild) => Ok(rebuild@),
        Err(error) => Err(error@),
    }
}

/// How the recreation of the pipelines goes on after the given replies. If it fails, the
/// renderer keeps its pipelines.
pub open spec fn recreate_next(renderer: Renderer, replies: Seq<Reply>) -> Next<
    (Renderer, RebuildView),
> {
    match create_pipelines_next(renderer.modes, replies) {
        Next::Ask(request) => Next::Ask(request),
        Next::Done(Ok(built)) => Next::Done(
            (
                renderer.with_pipelines(built),
                match built.shadow {
                    Ok(_) => RebuildView::Complete,
                    Err(error) => RebuildView::WithoutShadowMap(error),
                },
            ),
        ),
        Next::Done(Err(error)) => Next::Done((renderer, RebuildView::Failed(error))),
    }
}

/// The recreation of the pipelines, waiting for a reply.
pub struct RecreateTask {
    renderer: Renderer,
    task: PipelinesTask,
}

impl RecreateTask {
    /// The renderer whose pipelines are recreated, as it is until then.
    pub closed spec fn renderer(self) -> Renderer {
        self.renderer
    }

    /// The replies that the task was given, in their order.
    pub closed spec fn replies(self) -> Seq<Reply> {
        self.task.replies()
    }

    /// The request that the task waits for an answer to.
    pub closed spec fn pending(self) -> RequestView {
        self.task.pending()
    }

    #[verifier::type_invariant]
    spec fn inv(self) -> bool {
        self.task.modes() == self.renderer.modes
    }
}

/// `step` is where the recreation of the pipelines of `renderer` stands after `replies`.
pub open spec fn recreate_step(
    renderer: Renderer,
    replies: Seq<Reply>,
    step: Step<RecreateTask, (Renderer, Rebuild)>,
) -> bool {
    match recreate_next(renderer, replies) {
        Next::Ask(next) => step matches Step::Ask { request, task } && request@ == next
            && task.pending() == next && task.renderer() == renderer && task.replies() == replies,
        Next::Done((recreated, next)) => step matches Step::Done((result_renderer, rebuild))
            && result_renderer == recreated && rebuild@ == next,
    }
}

/// Takes over what the creation of pipelines for `renderer` has come to.
fn recreate_with(
    renderer: Renderer,
    step: Step<PipelinesTask, Result<BuiltPipelines, RenderError>>,
    replies: Ghost<Seq<Reply>>,
) -> (result: Step<RecreateTask, (Renderer, Rebuild)>)
    requires
        pipelines_step(renderer.modes, replies@, step),
    ensures
        recreate_step(renderer, replies@, result),
{
    match step {
        Step::Ask { request, task } => Step::Ask { request, task: RecreateTask { renderer, task } },
        Step::Done(Ok(built)) => {
            let mut renderer = renderer;
            renderer.pipelines = built.scene;
            match built.shadow {
                Ok(pipeline) => {
                    if let Some(shadow_map) = renderer.shadow_map {
                        renderer.shadow_map = Some(ShadowMapRenderer { pipeline, ..shadow_map });
                    }
                    Step::Done((renderer, Rebuild::Complete))
                },
                Err(error) => Step::Done((renderer, Rebuild::WithoutShadowMap(error))),
            }
        },
        Step::Done(Err(error)) => Step::Done((renderer, Rebuild::Failed(error))),
    }
}

impl RecreateTask {
    /// Goes on with the answer to the pending request.
    pub fn resume(self, reply: Reply) -> (step: Step<RecreateTask, (Renderer, Rebuild)>)
        requires
            reply.answers(self.pending()),
        ensures
            recreate_step(self.renderer(), self.replies().push(reply), step),
    {
        proof {
            use_type_invariant(&self);
        }
        let ghost next = self.replies().push(reply);
        let RecreateTask { renderer, task } = self;
        recreate_with(renderer, task.resume(reply), Ghost(next))
    }
}

impl Renderer {
    /// Resizes the internal render targets to match the window's dimensions.
    pub fn on_resize(self) -> (step: Step<ResizeTask, (Renderer, Result<(), RenderError>)>)
        requires
            self.can_resize(),
        ensures
            resize_step(self, Seq::empty(), step),
    {
        let size = self.get_resolution();
        // Avoid creating textures without an area.
        if size.x != 0 && size.y != 0 {
            let aa = self.modes.aa;
            resize_with(self, create_rt_views(size, aa), Ghost(Seq::empty()))
        } else {
            Step::Done((self, Ok(())))
        }
    }

    /// Recreates the pipelines for the modes of the renderer.
    pub fn recreate_pipelines(self) -> (step: Step<RecreateTask, (Renderer, Rebuild)>)
        ensures
            recreate_step(self, Seq::empty(), step),
    {
        let modes = self.modes;
        recreate_with(self, create_pipelines(modes), Ghost(Seq::empty()))
    }
}

/// The replies to a change of modes: those to the resize, and those to the recreation of
/// the pipelines.
pub struct ModeReplies {
    pub targets: Seq<Reply>,
    pub pipelines: Seq<Reply>,
}

impl ModeReplies {
    /// No replies yet.
    pub open spec fn none() -> ModeReplies {
        ModeReplies { targets: Seq::empty(), pipelines: Seq::empty() }
    }

    /// One more reply, to what the change waits for.
    pub open spec fn push(self, renderer: Renderer, reply: Reply) -> ModeReplies {
        if on_resize_next(renderer, self.targets) is Ask {
            ModeReplies { targets: self.targets.push(reply), ..self }
        } else {
            ModeReplies { pipelines: self.pipelines.push(reply), ..self }
        }
    }
}

/// How a change of modes goes on after the given replies, for a renderer that has the new
/// modes already: the targets are resized, then the pipelines are recreated. If the first
/// fails, the renderer keeps its pipelines.
pub open spec fn set_modes_next(renderer: Renderer, replies: ModeReplies) -> Next<
    (Renderer, Result<RebuildView, RenderErrorView>),
> {
    match on_resize_next(renderer, replies.targets) {
        Next::Ask(request) => Next::Ask(request),
        Next::Done((resized, Err(error))) => Next::Done((resized, Err(error))),
        Next::Done((resized, Ok(_))) => match recreate_next(resized, replies.pipelines) {
            Next::Ask(request) => Next::Ask(request),
            Next::Done((recreated, rebuild)) => Next::Done((recreated, Ok(rebuild))),
        },
    }
}

/// What a change of modes waits for.
enum ModeStage {
    Resize(ResizeTask),
    Recreate(RecreateTask),
}

/// A change of modes, waiting for a reply.
pub struct ModeTask {
    stage: ModeStage,
    renderer: Ghost<Renderer>,
    replies: Ghost<ModeReplies>,
}

impl ModeTask {
    /// The renderer, with the new modes, as it was before the first reply.
    pub closed spec fn renderer(self) -> Renderer {
        self.renderer@
    }

    /// The replies that the task was given.
    pub closed spec fn replies(self) -> ModeReplies {
        self.replies@
    }

    /// The request that the task waits for an answer to.
    pub closed spec fn pending(self) -> RequestView {
        match self.stage {
            ModeStage::Resize(task) => task.pending(),
            ModeStage::Recreate(task) => task.pending(),
        }
    }

    #[verifier::type_invariant]
    spec fn inv(self) -> bool {
        let renderer = self.renderer@;
        let replies = self.replies@;
        match self.stage {
            ModeStage::Resize(task) => {
                &&& task.renderer() == renderer
                &&& task.replies() == replies.targets
                &&& replies.pipelines == Seq::<Reply>::empty()
                &&& on_resize_next(renderer, replies.targets) is Ask
            },
            ModeStage::Recreate(task) => {
                &&& on_resize_next(renderer, replies.targets) == Next::<
                    (Renderer, Result<(), RenderErrorView>),
                >::Done((task.renderer(), Ok(())))
                &&& task.replies() == replies.pipelines
            },
        }
    }
}

/// `step` is where the change of modes of `renderer` stands after `replies`.
pub open spec fn mode_step(
    renderer: Renderer,
    replies: ModeReplies,
    step: Step<ModeTask, (Renderer, Result<Rebuild, RenderError>)>,
) -> bool {
    match set_modes_next(renderer, replies) {
        Next::Ask(next) => step matches Step::Ask { request, task } && request@ == next
            && task.pending() == next && task.renderer() == renderer && task.replies() == replies,
        Next::Done((changed, next)) => step matches Step::Done((result_renderer, result))
            && result_renderer == changed && mode_view(result) == next,
    }
}

/// Takes over what the recreation of the pipelines has come to.
fn mode_after_recreate(
    step: Step<RecreateTask, (Renderer, Rebuild)>,
    renderer: Ghost<Renderer>,
    resized: Ghost<Renderer>,
    replies: Ghost<ModeReplies>,
) -> (result: Step<ModeTask, (Renderer, Result<Rebuild, RenderError>)>)
    requires
        on_resize_next(renderer@, replies@.targets) == Next::<
            (Renderer, Result<(), RenderErrorView>),
        >::Done((resized@, Ok(()))),
        recreate_step(resized@, replies@.pipelines, step),
    ensures
        mode_step(renderer@, replies@, result),
{
    match step {
        Step::Ask { request, task } => Step::Ask {
            request,
            task: ModeTask { stage: ModeStage::Recreate(task), renderer, replies },
        },
        Step::Done((recreated, rebuild)) => Step::Done((recreated, Ok(rebuild))),
    }
}

/// Takes over what the resize has come to.
fn mode_after_resize(
    step: Step<ResizeTask, (Renderer, Result<(), RenderError>)>,
    renderer: Ghost<Renderer>,
    replies: Ghost<ModeReplies>,
) -> (result: Step<ModeTask, (Renderer, Result<Rebuild, RenderError>)>)
    requires
        resize_step(renderer@, replies@.targets, step),
        replies@.pipelines == Seq::<Reply>::empty(),
    ensures
        mode_step(renderer@, replies@, result),
{
    match step {
        Step::Ask { request, task } => Step::Ask {
            request,
            task: ModeTask { stage: ModeStage::Resize(task), renderer, replies },
        },
        Step::Done((resized, Err(error))) => Step::Done((resized, Err(error))),
        Step::Done((resized, Ok(_))) => {
            let ghost after = resized;
            mode_after_recreate(resized.recreate_pipelines(), renderer, Ghost(after), replies)
        },
    }
}

impl ModeTask {
    /// Goes on with the answer to the pending request.
    pub fn resume(self, reply: Reply) -> (step: Step<
        ModeTask,
        (Renderer, Result<Rebuild, RenderError>),
    >)
        requires
            reply.answers(self.pending()),
        ensures
            mode_step(self.renderer(), self.replies().push(self.renderer(), reply), step),
    {
        proof {
            use_type_invariant(&self);
        }
        let ghost next = self.replies().push(self.renderer(), reply);
        let ModeTask { stage, renderer, .. } = self;
        match stage {
            ModeStage::Resize(task) => mode_after_resize(task.resume(reply), renderer, Ghost(next)),
            ModeStage::Recreate(task) => {
                let ghost resized = task.renderer();
                mode_after_recreate(task.resume(reply), renderer, Ghost(resized), Ghost(next))
            },
        }
    }
}

impl Renderer {
    /// Changes the modes: the targets and the pipelines depend on them.
    fn set_modes(self, modes: Modes) -> (step: Step<
        ModeTask,
        (Renderer, Result<Rebuild, RenderError>),
    >)
        requires
            self.with_modes(modes).can_resize(),
        ensures
            mode_step(self.with_modes(modes), ModeReplies::none(), step),
    {
        let mut renderer = self;
        renderer.modes = modes;
        let ghost changed = renderer;
        mode_after_resize(renderer.on_resize(), Ghost(changed), Ghost(ModeReplies::none()))
    }

    /// Changes the anti-aliasing mode.
    pub fn set_aa_mode(self, aa_mode: AaMode) -> (step: Step<
        ModeTask,
        (Renderer, Result<Rebuild, RenderError>),
    >)
        requires
            self.with_modes(Modes { aa: aa_mode, ..self.modes }).can_resize(),
        ensures
            mode_step(
                self.with_modes(Modes { aa: aa_mode, ..self.modes }),
                ModeReplies::none(),
                step,
            ),
    {
        let modes = Modes { aa: aa_mode, ..self.modes };
        self.set_modes(modes)
    }

    /// Changes the cloud rendering mode.
    pub fn set_cloud_mode(self, cloud_mode: CloudMode) -> (step: Step<
        ModeTask,
        (Renderer, Result<Rebuild, RenderError>),
    >)
        requires
            self.can_resize(),
        ensures
            mode_step(
                self.with_modes(Modes { cloud: cloud_mode, ..self.modes }),
                ModeReplies::none(),
                step,
            ),
    {
        let modes = Modes { cloud: cloud_mode, ..self.modes };
        self.set_modes(modes)
    }

    /// Changes the fluid rendering mode.
    pub fn set_fluid_mode(self, fluid_mode: FluidMode) -> (step: Step<
        ModeTask,
        (Renderer, Result<Rebuild, RenderError>),
    >)
        requires
            self.can_resize(),
        ensures
            mode_step(
                self.with_modes(Modes { fluid: fluid_mode, ..self.modes }),
                ModeReplies::none(),
                step,
            ),
    {
        let modes = Modes { fluid: fluid_mode, ..self.modes };
        self.set_modes(modes)
    }

    /// Changes the lighting mode.
    pub fn set_lighting_mode(self, lighting_mode: LightingMode) -> (step: Step<
        ModeTask,
        (Renderer, Result<Rebuild, RenderError>),
    >)
        requires
            self.can_resize(),
        ensures
            mode_step(
                self.with_modes(Modes { lighting: lighting_mode, ..self.modes }),
                ModeReplies::none(),
                step,
            ),
    {
        let modes = Modes { lighting: lighting_mode, ..self.modes };
        self.set_modes(modes)
    }
}

/// The replies to a flush: that to the submission, and those to the recreation of the
/// pipelines.
pub struct FlushReplies {
    pub submission: Seq<Reply>,
    pub pipelines: Seq<Reply>,
}

impl FlushReplies {
    /// No replies yet.
    pub open spec fn none() -> FlushReplies {
        FlushReplies { submission: Seq::empty(), pipelines: Seq::empty() }
    }

    /// One more reply, to what the flush waits for.
    pub open spec fn push(self, reply: Reply) -> FlushReplies {
        if self.submission.len() == 0 {
            FlushReplies { submission: self.submission.push(reply), ..self }
        } else {
            FlushReplies { pipelines: self.pipelines.push(reply), ..self }
        }
    }
}

impl Renderer {
    /// What a flush has carried out: the queued draw calls for shadows, where there is a
    /// shadow map, then all others, then the freeing of what was discarded.
    pub open spec fn flush_commands(self) -> Seq<Command> {
        let rest = seq![Command::Flush { encoder: self.encoder }, Command::Cleanup];
        match self.shadow_map {
            Some(shadow_map) => seq![Command::Flush { encoder: shadow_map.encoder }] + rest,
            None => rest,
        }
    }
}

/// How a flush goes on after the given replies: if the shader files were changed, the
/// pipelines are recreated.
pub open spec fn flush_next(renderer: Renderer, replies: FlushReplies) -> Next<
    (Renderer, Option<RebuildView>),
> {
    if replies.submission.len() == 0 {
        Next::Ask(RequestView::Submit { commands: renderer.flush_commands() })
    } else if replies.submission[0]->reloaded {
        match recreate_next(renderer, replies.pipelines) {
            Next::Ask(request) => Next::Ask(request),
            Next::Done((recreated, rebuild)) => Next::Done((recreated, Some(rebuild))),
        }
    } else {
        Next::Done((renderer, None))
    }
}

/// What a flush waits for.
enum FlushStage {
    Submit(Renderer),
    Recreate(RecreateTask),
}

/// A flush, waiting for a reply.
pub struct FlushTask {
    stage: FlushStage,
    replies: Ghost<FlushReplies>,
}

impl FlushTask {
    /// The renderer, as it is until the flush has ended.
    pub closed spec fn renderer(self) -> Renderer {
        match self.stage {
            FlushStage::Submit(renderer) => renderer,
            FlushStage::Recreate(task) => task.renderer(),
        }
    }

    /// The replies that the task was given.
    pub closed spec fn replies(self) -> FlushReplies {
        self.replies@
    }

    /// The request that the task waits for an answer to.
    pub closed spec fn pending(self) -> RequestView {
        match self.stage {
            FlushStage::Submit(renderer) => RequestView::Submit {
                commands: renderer.flush_commands(),
            },
            FlushStage::Recreate(task) => task.pending(),
        }
    }

    #[verifier::type_invariant]
    spec fn inv(self) -> bool {
        let replies = self.replies@;
        match self.stage {
            FlushStage::Submit(_) => {
                &&& replies.submission.len() == 0
                &&& replies.pipelines == Seq::<Reply>::empty()
            },
            FlushStage::Recreate(task) => {
                &&& replies.submission.len() > 0
                &&& replies.submission[0]->reloaded
                &&& task.replies() == replies.pipelines
            },
        }
    }
}

/// `step` is where the flush of `renderer` stands after `replies`.
pub open spec fn flush_step(
    renderer: Renderer,
    replies: FlushReplies,
    step: Step<FlushTask, (Renderer, Option<Rebuild>)>,
) -> bool {
    match flush_next(renderer, replies) {
        Next::Ask(next) => step matches Step::Ask { request, task } && request@ == next
            && task.pending() == next && task.renderer() == renderer && task.replies() == replies,
        Next::Done((flushed, next)) => step matches Step::Done((result_renderer, rebuild))
            && result_renderer == flushed && rebuild_view(rebuild) == next,
    }
}

/// Takes over what the recreation of the pipelines has come to.
fn flush_after_recreate(
    step: Step<RecreateTask, (Renderer, Rebuild)>,
    renderer: Ghost<Renderer>,
    replies: Ghost<FlushReplies>,
) -> (result: Step<FlushTask, (Renderer, Option<Rebuild>)>)
    requires
        replies@.submission.len() > 0,
        replies@.submission[0]->reloaded,
        recreate_step(renderer@, replies@.pipelines, step),
    ensures
        flush_step(renderer@, replies@, result),
{
    match step {
        Step::Ask { request, task } => Step::Ask {
            request,
            task: FlushTask { stage: FlushStage::Recreate(task), replies },
        },
        Step::Done((recreated, rebuild)) => Step::Done((recreated, Some(rebuild))),
    }
}

impl FlushTask {
    /// Goes on with the answer to the pending request.
    pub fn resume(self, reply: Reply) -> (step: Step<FlushTask, (Renderer, Option<Rebuild>)>)
        requires
            reply.answers(self.pending()),
        ensures
            flush_step(self.renderer(), self.replies().push(reply), step),
    {
        proof {
            use_type_invariant(&self);
        }
        let ghost before = self.renderer();
        let ghost next = self.replies().push(reply);
        match self.stage {
            FlushStage::Submit(renderer) => match reply {
                Reply::Submitted { reloaded } => if reloaded {
                    flush_after_recreate(
                        renderer.recreate_pipelines(),
                        Ghost(before),
                        Ghost(next),
                    )
                } else {
                    Step::Done((renderer, None))
                },
                _ => unreached(),
            },
            FlushStage::Recreate(task) => flush_after_recreate(
                task.resume(reply),
                Ghost(before),
                Ghost(next),
            ),
        }
    }
}

impl Renderer {
    /// Performs all queued draw calls for this frame and cleans up discarded items.
    pub fn flush(self) -> (step: Step<FlushTask, (Renderer, Option<Rebuild>)>)
        ensures
            flush_step(self, FlushReplies::none(), step),
    {
        let mut commands: Vec<Command> = Vec::new();
        if let Some(command) = self.flush_shadows() {
            commands.push(command);
        }
        commands.push(Command::Flush { encoder: self.encoder });
        commands.push(Command::Cleanup);
        assert(commands@ =~= self.flush_commands());
        let task = FlushTask {
            stage: FlushStage::Submit(self),
            replies: Ghost(FlushReplies::none()),
        };
        Step::Ask { request: Request::Submit { commands }, task }
    }
}

} // verus!
