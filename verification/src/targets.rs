//! Creation of the targets that the scene and the shadow map are rendered to.
use crate::error::{result_view, BackendError, CombinedError, RenderError, RenderErrorView};
use crate::exchange::{Next, Reply, Request, RequestView, Step};
use crate::geometry::Vec2;
use crate::modes::AaMode;
use crate::resources::{
    RawTexture, Sampler, ShadowDepthStencilView, ShadowResourceView, TgtColorRes, TgtColorView,
    TgtDepthStencilView,
};
use crate::state::Comparison;
use crate::texture::{
    Bind, FilterMethod, Kind, SamplerInfo, Samples, Swizzle, TargetFormat, TextureInfo, Usage,
    WrapMode,
};
use vstd::pervasive::unreached;
use vstd::prelude::*;

verus! {

/// The targets that the scene is rendered to before post-processing.
#[derive(Clone, Copy, Debug, PartialEq, Eq)]
pub struct RenderTargets {
    pub color_view: TgtColorView,
    pub depth_stencil_view: TgtDepthStencilView,
    /// The colors, as post-processing reads them.
    pub color_res: TgtColorRes,
}

/// The views and the sampler of a shadow map.
#[derive(Clone, Copy, Debug, PartialEq, Eq)]
pub struct ShadowViews {
    pub depth_stencil_view: ShadowDepthStencilView,
    pub res: ShadowResourceView,
    pub sampler: Sampler,
}

/// The targets of a window of this size can be described: with supersampling their width
/// and height are twice those of the window.
pub open spec fn targets_fit(size: Vec2, aa: AaMode) -> bool {
    aa is SsaaX4 ==> 2 * size.x <= u16::MAX && 2 * size.y <= u16::MAX
}

/// The shape of the targets for a window of this size.
pub open spec fn target_kind(size: Vec2, aa: AaMode) -> Kind {
    match aa {
        AaMode::Off => Kind::D2(size.x, size.y, Samples::Single),
        AaMode::Fxaa => Kind::D2(size.x, size.y, Samples::Single),
        AaMode::SsaaX4 => Kind::D2((2 * size.x) as u16, (2 * size.y) as u16, Samples::Single),
        AaMode::MsaaX4 => Kind::D2(size.x, size.y, Samples::Multi(4)),
        AaMode::MsaaX8 => Kind::D2(size.x, size.y, Samples::Multi(8)),
        AaMode::MsaaX16 => Kind::D2(size.x, size.y, Samples::Multi(16)),
    }
}

/// The shape of the targets for a window of this size.
pub fn render_target_kind(size: Vec2, aa: AaMode) -> (kind: Kind)
    requires
        targets_fit(size, aa),
    ensures
        kind == target_kind(size, aa),
{
    match aa {
        AaMode::Off | AaMode::Fxaa => Kind::D2(size.x, size.y, Samples::Single),
        AaMode::SsaaX4 => Kind::D2(size.x * 2, size.y * 2, Samples::Single),
        AaMode::MsaaX4 => Kind::D2(size.x, size.y, Samples::Multi(4)),
        AaMode::MsaaX8 => Kind::D2(size.x, size.y, Samples::Multi(8)),
        AaMode::MsaaX16 => Kind::D2(size.x, size.y, Samples::Multi(16)),
    }
}

/// The color target: rendered to, then read by post-processing.
pub open spec fn color_info(size: Vec2, aa: AaMode) -> TextureInfo {
    TextureInfo {
        kind: target_kind(size, aa),
        levels: 1,
        bind: Bind { shader_resource: true, render_target: true, depth_stencil: false },
        usage: Usage::Data,
        format: TargetFormat::TgtColor,
        channel: TargetFormat::TgtColor.spec_channel_type(),
    }
}

/// The depth and stencil target.
pub open spec fn depth_info(size: Vec2, aa: AaMode) -> TextureInfo {
    TextureInfo {
        kind: target_kind(size, aa),
        levels: 1,
        bind: Bind { shader_resource: false, render_target: false, depth_stencil: true },
        usage: Usage::Data,
        format: TargetFormat::TgtDepthStencil,
        channel: TargetFormat::TgtDepthStencil.spec_channel_type(),
    }
}

/// The request for the color target.
fn color_texture(size: Vec2, aa: AaMode) -> (request: Request)
    requires
        targets_fit(size, aa),
    ensures
        request@ == (RequestView::CreateTexture { info: color_info(size, aa) }),
{
    Request::CreateTexture {
        info: TextureInfo {
            kind: render_target_kind(size, aa),
            levels: 1,
            bind: Bind { shader_resource: true, render_target: true, depth_stencil: false },
            usage: Usage::Data,
            format: TargetFormat::TgtColor,
            channel: TargetFormat::TgtColor.channel_type(),
        },
    }
}

/// The request for the depth and stencil target.
fn depth_texture(size: Vec2, aa: AaMode) -> (request: Request)
    requires
        targets_fit(size, aa),
    ensures
        request@ == (RequestView::CreateTexture { info: depth_info(size, aa) }),
{
    Request::CreateTexture {
        info: TextureInfo {
            kind: render_target_kind(size, aa),
            levels: 1,
            bind: Bind { shader_resource: false, render_target: false, depth_stencil: true },
            usage: Usage::Data,
            format: TargetFormat::TgtDepthStencil,
            channel: TargetFormat::TgtDepthStencil.channel_type(),
        },
    }
}

/// A view of the only mipmap level of a texture in shaders.
pub open spec fn resource_view_of(texture: RawTexture) -> RequestView {
    RequestView::ViewAsShaderResource {
        texture,
        min_level: 0,
        max_level: 0,
        swizzle: Swizzle::identity(),
    }
}

/// What it means for the targets that the last of `n` replies is a failure: the first and
/// the fourth reply are owed to textures, the second to a view for shaders, the others to
/// views that are rendered to.
pub open spec fn targets_failure(n: nat, error: BackendError) -> CombinedError {
    if n == 1 || n == 4 {
        CombinedError::Texture(error)
    } else if n == 2 {
        CombinedError::Resource(error)
    } else {
        CombinedError::Target(error)
    }
}

/// How the creation of the targets goes on after the given replies; the first failure
/// ends it.
pub open spec fn create_rt_views_next(size: Vec2, aa: AaMode, replies: Seq<Reply>) -> Next<
    Result<RenderTargets, RenderErrorView>,
> {
    let n = replies.len();
    let last = replies.last();
    if n == 0 {
        Next::Ask(RequestView::CreateTexture { info: color_info(size, aa) })
    } else if last is Failed {
        Next::Done(Err(RenderErrorView::CombinedError(targets_failure(n, last->Failed_0))))
    } else if n == 1 {
        Next::Ask(resource_view_of(replies[0]->Texture_0))
    } else if n == 2 {
        Next::Ask(
            RequestView::ViewAsRenderTarget {
                texture: replies[0]->Texture_0,
                level: 0,
                layer: None,
            },
        )
    } else if n == 3 {
        Next::Ask(RequestView::CreateTexture { info: depth_info(size, aa) })
    } else if n == 4 {
        Next::Ask(RequestView::ViewAsDepthStencil { texture: replies[3]->Texture_0 })
    } else {
        Next::Done(
            Ok(
                RenderTargets {
                    color_view: replies[2]->RenderTargetView_0,
                    depth_stencil_view: replies[4]->DepthStencilView_0,
                    color_res: replies[1]->ResourceView_0,
                },
            ),
        )
    }
}

/// What the creation of the targets waits for.
enum TargetsStage {
    ColorTexture,
    ColorResource { texture: RawTexture },
    ColorView { texture: RawTexture, color_res: TgtColorRes },
    DepthTexture { color_view: TgtColorView, color_res: TgtColorRes },
    DepthView { color_view: TgtColorView, color_res: TgtColorRes, texture: RawTexture },
}

impl TargetsStage {
    /// What was kept of the replies is what they brought.
    spec fn agrees(self, replies: Seq<Reply>) -> bool {
        match self {
            TargetsStage::ColorTexture => replies.len() == 0,
            TargetsStage::ColorResource { texture } => {
                &&& replies.len() == 1
                &&& replies[0] == Reply::Texture(texture)
            },
            TargetsStage::ColorView { texture, color_res } => {
                &&& replies.len() == 2
                &&& replies[0] == Reply::Texture(texture)
                &&& replies[1] == Reply::ResourceView(color_res)
            },
            TargetsStage::DepthTexture { color_view, color_res } => {
                &&& replies.len() == 3
                &&& replies[1] == Reply::ResourceView(color_res)
                &&& replies[2] == Reply::RenderTargetView(color_view)
            },
            TargetsStage::DepthView { color_view, color_res, texture } => {
                &&& replies.len() == 4
                &&& replies[1] == Reply::ResourceView(color_res)
                &&& replies[2] == Reply::RenderTargetView(color_view)
                &&& replies[3] == Reply::Texture(texture)
            },
        }
    }

    /// The request that the stage waits for an answer to.
    spec fn pending(self, size: Vec2, aa: AaMode) -> RequestView {
        match self {
            TargetsStage::ColorTexture => RequestView::CreateTexture {
                info: color_info(size, aa),
            },
            TargetsStage::ColorResource { texture } => resource_view_of(texture),
            TargetsStage::ColorView { texture, .. } => RequestView::ViewAsRenderTarget {
                texture,
                level: 0,
                layer: None,
            },
            TargetsStage::DepthTexture { .. } => RequestView::CreateTexture {
                info: depth_info(size, aa),
            },
            TargetsStage::DepthView { texture, .. } => RequestView::ViewAsDepthStencil { texture },
        }
    }
}

/// The creation of the targets, waiting for a reply.
pub struct TargetsTask {
    size: Vec2,
    aa: AaMode,
    stage: TargetsStage,
    replies: Ghost<Seq<Reply>>,
}

impl TargetsTask {
    /// The size of the window.
    pub closed spec fn size(self) -> Vec2 {
        self.size
    }

    /// The anti-aliasing mode.
    pub closed spec fn aa(self) -> AaMode {
        self.aa
    }

    /// The replies that the task was given, in their order.
    pub closed spec fn replies(self) -> Seq<Reply> {
        self.replies@
    }

    /// The request that the task waits for an answer to.
    pub closed spec fn pending(self) -> RequestView {
        self.stage.pending(self.size, self.aa)
    }

    #[verifier::type_invariant]
    spec fn inv(self) -> bool {
        &&& targets_fit(self.size, self.aa)
        &&& self.stage.agrees(self.replies@)
    }
}

/// `step` is where the creation of the targets stands after `replies`.
pub open spec fn targets_step(
    size: Vec2,
    aa: AaMode,
    replies: Seq<Reply>,
    step: Step<TargetsTask, Result<RenderTargets, RenderError>>,
) -> bool {
    match create_rt_views_next(size, aa, replies) {
        Next::Ask(next) => step matches Step::Ask { request, task } && request@ == next
            && task.pending() == next && task.size() == size && task.aa() == aa && task.replies()
            == replies,
        Next::Done(next) => step matches Step::Done(result) && result_view(result) == next,
    }
}

/// Starts the creation of the targets for a window of this size.
pub fn create_rt_views(size: Vec2, aa: AaMode) -> (step: Step<
    TargetsTask,
    Result<RenderTargets, RenderError>,
>)
    requires
        targets_fit(size, aa),
    ensures
        targets_step(size, aa, Seq::empty(), step),
{
    let task = TargetsTask {
        size,
        aa,
        stage: TargetsStage::ColorTexture,
        replies: Ghost(Seq::empty()),
    };
    Step::Ask { request: color_texture(size, aa), task }
}

impl TargetsTask {
    /// Goes on with the answer to the pending request.
    pub fn resume(self, reply: Reply) -> (step: Step<
        TargetsTask,
        Result<RenderTargets, RenderError>,
    >)
        requires
            reply.answers(self.pending()),
        ensures
            targets_step(self.size(), self.aa(), self.replies().push(reply), step),
    {
        proof {
            use_type_invariant(&self);
        }
        let TargetsTask { size, aa, stage, replies } = self;
        let ghost next = replies@.push(reply);
        let (request, stage) = match (stage, reply) {
            (stage, Reply::Failed(error)) => {
                let combined = match stage {
                    TargetsStage::ColorTexture | TargetsStage::DepthTexture { .. } => {
                        CombinedError::Texture(error)
                    },
                    TargetsStage::ColorResource { .. } => CombinedError::Resource(error),
                    TargetsStage::ColorView { .. } | TargetsStage::DepthView { .. } => {
                        CombinedError::Target(error)
                    },
                };
                return Step::Done(Err(RenderError::CombinedError(combined)));
            },
            (TargetsStage::ColorTexture, Reply::Texture(texture)) => (
                Request::ViewAsShaderResource {
                    texture,
                    min_level: 0,
                    max_level: 0,
                    swizzle: Swizzle::new(),
                },
                TargetsStage::ColorResource { texture },
            ),
            (TargetsStage::ColorResource { texture }, Reply::ResourceView(color_res)) => (
                Request::ViewAsRenderTarget { texture, level: 0, layer: None },
                TargetsStage::ColorView { texture, color_res },
            ),
            (TargetsStage::ColorView { color_res, .. }, Reply::RenderTargetView(color_view)) => (
                depth_texture(size, aa),
                TargetsStage::DepthTexture { color_view, color_res },
            ),
            (TargetsStage::DepthTexture { color_view, color_res }, Reply::Texture(texture)) => (
                Request::ViewAsDepthStencil { texture },
                TargetsStage::DepthView { color_view, color_res, texture },
            ),
            (
                TargetsStage::DepthView { color_view, color_res, .. },
                Reply::DepthStencilView(depth_stencil_view),
            ) => {
                return Step::Done(
                    Ok(RenderTargets { color_view, depth_stencil_view, color_res }),
                );
            },
            _ => unreached(),
        };
        Step::Ask { request, task: TargetsTask { size, aa, stage, replies: Ghost(next) } }
    }
}

/// The shadow map for a window whose longer side is `size`: a cube of depths.
pub open spec fn shadow_texture_info(size: u16) -> TextureInfo {
    TextureInfo {
        kind: Kind::Cube(size / 4),
        levels: 1,
        bind: Bind { shader_resource: true, render_target: false, depth_stencil: true },
        usage: Usage::Data,
        format: TargetFormat::ShadowDepthStencil,
        channel: TargetFormat::ShadowDepthStencil.spec_channel_type(),
    }
}

/// The sampler of the shadow map: compares a depth with the stored one, takes what lies
/// beyond the map as farthest (opaque white), and filters the outcomes.
pub open spec fn shadow_sampler_info() -> SamplerInfo {
    SamplerInfo {
        filter: FilterMethod::Bilinear,
        wrap_mode: (WrapMode::Border, WrapMode::Border, WrapMode::Border),
        comparison: Some(Comparison::LessEqual),
        border: 0xffff_ffff,
    }
}

/// The sampler of the shadow map.
pub fn shadow_sampler() -> (info: SamplerInfo)
    ensures
        info == shadow_sampler_info(),
{
    let mut info = SamplerInfo::new(FilterMethod::Bilinear, WrapMode::Border);
    info.comparison = Some(Comparison::LessEqual);
    info.border = 0xffff_ffff;
    info
}

/// What it means for the shadow map that the last of `n` replies is a failure: the first
/// reply is owed to the texture, the third to the view that is rendered to, the fourth to
/// that for shaders.
pub open spec fn shadow_failure(n: nat, error: BackendError) -> CombinedError {
    if n == 1 {
        CombinedError::Texture(error)
    } else if n == 3 {
        CombinedError::Target(error)
    } else {
        CombinedError::Resource(error)
    }
}

/// How the creation of the shadow map goes on after the given replies; the first failure
/// ends it.
pub open spec fn create_shadow_views_next(size: u16, replies: Seq<Reply>) -> Next<
    Result<ShadowViews, RenderErrorView>,
> {
    let n = replies.len();
    let last = replies.last();
    if n == 0 {
        Next::Ask(RequestView::CreateTexture { info: shadow_texture_info(size) })
    } else if last is Failed {
        Next::Done(Err(RenderErrorView::CombinedError(shadow_failure(n, last->Failed_0))))
    } else if n == 1 {
        Next::Ask(RequestView::CreateSampler { info: shadow_sampler_info() })
    } else if n == 2 {
        Next::Ask(RequestView::ViewAsDepthStencil { texture: replies[0]->Texture_0 })
    } else if n == 3 {
        Next::Ask(resource_view_of(replies[0]->Texture_0))
    } else {
        Next::Done(
            Ok(
                ShadowViews {
                    depth_stencil_view: replies[2]->DepthStencilView_0,
                    res: replies[3]->ResourceView_0,
                    sampler: replies[1]->Sampler_0,
                },
            ),
        )
    }
}

/// What the creation of the shadow map waits for.
enum ShadowStage {
    Texture,
    Sampler { texture: RawTexture },
    DepthView { texture: RawTexture, sampler: Sampler },
    Resource {
        texture: RawTexture,
        sampler: Sampler,
        depth_stencil_view: ShadowDepthStencilView,
    },
}

impl ShadowStage {
    /// What was kept of the replies is what they brought.
    spec fn agrees(self, replies: Seq<Reply>) -> bool {
        match self {
            ShadowStage::Texture => replies.len() == 0,
            ShadowStage::Sampler { texture } => {
                &&& replies.len() == 1
                &&& replies[0] == Reply::Texture(texture)
            },
            ShadowStage::DepthView { texture, sampler } => {
                &&& replies.len() == 2
                &&& replies[0] == Reply::Texture(texture)
                &&& replies[1] == Reply::Sampler(sampler)
            },
            ShadowStage::Resource { texture, sampler, depth_stencil_view } => {
                &&& replies.len() == 3
                &&& replies[0] == Reply::Texture(texture)
                &&& replies[1] == Reply::Sampler(sampler)
                &&& replies[2] == Reply::DepthStencilView(depth_stencil_view)
            },
        }
    }

    /// The request that the stage waits for an answer to.
    spec fn pending(self, size: u16) -> RequestView {
        match self {
            ShadowStage::Texture => RequestView::CreateTexture { info: shadow_texture_info(size) },
            ShadowStage::Sampler { .. } => RequestView::CreateSampler {
                info: shadow_sampler_info(),
            },
            ShadowStage::DepthView { texture, .. } => RequestView::ViewAsDepthStencil { texture },
            ShadowStage::Resource { texture, .. } => resource_view_of(texture),
        }
    }
}

/// The creation of the shadow map, waiting for a reply.
pub struct ShadowViewsTask {
    size: u16,
    stage: ShadowStage,
    replies: Ghost<Seq<Reply>>,
}

impl ShadowViewsTask {
    /// The longer side of the window.
    pub closed spec fn size(self) -> u16 {
        self.size
    }

    /// The replies that the task was given, in their order.
    pub closed spec fn replies(self) -> Seq<Reply> {
        self.replies@
    }

    /// The request that the task waits for an answer to.
    pub closed spec fn pending(self) -> RequestView {
        self.stage.pending(self.size)
    }

    #[verifier::type_invariant]
    spec fn inv(self) -> bool {
        self.stage.agrees(self.replies@)
    }
}

/// `step` is where the creation of the shadow map stands after `replies`.
pub open spec fn shadow_views_step(
    size: u16,
    replies: Seq<Reply>,
    step: Step<ShadowViewsTask, Result<ShadowViews, RenderError>>,
) -> bool {
    match create_shadow_views_next(size, replies) {
        Next::Ask(next) => step matches Step::Ask { request, task } && request@ == next
            && task.pending() == next && task.size() == size && task.replies() == replies,
        Next::Done(next) => step matches Step::Done(result) && result_view(result) == next,
    }
}

/// Starts the creation of the shadow map for a window whose longer side is `size`.
pub fn create_shadow_views(size: u16) -> (step: Step<
    ShadowViewsTask,
    Result<ShadowViews, RenderError>,
>)
    ensures
        shadow_views_step(size, Seq::empty(), step),
{
    let request = Request::CreateTexture {
        info: TextureInfo {
            kind: Kind::Cube(size / 4),
            levels: 1,
            bind: Bind { shader_resource: true, render_target: false, depth_stencil: true },
            usage: Usage::Data,
            format: TargetFormat::ShadowDepthStencil,
            channel: TargetFormat::ShadowDepthStencil.channel_type(),
        },
    };
    let task = ShadowViewsTask {
        size,
        stage: ShadowStage::Texture,
        replies: Ghost(Seq::empty()),
    };
    Step::Ask { request, task }
}

impl ShadowViewsTask {
    /// Goes on with the answer to the pending request.
    pub fn resume(self, reply: Reply) -> (step: Step<
        ShadowViewsTask,
        Result<ShadowViews, RenderError>,
    >)
        requires
            reply.answers(self.pending()),
        ensures
            shadow_views_step(self.size(), self.replies().push(reply), step),
    {
        proof {
            use_type_invariant(&self);
        }
        let ShadowViewsTask { size, stage, replies } = self;
        let ghost next = replies@.push(reply);
        let (request, stage) = match (stage, reply) {
            (ShadowStage::Texture, Reply::Failed(error)) => {
                let combined = CombinedError::Texture(error);
                return Step::Done(Err(RenderError::CombinedError(combined)));
            },
            (ShadowStage::DepthView { .. }, Reply::Failed(error)) => {
                let combined = CombinedError::Target(error);
                return Step::Done(Err(RenderError::CombinedError(combined)));
            },
            (ShadowStage::Resource { .. }, Reply::Failed(error)) => {
                let combined = CombinedError::Resource(error);
                return Step::Done(Err(RenderError::CombinedError(combined)));
            },
            (ShadowStage::Texture, Reply::Texture(texture)) => (
                Request::CreateSampler { info: shadow_sampler() },
                ShadowStage::Sampler { texture },
            ),
            (ShadowStage::Sampler { texture }, Reply::Sampler(sampler)) => (
                Request::ViewAsDepthStencil { texture },
                ShadowStage::DepthView { texture, sampler },
            ),
            (
                ShadowStage::DepthView { texture, sampler },
                Reply::DepthStencilView(depth_stencil_view),
            ) => (
                Request::ViewAsShaderResource {
                    texture,
                    min_level: 0,
                    max_level: 0,
                    swizzle: Swizzle::new(),
                },
                ShadowStage::Resource { texture, sampler, depth_stencil_view },
            ),
            (
                ShadowStage::Resource { sampler, depth_stencil_view, .. },
                Reply::ResourceView(res),
            ) => {
                return Step::Done(Ok(ShadowViews { depth_stencil_view, res, sampler }));
            },
            _ => unreached(),
        };
        Step::Ask { request, task: ShadowViewsTask { size, stage, replies: Ghost(next) } }
    }
}

} // verus!
