use voxygen_render::error::{BackendError, CombinedError, RenderError};
use voxygen_render::exchange::{Reply, Request, Step};
use voxygen_render::geometry::Vec2;
use voxygen_render::modes::AaMode;
use voxygen_render::resources::{
    DepthStencilView, RawTexture, RenderTargetView, ResourceView, Sampler,
};
use voxygen_render::state::{Comparison, Stencil, StencilOp, StencilSide};
use voxygen_render::targets::{
    create_rt_views, create_shadow_views, render_target_kind, shadow_sampler, RenderTargets,
    ShadowViews, ShadowViewsTask, TargetsTask,
};
use voxygen_render::texture::{
    Bind, ChannelSource, ChannelType, FilterMethod, Kind, SamplerInfo, Samples, Swizzle,
    TargetFormat, TextureInfo, Usage, WrapMode,
};

type TargetsStep = Step<TargetsTask, Result<RenderTargets, RenderError>>;
type ShadowStep = Step<ShadowViewsTask, Result<ShadowViews, RenderError>>;

fn failed(message: &str) -> Reply {
    Reply::Failed(BackendError { message: message.to_string() })
}

fn part_of(error: CombinedError) -> (&'static str, String) {
    match error {
        CombinedError::Texture(error) => ("texture", error.message),
        CombinedError::Resource(error) => ("resource", error.message),
        CombinedError::Target(error) => ("target", error.message),
    }
}

fn ask_targets(step: TargetsStep) -> (Request, TargetsTask) {
    match step {
        Step::Ask { request, task } => (request, task),
        Step::Done(result) => panic!("ended with {:?}", result),
    }
}

fn ask_shadow(step: ShadowStep) -> (Request, ShadowViewsTask) {
    match step {
        Step::Ask { request, task } => (request, task),
        Step::Done(result) => panic!("ended with {:?}", result),
    }
}

const SCENE_KIND: Kind = Kind::D2(800, 600, Samples::Multi(4));

fn targets_replies() -> Vec<Reply> {
    vec![
        Reply::Texture(RawTexture { id: 1, kind: SCENE_KIND }),
        Reply::ResourceView(ResourceView { id: 2 }),
        Reply::RenderTargetView(RenderTargetView { id: 3, width: 800, height: 600 }),
        Reply::Texture(RawTexture { id: 4, kind: SCENE_KIND }),
        Reply::DepthStencilView(DepthStencilView { id: 5, width: 800, height: 600 }),
    ]
}

const SHADOW_KIND: Kind = Kind::Cube(200);

fn shadow_replies() -> Vec<Reply> {
    vec![
        Reply::Texture(RawTexture { id: 1, kind: SHADOW_KIND }),
        Reply::Sampler(Sampler { id: 2 }),
        Reply::DepthStencilView(DepthStencilView { id: 3, width: 200, height: 200 }),
        Reply::ResourceView(ResourceView { id: 4 }),
    ]
}

#[test]
fn targets_have_the_shape_that_anti_aliasing_asks_for() {
    let size = Vec2::new(800, 600);
    assert_eq!(render_target_kind(size, AaMode::Off), Kind::D2(800, 600, Samples::Single));
    assert_eq!(render_target_kind(size, AaMode::Fxaa), Kind::D2(800, 600, Samples::Single));
    assert_eq!(render_target_kind(size, AaMode::SsaaX4), Kind::D2(1600, 1200, Samples::Single));
    assert_eq!(render_target_kind(size, AaMode::MsaaX4), Kind::D2(800, 600, Samples::Multi(4)));
    assert_eq!(render_target_kind(size, AaMode::MsaaX8), Kind::D2(800, 600, Samples::Multi(8)));
    assert_eq!(render_target_kind(size, AaMode::MsaaX16), Kind::D2(800, 600, Samples::Multi(16)));
}

#[test]
fn supersampling_reaches_the_largest_describable_target() {
    let size = Vec2::new(0x7fff, 1);
    assert_eq!(render_target_kind(size, AaMode::SsaaX4), Kind::D2(0xfffe, 2, Samples::Single));
}

#[test]
fn channel_types_are_those_of_the_formats() {
    assert_eq!(TargetFormat::TgtColor.channel_type(), ChannelType::Float);
    assert_eq!(TargetFormat::TgtDepthStencil.channel_type(), ChannelType::Unorm);
    assert_eq!(TargetFormat::ShadowDepthStencil.channel_type(), ChannelType::Float);
}

#[test]
fn targets_are_created_step_by_step() {
    let mut replies = targets_replies().into_iter();
    let (request, task) = ask_targets(create_rt_views(Vec2::new(800, 600), AaMode::MsaaX4));
    match request {
        Request::CreateTexture { info } => assert_eq!(
            info,
            TextureInfo {
                kind: Kind::D2(800, 600, Samples::Multi(4)),
                levels: 1,
                bind: Bind { shader_resource: true, render_target: true, depth_stencil: false },
                usage: Usage::Data,
                format: TargetFormat::TgtColor,
                channel: ChannelType::Float,
            },
        ),
        other => panic!("{:?}", other),
    }
    let (request, task) = ask_targets(task.resume(replies.next().unwrap()));
    match request {
        Request::ViewAsShaderResource { texture, min_level, max_level, swizzle } => {
            assert_eq!(texture, RawTexture { id: 1, kind: SCENE_KIND });
            assert_eq!((min_level, max_level), (0, 0));
            assert_eq!(
                swizzle,
                Swizzle {
                    x: ChannelSource::X,
                    y: ChannelSource::Y,
                    z: ChannelSource::Z,
                    w: ChannelSource::W,
                },
            );
        },
        other => panic!("{:?}", other),
    }
    let (request, task) = ask_targets(task.resume(replies.next().unwrap()));
    match request {
        Request::ViewAsRenderTarget { texture, level, layer } => {
            assert_eq!(texture, RawTexture { id: 1, kind: SCENE_KIND });
            assert_eq!((level, layer), (0, None));
        },
        other => panic!("{:?}", other),
    }
    let (request, task) = ask_targets(task.resume(replies.next().unwrap()));
    match request {
        Request::CreateTexture { info } => assert_eq!(
            info,
            TextureInfo {
                kind: Kind::D2(800, 600, Samples::Multi(4)),
                levels: 1,
                bind: Bind { shader_resource: false, render_target: false, depth_stencil: true },
                usage: Usage::Data,
                format: TargetFormat::TgtDepthStencil,
                channel: ChannelType::Unorm,
            },
        ),
        other => panic!("{:?}", other),
    }
    let (request, task) = ask_targets(task.resume(replies.next().unwrap()));
    match request {
        Request::ViewAsDepthStencil { texture } => {
            assert_eq!(texture, RawTexture { id: 4, kind: SCENE_KIND });
        },
        other => panic!("{:?}", other),
    }
    match task.resume(replies.next().unwrap()) {
        Step::Done(Ok(targets)) => assert_eq!(
            targets,
            RenderTargets {
                color_view: RenderTargetView { id: 3, width: 800, height: 600 },
                depth_stencil_view: DepthStencilView { id: 5, width: 800, height: 600 },
                color_res: ResourceView { id: 2 },
            },
        ),
        _ => panic!("the targets are not there"),
    }
}

#[test]
fn each_failure_ends_the_creation_of_targets() {
    for fail_at in 0..5 {
        let mut step = create_rt_views(Vec2::new(800, 600), AaMode::MsaaX4);
        for (index, reply) in targets_replies().into_iter().enumerate() {
            let (_, task) = ask_targets(step);
            if index == fail_at {
                step = task.resume(failed("out of memory"));
                break;
            }
            step = task.resume(reply);
        }
        match step {
            Step::Done(Err(RenderError::CombinedError(error))) => {
                let (part, message) = part_of(error);
                assert_eq!(part, ["texture", "resource", "target", "texture", "target"][fail_at]);
                assert_eq!(message, "out of memory");
            },
            _ => panic!("failure {} did not end the creation", fail_at),
        }
    }
}

#[test]
fn shadow_maps_are_a_quarter_of_the_window() {
    let mut replies = shadow_replies().into_iter();
    let (request, task) = ask_shadow(create_shadow_views(803));
    match request {
        Request::CreateTexture { info } => assert_eq!(
            info,
            TextureInfo {
                kind: Kind::Cube(200),
                levels: 1,
                bind: Bind { shader_resource: true, render_target: false, depth_stencil: true },
                usage: Usage::Data,
                format: TargetFormat::ShadowDepthStencil,
                channel: ChannelType::Float,
            },
        ),
        other => panic!("{:?}", other),
    }
    let (request, task) = ask_shadow(task.resume(replies.next().unwrap()));
    match request {
        Request::CreateSampler { info } => assert_eq!(info, shadow_sampler()),
        other => panic!("{:?}", other),
    }
    let (request, task) = ask_shadow(task.resume(replies.next().unwrap()));
    match request {
        Request::ViewAsDepthStencil { texture } => {
            assert_eq!(texture, RawTexture { id: 1, kind: SHADOW_KIND });
        },
        other => panic!("{:?}", other),
    }
    let (request, task) = ask_shadow(task.resume(replies.next().unwrap()));
    match request {
        Request::ViewAsShaderResource { texture, min_level, max_level, swizzle } => {
            assert_eq!(texture, RawTexture { id: 1, kind: SHADOW_KIND });
            assert_eq!((min_level, max_level), (0, 0));
            assert_eq!(swizzle, Swizzle::new());
        },
        other => panic!("{:?}", other),
    }
    match task.resume(replies.next().unwrap()) {
        Step::Done(Ok(views)) => assert_eq!(
            views,
            ShadowViews {
                depth_stencil_view: DepthStencilView { id: 3, width: 200, height: 200 },
                res: ResourceView { id: 4 },
                sampler: Sampler { id: 2 },
            },
        ),
        _ => panic!("the views are not there"),
    }
}

#[test]
fn each_failure_ends_the_creation_of_shadow_views() {
    for fail_at in [0, 2, 3] {
        let mut step = create_shadow_views(803);
        for (index, reply) in shadow_replies().into_iter().enumerate() {
            let (_, task) = ask_shadow(step);
            if index == fail_at {
                step = task.resume(failed("unsupported"));
                break;
            }
            step = task.resume(reply);
        }
        match step {
            Step::Done(Err(RenderError::CombinedError(error))) => {
                let (part, message) = part_of(error);
                assert_eq!(part, ["texture", "", "target", "resource"][fail_at]);
                assert_eq!(message, "unsupported");
            },
            _ => panic!("failure {} did not end the creation", fail_at),
        }
    }
}

#[test]
fn shadow_sampler_compares_and_has_a_white_border() {
    assert_eq!(
        shadow_sampler(),
        SamplerInfo {
            filter: FilterMethod::Bilinear,
            wrap_mode: (WrapMode::Border, WrapMode::Border, WrapMode::Border),
            comparison: Some(Comparison::LessEqual),
            border: 0xffff_ffff,
        },
    );
    let white: gfx::texture::PackedColor = [1.0; 4].into();
    assert_eq!(shadow_sampler().border, white.0);
}

#[test]
fn plain_samplers_are_those_of_gfx() {
    let info = SamplerInfo::new(FilterMethod::Trilinear, WrapMode::Mirror);
    let gfx_info = gfx::texture::SamplerInfo::new(
        gfx::texture::FilterMethod::Trilinear,
        gfx::texture::WrapMode::Mirror,
    );
    assert_eq!(info.wrap_mode, (WrapMode::Mirror, WrapMode::Mirror, WrapMode::Mirror));
    assert_eq!(
        gfx_info.wrap_mode,
        (
            gfx::texture::WrapMode::Mirror,
            gfx::texture::WrapMode::Mirror,
            gfx::texture::WrapMode::Mirror,
        ),
    );
    assert_eq!(info.comparison, None);
    assert_eq!(gfx_info.comparison, None);
    assert_eq!(info.border, gfx_info.border.0);
}

#[test]
fn stencil_tests_are_those_of_gfx() {
    let ops = (StencilOp::Zero, StencilOp::Invert, StencilOp::Replace);
    let side = StencilSide {
        fun: Comparison::Greater,
        mask_read: 0x0f,
        mask_write: 0x0f,
        op_fail: StencilOp::Zero,
        op_depth_fail: StencilOp::Invert,
        op_pass: StencilOp::Replace,
    };
    assert_eq!(Stencil::new(Comparison::Greater, 0x0f, ops), Stencil { front: side, back: side });
    let other = gfx::state::Stencil::new(
        gfx::state::Comparison::Greater,
        0x0f,
        (
            gfx::state::StencilOp::Zero,
            gfx::state::StencilOp::Invert,
            gfx::state::StencilOp::Replace,
        ),
    );
    assert_eq!(other.front, other.back);
    assert_eq!((other.front.mask_read, other.front.mask_write), (side.mask_read, side.mask_write));
    assert_eq!(other.front.op_fail, gfx::state::StencilOp::Zero);
    assert_eq!(other.front.op_depth_fail, gfx::state::StencilOp::Invert);
    assert_eq!(other.front.op_pass, gfx::state::StencilOp::Replace);
}
