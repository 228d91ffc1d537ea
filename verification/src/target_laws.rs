//! What holds of the targets, of the shadow map and of their creation.
use crate::error::{BackendError, CombinedError, RenderErrorView};
use crate::exchange::{Next, Reply, RequestView};
use crate::geometry::Vec2;
use crate::modes::AaMode;
use crate::resources::{DepthStencilView, RawTexture, RenderTargetView, ResourceView, Sampler};
use crate::state::Comparison;
use crate::targets::{
    color_info, create_rt_views_next, create_shadow_views_next, depth_info, resource_view_of,
    shadow_sampler_info, shadow_texture_info, target_kind, targets_fit, RenderTargets, ShadowViews,
};
use crate::texture::{Samples, Swizzle, TargetFormat, TextureInfo};
use vstd::prelude::*;

verus! {

// What is asked for.

/// Targets can be described unless supersampling doubles a side beyond what sixteen bits hold.
pub proof fn only_supersampling_has_a_limit(size: Vec2, aa: AaMode)
    ensures
        targets_fit(size, aa) <==> !(aa is SsaaX4 && (size.x > 0x7fff || size.y > 0x7fff)),
{
}

/// The number of samples that a mode takes of each pixel of the targets.
pub open spec fn sample_count(aa: AaMode) -> int {
    match aa {
        AaMode::MsaaX4 => 4,
        AaMode::MsaaX8 => 8,
        AaMode::MsaaX16 => 16,
        _ => 1,
    }
}

/// How many texels a mode has along each side of a pixel.
pub open spec fn texels_per_side(aa: AaMode) -> int {
    if aa is SsaaX4 {
        2
    } else {
        1
    }
}

/// The targets have as many texels along each side of the window as the mode asks for, and as
/// many samples in each texel.
pub proof fn targets_have_the_texels_of_their_mode(size: Vec2, aa: AaMode)
    requires
        targets_fit(size, aa),
    ensures
        ({
            let kind = target_kind(size, aa);
            &&& kind is D2
            &&& kind->D2_0 == texels_per_side(aa) * size.x
            &&& kind->D2_1 == texels_per_side(aa) * size.y
            &&& sample_count(aa) == 1 <==> kind->D2_2 is Single
            &&& kind->D2_2 matches Samples::Multi(count) ==> count == sample_count(aa)
            &&& kind.size().x == texels_per_side(aa) * size.x
            &&& kind.size().y == texels_per_side(aa) * size.y
        }),
{
}

/// A texture has one mipmap level, lives on the GPU, and has the channels of its format.
pub open spec fn is_plain(info: TextureInfo) -> bool {
    &&& info.levels == 1
    &&& info.usage is Data
    &&& match info.format {
        TargetFormat::TgtColor => info.channel is Float,
        TargetFormat::TgtDepthStencil => info.channel is Unorm,
        TargetFormat::ShadowDepthStencil => info.channel is Float,
    }
}

/// The color target can be rendered to and read, the depth target takes depths, and both have
/// the shape of the targets. The shadow map takes depths and can be read.
pub proof fn textures_can_be_used_as_they_are_viewed(size: Vec2, aa: AaMode, side: u16)
    ensures
        is_plain(color_info(size, aa)),
        color_info(size, aa).kind == target_kind(size, aa),
        color_info(size, aa).format is TgtColor,
        color_info(size, aa).bind.render_target,
        color_info(size, aa).bind.shader_resource,
        !color_info(size, aa).bind.depth_stencil,
        is_plain(depth_info(size, aa)),
        depth_info(size, aa).kind == target_kind(size, aa),
        depth_info(size, aa).format is TgtDepthStencil,
        depth_info(size, aa).bind.depth_stencil,
        !depth_info(size, aa).bind.render_target,
        !depth_info(size, aa).bind.shader_resource,
        is_plain(shadow_texture_info(side)),
        shadow_texture_info(side).format is ShadowDepthStencil,
        shadow_texture_info(side).bind.depth_stencil,
        shadow_texture_info(side).bind.shader_resource,
        !shadow_texture_info(side).bind.render_target,
{
}

/// The shadow map is a cube whose side is a quarter of the longer side of the window, rounded
/// down.
pub proof fn shadow_maps_have_a_quarter_of_the_side(side: u16)
    ensures
        shadow_texture_info(side).kind is Cube,
        ({
            let cube = shadow_texture_info(side).kind->Cube_0;
            4 * cube <= side < 4 * cube + 4
        }),
        shadow_texture_info(side).kind.size().x == shadow_texture_info(side).kind->Cube_0,
        shadow_texture_info(side).kind.size().y == shadow_texture_info(side).kind->Cube_0,
{
}

/// The sampler of the shadow map says how much of a texel's neighborhood is not nearer than a
/// depth; beyond the map everything is as far as can be.
pub proof fn shadow_samplers_compare_depths()
    ensures
        shadow_sampler_info().filter is Bilinear,
        shadow_sampler_info().wrap_mode.0 is Border,
        shadow_sampler_info().wrap_mode.1 is Border,
        shadow_sampler_info().wrap_mode.2 is Border,
        shadow_sampler_info().comparison == Some(Comparison::LessEqual),
        // Each of the four channels of the border is at its largest.
        shadow_sampler_info().border as int == 0xff + 0x100 * 0xff + 0x1_0000 * 0xff + 0x100_0000
            * 0xff,
{
}

/// Shaders see the one mipmap level of a texture, every channel as itself.
pub proof fn shaders_see_textures_as_they_are(texture: RawTexture)
    ensures
        resource_view_of(texture) matches RequestView::ViewAsShaderResource {
            texture: viewed,
            min_level,
            max_level,
            swizzle,
        } && viewed == texture && min_level == 0 && max_level == 0 && swizzle.x is X && swizzle.y
            is Y && swizzle.z is Z && swizzle.w is W,
        Swizzle::identity().x is X,
        Swizzle::identity().y is Y,
        Swizzle::identity().z is Z,
        Swizzle::identity().w is W,
{
}

// How it is created.

/// What the creation of targets asks for.
pub open spec fn asks(request: RequestView) -> Next<Result<RenderTargets, RenderErrorView>> {
    Next::Ask(request)
}

/// The creation of targets fails.
pub open spec fn fails(error: CombinedError) -> Next<Result<RenderTargets, RenderErrorView>> {
    Next::Done(Err(RenderErrorView::CombinedError(error)))
}

/// The targets are created in five steps: the color texture, its view for shaders, its view
/// that is rendered to, the depth texture and its view. What comes out are these three views.
pub proof fn targets_take_five_steps(
    size: Vec2,
    aa: AaMode,
    color: RawTexture,
    color_res: ResourceView,
    color_view: RenderTargetView,
    depth: RawTexture,
    depth_stencil_view: DepthStencilView,
)
    ensures
        ({
            let zero = Seq::<Reply>::empty();
            let one = seq![Reply::Texture(color)];
            let two = seq![Reply::Texture(color), Reply::ResourceView(color_res)];
            let three = seq![
                Reply::Texture(color),
                Reply::ResourceView(color_res),
                Reply::RenderTargetView(color_view),
            ];
            let four = three.push(Reply::Texture(depth));
            let five = four.push(Reply::DepthStencilView(depth_stencil_view));
            &&& create_rt_views_next(size, aa, zero) == asks(
                RequestView::CreateTexture { info: color_info(size, aa) },
            )
            &&& create_rt_views_next(size, aa, one) == asks(resource_view_of(color))
            &&& create_rt_views_next(size, aa, two) == asks(
                RequestView::ViewAsRenderTarget { texture: color, level: 0, layer: None },
            )
            &&& create_rt_views_next(size, aa, three) == asks(
                RequestView::CreateTexture { info: depth_info(size, aa) },
            )
            &&& create_rt_views_next(size, aa, four) == asks(
                RequestView::ViewAsDepthStencil { texture: depth },
            )
            &&& create_rt_views_next(size, aa, five) == Next::<
                Result<RenderTargets, RenderErrorView>,
            >::Done(Ok(RenderTargets { color_view, depth_stencil_view, color_res }))
        }),
{
}

/// A failure ends the creation of targets, and the error says what could not be created: a
/// texture, a view for shaders, or a view that is rendered to.
pub proof fn target_failures_say_what_failed(
    size: Vec2,
    aa: AaMode,
    color: RawTexture,
    color_res: ResourceView,
    color_view: RenderTargetView,
    depth: RawTexture,
    error: BackendError,
)
    ensures
        ({
            let one = seq![Reply::Texture(color)];
            let two = one.push(Reply::ResourceView(color_res));
            let three = two.push(Reply::RenderTargetView(color_view));
            let four = three.push(Reply::Texture(depth));
            let failed = Reply::Failed(error);
            &&& create_rt_views_next(size, aa, seq![failed]) == fails(
                CombinedError::Texture(error),
            )
            &&& create_rt_views_next(size, aa, one.push(failed)) == fails(
                CombinedError::Resource(error),
            )
            &&& create_rt_views_next(size, aa, two.push(failed)) == fails(
                CombinedError::Target(error),
            )
            &&& create_rt_views_next(size, aa, three.push(failed)) == fails(
                CombinedError::Texture(error),
            )
            &&& create_rt_views_next(size, aa, four.push(failed)) == fails(
                CombinedError::Target(error),
            )
        }),
{
}

/// What the creation of a shadow map asks for.
pub open spec fn asks_for_shadow(request: RequestView) -> Next<
    Result<ShadowViews, RenderErrorView>,
> {
    Next::Ask(request)
}

/// The creation of a shadow map fails.
pub open spec fn fails_for_shadow(error: CombinedError) -> Next<
    Result<ShadowViews, RenderErrorView>,
> {
    Next::Done(Err(RenderErrorView::CombinedError(error)))
}

/// A shadow map is created in four steps: the texture, the sampler, the view that is rendered
/// to and the view for shaders, both of that texture. What comes out are the sampler and the
/// views.
pub proof fn shadow_maps_take_four_steps(
    side: u16,
    texture: RawTexture,
    sampler: Sampler,
    depth_stencil_view: DepthStencilView,
    res: ResourceView,
)
    ensures
        ({
            let zero = Seq::<Reply>::empty();
            let one = seq![Reply::Texture(texture)];
            let two = one.push(Reply::Sampler(sampler));
            let three = two.push(Reply::DepthStencilView(depth_stencil_view));
            let four = three.push(Reply::ResourceView(res));
            &&& create_shadow_views_next(side, zero) == asks_for_shadow(
                RequestView::CreateTexture { info: shadow_texture_info(side) },
            )
            &&& create_shadow_views_next(side, one) == asks_for_shadow(
                RequestView::CreateSampler { info: shadow_sampler_info() },
            )
            &&& create_shadow_views_next(side, two) == asks_for_shadow(
                RequestView::ViewAsDepthStencil { texture },
            )
            &&& create_shadow_views_next(side, three) == asks_for_shadow(
                resource_view_of(texture),
            )
            &&& create_shadow_views_next(side, four) == Next::<
                Result<ShadowViews, RenderErrorView>,
            >::Done(Ok(ShadowViews { depth_stencil_view, res, sampler }))
        }),
{
}

/// A failure ends the creation of a shadow map, and the error says what could not be created.
pub proof fn shadow_failures_say_what_failed(
    side: u16,
    texture: RawTexture,
    sampler: Sampler,
    depth_stencil_view: DepthStencilView,
    error: BackendError,
)
    ensures
        ({
            let one = seq![Reply::Texture(texture)];
            let two = one.push(Reply::Sampler(sampler));
            let three = two.push(Reply::DepthStencilView(depth_stencil_view));
            let failed = Reply::Failed(error);
            &&& create_shadow_views_next(side, seq![failed]) == fails_for_shadow(
                CombinedError::Texture(error),
            )
            &&& create_shadow_views_next(side, two.push(failed)) == fails_for_shadow(
                CombinedError::Target(error),
            )
            &&& create_shadow_views_next(side, three.push(failed)) == fails_for_shadow(
                CombinedError::Resource(error),
            )
        }),
{
}

} // verus!
