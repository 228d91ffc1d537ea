//! What the operations of a renderer ask for, in which order, and what they make of the
//! answers.
use crate::capture::{create_screenshot_next, download_next, ScreenshotReplies};
use crate::create_pipelines::{create_pipelines_next, BuiltPipelinesView};
use crate::draw::Command;
use crate::error::{BackendError, CombinedError, RenderErrorView};
use crate::exchange::{Next, Reply, RequestView};
use crate::geometry::Vec2;
use crate::modes::Modes;
use crate::operations::{
    flush_next, on_resize_next, recreate_next, set_modes_next, FlushReplies, ModeReplies,
    RebuildView,
};
use crate::renderer::{Renderer, ShadowMapRenderer};
use crate::resources::{Buffer, DownloadBuffer, Encoder, ResourceView, Sampler};
use crate::screenshot::{bottom_up, bytes, picture_of, ImageView};
use crate::setup::{new_next, Setup, SetupReplies};
use crate::targets::{create_rt_views_next, create_shadow_views_next, targets_fit, RenderTargets};
use crate::uploads::{upload_next, BufferUsage, UploadReply, UploadRequestView};
use vstd::prelude::*;

verus! {

// Resizing.

/// `after` differs from `before` in nothing but the targets, which are `targets`.
pub open spec fn has_new_targets(
    before: Renderer,
    after: Renderer,
    targets: RenderTargets,
) -> bool {
    &&& after.targets == targets
    &&& before == (Renderer { targets: before.targets, ..after })
}

/// A resize of a window with an area asks for new targets of the window's size, for the mode
/// of the renderer, and for nothing else. It takes them over, or keeps all as it is and hands
/// out why not. A window without an area is left alone.
pub proof fn resizes_create_targets_for_the_window(renderer: Renderer, replies: Seq<Reply>)
    ensures
        ({
            let width = renderer.win_color_view.width;
            let height = renderer.win_color_view.height;
            let size = Vec2 { x: width, y: height };
            let next = on_resize_next(renderer, replies);
            if width > 0 && height > 0 {
                match create_rt_views_next(size, renderer.modes.aa, replies) {
                    Next::Ask(request) => next matches Next::Ask(asked) && asked == request,
                    Next::Done(Ok(targets)) => next matches Next::Done((after, Ok(_)))
                        && has_new_targets(renderer, after, targets),
                    Next::Done(Err(error)) => next matches Next::Done((after, Err(reason))) && after
                        == renderer && reason == error,
                }
            } else {
                next matches Next::Done((after, Ok(_))) && after == renderer
            }
        }),
        renderer.can_resize() <==> (renderer.win_color_view.width == 0
            || renderer.win_color_view.height == 0 || targets_fit(
            Vec2 { x: renderer.win_color_view.width, y: renderer.win_color_view.height },
            renderer.modes.aa,
        )),
{
}

// Recreating the pipelines.

/// `after` has the pipelines that were created, and `rebuild` says so; an existing shadow map
/// has its new pipeline, if there is one, and `rebuild` says why if not.
pub open spec fn has_new_pipelines(
    before: Renderer,
    after: Renderer,
    built: BuiltPipelinesView,
    rebuild: RebuildView,
) -> bool {
    &&& after.pipelines == built.scene
    &&& before == (Renderer {
        pipelines: before.pipelines,
        shadow_map: before.shadow_map,
        ..after
    })
    &&& match (before.shadow_map, built.shadow) {
        (None, _) => after.shadow_map is None,
        (Some(_), Err(_)) => after.shadow_map == before.shadow_map,
        (Some(old_map), Ok(pipeline)) => {
            &&& after.shadow_map matches Some(new_map)
            &&& new_map.pipeline == pipeline
            &&& old_map == (ShadowMapRenderer { pipeline: old_map.pipeline, ..new_map })
        },
    }
    &&& match built.shadow {
        Ok(_) => rebuild is Complete,
        Err(error) => rebuild == RebuildView::WithoutShadowMap(error),
    }
}

/// A recreation asks for exactly what the creation of pipelines for the renderer's modes asks
/// for. It takes all of them over, or keeps all as it is and hands out why.
pub proof fn recreations_create_all_pipelines(renderer: Renderer, replies: Seq<Reply>)
    ensures
        ({
            let next = recreate_next(renderer, replies);
            match create_pipelines_next(renderer.modes, replies) {
                Next::Ask(request) => next matches Next::Ask(asked) && asked == request,
                Next::Done(Ok(built)) => next matches Next::Done((after, rebuild))
                    && has_new_pipelines(renderer, after, built, rebuild),
                Next::Done(Err(error)) => next matches Next::Done((after, rebuild)) && after
                    == renderer && rebuild == RebuildView::Failed(error),
            }
        }),
{
}

// Changing modes.

/// A change of modes, whichever they are, first asks for what a resize with the new modes asks
/// for. If that fails, the change ends with its error. Otherwise it asks for exactly what the
/// creation of pipelines for the new modes asks for, and only when that has ended the change
/// ends: with all new pipelines, or with the old ones and the reason.
pub proof fn mode_changes_resize_and_recreate(
    renderer: Renderer,
    modes: Modes,
    replies: ModeReplies,
)
    ensures
        ({
            let changed = renderer.with_modes(modes);
            let next = set_modes_next(changed, replies);
            &&& changed.modes == modes
            &&& renderer == (Renderer { modes: renderer.modes, ..changed })
            &&& match on_resize_next(changed, replies.targets) {
                Next::Ask(request) => next matches Next::Ask(asked) && asked == request,
                Next::Done((resized, Err(error))) => next matches Next::Done(
                    (after, Err(reason)),
                ) && after == resized && reason == error,
                Next::Done((resized, Ok(_))) => match create_pipelines_next(
                    modes,
                    replies.pipelines,
                ) {
                    Next::Ask(request) => next matches Next::Ask(asked) && asked == request,
                    Next::Done(Ok(built)) => next matches Next::Done((after, Ok(rebuild)))
                        && has_new_pipelines(resized, after, built, rebuild),
                    Next::Done(Err(error)) => next matches Next::Done((after, Ok(rebuild))) && after
                        == resized && rebuild == RebuildView::Failed(error),
                },
            }
        }),
{
    resizes_create_targets_for_the_window(renderer.with_modes(modes), replies.targets);
}

/// A change of modes that is said to be complete has recreated all pipelines for the new modes.
pub proof fn complete_mode_changes_have_new_pipelines(
    renderer: Renderer,
    modes: Modes,
    replies: ModeReplies,
    changed: Renderer,
)
    requires
        set_modes_next(renderer.with_modes(modes), replies) == Next::<
            (Renderer, Result<RebuildView, RenderErrorView>),
        >::Done((changed, Ok(RebuildView::Complete))),
    ensures
        changed.modes == modes,
        create_pipelines_next(modes, replies.pipelines) matches Next::Done(Ok(built))
            && built.scene == changed.pipelines && built.shadow is Ok && (changed.shadow_map
            matches Some(shadow_map) ==> built.shadow == Ok::<_, RenderErrorView>(
            shadow_map.pipeline,
        )),
{
}

/// A reply to a change of modes goes to the resize as long as that waits for one, then to the
/// creation of the pipelines.
pub proof fn mode_replies_go_where_they_were_asked_for(
    renderer: Renderer,
    replies: ModeReplies,
    reply: Reply,
)
    ensures
        ({
            let next = replies.push(renderer, reply);
            if on_resize_next(renderer, replies.targets) is Ask {
                next.targets == replies.targets.push(reply) && next.pipelines == replies.pipelines
            } else {
                next.targets == replies.targets && next.pipelines == replies.pipelines.push(reply)
            }
        }),
        ModeReplies::none().targets.len() == 0,
        ModeReplies::none().pipelines.len() == 0,
{
}

// Flushing.

/// A flush first asks for the carrying out of its commands. If no shader file has changed, it
/// ends there, with everything as it is. Otherwise it asks for exactly what the creation of
/// pipelines for the renderer's modes asks for, takes them over, or hands out why not.
pub proof fn flushes_reload_changed_shaders(
    renderer: Renderer,
    reloaded: bool,
    replies: Seq<Reply>,
)
    ensures
        flush_next(renderer, FlushReplies::none()) matches Next::Ask(
            RequestView::Submit { commands },
        ) && commands.last() is Cleanup && commands[commands.len() - 2] == (Command::Flush {
            encoder: renderer.encoder,
        }) && (renderer.shadow_map is None ==> commands.len() == 2) && (renderer.shadow_map matches
            Some(shadow_map) ==> commands.len() == 3 && commands[0] == (Command::Flush {
            encoder: shadow_map.encoder,
        })),
        ({
            let next = flush_next(
                renderer,
                FlushReplies { submission: seq![Reply::Submitted { reloaded }], pipelines: replies },
            );
            if reloaded {
                match create_pipelines_next(renderer.modes, replies) {
                    Next::Ask(request) => next matches Next::Ask(asked) && asked == request,
                    Next::Done(Ok(built)) => next matches Next::Done((after, Some(rebuild)))
                        && has_new_pipelines(renderer, after, built, rebuild),
                    Next::Done(Err(error)) => next matches Next::Done((after, Some(rebuild)))
                        && after == renderer && rebuild == RebuildView::Failed(error),
                }
            } else {
                next matches Next::Done((after, None)) && after == renderer
            }
        }),
{
}

/// The first reply to a flush goes to the submission, all others to the creation of the
/// pipelines.
pub proof fn flush_replies_go_where_they_were_asked_for(replies: FlushReplies, reply: Reply)
    ensures
        ({
            let next = replies.push(reply);
            if replies.submission.len() == 0 {
                next.submission == seq![reply] && next.pipelines == replies.pipelines
            } else {
                next.submission == replies.submission && next.pipelines == replies.pipelines.push(
                    reply,
                )
            }
        }),
        FlushReplies::none().submission.len() == 0,
        FlushReplies::none().pipelines.len() == 0,
{
    if replies.submission.len() == 0 {
        assert(replies.push(reply).submission =~= seq![reply]);
    }
}

// Screenshots.

/// What a screenshot asks for.
pub open spec fn screenshot_asks(request: RequestView) -> Next<
    (Renderer, Option<RebuildView>, Result<ImageView, RenderErrorView>),
> {
    Next::Ask(request)
}

/// A screenshot ends like this.
pub open spec fn screenshot_ends(
    renderer: Renderer,
    rebuild: Option<RebuildView>,
    result: Result<ImageView, RenderErrorView>,
) -> Next<(Renderer, Option<RebuildView>, Result<ImageView, RenderErrorView>)> {
    Next::Done((renderer, rebuild, result))
}

/// A screenshot asks for a buffer with room for every pixel of the window, for a copy of the
/// whole window to its start, for a flush, and for these pixels. A failure of one of the
/// requests ends it with the error of that request, with a renderer that has gone through the
/// flush if it got there.
pub proof fn screenshots_copy_the_whole_window(
    renderer: Renderer,
    buffer: DownloadBuffer,
    error: BackendError,
    flush: FlushReplies,
    pixels: Vec<[u8; 4]>,
)
    ensures
        ({
            let none = ScreenshotReplies::none();
            let failed = seq![Reply::Failed(error)];
            let created = seq![Reply::DownloadBuffer(buffer)];
            let copied = created.push(Reply::Copied);
            let width = renderer.win_color_view.width;
            let height = renderer.win_color_view.height;
            let after_copy = ScreenshotReplies { download: copied, flush, ..none };
            &&& none.download.len() == 0
            &&& create_screenshot_next(renderer, none) matches Next::Ask(
                RequestView::CreateDownloadBuffer { len },
            ) && len == width * height
            &&& create_screenshot_next(renderer, ScreenshotReplies { download: failed, ..none })
                == screenshot_ends(renderer, None, Err(RenderErrorView::BufferCreationError(error)))
            &&& create_screenshot_next(renderer, ScreenshotReplies { download: created, ..none })
                matches Next::Ask(
                RequestView::CopyToBuffer { encoder, view, info, buffer: target, offset },
            ) && encoder == renderer.encoder && view == renderer.win_color_view && target == buffer
                && offset == 0 && info.xoffset == 0 && info.yoffset == 0 && info.zoffset == 0
                && info.width == width && info.height == height && info.depth == 0 && info.mipmap
                == 0
            &&& create_screenshot_next(
                renderer,
                ScreenshotReplies { download: created.push(Reply::Failed(error)), ..none },
            ) == screenshot_ends(renderer, None, Err(RenderErrorView::CopyError(error)))
            &&& match flush_next(renderer, flush) {
                Next::Ask(request) => create_screenshot_next(renderer, after_copy)
                    == screenshot_asks(request),
                Next::Done((flushed, rebuild)) => {
                    &&& create_screenshot_next(renderer, after_copy) matches Next::Ask(
                        RequestView::ReadBuffer { buffer: source, len },
                    ) && source == buffer && len == width * height
                    &&& create_screenshot_next(
                        renderer,
                        ScreenshotReplies { read: failed, ..after_copy },
                    ) == screenshot_ends(
                        flushed,
                        rebuild,
                        Err(RenderErrorView::MappingError(error)),
                    )
                    &&& create_screenshot_next(
                        renderer,
                        ScreenshotReplies { read: seq![Reply::Pixels(pixels)], ..after_copy },
                    ) == screenshot_ends(flushed, rebuild, Ok(picture_of(width, height, pixels@)))
                },
            }
            &&& picture_of(width, height, pixels@).width == width
            &&& picture_of(width, height, pixels@).height == height
            &&& picture_of(width, height, pixels@).format is Rgba8
        }),
{
}

/// A reply to a screenshot goes to the copy, the flush or the reading, whichever waits for one.
pub proof fn screenshot_replies_go_where_they_were_asked_for(
    renderer: Renderer,
    replies: ScreenshotReplies,
    reply: Reply,
)
    ensures
        ({
            let next = replies.push(renderer, reply);
            if download_next(renderer, replies.download) is Ask {
                next == (ScreenshotReplies { download: replies.download.push(reply), ..replies })
            } else if flush_next(renderer, replies.flush) is Ask {
                next == (ScreenshotReplies { flush: replies.flush.push(reply), ..replies })
            } else {
                next == (ScreenshotReplies { read: replies.read.push(reply), ..replies })
            }
        }),
{
}

/// Row `y` of the bytes is row `rows - 1 - y` of the pixels, and nothing but whole rows comes
/// out.
proof fn lemma_reversed_rows(width: nat, rows: nat, pixels: Seq<[u8; 4]>, x: int, y: int)
    requires
        rows * width <= pixels.len(),
        0 <= x < width,
        0 <= y < rows,
    ensures
        bottom_up(width, rows, pixels).len() == rows * width,
        0 <= y * width + x < rows * width,
        bottom_up(width, rows, pixels)[y * width + x] == pixels[(rows - 1 - y) * width + x],
    decreases rows,
{
    crate::screenshot::lemma_bottom_up_len(width, rows, pixels);
    assert(rows * width == (rows - 1) * width + width && 0 <= (rows - 1) * width)
        by (nonlinear_arith)
        requires
            rows > 0,
    ;
    assert(0 <= y * width && y * width + width <= rows * width) by (nonlinear_arith)
        requires
            0 <= y < rows,
    ;
    if y == 0 {
        assert(y * width == 0) by (nonlinear_arith)
            requires
                y == 0,
        ;
    } else {
        assert(y * width == width + (y - 1) * width) by (nonlinear_arith);
        lemma_reversed_rows(width, (rows - 1) as nat, pixels, x, y - 1);
    }
}

/// Rows come out in reversed order: byte `channel` of the pixel in column `x` of row `y` is
/// that of the pixel in the same column of the row as far from the end. What does not fill a
/// row is left out.
pub proof fn rows_come_out_reversed(
    width: nat,
    pixels: Seq<[u8; 4]>,
    x: int,
    y: int,
    channel: int,
)
    requires
        0 <= x < width,
        0 <= y < pixels.len() / width,
        0 <= channel < 4,
    ensures
        ({
            let rows = pixels.len() / width;
            let out = bytes(bottom_up(width, rows, pixels));
            &&& out.len() == 4 * (rows * width)
            &&& out[4 * (y * width + x) + channel] == pixels[(rows - 1 - y) * width + x][channel]
        }),
{
    let rows = pixels.len() / width;
    assert(rows * width <= pixels.len()) by (nonlinear_arith)
        requires
            rows == pixels.len() / width,
            width > 0,
    ;
    lemma_reversed_rows(width, rows, pixels, x, y);
    let out = bottom_up(width, rows, pixels);
    let i = 4 * (y * width + x) + channel;
    assert(bytes(out)[i] == out[i / 4][i % 4]);
}

// Making a renderer.

/// `side` is the longer side of the window.
pub open spec fn is_longer_side(side: u16, setup: Setup) -> bool {
    &&& side >= setup.win_color_view.width
    &&& side >= setup.win_color_view.height
    &&& side == setup.win_color_view.width || side == setup.win_color_view.height
}

/// What the making of a renderer asks for.
pub open spec fn making_asks(request: RequestView) -> Next<
    (Result<Renderer, RenderErrorView>, Option<RenderErrorView>),
> {
    Next::Ask(request)
}

/// The making of a renderer fails, and it is known by then why there is no shadow map, if so.
pub open spec fn making_fails(
    error: RenderErrorView,
    shadow_error: Option<RenderErrorView>,
) -> Next<(Result<Renderer, RenderErrorView>, Option<RenderErrorView>)> {
    Next::Done((Err(error), shadow_error))
}

/// The making of a renderer first asks for the pipelines for its modes, then for the targets
/// for its window and mode. A failure of either ends it.
pub proof fn makings_begin_with_pipelines_and_targets(setup: Setup, replies: SetupReplies)
    ensures
        ({
            let next = new_next(setup, replies);
            let size = Vec2 { x: setup.win_color_view.width, y: setup.win_color_view.height };
            match create_pipelines_next(setup.modes, replies.pipelines) {
                Next::Ask(request) => next == making_asks(request),
                Next::Done(Err(error)) => next == making_fails(error, None),
                Next::Done(Ok(built)) => match create_rt_views_next(
                    size,
                    setup.modes.aa,
                    replies.targets,
                ) {
                    Next::Ask(request) => next == making_asks(request),
                    Next::Done(Err(error)) => next == making_fails(
                        error,
                        match built.shadow {
                            Ok(_) => None,
                            Err(reason) => Some(reason),
                        },
                    ),
                    Next::Done(Ok(_)) => true,
                },
            }
        }),
        is_longer_side(setup.spec_longer_side(), setup),
        setup.window_size().x == setup.win_color_view.width,
        setup.window_size().y == setup.win_color_view.height,
{
}

/// The pipelines and the targets of a renderer that is being made are there.
pub open spec fn has_parts(
    setup: Setup,
    replies: SetupReplies,
    built: BuiltPipelinesView,
    targets: RenderTargets,
) -> bool {
    let size = Vec2 { x: setup.win_color_view.width, y: setup.win_color_view.height };
    &&& create_pipelines_next(setup.modes, replies.pipelines) matches Next::Done(Ok(b)) && b
        == built
    &&& create_rt_views_next(size, setup.modes.aa, replies.targets) matches Next::Done(Ok(t)) && t
        == targets
}

/// Once a renderer that is being made has its pipelines and targets, and only if that of the
/// shadow map is among the pipelines, the views for a shadow map of the longer side of the
/// window are asked for, and then an encoder for it.
pub proof fn makings_go_on_with_the_shadow_map(
    setup: Setup,
    replies: SetupReplies,
    built: BuiltPipelinesView,
    targets: RenderTargets,
    side: u16,
)
    requires
        has_parts(setup, replies, built, targets),
        built.shadow is Ok,
        is_longer_side(side, setup),
    ensures
        match create_shadow_views_next(side, replies.shadow_views) {
            Next::Ask(request) => new_next(setup, replies) == making_asks(request),
            Next::Done(Ok(_)) => replies.shadow_encoder.len() == 0 ==> new_next(setup, replies)
                == making_asks(RequestView::CreateEncoder),
            Next::Done(Err(_)) => replies.rest.len() == 0 ==> new_next(setup, replies)
                == making_asks(RequestView::CreateLinearSampler),
        },
{
}

/// It is settled whether a renderer that is being made has a shadow map: it has one if its
/// pipeline and its views could be created, and is made of these and of an encoder of its own;
/// otherwise there is a reason.
pub open spec fn has_settled(
    setup: Setup,
    replies: SetupReplies,
    side: u16,
    built: BuiltPipelinesView,
    shadow_map: Option<ShadowMapRenderer>,
    shadow_error: Option<RenderErrorView>,
) -> bool {
    match built.shadow {
        Err(error) => shadow_map is None && shadow_error == Some(error),
        Ok(pipeline) => match create_shadow_views_next(side, replies.shadow_views) {
            Next::Ask(_) => false,
            Next::Done(Err(error)) => shadow_map is None && shadow_error == Some(error),
            Next::Done(Ok(views)) => {
                &&& replies.shadow_encoder.len() > 0
                &&& shadow_error is None
                &&& shadow_map matches Some(map)
                &&& map.encoder == replies.shadow_encoder[0]->Encoder_0
                &&& map.depth_stencil_view == views.depth_stencil_view
                &&& map.res == views.res
                &&& map.sampler == views.sampler
                &&& map.pipeline == pipeline
            },
        },
    }
}

/// The making of a renderer ends in three steps: a linear sampler, the noise texture, which is
/// filtered bilinearly and tiles, and an encoder. The renderer reads the noise through the view
/// and the sampler that it was loaded with, and has the linear sampler for post-processing;
/// it has everything else that it was made for or that was created, and nothing else. If the
/// noise cannot be loaded, there is no renderer.
pub proof fn makings_end_with_sampler_noise_and_encoder(
    setup: Setup,
    replies: SetupReplies,
    built: BuiltPipelinesView,
    targets: RenderTargets,
    side: u16,
    shadow_map: Option<ShadowMapRenderer>,
    shadow_error: Option<RenderErrorView>,
    sampler: Sampler,
    noise_srv: ResourceView,
    noise_sampler: Sampler,
    encoder: Encoder,
    error: CombinedError,
)
    requires
        has_parts(setup, replies, built, targets),
        is_longer_side(side, setup),
        has_settled(setup, replies, side, built, shadow_map, shadow_error),
    ensures
        ({
            let one = seq![Reply::Sampler(sampler)];
            let two = one.push(Reply::LoadedTexture { srv: noise_srv, sampler: noise_sampler });
            let three = two.push(Reply::Encoder(encoder));
            let failed = one.push(Reply::TextureFailed(error));
            &&& new_next(setup, SetupReplies { rest: Seq::empty(), ..replies }) == making_asks(
                RequestView::CreateLinearSampler,
            )
            &&& new_next(setup, SetupReplies { rest: one, ..replies }) matches Next::Ask(
                RequestView::LoadTexture { specifier, filter, wrap },
            ) && specifier == "voxygen."@ + "texture."@ + "noise"@ && filter is Bilinear && wrap
                is Tile
            &&& new_next(setup, SetupReplies { rest: failed, ..replies }) == making_fails(
                RenderErrorView::CombinedError(error),
                shadow_error,
            )
            &&& new_next(setup, SetupReplies { rest: two, ..replies }) == making_asks(
                RequestView::CreateEncoder,
            )
            &&& new_next(setup, SetupReplies { rest: three, ..replies }) matches Next::Done(
                (Ok(renderer), reason),
            ) && {
                &&& reason == shadow_error
                &&& renderer.noise_tex.srv == noise_srv
                &&& renderer.noise_tex.sampler == noise_sampler
                &&& renderer.sampler == sampler
                &&& renderer.encoder == encoder
                &&& renderer.win_color_view == setup.win_color_view
                &&& renderer.win_depth_view == setup.win_depth_view
                &&& renderer.targets == targets
                &&& renderer.pipelines == built.scene
                &&& renderer.shadow_map == shadow_map
                &&& renderer.modes == setup.modes
                &&& renderer.max_texture_size == setup.max_texture_size
            }
        }),
{
    reveal_strlit("voxygen.");
    reveal_strlit("texture.");
    reveal_strlit("noise");
    reveal_strlit("voxygen.texture.noise");
    assert("voxygen.texture.noise"@ =~= "voxygen."@ + "texture."@ + "noise"@);
}

/// A renderer that is made reads the noise as it was loaded, for every way in which the making
/// can come to its end.
pub proof fn new_renderers_read_the_loaded_noise(
    setup: Setup,
    replies: SetupReplies,
    renderer: Renderer,
    shadow_error: Option<RenderErrorView>,
)
    requires
        new_next(setup, replies) == Next::<
            (Result<Renderer, RenderErrorView>, Option<RenderErrorView>),
        >::Done((Ok(renderer), shadow_error)),
        replies.rest[0] is Sampler,
        replies.rest[1] is LoadedTexture,
        replies.rest[2] is Encoder,
    ensures
        replies.rest[1] == (Reply::LoadedTexture {
            srv: renderer.noise_tex.srv,
            sampler: renderer.noise_tex.sampler,
        }),
        replies.rest[0] == Reply::Sampler(renderer.sampler),
        replies.rest[2] == Reply::Encoder(renderer.encoder),
{
}

/// A reply to the making of a renderer goes to the part that waits for one.
pub proof fn making_replies_go_where_they_were_asked_for(
    setup: Setup,
    replies: SetupReplies,
    reply: Reply,
    side: u16,
)
    requires
        is_longer_side(side, setup),
        new_next(setup, replies) is Ask,
    ensures
        ({
            let next = replies.push(setup, reply);
            let size = Vec2 { x: setup.win_color_view.width, y: setup.win_color_view.height };
            match create_pipelines_next(setup.modes, replies.pipelines) {
                Next::Done(Ok(built)) => if create_rt_views_next(
                    size,
                    setup.modes.aa,
                    replies.targets,
                ) is Ask {
                    next == (SetupReplies { targets: replies.targets.push(reply), ..replies })
                } else if built.shadow is Ok && create_shadow_views_next(
                    side,
                    replies.shadow_views,
                ) is Ask {
                    next == (SetupReplies {
                        shadow_views: replies.shadow_views.push(reply),
                        ..replies
                    })
                } else if built.shadow is Ok && (create_shadow_views_next(
                    side,
                    replies.shadow_views,
                ) matches Next::Done(Ok(_))) && replies.shadow_encoder.len() == 0 {
                    next == (SetupReplies {
                        shadow_encoder: replies.shadow_encoder.push(reply),
                        ..replies
                    })
                } else {
                    next == (SetupReplies { rest: replies.rest.push(reply), ..replies })
                },
                _ => next == (SetupReplies { pipelines: replies.pipelines.push(reply), ..replies }),
            }
        }),
        SetupReplies::none().pipelines.len() == 0,
        SetupReplies::none().targets.len() == 0,
        SetupReplies::none().shadow_views.len() == 0,
        SetupReplies::none().shadow_encoder.len() == 0,
        SetupReplies::none().rest.len() == 0,
{
}

// Creating buffers.

/// What the creation of a buffer asks for.
pub open spec fn upload_asks<T>(request: UploadRequestView<T>) -> Next<
    Result<Buffer, RenderErrorView>,
    UploadRequestView<T>,
> {
    Next::Ask(request)
}

/// The creation of a buffer ends.
pub open spec fn upload_ends<T>(result: Result<Buffer, RenderErrorView>) -> Next<
    Result<Buffer, RenderErrorView>,
    UploadRequestView<T>,
> {
    Next::Done(result)
}

/// A buffer is created for as many values as are given, all of them are written to it, and it
/// is handed out; a failure of either step ends the creation with the error of that step.
pub proof fn buffers_take_two_steps<T>(
    usage: BufferUsage,
    values: Seq<T>,
    encoder: Encoder,
    buffer: Buffer,
    error: BackendError,
)
    ensures
        ({
            let created = seq![UploadReply::Created(buffer)];
            let failed = UploadReply::Failed(error);
            &&& upload_next(usage, values, encoder, Seq::empty()) == upload_asks::<T>(
                UploadRequestView::Create { usage, len: values.len() },
            )
            &&& upload_next(usage, values, encoder, seq![failed]) == upload_ends::<T>(
                Err(RenderErrorView::BufferCreationError(error)),
            )
            &&& upload_next(usage, values, encoder, created) == upload_asks(
                UploadRequestView::Write { encoder, buffer, values },
            )
            &&& upload_next(usage, values, encoder, created.push(failed)) == upload_ends::<T>(
                Err(RenderErrorView::UpdateError(error)),
            )
            &&& upload_next(usage, values, encoder, created.push(UploadReply::Written))
                == upload_ends::<T>(Ok(buffer))
        }),
{
}

} // verus!
