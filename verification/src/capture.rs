//! Screenshots: the window's pixels are copied to a buffer and read back.
use crate::error::{RenderError, RenderErrorView};
use crate::exchange::{ImageInfo, Next, Reply, Request, RequestView, Step};
use crate::operations::{
    flush_next, flush_step, rebuild_view, FlushReplies, FlushTask, Rebuild, RebuildView,
};
use crate::renderer::Renderer;
use crate::resources::DownloadBuffer;
use crate::screenshot::{image_view, picture, picture_of, ImageView};
use image::DynamicImage;
use vstd::pervasive::unreached;
use vstd::prelude::*;

verus! {

impl Renderer {
    /// The number of pixels of the window.
    pub open spec fn pixel_count(self) -> nat {
        self.win_color_view.width as nat * self.win_color_view.height as nat
    }

    /// The whole window, as a part of its texture.
    pub open spec fn window_image(self) -> ImageInfo {
        ImageInfo {
            xoffset: 0,
            yoffset: 0,
            zoffset: 0,
            width: self.win_color_view.width,
            height: self.win_color_view.height,
            depth: 0,
            mipmap: 0,
        }
    }
}

/// How the copy of the window's pixels to a buffer goes on after the given replies.
pub open spec fn download_next(renderer: Renderer, replies: Seq<Reply>) -> Next<
    Result<DownloadBuffer, RenderErrorView>,
> {
    if replies.len() == 0 {
        Next::Ask(RequestView::CreateDownloadBuffer { len: renderer.pixel_count() })
    } else if replies.len() == 1 {
        match replies[0] {
            Reply::Failed(error) => Next::Done(Err(RenderErrorView::BufferCreationError(error))),
            reply => Next::Ask(
                RequestView::CopyToBuffer {
                    encoder: renderer.encoder,
                    view: renderer.win_color_view,
                    info: renderer.window_image(),
                    buffer: reply->DownloadBuffer_0,
                    offset: 0,
                },
            ),
        }
    } else {
        match replies[1] {
            Reply::Failed(error) => Next::Done(Err(RenderErrorView::CopyError(error))),
            _ => Next::Done(Ok(replies[0]->DownloadBuffer_0)),
        }
    }
}

/// How the reading of the buffer goes on after the given replies.
pub open spec fn read_next(
    renderer: Renderer,
    buffer: DownloadBuffer,
    replies: Seq<Reply>,
) -> Next<Result<ImageView, RenderErrorView>> {
    if replies.len() == 0 {
        Next::Ask(RequestView::ReadBuffer { buffer, len: renderer.pixel_count() })
    } else {
        match replies[0] {
            Reply::Failed(error) => Next::Done(Err(RenderErrorView::MappingError(error))),
            reply => Next::Done(
                Ok(
                    picture_of(
                        renderer.win_color_view.width,
                        renderer.win_color_view.height,
                        reply->Pixels_0@,
                    ),
                ),
            ),
        }
    }
}

/// The replies to a screenshot: those to the copy, those to the flush, and that to the
/// reading.
pub struct ScreenshotReplies {
    pub download: Seq<Reply>,
    pub flush: FlushReplies,
    pub read: Seq<Reply>,
}

impl ScreenshotReplies {
    /// No replies yet.
    pub open spec fn none() -> ScreenshotReplies {
        ScreenshotReplies {
            download: Seq::empty(),
            flush: FlushReplies::none(),
            read: Seq::empty(),
        }
    }

    /// One more reply, to what the screenshot waits for.
    pub open spec fn push(self, renderer: Renderer, reply: Reply) -> ScreenshotReplies {
        if download_next(renderer, self.download) is Ask {
            ScreenshotReplies { download: self.download.push(reply), ..self }
        } else if flush_next(renderer, self.flush) is Ask {
            ScreenshotReplies { flush: self.flush.push(reply), ..self }
        } else {
            ScreenshotReplies { read: self.read.push(reply), ..self }
        }
    }
}

/// How a screenshot goes on after the given replies: the window's pixels are copied to a
/// buffer, everything is flushed, and the buffer is read.
pub open spec fn create_screenshot_next(renderer: Renderer, replies: ScreenshotReplies) -> Next<
    (Renderer, Option<RebuildView>, Result<ImageView, RenderErrorView>),
> {
    match download_next(renderer, replies.download) {
        Next::Ask(request) => Next::Ask(request),
        Next::Done(Err(error)) => Next::Done((renderer, None, Err(error))),
        Next::Done(Ok(buffer)) => match flush_next(renderer, replies.flush) {
            Next::Ask(request) => Next::Ask(request),
            Next::Done((flushed, rebuild)) => match read_next(renderer, buffer, replies.read) {
                Next::Ask(request) => Next::Ask(request),
                Next::Done(result) => Next::Done((flushed, rebuild, result)),
            },
        },
    }
}

/// What a screenshot waits for.
enum ScreenshotStage {
    Buffer(Renderer),
    Copy(Renderer, DownloadBuffer),
    Flush(FlushTask, DownloadBuffer),
    Read(Renderer, Option<Rebuild>, DownloadBuffer),
}

/// A screenshot, waiting for a reply.
pub struct ScreenshotTask {
    width: u16,
    height: u16,
    stage: ScreenshotStage,
    renderer: Ghost<Renderer>,
    replies: Ghost<ScreenshotReplies>,
}

impl ScreenshotTask {
    /// The renderer, as it was before the first reply.
    pub closed spec fn renderer(self) -> Renderer {
        self.renderer@
    }

    /// The replies that the task was given.
    pub closed spec fn replies(self) -> ScreenshotReplies {
        self.replies@
    }

    /// The request that the task waits for an answer to.
    pub closed spec fn pending(self) -> RequestView {
        match self.stage {
            ScreenshotStage::Buffer(renderer) => RequestView::CreateDownloadBuffer {
                len: renderer.pixel_count(),
            },
            ScreenshotStage::Copy(renderer, buffer) => RequestView::CopyToBuffer {
                encoder: renderer.encoder,
                view: renderer.win_color_view,
                info: renderer.window_image(),
                buffer,
                offset: 0,
            },
            ScreenshotStage::Flush(task, _) => task.pending(),
            ScreenshotStage::Read(_, _, buffer) => RequestView::ReadBuffer {
                buffer,
                len: self.renderer@.pixel_count(),
            },
        }
    }

    #[verifier::type_invariant]
    spec fn inv(self) -> bool {
        let renderer = self.renderer@;
        let replies = self.replies@;
        &&& self.width == renderer.win_color_view.width
        &&& self.height == renderer.win_color_view.height
        &&& replies.read.len() == 0
        &&& match self.stage {
            ScreenshotStage::Buffer(current) => {
                &&& current == renderer
                &&& replies == ScreenshotReplies::none()
            },
            ScreenshotStage::Copy(current, buffer) => {
                &&& current == renderer
                &&& replies.download.len() == 1
                &&& replies.download[0] == Reply::DownloadBuffer(buffer)
                &&& replies.flush == FlushReplies::none()
            },
            ScreenshotStage::Flush(task, buffer) => {
                &&& self.width > 0
                &&& download_next(renderer, replies.download) == Next::<
                    Result<DownloadBuffer, RenderErrorView>,
                >::Done(Ok(buffer))
                &&& flush_next(renderer, replies.flush) is Ask
                &&& task.renderer() == renderer
                &&& task.replies() == replies.flush
            },
            ScreenshotStage::Read(flushed, rebuild, buffer) => {
                &&& self.width > 0
                &&& download_next(renderer, replies.download) == Next::<
                    Result<DownloadBuffer, RenderErrorView>,
                >::Done(Ok(buffer))
                &&& flush_next(renderer, replies.flush) == Next::<
                    (Renderer, Option<RebuildView>),
                >::Done((flushed, rebuild_view(rebuild)))
            },
        }
    }
}

/// What is known of the result of a screenshot.
pub open spec fn picture_view(result: Result<DynamicImage, RenderError>) -> Result<
    ImageView,
    RenderErrorView,
> {
    match result {
        Ok(image) => Ok(image_view(image)),
        Err(error) => Err(error@),
    }
}

/// `step` is where the screenshot by `renderer` stands after `replies`.
pub open spec fn screenshot_step(
    renderer: Renderer,
    replies: ScreenshotReplies,
    step: Step<ScreenshotTask, (Renderer, Option<Rebuild>, Result<DynamicImage, RenderError>)>,
) -> bool {
    match create_screenshot_next(renderer, replies) {
        Next::Ask(next) => step matches Step::Ask { request, task } && request@ == next
            && task.pending() == next && task.renderer() == renderer && task.replies() == replies,
        Next::Done((after, next_rebuild, next)) => step matches Step::Done(
            (result_renderer, rebuild, result),
        ) && result_renderer == after && rebuild_view(rebuild) == next_rebuild && picture_view(
            result,
        ) == next,
    }
}

/// Takes over what the flush has come to.
fn screenshot_after_flush(
    width: u16,
    height: u16,
    step: Step<FlushTask, (Renderer, Option<Rebuild>)>,
    buffer: DownloadBuffer,
    renderer: Ghost<Renderer>,
    replies: Ghost<ScreenshotReplies>,
) -> (result: Step<ScreenshotTask, (Renderer, Option<Rebuild>, Result<DynamicImage, RenderError>)>)
    requires
        width == renderer@.win_color_view.width > 0,
        height == renderer@.win_color_view.height,
        download_next(renderer@, replies@.download) == Next::<
            Result<DownloadBuffer, RenderErrorView>,
        >::Done(Ok(buffer)),
        flush_step(renderer@, replies@.flush, step),
        replies@.read.len() == 0,
    ensures
        screenshot_step(renderer@, replies@, result),
{
    match step {
        Step::Ask { request, task } => Step::Ask {
            request,
            task: ScreenshotTask {
                width,
                height,
                stage: ScreenshotStage::Flush(task, buffer),
                renderer,
                replies,
            },
        },
        Step::Done((flushed, rebuild)) => Step::Ask {
            request: Request::ReadBuffer { buffer, len: pixels_of(width, height) },
            task: ScreenshotTask {
                width,
                height,
                stage: ScreenshotStage::Read(flushed, rebuild, buffer),
                renderer,
                replies,
            },
        },
    }
}

/// The number of pixels of a window of this size.
fn pixels_of(width: u16, height: u16) -> (count: usize)
    ensures
        count == width as nat * height as nat,
{
    assert(width as nat * height as nat <= 0xffff * 0xffff) by (nonlinear_arith)
        requires
            width <= 0xffff,
            height <= 0xffff,
    ;
    width as usize * height as usize
}

impl ScreenshotTask {
    /// Goes on with the answer to the pending request.
    pub fn resume(self, reply: Reply) -> (step: Step<
        ScreenshotTask,
        (Renderer, Option<Rebuild>, Result<DynamicImage, RenderError>),
    >)
        requires
            reply.answers(self.pending()),
        ensures
            screenshot_step(
                self.renderer(),
                self.replies().push(self.renderer(), reply),
                step,
            ),
    {
        proof {
            use_type_invariant(&self);
        }
        let ghost next = self.replies().push(self.renderer(), reply);
        let ScreenshotTask { width, height, stage, renderer, .. } = self;
        match (stage, reply) {
            (ScreenshotStage::Buffer(current), Reply::DownloadBuffer(buffer)) => {
                let request = Request::CopyToBuffer {
                    encoder: current.encoder,
                    view: current.win_color_view,
                    info: ImageInfo {
                        xoffset: 0,
                        yoffset: 0,
                        zoffset: 0,
                        width,
                        height,
                        depth: 0,
                        mipmap: 0,
                    },
                    buffer,
                    offset: 0,
                };
                let task = ScreenshotTask {
                    width,
                    height,
                    stage: ScreenshotStage::Copy(current, buffer),
                    renderer,
                    replies: Ghost(next),
                };
                Step::Ask { request, task }
            },
            (ScreenshotStage::Buffer(current), Reply::Failed(error)) => Step::Done(
                (current, None, Err(RenderError::BufferCreationError(error))),
            ),
            (ScreenshotStage::Copy(current, buffer), Reply::Copied) => screenshot_after_flush(
                width,
                height,
                current.flush(),
                buffer,
                renderer,
                Ghost(next),
            ),
            (ScreenshotStage::Copy(current, _), Reply::Failed(error)) => Step::Done(
                (current, None, Err(RenderError::CopyError(error))),
            ),
            (ScreenshotStage::Flush(task, buffer), reply) => screenshot_after_flush(
                width,
                height,
                task.resume(reply),
                buffer,
                renderer,
                Ghost(next),
            ),
            (ScreenshotStage::Read(flushed, rebuild, _), Reply::Pixels(pixels)) => Step::Done(
                (flushed, rebuild, Ok(picture(width, height, &pixels))),
            ),
            (ScreenshotStage::Read(flushed, rebuild, _), Reply::Failed(error)) => Step::Done(
                (flushed, rebuild, Err(RenderError::MappingError(error))),
            ),
            _ => unreached(),
        }
    }
}

impl Renderer {
    /// Takes a picture of the window. A window without an area has none: the copy fails.
    pub fn create_screenshot(self) -> (step: Step<
        ScreenshotTask,
        (Renderer, Option<Rebuild>, Result<DynamicImage, RenderError>),
    >)
        ensures
            screenshot_step(self, ScreenshotReplies::none(), step),
    {
        let size = self.get_resolution();
        let ghost renderer = self;
        let task = ScreenshotTask {
            width: size.x,
            height: size.y,
            stage: ScreenshotStage::Buffer(self),
            renderer: Ghost(renderer),
            replies: Ghost(ScreenshotReplies::none()),
        };
        Step::Ask {
            request: Request::CreateDownloadBuffer { len: pixels_of(size.x, size.y) },
            task,
        }
    }
}

} // verus!
