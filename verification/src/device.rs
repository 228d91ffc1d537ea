//! A model of a device, and what the commands of a renderer do to it.
use crate::capture::{create_screenshot_next, ScreenshotReplies};
use crate::draw::{Command, Draw};
use crate::error::RenderErrorView;
use crate::exchange::{ImageInfo, Next, Reply, RequestView};
use crate::operations::{flush_next, FlushReplies, RebuildView};
use crate::pipelines::{postprocess, Globals};
use crate::renderer::Renderer;
use crate::resources::{
    Buffer, Consts, DepthStencilView, DownloadBuffer, Encoder, Model, WinColorView,
};
use crate::screenshot::ImageView;
use vstd::prelude::*;

verus! {

/// Something that a device does.
pub enum Work {
    Draw(Draw),
    ClearDepth { view: DepthStencilView, depth: u8 },
    ClearStencil { view: DepthStencilView, stencil: u8 },
    /// Writes values to a buffer.
    Write { buffer: Buffer },
    /// Copies a part of the texture behind a view to a buffer.
    Copy { view: WinColorView, info: ImageInfo, buffer: DownloadBuffer, offset: nat },
    /// Frees what was discarded.
    Cleanup,
}

/// What every encoder has queued, and what the device has done so far, in order.
pub struct Device {
    pub queues: Map<Encoder, Seq<Work>>,
    pub done: Seq<Work>,
}

impl Device {
    /// What an encoder has queued.
    pub open spec fn queue(self, encoder: Encoder) -> Seq<Work> {
        if self.queues.contains_key(encoder) {
            self.queues[encoder]
        } else {
            Seq::empty()
        }
    }

    /// The device after `encoder` has recorded `work`.
    pub open spec fn record(self, encoder: Encoder, work: Work) -> Device {
        Device { queues: self.queues.insert(encoder, self.queue(encoder).push(work)), ..self }
    }

    /// The device after a command.
    pub open spec fn carry_out(self, command: Command) -> Device {
        match command {
            Command::ClearDepth { encoder, view, depth } => self.record(
                encoder,
                Work::ClearDepth { view, depth },
            ),
            Command::ClearStencil { encoder, view, stencil } => self.record(
                encoder,
                Work::ClearStencil { view, stencil },
            ),
            Command::Flush { encoder } => Device {
                queues: self.queues.insert(encoder, Seq::empty()),
                done: self.done + self.queue(encoder),
            },
            Command::Cleanup => Device { done: self.done.push(Work::Cleanup), ..self },
        }
    }

    /// The device after some commands, in their order.
    pub open spec fn carry_out_all(self, commands: Seq<Command>) -> Device
        decreases commands.len(),
    {
        if commands.len() == 0 {
            self
        } else {
            self.carry_out_all(commands.drop_last()).carry_out(commands.last())
        }
    }

    /// The device after a command, if there is one.
    pub open spec fn carry_out_optional(self, command: Option<Command>) -> Device {
        match command {
            Some(command) => self.carry_out(command),
            None => self,
        }
    }
}

/// What is queued for shadows.
pub open spec fn shadow_queue(device: Device, renderer: Renderer) -> Seq<Work> {
    match renderer.shadow_map {
        Some(shadow_map) => device.queue(shadow_map.encoder),
        None => Seq::empty(),
    }
}

/// The shadow map has an encoder of its own.
pub open spec fn has_own_shadow_encoder(renderer: Renderer) -> bool {
    renderer.shadow_map matches Some(shadow_map) ==> shadow_map.encoder != renderer.encoder
}

/// A flush carries out all that is queued for shadows, then all else that is queued, each in
/// the order in which it was queued, and frees what was discarded. After it nothing is queued
/// any more.
pub proof fn flushes_carry_out_all_that_is_queued(device: Device, renderer: Renderer)
    requires
        has_own_shadow_encoder(renderer),
    ensures
        ({
            let after = device.carry_out_all(renderer.flush_commands());
            &&& after.done == device.done + shadow_queue(device, renderer) + device.queue(
                renderer.encoder,
            ) + seq![Work::Cleanup]
            &&& after.queue(renderer.encoder) == Seq::<Work>::empty()
            &&& shadow_queue(after, renderer) == Seq::<Work>::empty()
            &&& forall|other: Encoder|
                other != renderer.encoder && !(renderer.shadow_map matches Some(shadow_map)
                    && shadow_map.encoder == other) ==> #[trigger] after.queue(other)
                    == device.queue(other)
        }),
{
    let commands = renderer.flush_commands();
    let main = Command::Flush { encoder: renderer.encoder };
    reveal_with_fuel(Device::carry_out_all, 4);
    assert(commands.drop_last().last() == main);
    match renderer.shadow_map {
        Some(shadow_map) => {
            let first = Command::Flush { encoder: shadow_map.encoder };
            assert(commands.drop_last().drop_last() =~= seq![first]);
            assert(seq![first].drop_last() =~= Seq::<Command>::empty());
        },
        None => {
            assert(commands.drop_last().drop_last() =~= Seq::<Command>::empty());
        },
    }
    assert(device.carry_out_all(commands).done =~= device.done + shadow_queue(device, renderer)
        + device.queue(renderer.encoder) + seq![Work::Cleanup]);
}

/// What is queued for shadows is carried out once: after it was flushed by itself, a flush of
/// the frame carries out the rest.
pub proof fn shadows_are_carried_out_once(device: Device, renderer: Renderer)
    requires
        has_own_shadow_encoder(renderer),
    ensures
        ({
            let early = device.carry_out_optional(renderer.shadow_flush());
            let after = early.carry_out_all(renderer.flush_commands());
            &&& early.done == device.done + shadow_queue(device, renderer)
            &&& shadow_queue(early, renderer) == Seq::<Work>::empty()
            &&& early.queue(renderer.encoder) == device.queue(renderer.encoder)
            &&& after.done == device.done + shadow_queue(device, renderer) + device.queue(
                renderer.encoder,
            ) + seq![Work::Cleanup]
        }),
{
    let early = device.carry_out_optional(renderer.shadow_flush());
    flushes_carry_out_all_that_is_queued(early, renderer);
    assert(early.done =~= device.done + shadow_queue(device, renderer));
    assert(early.done + shadow_queue(early, renderer) =~= early.done);
}

/// A draw call for post-processing is queued once, on the encoder of the renderer, behind all
/// that is queued there; no other queue changes.
pub proof fn post_processing_is_queued_once(
    device: Device,
    renderer: Renderer,
    model: &Model<postprocess::PostProcessPipeline>,
    globals: &Consts<Globals>,
    locals: &Consts<postprocess::Locals>,
)
    ensures
        ({
            let draw = renderer.post_process_draw(model, globals, locals);
            let after = device.record(draw.encoder, Work::Draw(draw));
            &&& after.queue(renderer.encoder) == device.queue(renderer.encoder).push(
                Work::Draw(draw),
            )
            &&& after.done == device.done
            &&& forall|other: Encoder|
                other != renderer.encoder ==> #[trigger] after.queue(other) == device.queue(other)
        }),
{
}

/// A screenshot shows all that was queued before it. Its copy of the whole window is queued
/// behind all that the renderer has queued; what is asked for next carries all of it out, with
/// the copy last; only after that the buffer is read.
pub proof fn screenshots_show_what_was_queued(
    device: Device,
    renderer: Renderer,
    buffer: DownloadBuffer,
    flush: FlushReplies,
)
    requires
        has_own_shadow_encoder(renderer),
        flush_next(renderer, flush) is Done,
    ensures
        ({
            let none = ScreenshotReplies::none();
            let created = ScreenshotReplies {
                download: seq![Reply::DownloadBuffer(buffer)],
                ..none
            };
            let copied = ScreenshotReplies {
                download: seq![Reply::DownloadBuffer(buffer), Reply::Copied],
                ..none
            };
            let flushed = ScreenshotReplies { flush, ..copied };
            let copy = Work::Copy {
                view: renderer.win_color_view,
                info: renderer.window_image(),
                buffer,
                offset: 0,
            };
            let after = device.record(renderer.encoder, copy).carry_out_all(
                renderer.flush_commands(),
            );
            &&& create_screenshot_next(renderer, created) == asks(
                RequestView::CopyToBuffer {
                    encoder: renderer.encoder,
                    view: renderer.win_color_view,
                    info: renderer.window_image(),
                    buffer,
                    offset: 0,
                },
            )
            &&& create_screenshot_next(renderer, copied) == asks(
                RequestView::Submit { commands: renderer.flush_commands() },
            )
            &&& after.done == device.done + shadow_queue(device, renderer) + device.queue(
                renderer.encoder,
            ) + seq![copy, Work::Cleanup]
            &&& create_screenshot_next(renderer, flushed) == asks(
                RequestView::ReadBuffer { buffer, len: renderer.pixel_count() },
            )
        }),
{
    let copy = Work::Copy {
        view: renderer.win_color_view,
        info: renderer.window_image(),
        buffer,
        offset: 0,
    };
    let recorded = device.record(renderer.encoder, copy);
    flushes_carry_out_all_that_is_queued(recorded, renderer);
    assert(recorded.carry_out_all(renderer.flush_commands()).done =~= device.done + shadow_queue(
        device,
        renderer,
    ) + device.queue(renderer.encoder) + seq![copy, Work::Cleanup]);
}

/// A screenshot asks for `request`.
pub open spec fn asks(request: RequestView) -> Next<
    (Renderer, Option<RebuildView>, Result<ImageView, RenderErrorView>),
> {
    Next::Ask(request)
}

} // verus!
