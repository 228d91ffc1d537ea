//! What is known of requests, replies, errors and steps.
use crate::capture::{create_screenshot_next, picture_view, screenshot_step};
use crate::capture::{ScreenshotReplies, ScreenshotTask};
use crate::create_pipelines::{built_view, create_pipelines_next, pipelines_step};
use crate::create_pipelines::{BuiltPipelines, BuiltPipelinesView, PipelinesTask};
use crate::error::{error_view, result_view, text_of};
use crate::error::{IncludeError, IncludeErrorView, RenderError, RenderErrorView};
use crate::exchange::{files_view, Next, Reply, Request, RequestView, Step};
use crate::expansion::expanded_view;
use crate::geometry::Vec2;
use crate::modes::{AaMode, Modes};
use crate::operations::{flush_next, flush_step, FlushReplies, FlushTask};
use crate::operations::{mode_step, mode_view, set_modes_next, ModeReplies, ModeTask};
use crate::operations::{on_resize_next, resize_step, ResizeTask};
use crate::operations::{rebuild_view, recreate_next, recreate_step};
use crate::operations::{Rebuild, RebuildView, RecreateTask};
use crate::renderer::Renderer;
use crate::resources::{Buffer, Encoder};
use crate::screenshot::{image_format, image_samples, image_size, image_view};
use crate::setup::{new_next, setup_step, Setup, SetupReplies, SetupTask};
use crate::targets::{create_rt_views_next, create_shadow_views_next};
use crate::targets::{shadow_views_step, targets_step};
use crate::targets::{RenderTargets, ShadowViews, ShadowViewsTask, TargetsTask};
use crate::uploads::{consts_step, instances_step, upload_next, BufferUsage};
use crate::uploads::{ConstsStep, InstancesStep, UploadReply, UploadRequest, UploadRequestView};
use image::DynamicImage;
use vstd::prelude::*;

verus! {

// Contents.

/// The contents of a request are what it holds, each part in its own place.
pub proof fn requests_are_seen_as_they_are(request: Request)
    ensures
        match (request, request@) {
            (
                Request::LoadShader { specifier },
                RequestView::LoadShader { specifier: seen },
            ) => seen == specifier@,
            (Request::BuildContext { files }, RequestView::BuildContext { files: seen }) => {
                &&& seen.len() == files@.len()
                &&& forall|i: int|
                    0 <= i < seen.len() ==> #[trigger] seen[i].0 == files@[i].0@ && seen[i].1
                        == files@[i].1@
            },
            (
                Request::LinkProgram { vertex, fragment },
                RequestView::LinkProgram { vertex: seen_vertex, fragment: seen_fragment },
            ) => seen_vertex == vertex@ && seen_fragment == fragment@,
            (
                Request::LinkShaderSet { vertex, geometry, fragment },
                RequestView::LinkShaderSet {
                    vertex: seen_vertex,
                    geometry: seen_geometry,
                    fragment: seen_fragment,
                },
            ) => seen_vertex == vertex@ && seen_geometry == geometry@ && seen_fragment == fragment@,
            (Request::CreatePipeline { info }, RequestView::CreatePipeline { info: seen }) => seen
                == info,
            (Request::CreateTexture { info }, RequestView::CreateTexture { info: seen }) => seen
                == info,
            (
                Request::ViewAsShaderResource { texture, min_level, max_level, swizzle },
                RequestView::ViewAsShaderResource {
                    texture: seen_texture,
                    min_level: seen_min,
                    max_level: seen_max,
                    swizzle: seen_swizzle,
                },
            ) => seen_texture == texture && seen_min == min_level && seen_max == max_level
                && seen_swizzle == swizzle,
            (
                Request::ViewAsRenderTarget { texture, level, layer },
                RequestView::ViewAsRenderTarget {
                    texture: seen_texture,
                    level: seen_level,
                    layer: seen_layer,
                },
            ) => seen_texture == texture && seen_level == level && seen_layer == layer,
            (
                Request::ViewAsDepthStencil { texture },
                RequestView::ViewAsDepthStencil { texture: seen },
            ) => seen == texture,
            (Request::CreateSampler { info }, RequestView::CreateSampler { info: seen }) => seen
                == info,
            (Request::CreateLinearSampler, RequestView::CreateLinearSampler) => true,
            (Request::CreateEncoder, RequestView::CreateEncoder) => true,
            (
                Request::LoadTexture { specifier, filter, wrap },
                RequestView::LoadTexture {
                    specifier: seen_specifier,
                    filter: seen_filter,
                    wrap: seen_wrap,
                },
            ) => seen_specifier == specifier@ && seen_filter == filter && seen_wrap == wrap,
            (Request::Submit { commands }, RequestView::Submit { commands: seen }) => seen
                == commands@,
            (
                Request::CreateDownloadBuffer { len },
                RequestView::CreateDownloadBuffer { len: seen },
            ) => seen == len,
            (
                Request::CopyToBuffer { encoder, view, info, buffer, offset },
                RequestView::CopyToBuffer {
                    encoder: seen_encoder,
                    view: seen_view,
                    info: seen_info,
                    buffer: seen_buffer,
                    offset: seen_offset,
                },
            ) => seen_encoder == encoder && seen_view == view && seen_info == info && seen_buffer
                == buffer && seen_offset == offset,
            (
                Request::ReadBuffer { buffer, len },
                RequestView::ReadBuffer { buffer: seen_buffer, len: seen_len },
            ) => seen_buffer == buffer && seen_len == len,
            _ => false,
        },
{
}

/// The contents of files are their names and texts, in their order.
pub proof fn files_are_seen_as_they_are(files: Seq<(String, String)>, i: int)
    requires
        0 <= i < files.len(),
    ensures
        files_view(files).len() == files.len(),
        files_view(files)[i].0 == files[i].0@,
        files_view(files)[i].1 == files[i].1@,
{
}

/// The contents of an error of an expansion are what it holds, each part in its own place.
pub proof fn expansion_errors_are_seen_as_they_are(error: IncludeError)
    ensures
        match (error, error@) {
            (
                IncludeError::RecursiveInclude {
                    in_file,
                    line_num,
                    problem_include,
                    include_stack,
                },
                IncludeErrorView::RecursiveInclude {
                    in_file: seen_file,
                    line_num: seen_line,
                    problem_include: seen_problem,
                    include_stack: seen_stack,
                },
            ) => {
                &&& seen_file is Some <==> in_file is Some
                &&& in_file matches Some(name) ==> seen_file == Some(name@)
                &&& seen_line == line_num
                &&& seen_problem == problem_include@
                &&& seen_stack.len() == include_stack@.len()
                &&& forall|i: int|
                    0 <= i < seen_stack.len() ==> #[trigger] seen_stack[i] == include_stack@[i]@
            },
            (
                IncludeError::FileNotFound { in_file, line_num, problem_include },
                IncludeErrorView::FileNotFound {
                    in_file: seen_file,
                    line_num: seen_line,
                    problem_include: seen_problem,
                },
            ) => {
                &&& seen_file is Some <==> in_file is Some
                &&& in_file matches Some(name) ==> seen_file == Some(name@)
                &&& seen_line == line_num
                &&& seen_problem == problem_include@
            },
            _ => false,
        },
        text_of(None) is None,
{
}

/// The contents of an error are those of its cause, and the kinds of errors are kept apart.
pub proof fn errors_are_seen_as_they_are(error: RenderError)
    ensures
        match (error, error@) {
            (RenderError::PipelineError(cause), RenderErrorView::PipelineError(seen)) => seen
                == cause,
            (RenderError::CombinedError(cause), RenderErrorView::CombinedError(seen)) => seen
                == cause,
            (
                RenderError::BufferCreationError(cause),
                RenderErrorView::BufferCreationError(seen),
            ) => seen == cause,
            (RenderError::UpdateError(cause), RenderErrorView::UpdateError(seen)) => seen == cause,
            (RenderError::CopyError(cause), RenderErrorView::CopyError(seen)) => seen == cause,
            (RenderError::MappingError(cause), RenderErrorView::MappingError(seen)) => seen
                == cause,
            (RenderError::IncludeError(cause), RenderErrorView::IncludeError(seen)) => seen
                == cause@,
            _ => false,
        },
{
}

/// The contents of a result are those of its value or of its error, and success and failure
/// are kept apart. This holds of the results of every operation.
pub proof fn results_are_seen_as_they_are<T>(
    value: T,
    text: String,
    built: BuiltPipelines,
    rebuild: Rebuild,
    image: DynamicImage,
    error: RenderError,
    cause: IncludeError,
)
    ensures
        result_view(Ok::<T, RenderError>(value)) == Ok::<T, RenderErrorView>(value),
        result_view(Err::<T, RenderError>(error)) == Err::<T, RenderErrorView>(error@),
        error_view(Some(error)) == Some(error@),
        error_view(None) is None,
        expanded_view(Ok(text)) == Ok::<Seq<char>, IncludeErrorView>(text@),
        expanded_view(Err(cause)) == Err::<Seq<char>, IncludeErrorView>(cause@),
        built_view(Ok(built)) == Ok::<BuiltPipelinesView, RenderErrorView>(built@),
        built_view(Err(error)) == Err::<BuiltPipelinesView, RenderErrorView>(error@),
        built@.scene == built.scene,
        match built.shadow {
            Ok(pipeline) => built@.shadow matches Ok(seen) && seen == pipeline,
            Err(reason) => built@.shadow matches Err(seen) && seen == reason@,
        },
        match (rebuild, rebuild@) {
            (Rebuild::Complete, RebuildView::Complete) => true,
            (Rebuild::WithoutShadowMap(reason), RebuildView::WithoutShadowMap(seen)) => seen
                == reason@,
            (Rebuild::Failed(reason), RebuildView::Failed(seen)) => seen == reason@,
            _ => false,
        },
        rebuild_view(Some(rebuild)) == Some(rebuild@),
        rebuild_view(None) is None,
        mode_view(Ok(rebuild)) == Ok::<RebuildView, RenderErrorView>(rebuild@),
        mode_view(Err(error)) == Err::<RebuildView, RenderErrorView>(error@),
        picture_view(Ok(image)) matches Ok(seen) && seen == image_view(image),
        picture_view(Err(error)) matches Err(seen) && seen == error@,
        image_view(image).format == image_format(image),
        image_view(image).width == image_size(image).0,
        image_view(image).height == image_size(image).1,
        image_view(image).samples == image_samples(image),
{
}

/// The contents of a request for a buffer are what it holds, each part in its own place.
pub proof fn uploads_are_seen_as_they_are<T>(request: UploadRequest<T>)
    ensures
        match (request, request@) {
            (
                UploadRequest::Create { usage, len },
                UploadRequestView::Create { usage: seen_usage, len: seen_len },
            ) => seen_usage == usage && seen_len == len,
            (
                UploadRequest::Write { encoder, buffer, values },
                UploadRequestView::Write {
                    encoder: seen_encoder,
                    buffer: seen_buffer,
                    values: seen_values,
                },
            ) => seen_encoder == encoder && seen_buffer == buffer && seen_values == values@,
            _ => false,
        },
{
}

// Replies.

/// Each reply answers the requests for what it brings, and no others. A failure answers every
/// request but those for the text of a shader, a context, a sampler, an encoder, an image and
/// a submission; an image has a failure of its own.
pub proof fn replies_answer_what_they_bring(reply: Reply, request: RequestView)
    ensures
        reply.answers(request) <==> (match reply {
            Reply::Shader(_) => request is LoadShader,
            Reply::Context(_) => request is BuildContext,
            Reply::Program(_) => request is LinkProgram,
            Reply::ShaderSet(_) => request is LinkShaderSet,
            Reply::Pipeline(_) => request is CreatePipeline,
            Reply::Texture(texture) => request matches RequestView::CreateTexture { info }
                && texture.kind == info.kind,
            Reply::ResourceView(_) => request is ViewAsShaderResource,
            Reply::RenderTargetView(view) => request matches RequestView::ViewAsRenderTarget {
                texture,
                level,
                ..
            } && (level == 0 ==> view.width == texture.kind.size().x && view.height
                == texture.kind.size().y),
            Reply::DepthStencilView(view) => request matches RequestView::ViewAsDepthStencil {
                texture,
            } && view.width == texture.kind.size().x && view.height == texture.kind.size().y,
            Reply::Sampler(_) => request is CreateSampler || request is CreateLinearSampler,
            Reply::Encoder(_) => request is CreateEncoder,
            Reply::LoadedTexture { .. } => request is LoadTexture,
            Reply::TextureFailed(_) => request is LoadTexture,
            Reply::Submitted { .. } => request is Submit,
            Reply::DownloadBuffer(_) => request is CreateDownloadBuffer,
            Reply::Copied => request matches RequestView::CopyToBuffer { info, .. } && info.width
                > 0 && info.height > 0,
            Reply::Pixels(pixels) => request matches RequestView::ReadBuffer { len, .. }
                && pixels@.len() == len,
            Reply::Failed(_) => !(request is LoadShader || request is BuildContext || request
                is CreateSampler || request is CreateLinearSampler || request is CreateEncoder
                || request is LoadTexture || request is Submit),
        }),
{
}

/// A buffer for constants can always be created; all else can fail.
pub proof fn upload_replies_answer_what_they_bring<T>(
    reply: UploadReply,
    usage: BufferUsage,
    len: nat,
    encoder: Encoder,
    buffer: Buffer,
    values: Seq<T>,
)
    ensures
        ({
            let create = UploadRequestView::<T>::Create { usage, len };
            let write = UploadRequestView::Write { encoder, buffer, values };
            match reply {
                UploadReply::Created(_) => reply.answers(create) && !reply.answers(write),
                UploadReply::Written => reply.answers(write) && !reply.answers(create),
                UploadReply::Failed(_) => reply.answers(write) && (reply.answers(create)
                    <==> usage is Instances),
            }
        }),
{
}

// Steps.

/// A step of the creation of pipelines asks for what is to be asked for next, with a task that
/// knows all that was answered, or hands out what the creation came to.
pub proof fn steps_of_pipelines_go_on(
    modes: Modes,
    replies: Seq<Reply>,
    step: Step<PipelinesTask, Result<BuiltPipelines, RenderError>>,
)
    requires
        pipelines_step(modes, replies, step),
    ensures
        match step {
            Step::Ask { request, task } => {
                &&& create_pipelines_next(modes, replies) matches Next::Ask(next) && next
                    == request@
                &&& task.pending() == request@
                &&& task.modes() == modes
                &&& task.replies() == replies
            },
            Step::Done(Ok(built)) => create_pipelines_next(modes, replies) matches Next::Done(
                Ok(next),
            ) && next == built@,
            Step::Done(Err(error)) => create_pipelines_next(modes, replies) matches Next::Done(
                Err(next),
            ) && next == error@,
        },
{
}

/// A step of the creation of targets asks for what is to be asked for next, with a task that
/// knows all that was answered, or hands out what the creation came to.
pub proof fn steps_of_targets_go_on(
    size: Vec2,
    aa: AaMode,
    replies: Seq<Reply>,
    step: Step<TargetsTask, Result<RenderTargets, RenderError>>,
)
    requires
        targets_step(size, aa, replies, step),
    ensures
        match step {
            Step::Ask { request, task } => {
                &&& create_rt_views_next(size, aa, replies) matches Next::Ask(next) && next
                    == request@
                &&& task.pending() == request@
                &&& task.size() == size
                &&& task.aa() == aa
                &&& task.replies() == replies
            },
            Step::Done(Ok(targets)) => create_rt_views_next(size, aa, replies) matches Next::Done(
                Ok(next),
            ) && next == targets,
            Step::Done(Err(error)) => create_rt_views_next(size, aa, replies) matches Next::Done(
                Err(next),
            ) && next == error@,
        },
{
}

/// A step of the creation of a shadow map asks for what is to be asked for next, with a task
/// that knows all that was answered, or hands out what the creation came to.
pub proof fn steps_of_shadow_maps_go_on(
    size: u16,
    replies: Seq<Reply>,
    step: Step<ShadowViewsTask, Result<ShadowViews, RenderError>>,
)
    requires
        shadow_views_step(size, replies, step),
    ensures
        match step {
            Step::Ask { request, task } => {
                &&& create_shadow_views_next(size, replies) matches Next::Ask(next) && next
                    == request@
                &&& task.pending() == request@
                &&& task.size() == size
                &&& task.replies() == replies
            },
            Step::Done(Ok(views)) => create_shadow_views_next(size, replies) matches Next::Done(
                Ok(next),
            ) && next == views,
            Step::Done(Err(error)) => create_shadow_views_next(size, replies) matches Next::Done(
                Err(next),
            ) && next == error@,
        },
{
}

/// A step of a resize asks for what is to be asked for next, with a task that knows all that
/// was answered, or hands out what the resize came to.
pub proof fn steps_of_resizes_go_on(
    renderer: Renderer,
    replies: Seq<Reply>,
    step: Step<ResizeTask, (Renderer, Result<(), RenderError>)>,
)
    requires
        resize_step(renderer, replies, step),
    ensures
        match step {
            Step::Ask { request, task } => {
                &&& on_resize_next(renderer, replies) matches Next::Ask(next) && next == request@
                &&& task.pending() == request@
                &&& task.renderer() == renderer
                &&& task.replies() == replies
            },
            Step::Done((after, Ok(_))) => on_resize_next(renderer, replies) matches Next::Done(
                (next_after, Ok(_)),
            ) && next_after == after,
            Step::Done((after, Err(error))) => on_resize_next(renderer, replies) matches Next::Done(
                (next_after, Err(next)),
            ) && next_after == after && next == error@,
        },
{
}

/// A step of a recreation of pipelines asks for what is to be asked for next, with a task that
/// knows all that was answered, or hands out what the recreation came to.
pub proof fn steps_of_recreations_go_on(
    renderer: Renderer,
    replies: Seq<Reply>,
    step: Step<RecreateTask, (Renderer, Rebuild)>,
)
    requires
        recreate_step(renderer, replies, step),
    ensures
        match step {
            Step::Ask { request, task } => {
                &&& recreate_next(renderer, replies) matches Next::Ask(next) && next == request@
                &&& task.pending() == request@
                &&& task.renderer() == renderer
                &&& task.replies() == replies
            },
            Step::Done((after, rebuild)) => recreate_next(renderer, replies) matches Next::Done(
                (next_after, next),
            ) && next_after == after && next == rebuild@,
        },
{
}

/// A step of a change of modes asks for what is to be asked for next, with a task that knows
/// all that was answered, or hands out what the change came to.
pub proof fn steps_of_mode_changes_go_on(
    renderer: Renderer,
    replies: ModeReplies,
    step: Step<ModeTask, (Renderer, Result<Rebuild, RenderError>)>,
)
    requires
        mode_step(renderer, replies, step),
    ensures
        match step {
            Step::Ask { request, task } => {
                &&& set_modes_next(renderer, replies) matches Next::Ask(next) && next == request@
                &&& task.pending() == request@
                &&& task.renderer() == renderer
                &&& task.replies() == replies
            },
            Step::Done((after, Ok(rebuild))) => set_modes_next(renderer, replies) matches Next::Done(
                (next_after, Ok(next)),
            ) && next_after == after && next == rebuild@,
            Step::Done((after, Err(error))) => set_modes_next(renderer, replies) matches Next::Done(
                (next_after, Err(next)),
            ) && next_after == after && next == error@,
        },
{
}

/// A step of a flush asks for what is to be asked for next, with a task that knows all that was
/// answered, or hands out what the flush came to.
pub proof fn steps_of_flushes_go_on(
    renderer: Renderer,
    replies: FlushReplies,
    step: Step<FlushTask, (Renderer, Option<Rebuild>)>,
)
    requires
        flush_step(renderer, replies, step),
    ensures
        match step {
            Step::Ask { request, task } => {
                &&& flush_next(renderer, replies) matches Next::Ask(next) && next == request@
                &&& task.pending() == request@
                &&& task.renderer() == renderer
                &&& task.replies() == replies
            },
            Step::Done((after, Some(rebuild))) => flush_next(renderer, replies) matches Next::Done(
                (next_after, Some(next)),
            ) && next_after == after && next == rebuild@,
            Step::Done((after, None)) => flush_next(renderer, replies) matches Next::Done(
                (next_after, None),
            ) && next_after == after,
        },
{
}

/// A step of a screenshot asks for what is to be asked for next, with a task that knows all
/// that was answered, or hands out what the screenshot came to.
pub proof fn steps_of_screenshots_go_on(
    renderer: Renderer,
    replies: ScreenshotReplies,
    step: Step<ScreenshotTask, (Renderer, Option<Rebuild>, Result<DynamicImage, RenderError>)>,
)
    requires
        screenshot_step(renderer, replies, step),
    ensures
        match step {
            Step::Ask { request, task } => {
                &&& create_screenshot_next(renderer, replies) matches Next::Ask(next) && next
                    == request@
                &&& task.pending() == request@
                &&& task.renderer() == renderer
                &&& task.replies() == replies
            },
            Step::Done((after, rebuild, result)) => {
                &&& create_screenshot_next(renderer, replies) matches Next::Done(
                    (next_after, next_rebuild, next),
                )
                &&& next_after == after
                &&& match rebuild {
                    Some(rebuild) => next_rebuild == Some(rebuild@),
                    None => next_rebuild is None,
                }
                &&& match result {
                    Ok(image) => next matches Ok(picture) && picture == image_view(image),
                    Err(error) => next matches Err(reason) && reason == error@,
                }
            },
        },
{
}

/// A step of the making of a renderer asks for what is to be asked for next, with a task that
/// knows all that was answered, or hands out what the making came to.
pub proof fn steps_of_makings_go_on(
    setup: Setup,
    replies: SetupReplies,
    step: Step<SetupTask, (Result<Renderer, RenderError>, Option<RenderError>)>,
)
    requires
        setup_step(setup, replies, step),
    ensures
        match step {
            Step::Ask { request, task } => {
                &&& new_next(setup, replies) matches Next::Ask(next) && next == request@
                &&& task.pending() == request@
                &&& task.setup() == setup
                &&& task.replies() == replies
            },
            Step::Done((result, shadow_error)) => {
                &&& new_next(setup, replies) matches Next::Done((next, next_shadow_error))
                &&& match result {
                    Ok(renderer) => next matches Ok(made) && made == renderer,
                    Err(error) => next matches Err(reason) && reason == error@,
                }
                &&& match shadow_error {
                    Some(error) => next_shadow_error == Some(error@),
                    None => next_shadow_error is None,
                }
            },
        },
{
}

/// A step of the creation of constants asks for what is to be asked for next, with a task that
/// knows all that was answered, or hands out constants in the buffer that was created.
pub proof fn steps_of_constants_go_on<T>(
    values: Seq<T>,
    encoder: Encoder,
    replies: Seq<UploadReply>,
    step: ConstsStep<T>,
)
    requires
        consts_step(values, encoder, replies, step),
    ensures
        ({
            let next = upload_next(BufferUsage::Constants, values, encoder, replies);
            match step {
                Step::Ask { request, task } => {
                    &&& next matches Next::Ask(asked) && asked == request@
                    &&& task.pending() == request@
                    &&& task.values() == values
                    &&& task.encoder() == encoder
                    &&& task.replies() == replies
                },
                Step::Done(Ok(consts)) => next matches Next::Done(Ok(buffer)) && buffer
                    == consts.buf,
                Step::Done(Err(error)) => next matches Next::Done(Err(reason)) && reason == error@,
            }
        }),
{
}

/// A step of the creation of instances asks for what is to be asked for next, with a task that
/// knows all that was answered, or hands out as many instances as there are values, in the
/// buffer that was created.
pub proof fn steps_of_instances_go_on<T>(
    values: Seq<T>,
    encoder: Encoder,
    replies: Seq<UploadReply>,
    step: InstancesStep<T>,
)
    requires
        instances_step(values, encoder, replies, step),
    ensures
        ({
            let next = upload_next(BufferUsage::Instances, values, encoder, replies);
            match step {
                Step::Ask { request, task } => {
                    &&& next matches Next::Ask(asked) && asked == request@
                    &&& task.pending() == request@
                    &&& task.values() == values
                    &&& task.encoder() == encoder
                    &&& task.replies() == replies
                },
                Step::Done(Ok(instances)) => {
                    &&& next matches Next::Done(Ok(buffer)) && buffer == instances.ibuf
                    &&& instances.count == values.len()
                },
                Step::Done(Err(error)) => next matches Next::Done(Err(reason)) && reason == error@,
            }
        }),
{
}

} // verus!
