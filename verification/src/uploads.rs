//! Creation of buffers with values for shaders.
use crate::error::{BackendError, RenderError, RenderErrorView};
use crate::exchange::{Next, Step};
use crate::renderer::Renderer;
use crate::resources::{Buffer, Consts, Encoder, Instances};
use vstd::pervasive::unreached;
use vstd::prelude::*;

verus! {

/// What the values of a buffer are.
#[derive(Clone, Copy, Debug, PartialEq, Eq)]
pub enum BufferUsage {
    /// Constants of shaders. Such a buffer can always be created.
    Constants,
    /// Attributes of instances.
    Instances,
}

/// Something that only a backend can do with a buffer.
#[derive(Debug, PartialEq, Eq)]
pub enum UploadRequest<T> {
    /// Create a buffer for `len` values.
    Create { usage: BufferUsage, len: usize },
    /// Record that these values are to be written to a buffer, from its start.
    Write { encoder: Encoder, buffer: Buffer, values: Vec<T> },
}

/// The contents of an [`UploadRequest`].
pub enum UploadRequestView<T> {
    Create { usage: BufferUsage, len: nat },
    Write { encoder: Encoder, buffer: Buffer, values: Seq<T> },
}

impl<T> View for UploadRequest<T> {
    type V = UploadRequestView<T>;

    open spec fn view(&self) -> UploadRequestView<T> {
        match *self {
            UploadRequest::Create { usage, len } => UploadRequestView::Create {
                usage,
                len: len as nat,
            },
            UploadRequest::Write { encoder, buffer, values } => UploadRequestView::Write {
                encoder,
                buffer,
                values: values@,
            },
        }
    }
}

/// The answer of a backend.
#[derive(Debug)]
pub enum UploadReply {
    Created(Buffer),
    Written,
    /// The request could not be fulfilled.
    Failed(BackendError),
}

impl UploadReply {
    /// The reply is one that `request` can be given. A buffer for constants that cannot be
    /// created has no reply.
    pub open spec fn answers<T>(self, request: UploadRequestView<T>) -> bool {
        match request {
            UploadRequestView::Create { usage, .. } => {
                ||| self is Created
                ||| usage is Instances && self is Failed
            },
            UploadRequestView::Write { .. } => self is Written || self is Failed,
        }
    }
}

/// How the creation of a buffer with `values` goes on after the given replies: the values
/// are written only to a buffer that could be created, and the buffer is handed out only if
/// they could be written.
pub open spec fn upload_next<T>(
    usage: BufferUsage,
    values: Seq<T>,
    encoder: Encoder,
    replies: Seq<UploadReply>,
) -> Next<Result<Buffer, RenderErrorView>, UploadRequestView<T>> {
    if replies.len() == 0 {
        Next::Ask(UploadRequestView::Create { usage, len: values.len() })
    } else if replies[0] is Failed {
        Next::Done(Err(RenderErrorView::BufferCreationError(replies[0]->Failed_0)))
    } else if replies.len() == 1 {
        Next::Ask(UploadRequestView::Write { encoder, buffer: replies[0]->Created_0, values })
    } else if replies[1] is Failed {
        Next::Done(Err(RenderErrorView::UpdateError(replies[1]->Failed_0)))
    } else {
        Next::Done(Ok(replies[0]->Created_0))
    }
}

/// What the creation of a buffer waits for.
enum UploadStage<T> {
    Create { values: Vec<T> },
    Write { values: Ghost<Seq<T>>, buffer: Buffer },
}

/// The creation of a buffer, waiting for a reply.
struct UploadTask<T> {
    usage: BufferUsage,
    encoder: Encoder,
    stage: UploadStage<T>,
    replies: Ghost<Seq<UploadReply>>,
}

impl<T> UploadTask<T> {
    /// The values that the buffer is created for.
    spec fn values(self) -> Seq<T> {
        match self.stage {
            UploadStage::Create { values } => values@,
            UploadStage::Write { values, .. } => values@,
        }
    }

    /// The request that the task waits for an answer to.
    spec fn pending(self) -> UploadRequestView<T> {
        match self.stage {
            UploadStage::Create { values } => UploadRequestView::Create {
                usage: self.usage,
                len: values@.len(),
            },
            UploadStage::Write { values, buffer } => UploadRequestView::Write {
                encoder: self.encoder,
                buffer,
                values: values@,
            },
        }
    }

    /// What was kept of the replies is what they brought.
    spec fn agrees(self) -> bool {
        match self.stage {
            UploadStage::Create { .. } => self.replies@.len() == 0,
            UploadStage::Write { buffer, .. } => {
                &&& self.replies@.len() == 1
                &&& self.replies@[0] == UploadReply::Created(buffer)
            },
        }
    }

    /// Starts the creation of a buffer with a copy of `vals`.
    fn start(usage: BufferUsage, vals: &[T], encoder: Encoder) -> (first: (
        UploadRequest<T>,
        UploadTask<T>,
    )) where T: Copy
        ensures
            first.1.agrees(),
            first.1.usage == usage,
            first.1.values() == vals@,
            first.1.encoder == encoder,
            first.1.replies@ == Seq::<UploadReply>::empty(),
            first.0@ == first.1.pending(),
    {
        let len: usize = vals.len();
        let mut values: Vec<T> = Vec::new();
        for i in 0..len
            invariant
                len == vals@.len(),
                values@ == vals@.take(i as int),
        {
            values.push(vals[i]);
            assert(vals@.take(i + 1) =~= vals@.take(i as int).push(vals@[i as int]));
        }
        assert(vals@.take(len as int) =~= vals@);
        let stage = UploadStage::Create { values };
        let task = UploadTask { usage, encoder, stage, replies: Ghost(Seq::empty()) };
        (UploadRequest::Create { usage, len }, task)
    }

    /// Goes on with the answer to the pending request.
    fn resume(self, reply: UploadReply) -> (step: Step<
        UploadTask<T>,
        Result<Buffer, RenderError>,
        UploadRequest<T>,
    >)
        requires
            self.agrees(),
            reply.answers(self.pending()),
        ensures
            match upload_next(
                self.usage,
                self.values(),
                self.encoder,
                self.replies@.push(reply),
            ) {
                Next::Ask(next) => step matches Step::Ask { request, task } && request@ == next
                    && task.pending() == next && task.agrees() && task.usage == self.usage
                    && task.values() == self.values() && task.encoder == self.encoder
                    && task.replies@ == self.replies@.push(reply),
                Next::Done(next) => step matches Step::Done(result) && (match result {
                    Ok(buffer) => next == Ok::<Buffer, RenderErrorView>(buffer),
                    Err(error) => next == Err::<Buffer, RenderErrorView>(error@),
                }),
            },
    {
        let ghost next = self.replies@.push(reply);
        let UploadTask { usage, encoder, stage, .. } = self;
        match (stage, reply) {
            (UploadStage::Create { values }, UploadReply::Created(buffer)) => {
                let stage = UploadStage::Write { values: Ghost(values@), buffer };
                let task = UploadTask { usage, encoder, stage, replies: Ghost(next) };
                Step::Ask { request: UploadRequest::Write { encoder, buffer, values }, task }
            },
            (UploadStage::Create { .. }, UploadReply::Failed(error)) => Step::Done(
                Err(RenderError::BufferCreationError(error)),
            ),
            (UploadStage::Write { buffer, .. }, UploadReply::Written) => Step::Done(Ok(buffer)),
            (UploadStage::Write { .. }, UploadReply::Failed(error)) => Step::Done(
                Err(RenderError::UpdateError(error)),
            ),
            _ => unreached(),
        }
    }
}

/// The creation of constants, waiting for a reply.
pub struct ConstsTask<T> {
    task: UploadTask<T>,
}

impl<T> ConstsTask<T> {
    /// The values of the constants.
    pub closed spec fn values(self) -> Seq<T> {
        self.task.values()
    }

    /// The encoder that records the writing of the values.
    pub closed spec fn encoder(self) -> Encoder {
        self.task.encoder
    }

    /// The replies that the task was given, in their order.
    pub closed spec fn replies(self) -> Seq<UploadReply> {
        self.task.replies@
    }

    /// The request that the task waits for an answer to.
    pub closed spec fn pending(self) -> UploadRequestView<T> {
        self.task.pending()
    }

    #[verifier::type_invariant]
    spec fn inv(self) -> bool {
        &&& self.task.agrees()
        &&& self.task.usage is Constants
    }
}

/// Where the creation of constants stands.
pub type ConstsStep<T> = Step<ConstsTask<T>, Result<Consts<T>, RenderError>, UploadRequest<T>>;

/// `step` is where the creation of constants with `values` stands after `replies`.
pub open spec fn consts_step<T>(
    values: Seq<T>,
    encoder: Encoder,
    replies: Seq<UploadReply>,
    step: ConstsStep<T>,
) -> bool {
    match upload_next(BufferUsage::Constants, values, encoder, replies) {
        Next::Ask(next) => step matches Step::Ask { request, task } && request@ == next
            && task.pending() == next && task.values() == values && task.encoder() == encoder
            && task.replies() == replies,
        Next::Done(Ok(buffer)) => step matches Step::Done(Ok(consts)) && consts.buf == buffer,
        Next::Done(Err(next)) => step matches Step::Done(Err(error)) && error@ == next,
    }
}

impl<T> ConstsTask<T> {
    /// Goes on with the answer to the pending request.
    pub fn resume(self, reply: UploadReply) -> (step: ConstsStep<T>)
        requires
            reply.answers(self.pending()),
        ensures
            consts_step(self.values(), self.encoder(), self.replies().push(reply), step),
    {
        proof {
            use_type_invariant(&self);
        }
        match self.task.resume(reply) {
            Step::Ask { request, task } => Step::Ask { request, task: ConstsTask { task } },
            Step::Done(Ok(buffer)) => Step::Done(Ok(Consts::new(buffer))),
            Step::Done(Err(error)) => Step::Done(Err(error)),
        }
    }
}

/// The creation of instances, waiting for a reply.
pub struct InstancesTask<T> {
    task: UploadTask<T>,
    count: usize,
}

impl<T> InstancesTask<T> {
    /// The attributes of the instances.
    pub closed spec fn values(self) -> Seq<T> {
        self.task.values()
    }

    /// The encoder that records the writing of the values.
    pub closed spec fn encoder(self) -> Encoder {
        self.task.encoder
    }

    /// The replies that the task was given, in their order.
    pub closed spec fn replies(self) -> Seq<UploadReply> {
        self.task.replies@
    }

    /// The request that the task waits for an answer to.
    pub closed spec fn pending(self) -> UploadRequestView<T> {
        self.task.pending()
    }

    #[verifier::type_invariant]
    spec fn inv(self) -> bool {
        &&& self.task.agrees()
        &&& self.task.usage is Instances
        &&& self.count == self.task.values().len()
    }
}

/// Where the creation of instances stands.
pub type InstancesStep<T> = Step<
    InstancesTask<T>,
    Result<Instances<T>, RenderError>,
    UploadRequest<T>,
>;

/// `step` is where the creation of instances with `values` stands after `replies`.
pub open spec fn instances_step<T>(
    values: Seq<T>,
    encoder: Encoder,
    replies: Seq<UploadReply>,
    step: InstancesStep<T>,
) -> bool {
    match upload_next(BufferUsage::Instances, values, encoder, replies) {
        Next::Ask(next) => step matches Step::Ask { request, task } && request@ == next
            && task.pending() == next && task.values() == values && task.encoder() == encoder
            && task.replies() == replies,
        Next::Done(Ok(buffer)) => step matches Step::Done(Ok(instances)) && instances.ibuf
            == buffer && instances.count == values.len(),
        Next::Done(Err(next)) => step matches Step::Done(Err(error)) && error@ == next,
    }
}

impl<T> InstancesTask<T> {
    /// Goes on with the answer to the pending request.
    pub fn resume(self, reply: UploadReply) -> (step: InstancesStep<T>)
        requires
            reply.answers(self.pending()),
        ensures
            instances_step(self.values(), self.encoder(), self.replies().push(reply), step),
    {
        proof {
            use_type_invariant(&self);
        }
        let InstancesTask { task, count } = self;
        match task.resume(reply) {
            Step::Ask { request, task } => Step::Ask {
                request,
                task: InstancesTask { task, count },
            },
            Step::Done(Ok(buffer)) => Step::Done(Ok(Instances::new(buffer, count))),
            Step::Done(Err(error)) => Step::Done(Err(error)),
        }
    }
}

impl Renderer {
    /// Creates a new set of constants with the provided values.
    pub fn create_consts<T: Copy>(&self, vals: &[T]) -> (step: ConstsStep<T>)
        ensures
            consts_step(vals@, self.encoder, Seq::empty(), step),
    {
        let (request, task) = UploadTask::start(BufferUsage::Constants, vals, self.encoder);
        Step::Ask { request, task: ConstsTask { task } }
    }

    /// Creates a new set of instances with the provided values.
    pub fn create_instances<T: Copy>(&self, vals: &[T]) -> (step: InstancesStep<T>)
        ensures
            instances_step(vals@, self.encoder, Seq::empty(), step),
    {
        let (request, task) = UploadTask::start(BufferUsage::Instances, vals, self.encoder);
        Step::Ask { request, task: InstancesTask { task, count: vals.len() } }
    }
}

} // verus!
