//! The worker side: announce readiness once the message handler is in place,
//! answer the first well-formed request, and post nothing else.
use vstd::prelude::*;
use crate::message::{
    encode_ready, ready_message, request_decoding, response_message, response_to, DecodeError,
    Request, WireValue,
};

verus! {

/// Where a worker stands in its one exchange.
#[derive(Clone, Copy, Debug, PartialEq, Eq, Structural)]
pub enum WorkerPhase {
    /// Running, with no message handler registered yet: what arrives now is lost.
    Starting,
    /// The handler is registered and the ready signal posted.
    AwaitingRequest,
    /// A response has been posted; the worker takes no further request.
    Responded,
}

/// What happens to a worker.
#[derive(Clone, Debug, PartialEq, Eq)]
pub enum WorkerEvent {
    /// Its message handler has been registered.
    HandlerRegistered,
    /// A message from the host has been delivered.
    Message(Vec<WireValue>),
}

/// A worker event with its message seen as a sequence.
pub enum WorkerEventModel {
    HandlerRegistered,
    Message(Seq<WireValue>),
}

/// What a worker does in answer to an event.
#[derive(Clone, Debug, PartialEq, Eq)]
pub enum WorkerAction {
    /// Post this message to the host.
    Post(Vec<WireValue>),
    /// Give up on the message just delivered: it did not decode as a request.
    Reject(DecodeError),
    /// The message arrived before any handler was registered and is never seen.
    Unobserved,
    /// Nothing to do.
    Idle,
}

/// A worker action with its message seen as a sequence.
pub enum WorkerActionModel {
    Post(Seq<WireValue>),
    Reject(DecodeError),
    Unobserved,
    Idle,
}

impl View for WorkerEvent {
    type V = WorkerEventModel;

    open spec fn view(&self) -> WorkerEventModel {
        match self {
            WorkerEvent::HandlerRegistered => WorkerEventModel::HandlerRegistered,
            WorkerEvent::Message(m) => WorkerEventModel::Message(m@),
        }
    }
}

impl View for WorkerAction {
    type V = WorkerActionModel;

    open spec fn view(&self) -> WorkerActionModel {
        match self {
            WorkerAction::Post(m) => WorkerActionModel::Post(m@),
            WorkerAction::Reject(e) => WorkerActionModel::Reject(*e),
            WorkerAction::Unobserved => WorkerActionModel::Unobserved,
            WorkerAction::Idle => WorkerActionModel::Idle,
        }
    }
}

/// One step of a worker: its next phase and what it does.
pub open spec fn worker_step(phase: WorkerPhase, event: WorkerEventModel) -> (
    WorkerPhase,
    WorkerActionModel,
) {
    match event {
        WorkerEventModel::HandlerRegistered => {
            if phase is Starting {
                (WorkerPhase::AwaitingRequest, WorkerActionModel::Post(ready_message()))
            } else {
                (phase, WorkerActionModel::Idle)
            }
        },
        WorkerEventModel::Message(m) => match phase {
            WorkerPhase::Starting => (WorkerPhase::Starting, WorkerActionModel::Unobserved),
            WorkerPhase::AwaitingRequest => match request_decoding(m) {
                Ok(req) => (
                    WorkerPhase::Responded,
                    WorkerActionModel::Post(response_message(response_to(req))),
                ),
                Err(e) => (WorkerPhase::AwaitingRequest, WorkerActionModel::Reject(e)),
            },
            WorkerPhase::Responded => (WorkerPhase::Responded, WorkerActionModel::Idle),
        },
    }
}

/// The phase a fresh worker reaches through `events`, and what it does on each.
pub open spec fn worker_run(events: Seq<WorkerEventModel>) -> (WorkerPhase, Seq<WorkerActionModel>)
    decreases events.len(),
{
    if events.len() == 0 {
        (WorkerPhase::Starting, Seq::empty())
    } else {
        let (phase, done) = worker_run(events.drop_last());
        let (next, action) = worker_step(phase, events.last());
        (next, done.push(action))
    }
}

/// Whether an action posts the ready signal.
pub open spec fn is_ready_post(a: WorkerActionModel) -> bool {
    a is Post && a->Post_0.len() == 0
}

/// Whether an action posts anything but the ready signal.
pub open spec fn is_response_post(a: WorkerActionModel) -> bool {
    a is Post && a->Post_0.len() != 0
}

/// How many of `actions` post the ready signal.
pub open spec fn ready_posts(actions: Seq<WorkerActionModel>) -> nat
    decreases actions.len(),
{
    if actions.len() == 0 {
        0
    } else {
        ready_posts(actions.drop_last()) + if is_ready_post(actions.last()) {
            1nat
        } else {
            0nat
        }
    }
}

/// How many of `actions` post a response.
pub open spec fn response_posts(actions: Seq<WorkerActionModel>) -> nat
    decreases actions.len(),
{
    if actions.len() == 0 {
        0
    } else {
        response_posts(actions.drop_last()) + if is_response_post(actions.last()) {
            1nat
        } else {
            0nat
        }
    }
}

/// A worker's state.
pub struct WorkerExecutor {
    pub phase: WorkerPhase,
}

impl WorkerExecutor {
    /// A worker that has just started, with no handler registered.
    pub fn new() -> (r: WorkerExecutor)
        ensures
            r.phase == WorkerPhase::Starting,
    {
        WorkerExecutor { phase: WorkerPhase::Starting }
    }

    /// Takes one event and says what to do: the ready signal once the handler
    /// is registered, the response to the first request that decodes, a
    /// rejection for one that does not.
    pub fn step(&mut self, event: WorkerEvent) -> (r: WorkerAction)
        ensures
            (final(self).phase, r@) == worker_step(old(self).phase, event@),
    {
        match event {
            WorkerEvent::HandlerRegistered => {
                if self.phase == WorkerPhase::Starting {
                    self.phase = WorkerPhase::AwaitingRequest;
                    WorkerAction::Post(encode_ready())
                } else {
                    WorkerAction::Idle
                }
            },
            WorkerEvent::Message(m) => match self.phase {
                WorkerPhase::Starting => WorkerAction::Unobserved,
                WorkerPhase::AwaitingRequest => match Request::decode(&m) {
                    Ok(req) => {
                        self.phase = WorkerPhase::Responded;
                        WorkerAction::Post(req.compute().encode())
                    },
                    Err(e) => WorkerAction::Reject(e),
                },
                WorkerPhase::Responded => WorkerAction::Idle,
            },
        }
    }
}

/// Whatever a fresh worker is handed, it posts the ready signal at most once
/// and a response at most once, and every response comes after exactly one
/// ready signal.
pub proof fn lemma_ready_precedes_response(events: Seq<WorkerEventModel>)
    ensures
        worker_run(events).1.len() == events.len(),
        ready_posts(worker_run(events).1) <= 1,
        response_posts(worker_run(events).1) <= 1,
        forall|i: int|
            0 <= i < worker_run(events).1.len() && #[trigger] is_response_post(
                worker_run(events).1[i],
            ) ==> ready_posts(worker_run(events).1.take(i)) == 1,
        worker_run(events).0 is Starting ==> ready_posts(worker_run(events).1) == 0
            && response_posts(worker_run(events).1) == 0,
        worker_run(events).0 is AwaitingRequest ==> ready_posts(worker_run(events).1) == 1
            && response_posts(worker_run(events).1) == 0,
        worker_run(events).0 is Responded ==> ready_posts(worker_run(events).1) == 1
            && response_posts(worker_run(events).1) == 1,
    decreases events.len(),
{
    if events.len() > 0 {
        let prefix = events.drop_last();
        lemma_ready_precedes_response(prefix);
        let (phase, done) = worker_run(prefix);
        let (next, action) = worker_step(phase, events.last());
        let out = done.push(action);
        assert(out.drop_last() =~= done);
        assert(out.take(done.len() as int) =~= done);
        assert forall|i: int| 0 <= i < out.len() && #[trigger] is_response_post(out[i]) implies
            ready_posts(out.take(i)) == 1 by {
            if i < done.len() {
                assert(out.take(i) =~= done.take(i));
                assert(out[i] == done[i]);
            }
        }
    }
}

} // verus!
