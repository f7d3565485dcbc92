//! The host side: hold the request back until the worker has signalled that
//! it is ready, send it once, and surface the responses that come back.
use vstd::prelude::*;
use crate::message::{
    request_message, response_decoding, DecodeError, Request, Response, WireValue,
};

verus! {

/// Where a host stands in its one exchange with its worker.
#[derive(Clone, Copy, Debug, PartialEq, Eq, Structural)]
pub enum HostPhase {
    /// The worker has not signalled readiness: sending now could be lost.
    AwaitingReady,
    /// The request has been sent.
    AwaitingResponse,
    /// A response to the request has come back.
    Done,
}

/// What a host does in answer to a message from its worker.
#[derive(Clone, Debug, PartialEq, Eq)]
pub enum HostAction {
    /// Send this message to the worker.
    Send(Vec<WireValue>),
    /// Surface this response (log it, show it).
    Report(Response),
    /// Give up on the message just received: it did not decode as a response.
    Reject(DecodeError),
    /// Nothing to do.
    Idle,
}

/// A host action with its message seen as a sequence.
pub enum HostActionModel {
    Send(Seq<WireValue>),
    Report(Response),
    Reject(DecodeError),
    Idle,
}

impl View for HostAction {
    type V = HostActionModel;

    open spec fn view(&self) -> HostActionModel {
        match self {
            HostAction::Send(m) => HostActionModel::Send(m@),
            HostAction::Report(r) => HostActionModel::Report(*r),
            HostAction::Reject(e) => HostActionModel::Reject(*e),
            HostAction::Idle => HostActionModel::Idle,
        }
    }
}

/// One step of a host that sends `request`: its next phase and what it does
/// with message `msg`. An empty message is the ready signal; any other is
/// read as a response.
pub open spec fn host_step(phase: HostPhase, request: Request, msg: Seq<WireValue>) -> (
    HostPhase,
    HostActionModel,
) {
    if msg.len() == 0 {
        if phase is AwaitingReady {
            (HostPhase::AwaitingResponse, HostActionModel::Send(request_message(request)))
        } else {
            (phase, HostActionModel::Idle)
        }
    } else {
        match response_decoding(msg) {
            Ok(resp) => (
                if phase is AwaitingResponse {
                    HostPhase::Done
                } else {
                    phase
                },
                HostActionModel::Report(resp),
            ),
            Err(e) => (phase, HostActionModel::Reject(e)),
        }
    }
}

/// The phase a fresh host that sends `request` reaches through `msgs`, and
/// what it does on each.
pub open spec fn host_run(request: Request, msgs: Seq<Seq<WireValue>>) -> (
    HostPhase,
    Seq<HostActionModel>,
)
    decreases msgs.len(),
{
    if msgs.len() == 0 {
        (HostPhase::AwaitingReady, Seq::empty())
    } else {
        let (phase, done) = host_run(request, msgs.drop_last());
        let (next, action) = host_step(phase, request, msgs.last());
        (next, done.push(action))
    }
}

/// A host's state: the request it is to send, and how far it has come.
pub struct HostController {
    pub request: Request,
    pub phase: HostPhase,
}

impl HostController {
    /// A host that will send `request` once its worker is ready.
    pub fn new(request: Request) -> (r: HostController)
        ensures
            r.request == request,
            r.phase == HostPhase::AwaitingReady,
    {
        HostController { request, phase: HostPhase::AwaitingReady }
    }

    /// Takes one message from the worker and says what to do: send the
    /// request on the first ready signal, report a response that decodes,
    /// reject one that does not.
    pub fn on_message(&mut self, msg: &Vec<WireValue>) -> (r: HostAction)
        ensures
            final(self).request == old(self).request,
            (final(self).phase, r@) == host_step(old(self).phase, old(self).request, msg@),
    {
        if msg.len() == 0 {
            if self.phase == HostPhase::AwaitingReady {
                self.phase = HostPhase::AwaitingResponse;
                HostAction::Send(self.request.encode())
            } else {
                HostAction::Idle
            }
        } else {
            match Response::decode(msg) {
                Ok(resp) => {
                    if self.phase == HostPhase::AwaitingResponse {
                        self.phase = HostPhase::Done;
                    }
                    HostAction::Report(resp)
                },
                Err(e) => HostAction::Reject(e),
            }
        }
    }
}

impl Default for HostController {
    /// A host that will send the demonstration request `[2, 5]`.
    fn default() -> (r: HostController)
        ensures
            r.request == (Request { a: 2, b: 5 }),
            r.phase == HostPhase::AwaitingReady,
    {
        HostController::new(Request { a: 2, b: 5 })
    }
}

/// Whatever messages a fresh host receives, it sends only in answer to a
/// ready signal, what it sends is its request, and it sends nothing before
/// or after that one time.
pub proof fn lemma_request_only_after_ready(request: Request, msgs: Seq<Seq<WireValue>>)
    ensures
        host_run(request, msgs).1.len() == msgs.len(),
        forall|i: int|
            0 <= i < msgs.len() && (#[trigger] host_run(request, msgs).1[i]) is Send ==> {
                &&& msgs[i].len() == 0
                &&& host_run(request, msgs).1[i]->Send_0 == request_message(request)
                &&& forall|j: int|
                    0 <= j < msgs.len() && j != i ==> !(host_run(request, msgs).1[j] is Send)
            },
        host_run(request, msgs).0 is AwaitingReady ==> forall|j: int|
            0 <= j < msgs.len() ==> !(host_run(request, msgs).1[j] is Send),
    decreases msgs.len(),
{
    if msgs.len() > 0 {
        let prefix = msgs.drop_last();
        lemma_request_only_after_ready(request, prefix);
        let (phase, done) = host_run(request, prefix);
        let (next, action) = host_step(phase, request, msgs.last());
        let out = done.push(action);
        assert forall|j: int| 0 <= j < done.len() implies out[j] == done[j] by {}
        assert forall|j: int| 0 <= j < done.len() implies msgs[j] == prefix[j] by {}
        if !(phase is AwaitingReady) {
            assert(done.len() > 0);
        }
    }
}

} // verus!
