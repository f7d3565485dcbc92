//! Host and worker together: what passes between them when each receives
//! what the other posted, in order.
use vstd::prelude::*;
use crate::host::{host_run, HostActionModel, HostPhase};
use crate::message::{
    ready_message, request_decoding, request_message, response_decoding, response_message,
    response_to, wrapping_product, DecodeError, Request, Response, WireValue,
};
use crate::worker::{worker_run, WorkerActionModel, WorkerEventModel, WorkerPhase};

verus! {

/// A request goes over the wire and comes back answered: the worker reads
/// back `a` and `b` as they were sent, and the host reads back `a`, `b` and
/// their product modulo 2^32.
pub proof fn lemma_response_carries_product(a: u32, b: u32)
    ensures
        request_decoding(request_message(Request { a, b })) == Ok::<Request, DecodeError>(
            Request { a, b },
        ),
        response_decoding(response_message(response_to(Request { a, b })))
            == Ok::<Response, DecodeError>(
            Response { a, b, result: ((a as nat * b as nat) % 0x1_0000_0000) as u32 },
        ),
        wrapping_product(a, b) as nat == (a as nat * b as nat) % 0x1_0000_0000,
{
}

/// The worker's events in the exchange: its handler is registered, then the
/// host's request arrives.
pub open spec fn worker_side(request: Request) -> Seq<WorkerEventModel> {
    seq![WorkerEventModel::HandlerRegistered, WorkerEventModel::Message(request_message(request))]
}

/// The host's messages in the exchange: the ready signal, then the worker's
/// response.
pub open spec fn host_side(request: Request) -> Seq<Seq<WireValue>> {
    seq![ready_message(), response_message(response_to(request))]
}

/// In the exchange where each side is handed what the other posted, the
/// worker posts exactly one ready signal and then exactly one response, the
/// host sends exactly one request in between and reports the response, and
/// both end their exchange.
pub proof fn lemma_one_exchange(request: Request)
    ensures
        worker_run(worker_side(request)).1 == seq![
            WorkerActionModel::Post(ready_message()),
            WorkerActionModel::Post(response_message(response_to(request))),
        ],
        worker_run(worker_side(request)).0 == WorkerPhase::Responded,
        host_run(request, host_side(request)).1 == seq![
            HostActionModel::Send(request_message(request)),
            HostActionModel::Report(response_to(request)),
        ],
        host_run(request, host_side(request)).0 == HostPhase::Done,
        worker_side(request)[1] == WorkerEventModel::Message(
            host_run(request, host_side(request)).1[0]->Send_0,
        ),
        host_side(request)[0] == worker_run(worker_side(request)).1[0]->Post_0,
        host_side(request)[1] == worker_run(worker_side(request)).1[1]->Post_0,
{
    let w = worker_side(request);
    let w1 = w.drop_last();
    assert(w1 =~= seq![WorkerEventModel::HandlerRegistered]);
    assert(w1.drop_last() =~= Seq::<WorkerEventModel>::empty());
    assert(worker_run(w1.drop_last()).1 =~= Seq::<WorkerActionModel>::empty());
    assert(worker_run(w1).1 =~= seq![WorkerActionModel::Post(ready_message())]);
    assert(worker_run(w1).0 == WorkerPhase::AwaitingRequest);
    lemma_response_carries_product(request.a, request.b);
    assert(worker_run(w).1 =~= seq![
        WorkerActionModel::Post(ready_message()),
        WorkerActionModel::Post(response_message(response_to(request))),
    ]);
    let h = host_side(request);
    let h1 = h.drop_last();
    assert(h1 =~= seq![ready_message()]);
    assert(h1.drop_last() =~= Seq::<Seq<WireValue>>::empty());
    assert(host_run(request, h1.drop_last()).1 =~= Seq::<HostActionModel>::empty());
    assert(host_run(request, h1).1 =~= seq![HostActionModel::Send(request_message(request))]);
    assert(host_run(request, h1).0 == HostPhase::AwaitingResponse);
    assert(host_run(request, h).1 =~= seq![
        HostActionModel::Send(request_message(request)),
        HostActionModel::Report(response_to(request)),
    ]);
}

} // verus!
