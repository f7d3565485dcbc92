use webworker_handshake::host::{HostAction, HostController, HostPhase};
use webworker_handshake::message::{encode_ready, DecodeError, Request, Response, WireValue};
use webworker_handshake::text::append_decimal;
use webworker_handshake::worker::{WorkerAction, WorkerEvent, WorkerExecutor, WorkerPhase};

fn numbers(values: &[u32]) -> Vec<WireValue> {
    values.iter().map(|&v| WireValue::Number(v)).collect()
}

fn posted(action: WorkerAction) -> Vec<WireValue> {
    match action {
        WorkerAction::Post(m) => m,
        other => panic!("expected a post, got {other:?}"),
    }
}

fn sent(action: HostAction) -> Vec<WireValue> {
    match action {
        HostAction::Send(m) => m,
        other => panic!("expected a send, got {other:?}"),
    }
}

/// Runs one exchange between a fresh worker and `host`, returning every
/// message in the order it was posted and what the host did last.
fn run_exchange(host: &mut HostController) -> (Vec<Vec<WireValue>>, HostAction) {
    let mut worker = WorkerExecutor::new();
    let mut transcript = Vec::new();
    let ready = posted(worker.step(WorkerEvent::HandlerRegistered));
    transcript.push(ready.clone());
    let request = sent(host.on_message(&ready));
    transcript.push(request.clone());
    let response = posted(worker.step(WorkerEvent::Message(request)));
    transcript.push(response.clone());
    let last = host.on_message(&response);
    (transcript, last)
}

#[test]
fn happy_path_exchange() {
    let mut host = HostController::default();
    let (transcript, last) = run_exchange(&mut host);
    assert_eq!(transcript, vec![vec![], numbers(&[2, 5]), numbers(&[2, 5, 10])]);
    let expected = Response { a: 2, b: 5, result: 10 };
    assert_eq!(last, HostAction::Report(expected));
    assert_eq!(expected.log_line(), "2 x 5 = 10");
    assert_eq!(host.phase, HostPhase::Done);
}

#[test]
fn large_values_wrap() {
    let mut host = HostController::new(Request { a: 65536, b: 65536 });
    let (transcript, last) = run_exchange(&mut host);
    assert_eq!(transcript[1], numbers(&[65536, 65536]));
    assert_eq!(transcript[2], numbers(&[65536, 65536, 0]));
    assert_eq!(last, HostAction::Report(Response { a: 65536, b: 65536, result: 0 }));
}

#[test]
fn malformed_request_is_rejected() {
    let mut worker = WorkerExecutor::new();
    posted(worker.step(WorkerEvent::HandlerRegistered));
    let action = worker.step(WorkerEvent::Message(numbers(&[7])));
    assert_eq!(action, WorkerAction::Reject(DecodeError { position: 1 }));
    assert_eq!(worker.phase, WorkerPhase::AwaitingRequest);
}

#[test]
fn non_numeric_request_is_rejected() {
    let mut worker = WorkerExecutor::new();
    posted(worker.step(WorkerEvent::HandlerRegistered));
    let action = worker.step(WorkerEvent::Message(vec![WireValue::NonNumeric, WireValue::Number(3)]));
    assert_eq!(action, WorkerAction::Reject(DecodeError { position: 0 }));
    let empty = worker.step(WorkerEvent::Message(vec![]));
    assert_eq!(empty, WorkerAction::Reject(DecodeError { position: 0 }));
    // a later well-formed request is still answered
    let answer = posted(worker.step(WorkerEvent::Message(numbers(&[3, 4]))));
    assert_eq!(answer, numbers(&[3, 4, 12]));
}

#[test]
fn premature_request_is_never_observed() {
    let mut worker = WorkerExecutor::new();
    let early = worker.step(WorkerEvent::Message(numbers(&[2, 5])));
    assert_eq!(early, WorkerAction::Unobserved);
    assert_eq!(worker.phase, WorkerPhase::Starting);
    let ready = posted(worker.step(WorkerEvent::HandlerRegistered));
    assert!(ready.is_empty());
    assert_eq!(worker.phase, WorkerPhase::AwaitingRequest);
}

#[test]
fn worker_takes_no_second_request() {
    let mut worker = WorkerExecutor::new();
    posted(worker.step(WorkerEvent::HandlerRegistered));
    posted(worker.step(WorkerEvent::Message(numbers(&[2, 5]))));
    assert_eq!(worker.step(WorkerEvent::Message(numbers(&[3, 4]))), WorkerAction::Idle);
    assert_eq!(worker.step(WorkerEvent::HandlerRegistered), WorkerAction::Idle);
    assert_eq!(worker.phase, WorkerPhase::Responded);
}

#[test]
fn host_sends_only_once() {
    let mut host = HostController::default();
    assert_eq!(sent(host.on_message(&encode_ready())), numbers(&[2, 5]));
    assert_eq!(host.on_message(&encode_ready()), HostAction::Idle);
    assert_eq!(host.phase, HostPhase::AwaitingResponse);
}

#[test]
fn host_rejects_short_response() {
    let mut host = HostController::default();
    sent(host.on_message(&encode_ready()));
    assert_eq!(host.on_message(&numbers(&[2, 5])), HostAction::Reject(DecodeError { position: 2 }));
    let bad_first = vec![WireValue::NonNumeric, WireValue::Number(5), WireValue::Number(10)];
    assert_eq!(host.on_message(&bad_first), HostAction::Reject(DecodeError { position: 0 }));
    assert_eq!(host.phase, HostPhase::AwaitingResponse);
}

#[test]
fn request_round_trip_ignores_extra_values() {
    let req = Request { a: 9, b: 11 };
    assert_eq!(req.encode(), numbers(&[9, 11]));
    assert_eq!(Request::decode(&req.encode()), Ok(req));
    assert_eq!(Request::decode(&numbers(&[9, 11, 99])), Ok(req));
    let resp = Response { a: 1, b: 2, result: 3 };
    assert_eq!(Response::decode(&resp.encode()), Ok(resp));
}

#[test]
fn compute_wraps_at_the_largest_inputs() {
    let resp = Request { a: u32::MAX, b: u32::MAX }.compute();
    assert_eq!(resp, Response { a: u32::MAX, b: u32::MAX, result: 1 });
    let plain = Request { a: 123, b: 1000 }.compute();
    assert_eq!(plain.result, 123000);
    let zero = Request { a: 0, b: u32::MAX }.compute();
    assert_eq!(zero.result, 0);
}

#[test]
fn log_line_writes_decimal() {
    assert_eq!(Response { a: 0, b: 7, result: 0 }.log_line(), "0 x 7 = 0");
    let big = Response { a: u32::MAX, b: 1, result: u32::MAX };
    assert_eq!(big.log_line(), "4294967295 x 1 = 4294967295");
    let mut s = String::from("n=");
    append_decimal(&mut s, 1005);
    assert_eq!(s, "n=1005");
}
