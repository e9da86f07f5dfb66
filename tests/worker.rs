use azure_functions_worker::context::{log_record, InvocationContext, LogSink};
use azure_functions_worker::dispatch::Invocation;
use azure_functions_worker::fault::{
    fault_diagnostic, fault_log, finish_invocation, payload_text, InvocationOutcome, SourceLocation,
};
use azure_functions_worker::messages::{
    Content, FunctionLoadRequest, InvocationRequest, InvocationResponse, LogLevel,
    RpcFunctionMetadata, Status, StatusResult, StreamingMessage, WorkerInitRequest,
};
use azure_functions_worker::worker::{Action, Event, Phase, Worker};

fn s(text: &str) -> String {
    text.to_string()
}

fn received(content: Content) -> Event {
    Event::Received(StreamingMessage { content: Some(content) })
}

fn init_request(version: &str) -> Event {
    received(Content::WorkerInitRequest(WorkerInitRequest { host_version: s(version) }))
}

fn load(id: &str, name: Option<&str>) -> Event {
    received(Content::FunctionLoadRequest(FunctionLoadRequest {
        function_id: s(id),
        metadata: name.map(|n| RpcFunctionMetadata { name: s(n) }),
    }))
}

fn invoke(function_id: &str, invocation_id: &str) -> Event {
    received(Content::InvocationRequest(InvocationRequest {
        invocation_id: s(invocation_id),
        function_id: s(function_id),
    }))
}

fn running_worker(names: &[&str]) -> Worker {
    let mut w = Worker::new(s("worker-1"), s("0.1.0"), names.iter().map(|n| s(n)).collect());
    match w.step(init_request("4.0")) {
        Action::Initialize(_, _) => {}
        _ => panic!("init was not accepted"),
    }
    w
}

fn expect_load_response(a: Action) -> (String, Status, String) {
    match a {
        Action::Send(StreamingMessage { content: Some(Content::FunctionLoadResponse(r)) }) => {
            (r.function_id, r.result.status, r.result.result)
        }
        _ => panic!("expected a function load response"),
    }
}

fn expect_invocation_response(m: StreamingMessage) -> (String, Status, String) {
    match m.content {
        Some(Content::InvocationResponse(r)) => (r.invocation_id, r.result.status, r.result.result),
        _ => panic!("expected an invocation response"),
    }
}

fn expect_spawn(a: Action) -> Invocation {
    match a {
        Action::Spawn(inv) => inv,
        _ => panic!("expected an invocation to run"),
    }
}

#[test]
fn happy_init() {
    let mut w = Worker::new(s("worker-1"), s("0.1.0"), vec![]);
    assert_eq!(w.current_phase(), Phase::AwaitingInit);
    match w.start_stream().content {
        Some(Content::StartStream(start)) => assert_eq!(start.worker_id, "worker-1"),
        _ => panic!("expected a start stream message"),
    }
    match w.step(init_request("4.0")) {
        Action::Initialize(sink, m) => {
            assert_eq!(sink.threshold, LogLevel::Information);
            match m.content {
                Some(Content::WorkerInitResponse(r)) => {
                    assert!(!r.worker_version.is_empty());
                    assert_eq!(r.worker_version, "0.1.0");
                    assert_eq!(r.result.status, Status::Success);
                }
                _ => panic!("expected a worker init response"),
            }
        }
        _ => panic!("expected the worker to initialise"),
    }
    assert_eq!(w.current_phase(), Phase::Running);
    assert_eq!(w.reported_host_version().map(|v| v.as_str()), Some("4.0"));
}

#[test]
fn load_and_invoke() {
    let mut w = running_worker(&["say_hello"]);
    let (id, status, text) = expect_load_response(w.step(load("A", Some("say_hello"))));
    assert_eq!(id, "A");
    assert_eq!(status, Status::Success);
    assert_eq!(text, "");

    let inv = expect_spawn(w.step(invoke("A", "inv-1")));
    assert_eq!(inv.descriptor, 0);
    assert_eq!(inv.function_name, "say_hello");
    assert_eq!(inv.request.invocation_id, "inv-1");

    let mut ctx = InvocationContext::new();
    inv.begin(&mut ctx);
    assert_eq!(ctx.invocation_id_string(), "inv-1");
    assert_eq!(ctx.function_name_string(), "say_hello");
    let returned = InvocationResponse {
        invocation_id: s("inv-1"),
        result: StatusResult { status: Status::Success, result: s("") },
    };
    let m = finish_invocation(&mut ctx, InvocationOutcome::Returned(returned));
    let (inv_id, status, _) = expect_invocation_response(m);
    assert_eq!(inv_id, "inv-1");
    assert_eq!(status, Status::Success);
    assert_eq!(ctx.invocation_id_string(), "");
    assert_eq!(ctx.function_name_string(), "<unknown>");
}

#[test]
fn unknown_name() {
    let mut w = running_worker(&["say_hello"]);
    let (id, status, text) = expect_load_response(w.step(load("B", Some("nope"))));
    assert_eq!(id, "B");
    assert_eq!(status, Status::Failure);
    assert_eq!(text, "Function 'nope' does not exist.");
}

#[test]
fn missing_metadata() {
    let mut w = running_worker(&["say_hello"]);
    let (id, status, text) = expect_load_response(w.step(load("C", None)));
    assert_eq!(id, "C");
    assert_eq!(status, Status::Failure);
    assert_eq!(text, "Function load request metadata is missing.");
}

#[test]
fn unknown_id() {
    let mut w = running_worker(&["say_hello"]);
    match w.step(invoke("X", "inv-2")) {
        Action::Send(m) => {
            let (inv_id, status, text) = expect_invocation_response(m);
            assert_eq!(inv_id, "inv-2");
            assert_eq!(status, Status::Failure);
            assert_eq!(text, "Function with id 'X' does not exist.");
        }
        _ => panic!("expected an immediate failure"),
    }
}

#[test]
fn faulting_invocation() {
    let mut w = running_worker(&["explode"]);
    expect_load_response(w.step(load("F", Some("explode"))));
    let inv = expect_spawn(w.step(invoke("F", "inv-3")));
    let mut ctx = InvocationContext::new();
    inv.begin(&mut ctx);

    let location = SourceLocation { file: s("src/explode.rs"), line: 12, column: 5 };
    let log = fault_log(&ctx, Some(s("boom")), Some(location), &s("\nstack"));
    match log.content {
        Some(Content::RpcLog(l)) => {
            assert_eq!(l.level, LogLevel::Error);
            assert_eq!(l.invocation_id, "inv-3");
            assert_eq!(l.category, "explode");
            assert!(l.message.contains("boom"));
            assert!(l.message.contains("explode"));
            assert_eq!(
                l.message,
                "Azure Function 'explode' panicked with 'boom', src/explode.rs:12:5\nstack"
            );
        }
        _ => panic!("expected a log record"),
    }

    let m = finish_invocation(&mut ctx, InvocationOutcome::Faulted);
    let (inv_id, status, text) = expect_invocation_response(m);
    assert_eq!(inv_id, "inv-3");
    assert_eq!(status, Status::Failure);
    assert_eq!(text, "Azure Function panicked: see log for more information.");
    assert_eq!(w.current_phase(), Phase::Running);
    let (_, status, _) = expect_load_response(w.step(load("G", Some("explode"))));
    assert_eq!(status, Status::Success);
}

#[test]
fn status_probe_during_work() {
    let mut w = running_worker(&["slow"]);
    expect_load_response(w.step(load("S", Some("slow"))));
    let mut spawned = Vec::new();
    for i in 0..10 {
        spawned.push(expect_spawn(w.step(invoke("S", &format!("inv-{}", i)))));
    }
    assert_eq!(spawned.len(), 10);
    match w.step(received(Content::WorkerStatusRequest)) {
        Action::Send(StreamingMessage { content: Some(Content::WorkerStatusResponse) }) => {}
        _ => panic!("expected an immediate status response"),
    }
}

#[test]
fn register_same_pair_twice() {
    let mut w = running_worker(&["say_hello"]);
    let (_, first, _) = expect_load_response(w.step(load("A", Some("say_hello"))));
    let (_, second, _) = expect_load_response(w.step(load("A", Some("say_hello"))));
    assert_eq!(first, Status::Success);
    assert_eq!(second, Status::Success);
    let inv = expect_spawn(w.step(invoke("A", "inv-1")));
    assert_eq!(inv.descriptor, 0);
}

#[test]
fn rebinding_id_to_other_function_fails() {
    let mut w = running_worker(&["one", "two"]);
    let (_, status, _) = expect_load_response(w.step(load("A", Some("one"))));
    assert_eq!(status, Status::Success);
    let (_, status, text) = expect_load_response(w.step(load("A", Some("two"))));
    assert_eq!(status, Status::Failure);
    assert_eq!(text, "Function 'two' does not exist.");
    let inv = expect_spawn(w.step(invoke("A", "inv-1")));
    assert_eq!(inv.function_name, "one");
    let (_, status, _) = expect_load_response(w.step(load("B", Some("two"))));
    assert_eq!(status, Status::Success);
    assert_eq!(expect_spawn(w.step(invoke("B", "inv-2"))).descriptor, 1);
}

#[test]
fn duplicate_init_is_fatal() {
    let mut w = running_worker(&[]);
    assert!(matches!(w.step(init_request("4.0")), Action::Fatal(_)));
    assert_eq!(w.current_phase(), Phase::Closed);
}

#[test]
fn unknown_message_is_fatal() {
    let mut w = running_worker(&[]);
    assert!(matches!(w.step(Event::Received(StreamingMessage { content: None })), Action::Fatal(_)));
    let mut w = running_worker(&[]);
    assert!(matches!(w.step(received(Content::WorkerStatusResponse)), Action::Fatal(_)));
}

#[test]
fn ignored_messages() {
    let mut w = running_worker(&[]);
    assert!(matches!(w.step(received(Content::InvocationCancel)), Action::Ignore));
    assert!(matches!(w.step(received(Content::FileChangeEventRequest)), Action::Ignore));
    assert!(matches!(w.step(received(Content::FunctionEnvironmentReloadRequest)), Action::Ignore));
    assert_eq!(w.current_phase(), Phase::Running);
}

#[test]
fn first_message_must_be_init() {
    let mut w = Worker::new(s("w"), s("0.1.0"), vec![s("f")]);
    assert!(matches!(w.step(load("A", Some("f"))), Action::Fatal(_)));
    assert_eq!(w.current_phase(), Phase::Closed);
    let mut w = Worker::new(s("w"), s("0.1.0"), vec![]);
    assert!(matches!(w.step(Event::StreamEnded), Action::Fatal(_)));
}

#[test]
fn stream_end_shuts_down() {
    let mut w = running_worker(&[]);
    assert!(matches!(w.step(Event::StreamEnded), Action::Shutdown));
    assert_eq!(w.current_phase(), Phase::Closed);
    let mut w = running_worker(&[]);
    assert!(matches!(w.step(Event::Interrupted), Action::Shutdown));
}

#[test]
fn log_tagged_outside_invocation() {
    let ctx = InvocationContext::new();
    match log_record(&ctx, LogLevel::Warning, s("hello")).content {
        Some(Content::RpcLog(l)) => {
            assert_eq!(l.invocation_id, "");
            assert_eq!(l.category, "<unknown>");
            assert_eq!(l.level, LogLevel::Warning);
            assert_eq!(l.message, "hello");
        }
        _ => panic!("expected a log record"),
    }
}

#[test]
fn log_tagged_inside_invocation() {
    let mut ctx = InvocationContext::new();
    ctx.begin(&s("f"), &s("inv-9"));
    let sink = LogSink::standard();
    match sink.emit(&ctx, LogLevel::Information, s("working")) {
        Some(StreamingMessage { content: Some(Content::RpcLog(l)) }) => {
            assert_eq!(l.invocation_id, "inv-9");
            assert_eq!(l.category, "f");
        }
        _ => panic!("expected a log record"),
    }
    assert!(sink.emit(&ctx, LogLevel::Debug, s("detail")).is_none());
    assert!(sink.enabled(LogLevel::Error));
    assert!(!sink.enabled(LogLevel::Trace));
}

#[test]
fn fault_payload_fallback() {
    assert_eq!(payload_text(None), "<unknown>");
    assert_eq!(payload_text(Some(s("bad"))), "bad");
    let ctx = InvocationContext::new();
    assert_eq!(
        fault_diagnostic(&ctx, None, None, &s("")),
        "Azure Function '<unknown>' panicked with '<unknown>'"
    );
}
