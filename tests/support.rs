use azure_functions_worker::messages::{StreamingMessage, Content};
use azure_functions_worker::outbox::{Next, Outbox};
use azure_functions_worker::registry::Registry;
use azure_functions_worker::run::{parse_port, Run, RunError};
use azure_functions_worker::text::decimal_string;

#[test]
fn parse_port_values() {
    assert_eq!(parse_port("8080"), Some(8080));
    assert_eq!(parse_port("+80"), Some(80));
    assert_eq!(parse_port("0"), Some(0));
    assert_eq!(parse_port("65535"), Some(65535));
    assert_eq!(parse_port("65536"), None);
    assert_eq!(parse_port("1000000"), None);
    assert_eq!(parse_port(""), None);
    assert_eq!(parse_port("+"), None);
    assert_eq!(parse_port("8a"), None);
    assert_eq!(parse_port("-1"), None);
}

#[test]
fn run_from_values() {
    let run = Run::from_values(Some("localhost"), Some("7071"), Some("w1")).unwrap();
    assert_eq!(run.host, "localhost");
    assert_eq!(run.port, 7071);
    assert_eq!(run.worker_id, "w1");
    assert_eq!(run.address(), "localhost:7071");
    assert!(matches!(Run::from_values(None, Some("1"), Some("w")), Err(RunError::MissingHost)));
    assert!(matches!(Run::from_values(Some("h"), None, Some("w")), Err(RunError::MissingPort)));
    assert!(matches!(Run::from_values(Some("h"), Some("x"), Some("w")), Err(RunError::InvalidPort)));
    assert!(matches!(Run::from_values(Some("h"), Some("1"), None), Err(RunError::MissingWorkerId)));
    assert_eq!(RunError::InvalidPort.message(), "Invalid port number");
}

#[test]
fn decimal_text() {
    assert_eq!(decimal_string(0), "0");
    assert_eq!(decimal_string(7), "7");
    assert_eq!(decimal_string(12345), "12345");
    assert_eq!(decimal_string(4294967295), "4294967295");
}

#[test]
fn registry_register_and_get() {
    let mut r = Registry::new(vec!["a".to_string(), "b".to_string(), "a".to_string()]);
    assert_eq!(r.len(), 3);
    assert_eq!(r.get(&"x".to_string()), None);
    assert!(r.register(&"x".to_string(), &"a".to_string()));
    assert_eq!(r.get(&"x".to_string()), Some(0));
    assert!(r.register(&"x".to_string(), &"a".to_string()));
    assert!(!r.register(&"x".to_string(), &"b".to_string()));
    assert!(!r.register(&"y".to_string(), &"c".to_string()));
    assert_eq!(r.get(&"y".to_string()), None);
    assert!(r.register(&"y".to_string(), &"b".to_string()));
    assert_eq!(r.get(&"y".to_string()), Some(1));
    assert_eq!(r.name(1), "b");
}

fn status_message() -> StreamingMessage {
    StreamingMessage { content: Some(Content::WorkerStatusResponse) }
}

#[test]
fn outbox_in_order_then_finished() {
    let mut o = Outbox::new();
    assert!(matches!(o.next(), Next::Wait));
    assert!(o.submit(status_message()));
    assert!(o.submit(StreamingMessage { content: None }));
    o.close();
    assert!(!o.submit(status_message()));
    match o.next() {
        Next::Write(m) => assert!(matches!(m.content, Some(Content::WorkerStatusResponse))),
        _ => panic!("expected the first message"),
    }
    match o.next() {
        Next::Write(m) => assert!(m.content.is_none()),
        _ => panic!("expected the second message"),
    }
    assert!(matches!(o.next(), Next::Finished));
}
