use llm_chat::decode::{native_signal, Signal};
use llm_chat::error::{is_success_status, ClientError};
use llm_chat::producer::{IncompletePolicy, ObjectBuffer, Producer, ProducerState};
use llm_chat::wire::NativeChunk;

fn sig(delta: Option<&str>, terminal: bool) -> Signal {
    Signal { delta: delta.map(|s| s.to_string()), terminal }
}

#[test]
fn receiver_gone_stops_quietly() {
    let mut p = Producer::new();
    assert_eq!(p.on_signal(sig(Some("a"), false)), Some("a".to_string()));
    p.on_delivery(true);
    assert!(p.is_running());
    assert_eq!(p.on_signal(sig(Some("b"), false)), Some("b".to_string()));
    p.on_delivery(false);
    assert!(!p.is_running());
    assert!(matches!(p.state, ProducerState::Cancelled));
    assert_eq!(p.on_signal(sig(Some("c"), true)), None);
    p.on_close();
    assert!(matches!(p.state, ProducerState::Cancelled));
    assert!(p.outcome(IncompletePolicy::Reject).is_ok());
}

#[test]
fn terminal_signal_finishes_after_its_delta() {
    let mut p = Producer::new();
    assert_eq!(p.on_signal(sig(Some("end"), true)), Some("end".to_string()));
    assert!(matches!(p.state, ProducerState::Finished));
    assert_eq!(p.on_signal(sig(Some("late"), false)), None);
    assert!(p.outcome(IncompletePolicy::Reject).is_ok());
}

#[test]
fn close_without_terminal_follows_the_policy() {
    let mut p = Producer::new();
    p.on_signal(sig(Some("part"), false));
    p.on_close();
    assert!(matches!(p.state, ProducerState::Closed));
    assert!(p.outcome(IncompletePolicy::AcceptPartial).is_ok());
    let mut p = Producer::new();
    p.on_close();
    assert!(matches!(p.outcome(IncompletePolicy::Reject), Err(ClientError::Incomplete)));
}

#[test]
fn transport_failure_is_reported() {
    let mut p = Producer::new();
    p.on_error(ClientError::Transport("reset".to_string()));
    assert!(!p.is_running());
    p.on_error(ClientError::Parse("later".to_string()));
    match p.outcome(IncompletePolicy::AcceptPartial) {
        Err(ClientError::Transport(m)) => assert_eq!(m, "reset"),
        other => panic!("unexpected {:?}", other),
    }
    let mut p = Producer::new();
    p.on_error(ClientError::Server { status: 500, body: "boom".to_string() });
    assert!(matches!(p.outcome(IncompletePolicy::AcceptPartial), Err(ClientError::Server { status: 500, .. })));
}

#[test]
fn object_buffer_holds_partial_objects() {
    let mut b = ObjectBuffer::new();
    let c = b.push(b"{\"message\":{\"con");
    assert_eq!(c, b"{\"message\":{\"con".to_vec());
    assert!(b.settle(None).is_none());
    let c = b.push(b"tent\":\"hi\"},\"done\":false}");
    assert_eq!(c, b"{\"message\":{\"content\":\"hi\"},\"done\":false}".to_vec());
    let s = b.settle(Some(NativeChunk { content: Some("hi".to_string()), done: false })).unwrap();
    assert_eq!(s.delta, Some("hi".to_string()));
    assert!(!s.terminal);
    let c = b.push(b"{}");
    assert_eq!(c, b"{}".to_vec());
}

#[test]
fn object_buffer_signal_matches_native_signal() {
    let mut b = ObjectBuffer::new();
    b.push(b"x");
    let chunk = NativeChunk { content: Some("<think>".to_string()), done: true };
    let s = b.settle(Some(chunk.clone())).unwrap();
    let t = native_signal(&chunk);
    assert_eq!(s.delta, t.delta);
    assert_eq!(s.terminal, t.terminal);
    assert_eq!(s.delta, None);
}

#[test]
fn only_2xx_statuses_succeed() {
    assert!(is_success_status(200));
    assert!(is_success_status(204));
    assert!(is_success_status(299));
    assert!(!is_success_status(199));
    assert!(!is_success_status(300));
    assert!(!is_success_status(404));
    assert!(!is_success_status(500));
}
