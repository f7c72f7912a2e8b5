use llm_chat::session::ChatSession;
use llm_chat::wire::{chat_request, ChatMessage};
use llm_chat::EndpointType;

fn msg(role: &str, content: &str) -> ChatMessage {
    ChatMessage { role: role.to_string(), content: content.to_string() }
}

fn pairs(v: &[ChatMessage]) -> Vec<(String, String)> {
    v.iter().map(|m| (m.role.clone(), m.content.clone())).collect()
}

#[test]
fn request_appends_the_prompt_once() {
    let history = vec![msg("user", "hi"), msg("assistant", "hello")];
    let r = chat_request(EndpointType::LMStudio, &history, "how are you", "m1");
    assert_eq!(
        pairs(&r.messages),
        vec![
            ("user".to_string(), "hi".to_string()),
            ("assistant".to_string(), "hello".to_string()),
            ("user".to_string(), "how are you".to_string()),
        ]
    );
    assert_eq!(r.model, "m1");
    assert!(r.stream);
    assert_eq!(r.temperature_hundredths, Some(70));
    let r = chat_request(EndpointType::Ollama, &Vec::new(), "p", "m2");
    assert_eq!(pairs(&r.messages), vec![("user".to_string(), "p".to_string())]);
    assert_eq!(r.temperature_hundredths, None);
    assert!(r.stream);
}

#[test]
fn send_returns_the_history_before_the_prompt() {
    let mut s = ChatSession::new();
    let h = s.send("first").unwrap();
    assert!(h.is_empty());
    assert!(s.streaming);
    assert_eq!(pairs(&s.history), vec![("user".to_string(), "first".to_string())]);
    let r = chat_request(EndpointType::Ollama, &h, "first", "m");
    assert_eq!(pairs(&r.messages), pairs(&s.history));
}

#[test]
fn send_is_refused_while_streaming_or_empty() {
    let mut s = ChatSession::new();
    assert!(s.send("").is_none());
    assert!(!s.streaming);
    assert!(s.history.is_empty());
    s.send("one").unwrap();
    assert!(s.send("two").is_none());
    assert_eq!(s.history.len(), 1);
}

#[test]
fn deltas_accumulate_one_per_tick_then_commit() {
    let mut s = ChatSession::new();
    s.send("q").unwrap();
    s.tick(Some("Hel".to_string()), None);
    s.tick(Some("lo".to_string()), Some(Ok(())));
    assert_eq!(s.current_response, "Hello");
    assert!(s.streaming);
    s.tick(None, None);
    assert!(s.streaming);
    s.tick(None, Some(Ok(())));
    assert!(!s.streaming);
    assert_eq!(s.current_response, "");
    assert_eq!(
        pairs(&s.history),
        vec![("user".to_string(), "q".to_string()), ("assistant".to_string(), "Hello".to_string())]
    );
    assert!(s.send("next").is_some());
}

#[test]
fn partial_content_wins_over_the_error() {
    let mut s = ChatSession::new();
    s.send("q").unwrap();
    s.tick(Some("partial".to_string()), None);
    s.tick(None, Some(Err("Error: reset".to_string())));
    assert_eq!(
        pairs(&s.history),
        vec![("user".to_string(), "q".to_string()), ("assistant".to_string(), "partial".to_string())]
    );
    assert!(!s.streaming);
}

#[test]
fn failure_without_content_adds_an_error_turn() {
    let mut s = ChatSession::new();
    s.send("q").unwrap();
    s.tick(None, Some(Err("Error: refused".to_string())));
    assert_eq!(
        pairs(&s.history),
        vec![("user".to_string(), "q".to_string()), ("error".to_string(), "Error: refused".to_string())]
    );
    assert!(!s.streaming);
}

#[test]
fn success_without_content_adds_nothing() {
    let mut s = ChatSession::new();
    s.send("q").unwrap();
    s.tick(None, Some(Ok(())));
    assert_eq!(s.history.len(), 1);
    assert!(!s.streaming);
}

#[test]
fn clear_chat_resets_everything() {
    let mut s = ChatSession::new();
    s.send("q").unwrap();
    s.tick(Some("x".to_string()), None);
    s.clear_chat();
    assert!(s.history.is_empty());
    assert_eq!(s.current_response, "");
    assert!(!s.streaming);
}
