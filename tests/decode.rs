use llm_chat::decode::{
    compatible_signal, decode_compatible, decode_native, native_signal, CompatibleFrame,
};
use llm_chat::framing::{classify_line, LineFramer, LineKind};
use llm_chat::wire::{ChatResponse, Choice, DeltaContent, NativeChunk};

fn response(content: Option<&str>, finish: Option<&str>) -> ChatResponse {
    ChatResponse {
        choices: vec![Choice {
            delta: DeltaContent { content: content.map(|s| s.to_string()) },
            finish_reason: finish.map(|s| s.to_string()),
        }],
    }
}

fn native(content: &str, done: bool) -> NativeChunk {
    NativeChunk { content: Some(content.to_string()), done }
}

/// Stands in for the JSON codec: the two payload shapes used below.
fn parse_payload(p: &[u8]) -> CompatibleFrame {
    match p {
        b"{\"choices\":[{\"delta\":{\"content\":\"Hi\"}}]}" => {
            CompatibleFrame::Response(response(Some("Hi"), None))
        }
        b"{\"choices\":[{\"delta\":{},\"finish_reason\":\"stop\"}]}" => {
            CompatibleFrame::Response(response(None, Some("stop")))
        }
        _ => CompatibleFrame::Malformed,
    }
}

fn frames_of(bytes: &[u8]) -> Vec<CompatibleFrame> {
    let mut f = LineFramer::new();
    let mut lines = f.push(bytes);
    lines.extend(f.finish());
    lines
        .iter()
        .map(|l| match classify_line(l) {
            LineKind::Skip => CompatibleFrame::Skip,
            LineKind::Done => CompatibleFrame::Done,
            LineKind::Payload(p) => parse_payload(&p),
        })
        .collect()
}

#[test]
fn compatible_example_hi_then_stop() {
    let bytes = b"data: {\"choices\":[{\"delta\":{\"content\":\"Hi\"}}]}\ndata: {\"choices\":[{\"delta\":{},\"finish_reason\":\"stop\"}]}\n";
    let d = decode_compatible(&frames_of(bytes));
    assert_eq!(d.deltas, vec!["Hi".to_string()]);
    assert!(d.terminated);
}

#[test]
fn native_example_drops_thinking_tags() {
    let chunks = vec![
        native("<think>", false),
        native("reasoning", false),
        native("</think>", false),
        native("answer", true),
    ];
    let d = decode_native(&chunks);
    assert_eq!(d.deltas, vec!["reasoning".to_string(), "answer".to_string()]);
    assert!(d.terminated);
}

#[test]
fn compatible_deltas_concatenate_to_the_contents() {
    let frames = vec![
        CompatibleFrame::Skip,
        CompatibleFrame::Response(response(Some("Hel"), None)),
        CompatibleFrame::Response(response(None, None)),
        CompatibleFrame::Response(ChatResponse { choices: vec![] }),
        CompatibleFrame::Response(response(Some("lo"), None)),
        CompatibleFrame::Done,
    ];
    let d = decode_compatible(&frames);
    assert_eq!(d.deltas.concat(), "Hello");
    assert_eq!(d.deltas.len(), 2);
    assert!(d.terminated);
}

#[test]
fn compatible_stops_at_the_first_terminal_signal() {
    let frames = vec![
        CompatibleFrame::Response(response(Some("a"), Some("stop"))),
        CompatibleFrame::Response(response(Some("b"), None)),
        CompatibleFrame::Done,
    ];
    let d = decode_compatible(&frames);
    assert_eq!(d.deltas, vec!["a".to_string()]);
    assert!(d.terminated);
}

#[test]
fn compatible_skips_malformed_frames() {
    let frames = vec![
        CompatibleFrame::Malformed,
        CompatibleFrame::Response(response(Some("x"), None)),
        CompatibleFrame::Malformed,
        CompatibleFrame::Done,
    ];
    let d = decode_compatible(&frames);
    assert_eq!(d.deltas, vec!["x".to_string()]);
    assert!(d.terminated);
    let bytes = b"data: {not json\ndata: {\"choices\":[{\"delta\":{\"content\":\"Hi\"}}]}\ndata: [DONE]\n";
    let d = decode_compatible(&frames_of(bytes));
    assert_eq!(d.deltas, vec!["Hi".to_string()]);
    assert!(d.terminated);
}

#[test]
fn stream_without_terminal_is_reported_unterminated() {
    let frames = vec![CompatibleFrame::Response(response(Some("x"), None))];
    let d = decode_compatible(&frames);
    assert_eq!(d.deltas, vec!["x".to_string()]);
    assert!(!d.terminated);
    let d = decode_native(&vec![native("y", false)]);
    assert_eq!(d.deltas, vec!["y".to_string()]);
    assert!(!d.terminated);
}

#[test]
fn done_frame_signal_is_terminal_without_delta() {
    let s = compatible_signal(&CompatibleFrame::Done);
    assert!(s.terminal);
    assert_eq!(s.delta, None);
    let s = compatible_signal(&CompatibleFrame::Skip);
    assert!(!s.terminal);
    assert_eq!(s.delta, None);
}

#[test]
fn native_whitespace_with_newline_collapses() {
    assert_eq!(native_signal(&native("\n\n", false)).delta, Some("\n".to_string()));
    assert_eq!(native_signal(&native(" \n\t ", false)).delta, Some("\n".to_string()));
    assert_eq!(native_signal(&native("\u{a0}\r\n", false)).delta, Some("\n".to_string()));
    assert_eq!(native_signal(&native("   ", false)).delta, Some("   ".to_string()));
    assert_eq!(native_signal(&native("a\n", false)).delta, Some("a\n".to_string()));
    assert_eq!(native_signal(&native("", false)).delta, Some("".to_string()));
}

#[test]
fn native_tags_inside_longer_content_are_kept() {
    assert_eq!(native_signal(&native("<think>hmm", false)).delta, Some("<think>hmm".to_string()));
    assert_eq!(native_signal(&native(" </think>", false)).delta, Some(" </think>".to_string()));
    assert_eq!(native_signal(&native("<think>", false)).delta, None);
    assert_eq!(native_signal(&native("</think>", true)).delta, None);
    assert!(native_signal(&native("</think>", true)).terminal);
}

#[test]
fn native_chunk_without_content_gives_no_delta() {
    let s = native_signal(&NativeChunk { content: None, done: true });
    assert_eq!(s.delta, None);
    assert!(s.terminal);
}

#[test]
fn decoding_twice_gives_the_same_deltas() {
    let bytes = b"data: {\"choices\":[{\"delta\":{\"content\":\"Hi\"}}]}\n: x\ndata: {\"choices\":[{\"delta\":{},\"finish_reason\":\"stop\"}]}\n";
    let first = decode_compatible(&frames_of(bytes));
    let second = decode_compatible(&frames_of(bytes));
    assert_eq!(first.deltas, second.deltas);
    assert_eq!(first.terminated, second.terminated);
    let chunks = vec![native("a", false), native("\n \n", false), native("b", true)];
    let first = decode_native(&chunks);
    let second = decode_native(&chunks);
    assert_eq!(first.deltas, vec!["a".to_string(), "\n".to_string(), "b".to_string()]);
    assert_eq!(first.deltas, second.deltas);
}
