use llm_chat::framing::{classify_line, LineFramer, LineKind};

fn kind_name(k: &LineKind) -> String {
    match k {
        LineKind::Skip => "skip".to_string(),
        LineKind::Done => "done".to_string(),
        LineKind::Payload(p) => format!("payload:{}", String::from_utf8(p.clone()).unwrap()),
    }
}

#[test]
fn classify_skips_blank_and_unmarked_lines() {
    assert_eq!(kind_name(&classify_line(b"")), "skip");
    assert_eq!(kind_name(&classify_line(b"\r")), "skip");
    assert_eq!(kind_name(&classify_line(b": keep-alive")), "skip");
    assert_eq!(kind_name(&classify_line(b"data:{}")), "skip");
    assert_eq!(kind_name(&classify_line(b"event: message")), "skip");
}

#[test]
fn classify_recognises_done_and_payloads() {
    assert_eq!(kind_name(&classify_line(b"data: [DONE]")), "done");
    assert_eq!(kind_name(&classify_line(b"data: [DONE]\r")), "done");
    assert_eq!(kind_name(&classify_line(b"data: {\"a\":1}")), "payload:{\"a\":1}");
    assert_eq!(kind_name(&classify_line(b"data: {\"a\":1}\r")), "payload:{\"a\":1}");
    assert_eq!(kind_name(&classify_line(b"data: [DONE] ")), "payload:[DONE] ");
    assert_eq!(kind_name(&classify_line(b"data: ")), "payload:");
}

#[test]
fn framer_holds_partial_lines_across_chunks() {
    let mut f = LineFramer::new();
    let a = f.push(b"data: {\"x\"");
    assert!(a.is_empty());
    let b = f.push(b":1}\n\ndata: [DO");
    assert_eq!(b, vec![b"data: {\"x\":1}".to_vec(), Vec::new()]);
    let c = f.push(b"NE]\n");
    assert_eq!(c, vec![b"data: [DONE]".to_vec()]);
    assert_eq!(f.finish(), None);
}

#[test]
fn framer_returns_the_unterminated_tail_at_the_end() {
    let mut f = LineFramer::new();
    let a = f.push(b"one\ntwo");
    assert_eq!(a, vec![b"one".to_vec()]);
    assert_eq!(f.finish(), Some(b"two".to_vec()));
    assert_eq!(f.finish(), None);
}

#[test]
fn framing_does_not_depend_on_chunking() {
    let bytes: &[u8] = b"data: a\r\ndata: b\n\nxyz\ndata: [DONE]\n";
    let mut whole = LineFramer::new();
    let mut expected = whole.push(bytes);
    expected.extend(whole.finish());
    for cut in 0..bytes.len() {
        let mut f = LineFramer::new();
        let mut got = f.push(&bytes[..cut]);
        got.extend(f.push(&bytes[cut..]));
        got.extend(f.finish());
        assert_eq!(got, expected, "cut at {}", cut);
    }
    let mut f = LineFramer::new();
    let mut got = Vec::new();
    for b in bytes {
        got.extend(f.push(&[*b]));
    }
    got.extend(f.finish());
    assert_eq!(got, expected);
}
