use llmprobe::client::{
    decode_window,
    answered_outcome, build_request, cap_body, chunk_events, classify_failure, events_of, SseDecoder, SseEvent,
    SseLine, StreamState, BODY_LIMIT, ERR_BODY_LIMIT,
};
use llmprobe::config::RunConfig;
use llmprobe::error::ProbeError;
use llmprobe::types::{AssistantMsg, ChatChunk, ChatResponse, Choice, Delta, DeltaChoice, Usage};
use std::time::Duration;

fn usage_of(v: &serde_json::Value) -> Option<Usage> {
    let u = v.get("usage")?;
    if u.is_null() {
        return None;
    }
    Some(Usage {
        completion_tokens: u.get("completion_tokens")?.as_u64()? as u32,
        prompt_tokens: u.get("prompt_tokens")?.as_u64()? as u32,
    })
}

/// Parses one `data:` payload the way the streaming client does.
fn parse_chunk(payload: &str) -> Result<ChatChunk, String> {
    let v: serde_json::Value = serde_json::from_str(payload).map_err(|e| e.to_string())?;
    let empty = Vec::new();
    let choices = v
        .get("choices")
        .and_then(|c| c.as_array())
        .unwrap_or(&empty)
        .iter()
        .map(|c| DeltaChoice {
            delta: Delta {
                content: c
                    .get("delta")
                    .and_then(|d| d.get("content"))
                    .and_then(|s| s.as_str())
                    .map(|s| s.to_string()),
            },
        })
        .collect();
    Ok(ChatChunk { choices, usage: usage_of(&v) })
}

fn decode(d: &mut SseDecoder, bytes: &[u8]) -> Result<Vec<SseEvent>, ProbeError> {
    let lines = d.feed(bytes)?;
    let parsed: Vec<Result<ChatChunk, String>> = lines
        .iter()
        .map(|l| match l {
            SseLine::Data(p) => parse_chunk(p),
            SseLine::Done => Ok(ChatChunk { choices: vec![], usage: None }),
        })
        .collect();
    events_of(&lines, &parsed)
}

fn contents(events: &[SseEvent]) -> Vec<&str> {
    events
        .iter()
        .filter_map(|e| match e {
            SseEvent::Content(s) => Some(s.as_str()),
            _ => None,
        })
        .collect()
}

#[test]
fn parses_data_lines_and_done() {
    let mut d = SseDecoder::default();
    let input = "data: {\"choices\":[{\"delta\":{\"content\":\"Hello\"}}]}\ndata: {\"choices\":[{\"delta\":{\"content\":\" world\"}}]}\ndata: [DONE]\n";
    let events = decode(&mut d, input.as_bytes()).unwrap();
    assert_eq!(contents(&events), vec!["Hello", " world"]);
    assert_eq!(events.last(), Some(&SseEvent::Done));
}

#[test]
fn skips_role_only_priming_chunk() {
    let mut d = SseDecoder::default();
    let input = "data: {\"choices\":[{\"delta\":{\"role\":\"assistant\"}}]}\ndata: {\"choices\":[{\"delta\":{\"content\":\"\"}}]}\ndata: {\"choices\":[{\"delta\":{\"content\":\"hi\"}}]}\n";
    let events = decode(&mut d, input.as_bytes()).unwrap();
    assert_eq!(contents(&events), vec!["hi"]);
}

#[test]
fn handles_empty_choices_usage_chunk() {
    let mut d = SseDecoder::default();
    let input = "data: {\"choices\":[],\"usage\":{\"prompt_tokens\":3,\"completion_tokens\":7}}\n";
    let events = decode(&mut d, input.as_bytes()).unwrap();
    assert_eq!(events.len(), 1);
    match &events[0] {
        SseEvent::Usage(u) => {
            assert_eq!(u.completion_tokens, 7);
            assert_eq!(u.prompt_tokens, 3);
        }
        other => panic!("expected Usage, got {other:?}"),
    }
}

#[test]
fn reassembles_payload_split_across_reads() {
    let mut d = SseDecoder::default();
    assert!(decode(&mut d, b"data: {\"choices\":[{\"delta\":{\"con").unwrap().is_empty());
    assert!(decode(&mut d, b"tent\":\"split\"}}]}").unwrap().is_empty());
    let events = decode(&mut d, b"\n").unwrap();
    assert_eq!(contents(&events), vec!["split"]);
}

#[test]
fn ignores_comments_and_blank_lines() {
    let mut d = SseDecoder::default();
    let input = ": keep-alive comment\n\ndata: {\"choices\":[{\"delta\":{\"content\":\"x\"}}]}\n";
    let events = decode(&mut d, input.as_bytes()).unwrap();
    assert_eq!(contents(&events), vec!["x"]);
}

#[test]
fn malformed_json_is_stream_error() {
    let mut d = SseDecoder::default();
    let err = decode(&mut d, b"data: {not json}\n").unwrap_err();
    assert!(matches!(err, ProbeError::Stream(_)));
}

#[test]
fn strips_crlf_line_endings() {
    let mut d = SseDecoder::default();
    let input = "data: {\"choices\":[{\"delta\":{\"content\":\"crlf\"}}]}\r\ndata: [DONE]\r\n";
    let events = decode(&mut d, input.as_bytes()).unwrap();
    assert_eq!(contents(&events), vec!["crlf"]);
    assert_eq!(events.last(), Some(&SseEvent::Done));
}

#[test]
fn decoder_lines_and_invalid_utf8() {
    let mut d = SseDecoder::new();
    let lines = d.feed(b"event: x\ndata:no-space\ndata: [DONE]\ndata: after\n").unwrap();
    assert_eq!(lines, vec![SseLine::Data("no-space".into()), SseLine::Done]);
    let mut d = SseDecoder::new();
    let err = d.feed(b"data: \xff\xfe\n").unwrap_err();
    assert_eq!(err, ProbeError::Stream("invalid utf-8 in stream".into()));
}

#[test]
fn splitting_input_gives_same_lines() {
    let whole = b"data: a\r\n: c\ndata: b\ndata: [DONE]\n";
    let mut one = SseDecoder::new();
    let all = one.feed(whole).unwrap();
    let mut two = SseDecoder::new();
    let mut parts = two.feed(&whole[..9]).unwrap();
    parts.extend(two.feed(&whole[9..]).unwrap());
    assert_eq!(all, parts);
    assert_eq!(all, vec![SseLine::Data("a".into()), SseLine::Data("b".into()), SseLine::Done]);
}

#[test]
fn bad_chunk_message() {
    let lines = vec![SseLine::Data("x".into())];
    let parsed = vec![Err("expected value".to_string())];
    assert_eq!(events_of(&lines, &parsed).unwrap_err(), ProbeError::Stream("bad SSE chunk: expected value".into()));
}

#[test]
fn chunk_events_content_then_usage() {
    let c = ChatChunk {
        choices: vec![DeltaChoice { delta: Delta { content: Some("t".into()) } }],
        usage: Some(Usage { completion_tokens: 2, prompt_tokens: 1 }),
    };
    assert_eq!(
        chunk_events(&c),
        vec![SseEvent::Content("t".into()), SseEvent::Usage(Usage { completion_tokens: 2, prompt_tokens: 1 })]
    );
}

#[test]
fn cap_body_truncates_long_bodies() {
    let short = "abc".to_string();
    assert_eq!(cap_body(short.clone()), short);
    let long = "x".repeat(BODY_LIMIT + 10);
    let capped = cap_body(long);
    assert!(capped.starts_with(&"x".repeat(BODY_LIMIT)));
    assert!(capped.len() > BODY_LIMIT);
    assert!(capped.len() < BODY_LIMIT + 10 + 64);
    assert_ne!(capped, "x".repeat(BODY_LIMIT + 10));
}

#[test]
fn classify_failure_kinds() {
    let e = classify_failure(400, "This model's maximum context length is 4096");
    assert!(matches!(e, ProbeError::ContextOverflow { .. }));
    let e = classify_failure(500, "internal");
    assert_eq!(e, ProbeError::Api { status: 500, body: "internal".into() });
    let long = "y".repeat(ERR_BODY_LIMIT * 2);
    match classify_failure(503, &long) {
        ProbeError::Api { status, body } => {
            assert_eq!(status, 503);
            assert!(body.len() < long.len());
            assert!(body.starts_with(&"y".repeat(ERR_BODY_LIMIT)));
        }
        other => panic!("expected Api, got {other:?}"),
    }
}

#[test]
fn stream_state_accumulates() {
    let mut s = StreamState::new();
    assert!(!s.apply(SseEvent::Usage(Usage { completion_tokens: 5, prompt_tokens: 9 })));
    assert!(s.apply(SseEvent::Content("ab".into())));
    assert!(!s.apply(SseEvent::Content("cd".into())));
    assert!(!s.apply(SseEvent::Done));
    assert_eq!(s.reply, "abcd");
    assert!(s.done);
    assert_eq!(s.finish_reply().as_deref(), Some("abcd"));
    assert_eq!(StreamState::new().finish_reply(), None);
}

#[test]
fn answered_outcome_takes_usage_and_reply() {
    let resp = ChatResponse {
        choices: vec![Choice { message: AssistantMsg { content: Some("answer".into()) } }],
        usage: Some(Usage { completion_tokens: 4, prompt_tokens: 11 }),
    };
    let t = answered_outcome::<f64>(2, 3, &resp, Duration::from_millis(40), Some(100.0));
    assert_eq!(t.conv_id, 2);
    assert_eq!(t.turn_idx, 3);
    assert_eq!(t.prompt_tokens, Some(11));
    assert_eq!(t.completion_tokens, Some(4));
    assert!(t.success);
    assert_eq!(t.reply.as_deref(), Some("answer"));
    let empty = ChatResponse { choices: vec![], usage: None };
    let t = answered_outcome::<f64>(0, 0, &empty, Duration::from_millis(1), None);
    assert_eq!(t.reply, None);
    assert_eq!(t.prompt_tokens, None);
}

#[test]
fn request_body_fields() {
    let cfg = RunConfig::build("http://x", "m1".into(), 0, 1, true, None, 0, Some(64), None, 5, None, &[]).unwrap();
    let msgs = vec![("user".to_string(), "hello".to_string())];
    let req = build_request(&cfg, &msgs);
    assert_eq!(req.model, "m1");
    assert!(req.stream);
    assert_eq!(req.max_tokens, Some(64));
    assert_eq!(req.messages.len(), 1);
    assert_eq!(req.messages[0].role, "user");
    assert_eq!(req.messages[0].content, "hello");
    assert!(req.stream_options.map(|o| o.include_usage).unwrap_or(false));
}

#[test]
fn decode_window_choices() {
    // Several chunks: first to last.
    assert_eq!(decode_window(Some(100), Some(300), 1_000), Some(200));
    // A single chunk: end to end less the time to first token.
    assert_eq!(decode_window(Some(100), Some(100), 1_000), Some(900));
    // Nothing left after the first token.
    assert_eq!(decode_window(Some(1_000), Some(1_000), 1_000), None);
    // No content at all.
    assert_eq!(decode_window(None, None, 1_000), None);
}
