use llmprobe::error::{is_context_overflow, ProbeError};

#[test]
fn detects_vllm_context_overflow() {
    let body = r#"{"object":"error","message":"This model's maximum context length is 8192 tokens. However, you requested 8500 tokens.","type":"invalid_request_error","code":"context_length_exceeded"}"#;
    assert!(is_context_overflow(400, body));
}

#[test]
fn detects_openai_style() {
    assert!(is_context_overflow(400, "maximum context length is 4096"));
    assert!(is_context_overflow(413, "prompt is too long"));
}

#[test]
fn ignores_other_400s() {
    assert!(!is_context_overflow(400, "invalid model name"));
    assert!(!is_context_overflow(429, "context_length_exceeded")); // wrong status
    assert!(!is_context_overflow(200, "context_length_exceeded")); // not an error
}

#[test]
fn overflow_match_ignores_case() {
    assert!(is_context_overflow(400, "Request EXCEEDS THE LIMIT of the Context Window"));
    assert!(is_context_overflow(413, "Too Many Tokens"));
}

#[test]
fn error_messages() {
    assert_eq!(ProbeError::Api { status: 500, body: "boom".into() }.message(), "HTTP 500: boom");
    assert_eq!(ProbeError::ContextOverflow { body: "long".into() }.message(), "context overflow: long");
    assert_eq!(ProbeError::Timeout.message(), "request timed out");
    assert_eq!(ProbeError::Stream("x".into()).message(), "stream error: x");
    assert_eq!(ProbeError::Decode("y".into()).message(), "decode error: y");
    assert_eq!(ProbeError::Http { timeout: false, message: "refused".into() }.message(), "request error: refused");
    assert_eq!(ProbeError::Config("bad".into()).message(), "bad");
}
