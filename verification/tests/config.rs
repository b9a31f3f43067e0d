use llmprobe::config::{parse_kv, resolve_endpoint, RunConfig};
use llmprobe::error::ProbeError;

#[test]
fn url_truth_table() {
    let cases = [
        ("http://localhost:8000", "http://localhost:8000/v1/chat/completions"),
        ("http://localhost:8000/v1", "http://localhost:8000/v1/chat/completions"),
        ("http://localhost:8000/v1/", "http://localhost:8000/v1/chat/completions"),
        ("https://api.x.ai/v1/chat/completions", "https://api.x.ai/v1/chat/completions"),
    ];
    for (input, want) in cases {
        assert_eq!(resolve_endpoint(input).unwrap(), want, "input={input}");
    }
}

#[test]
fn url_rejects_non_absolute() {
    assert!(resolve_endpoint("localhost:8000").is_err());
    assert!(resolve_endpoint("").is_err());
    assert!(resolve_endpoint("ftp://x/v1").is_err());
}

#[test]
fn kv_parsing() {
    let h = parse_kv("header", ':', &["X-A: 1".into(), "X-B:2".into()]).unwrap();
    assert_eq!(h, vec![("X-A".into(), "1".into()), ("X-B".into(), "2".into())]);
    assert!(parse_kv("header", ':', &["bad".into()]).is_err());
}

fn build(concurrency: usize, timeout: u64, max_tokens: Option<u32>, headers: &[String]) -> Result<RunConfig, ProbeError> {
    RunConfig::build("http://x", "m".into(), 0, concurrency, false, None, 0, max_tokens, None, timeout, None, headers)
}

#[test]
fn build_accepts_valid_config() {
    let cfg = build(1, 1, None, &[]);
    assert!(cfg.is_ok());
}

#[test]
fn build_rejects_bad_values() {
    assert!(build(0, 1, None, &[]).is_err()); // concurrency=0
    assert!(build(1, 0, None, &[]).is_err()); // timeout=0
}

#[test]
fn url_error_messages() {
    assert_eq!(resolve_endpoint("  ").unwrap_err(), ProbeError::Config("url must not be empty".into()));
    assert_eq!(
        resolve_endpoint("localhost:8000").unwrap_err(),
        ProbeError::Config("url must be an absolute http(s) URL: localhost:8000".into())
    );
}

#[test]
fn url_forms_resolve_alike() {
    let a = resolve_endpoint("http://h:1").unwrap();
    let b = resolve_endpoint("http://h:1/v1").unwrap();
    let c = resolve_endpoint("http://h:1/v1/chat/completions").unwrap();
    assert_eq!(a, b);
    assert_eq!(b, c);
    // Resolving an already resolved endpoint changes nothing.
    assert_eq!(resolve_endpoint(&a).unwrap(), a);
}

#[test]
fn url_trims_space_and_slashes() {
    assert_eq!(resolve_endpoint("  http://h//  ").unwrap(), "http://h/v1/chat/completions");
}

#[test]
fn kv_error_message_and_trimming() {
    let err = parse_kv("header", ':', &["ok: 1".into(), "bad".into(), "also bad".into()]).unwrap_err();
    assert_eq!(err, ProbeError::Config("header must be in 'key: value' form: bad".into()));
    let h = parse_kv("header", ':', &["  K  :  a:b  ".into()]).unwrap();
    assert_eq!(h, vec![("K".into(), "a:b".into())]);
}

#[test]
fn build_error_order_and_fields() {
    assert_eq!(build(0, 0, Some(0), &[]).unwrap_err(), ProbeError::Config("concurrency must be >= 1".into()));
    assert_eq!(build(1, 0, Some(0), &[]).unwrap_err(), ProbeError::Config("timeout must be > 0".into()));
    assert_eq!(
        build(1, 5, Some(0), &[]).unwrap_err(),
        ProbeError::Config("max-tokens must be >= 1 when set".into())
    );
    assert!(build(1, 5, None, &["nocolon".into()]).is_err());
    let cfg = RunConfig::build(
        "http://x/v1/", "model-a".into(), 7, 3, true, Some("sys".into()), 4, Some(16), Some(42), 9,
        Some("key".into()), &["X-A: 1".into()],
    )
    .unwrap();
    assert_eq!(cfg.endpoint, "http://x/v1/chat/completions");
    assert_eq!(cfg.model, "model-a");
    assert_eq!(cfg.conversations, 7);
    assert_eq!(cfg.concurrency, 3);
    assert!(cfg.stream);
    assert_eq!(cfg.system_prompt.as_deref(), Some("sys"));
    assert_eq!(cfg.max_turns_per_conv, 4);
    assert_eq!(cfg.max_tokens, Some(16));
    assert_eq!(cfg.rng_seed, Some(42));
    assert_eq!(cfg.timeout_secs, 9);
    assert_eq!(cfg.api_key.as_deref(), Some("key"));
    assert_eq!(cfg.headers, vec![("X-A".to_string(), "1".to_string())]);
    let snap = cfg.snapshot();
    assert_eq!(snap.endpoint, "http://x/v1/chat/completions");
    assert_eq!(snap.concurrency, 3);
}

#[test]
fn seed_messages_start_with_system_then_seed() {
    let cfg = build(1, 1, None, &[]).unwrap();
    let m = cfg.seed_messages("pool persona", "first question");
    assert_eq!(
        m,
        vec![("system".to_string(), "pool persona".to_string()), ("user".to_string(), "first question".to_string())]
    );
    let m = cfg.seed_messages("", "q");
    assert_eq!(m, vec![("user".to_string(), "q".to_string())]);
}
