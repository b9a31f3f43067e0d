use llmprobe::error::ProbeError;
use llmprobe::metrics::{
    min_max, percentile, request_messages, tally, tally_in_range, ConfigSnapshot, ConversationOutcome, ErrorKind,
    GrowResult, TerminalReason, TurnOutcome,
};
use std::time::Duration;

fn turn(conv_id: usize, idx: usize, tpot: f64) -> TurnOutcome<f64> {
    TurnOutcome {
        conv_id,
        turn_idx: idx,
        prompt_tokens: Some(100 * (idx as u32 + 1)),
        completion_tokens: Some(50),
        e2e: Duration::from_millis(500),
        ttft: Some(Duration::from_millis(200)),
        tpot_ms: Some(tpot),
        itl_ms: None,
        tps: Some(80.0),
        success: true,
        error: None,
        prompt: "prompt".into(),
        reply: Some("text".into()),
        error_body: None,
    }
}

fn snapshot() -> ConfigSnapshot {
    ConfigSnapshot { endpoint: "http://x".into(), model: "m".into(), concurrency: 1, stream: true, max_tokens: None }
}

fn conv(id: usize, turns: Vec<TurnOutcome<f64>>, terminal: TerminalReason) -> ConversationOutcome<f64> {
    ConversationOutcome { id, slot: 0, system: "system".into(), turns, terminal, wall_clock: Duration::from_secs(10) }
}

#[test]
fn percentile_nearest_rank() {
    let s = [1.0, 2.0, 3.0, 4.0, 5.0];
    assert_eq!(percentile(&s, 50), Some(3.0));
    assert_eq!(percentile(&s, 95), Some(5.0));
}

#[test]
fn percentile_edges() {
    let empty: [u32; 0] = [];
    assert_eq!(percentile(&empty, 50), None);
    let s = [10u32, 20, 30, 40];
    assert_eq!(percentile(&s, 0), Some(10));
    assert_eq!(percentile(&s, 25), Some(10));
    assert_eq!(percentile(&s, 26), Some(20));
    assert_eq!(percentile(&s, 100), Some(40));
    assert_eq!(percentile(&s, 500), Some(40));
}

#[test]
fn min_max_of_samples() {
    assert_eq!(min_max(&[]), None);
    assert_eq!(min_max(&[7, 3, 9, 3]), Some((3, 9)));
}

#[test]
fn degradation_buckets() {
    // One conversation of 8 turns with growing TPOT.
    let c = conv(0, (0..8).map(|i| turn(0, i, 10.0 + i as f64)).collect(), TerminalReason::ContextLimit);
    let result = GrowResult { conversations: vec![c], wall_clock: Duration::from_secs(10), config: snapshot() };
    assert!(tally_in_range(&result));
    let t = tally(&result);
    assert!(t.degradation.len() >= 2, "expected at least 2 buckets");
    let avg = |v: &[f64]| v.iter().sum::<f64>() / v.len() as f64;
    assert!(avg(&t.degradation[1].tpot_ms) > avg(&t.degradation[0].tpot_ms), "TPOT should grow");
    assert_eq!(t.degradation[0].label, "turns 1\u{2013}4");
    assert_eq!(t.degradation[1].label, "turns 5\u{2013}8");
    assert_eq!(t.degradation[0].tpot_ms, vec![10.0, 11.0, 12.0, 13.0]);
}

#[test]
fn tally_counts_and_selections() {
    let mut overflow = TurnOutcome::<f64>::failed(0, 3, Duration::from_millis(5), ErrorKind::ContextOverflow);
    overflow.prompt = "p".into();
    let mut turns0: Vec<TurnOutcome<f64>> = (0..3).map(|i| turn(0, i, 10.0)).collect();
    turns0.push(overflow);
    let c0 = conv(0, turns0, TerminalReason::ContextLimit);
    let c1 = conv(1, vec![turn(1, 0, 5.0)], TerminalReason::MaxTurns);
    let c2 = conv(2, vec![TurnOutcome::failed(2, 0, Duration::from_millis(1), ErrorKind::Timeout)], TerminalReason::Error(ErrorKind::Timeout));
    let c3 = conv(3, vec![], TerminalReason::Cancelled);
    let result = GrowResult { conversations: vec![c0, c1, c2, c3], wall_clock: Duration::from_secs(1), config: snapshot() };
    assert!(tally_in_range(&result));
    let t = tally(&result);
    assert_eq!(t.conversations.total, 4);
    assert_eq!(t.conversations.context_limit, 1);
    assert_eq!(t.conversations.max_turns_hit, 1);
    assert_eq!(t.conversations.errors, 1);
    assert_eq!(t.conversations.cancelled, 1);
    // The four endings partition the conversations.
    assert_eq!(
        t.conversations.context_limit + t.conversations.max_turns_hit + t.conversations.errors + t.conversations.cancelled,
        t.conversations.total
    );
    assert_eq!(t.conversations.turns_to_limit, vec![3]);
    assert_eq!(t.conversations.context_depths, vec![300]);
    // The overflow turn is excluded from the denominator; the timeout is not.
    assert_eq!(t.turns.total_turns, 5);
    assert_eq!(t.turns.ok_turns, 4);
    assert_eq!(t.turns.total_completion_tokens, 200);
    assert_eq!(t.turns.output_lens, vec![50, 50, 50, 50]);
    assert_eq!(t.turns.tpot_ms, vec![10.0, 10.0, 10.0, 5.0]);
    assert_eq!(t.turns.ttft.len(), 4);
}

#[test]
fn conversation_summaries() {
    let mut turns: Vec<TurnOutcome<f64>> = (0..3).map(|i| turn(0, i, 1.0)).collect();
    turns.push(TurnOutcome::failed(0, 3, Duration::from_millis(1), ErrorKind::ContextOverflow));
    let c = conv(0, turns, TerminalReason::ContextLimit);
    assert_eq!(c.ok_turns().len(), 3);
    assert_eq!(c.context_depth(), Some(300));
    assert_eq!(c.total_prompt_tokens(), 600);
    assert_eq!(c.total_completion_tokens(), 150);
}

#[test]
fn request_messages_reconstructs_history() {
    let t = |idx: usize, prompt: &str, reply: &str| TurnOutcome::<f64> {
        conv_id: 0,
        turn_idx: idx,
        prompt_tokens: Some(10),
        completion_tokens: Some(5),
        e2e: Duration::from_millis(100),
        ttft: None,
        tpot_ms: None,
        itl_ms: None,
        tps: None,
        success: true,
        error: None,
        prompt: prompt.into(),
        reply: Some(reply.into()),
        error_body: None,
    };
    let c = conv(0, vec![t(0, "seed-prompt", "reply-0"), t(1, "followup-prompt", "reply-1")], TerminalReason::ContextLimit);
    // Turn 0 sees only its own (seed) prompt.
    assert_eq!(request_messages(&c.turns, 0), vec![("user".to_string(), "seed-prompt".to_string())]);
    // Turn 1 sees the seed, its reply, and this turn's follow-up prompt.
    assert_eq!(
        request_messages(&c.turns, 1),
        vec![
            ("user".to_string(), "seed-prompt".to_string()),
            ("assistant".to_string(), "reply-0".to_string()),
            ("user".to_string(), "followup-prompt".to_string()),
        ]
    );
}

#[test]
fn error_kinds_and_labels() {
    assert_eq!(ErrorKind::from_probe(&ProbeError::Timeout), ErrorKind::Timeout);
    assert_eq!(ErrorKind::from_probe(&ProbeError::Http { timeout: true, message: "t".into() }), ErrorKind::Timeout);
    assert_eq!(ErrorKind::from_probe(&ProbeError::Http { timeout: false, message: "c".into() }), ErrorKind::Connect);
    assert_eq!(ErrorKind::from_probe(&ProbeError::Api { status: 502, body: String::new() }), ErrorKind::Http(502));
    assert_eq!(
        ErrorKind::from_probe(&ProbeError::ContextOverflow { body: String::new() }),
        ErrorKind::ContextOverflow
    );
    assert_eq!(ErrorKind::from_probe(&ProbeError::Decode("d".into())), ErrorKind::Decode);
    assert_eq!(ErrorKind::from_probe(&ProbeError::Stream("s".into())), ErrorKind::Stream);
    assert_eq!(ErrorKind::from_probe(&ProbeError::Config("c".into())), ErrorKind::Config);
    assert_eq!(ErrorKind::Http(429).label(), "HTTP 429");
    assert_eq!(ErrorKind::ContextOverflow.label(), "ctx-limit");
    assert_eq!(TerminalReason::Error(ErrorKind::Timeout).label(), "error(timeout)");
    assert_eq!(TerminalReason::ContextLimit.label(), "ctx-limit");
    assert_eq!(TerminalReason::MaxTurns.label(), "max-turns");
    assert_eq!(TerminalReason::Cancelled.label(), "cancelled");
}

#[test]
fn clean_run_has_full_success_rate() {
    // Every conversation grows cleanly and ends at the context limit.
    let mut convs = Vec::new();
    for id in 0..3 {
        let mut turns: Vec<TurnOutcome<f64>> = (0..3).map(|i| turn(id, i, 10.0)).collect();
        turns.push(TurnOutcome::failed(id, 3, Duration::from_millis(1), ErrorKind::ContextOverflow));
        convs.push(conv(id, turns, TerminalReason::ContextLimit));
    }
    let result = GrowResult { conversations: convs, wall_clock: Duration::from_secs(1), config: snapshot() };
    let t = tally(&result);
    assert_eq!(t.turns.ok_turns, 9);
    assert_eq!(t.turns.total_turns, 9, "overflow turn excluded from denominator");
}

#[test]
fn context_depth_is_last_successful_turn() {
    let mut late = turn(0, 1, 1.0);
    late.prompt_tokens = None;
    let c = conv(0, vec![turn(0, 0, 1.0), late], TerminalReason::ContextLimit);
    assert_eq!(c.context_depth(), None);
    let f = TurnOutcome::<f64>::failed(0, 0, Duration::from_millis(1), ErrorKind::Timeout);
    let c = conv(0, vec![f], TerminalReason::Error(ErrorKind::Timeout));
    assert_eq!(c.context_depth(), None);
}

#[test]
fn failed_turn_keeps_server_body() {
    let d = Duration::from_millis(2);
    let t = TurnOutcome::<f64>::from_error(1, 2, d, &ProbeError::Api { status: 500, body: "boom".into() });
    assert_eq!(t.error, Some(ErrorKind::Http(500)));
    assert_eq!(t.error_body.as_deref(), Some("boom"));
    assert!(!t.success);
    let t = TurnOutcome::<f64>::from_error(1, 2, d, &ProbeError::ContextOverflow { body: "too long".into() });
    assert_eq!(t.error, Some(ErrorKind::ContextOverflow));
    assert_eq!(t.error_body.as_deref(), Some("too long"));
    let t = TurnOutcome::<f64>::from_error(1, 2, d, &ProbeError::Timeout);
    assert_eq!(t.error, Some(ErrorKind::Timeout));
    assert_eq!(t.error_body, None);
    let t = TurnOutcome::<f64>::from_error(1, 2, d, &ProbeError::Api { status: 502, body: String::new() });
    assert_eq!(t.error_body, None);
}
