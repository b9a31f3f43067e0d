use llmprobe::config::RunConfig;
use llmprobe::metrics::{ErrorKind, TerminalReason, TurnOutcome};
use llmprobe::prompts::{
    pick_in_category, pick_other, pick_other_in_category, PromptSampler, CATEGORY_COUNT, PROMPT_COUNT, SYSTEM_COUNT,
};
use llmprobe::runner::{may_run, may_start, ConversationRun};
use std::time::Duration;

fn cfg(max_turns: usize, system: Option<&str>) -> RunConfig {
    RunConfig::build(
        "http://127.0.0.1:9",
        "test-model".into(),
        1,
        1,
        false,
        system.map(|s| s.to_string()),
        max_turns,
        Some(64),
        Some(7),
        10,
        None,
        &[],
    )
    .expect("valid test config")
}

fn ok_turn(conv_id: usize, idx: usize) -> TurnOutcome<f64> {
    TurnOutcome {
        conv_id,
        turn_idx: idx,
        prompt_tokens: Some(10),
        completion_tokens: Some(5),
        e2e: Duration::from_millis(3),
        ttft: None,
        tpot_ms: None,
        itl_ms: None,
        tps: None,
        success: true,
        error: None,
        prompt: String::new(),
        reply: Some("assistant reply".into()),
        error_body: None,
    }
}

#[test]
fn seed_reproducibility() {
    let mut a = PromptSampler::new(Some(42)).unwrap();
    let mut b = PromptSampler::new(Some(42)).unwrap();
    assert_eq!(a.system(), b.system(), "system prompts must match for same seed");
    assert_eq!(a.seed(), b.seed(), "seed turns must match for same seed");
    for i in 0..10 {
        assert_eq!(a.next_followup(), b.next_followup(), "followup {i} must match for same seed");
    }
}

#[test]
fn followups_never_repeat_back_to_back() {
    let mut s = PromptSampler::new(Some(3)).unwrap();
    let mut last = s.seed();
    for _ in 0..50 {
        let next = s.next_followup();
        assert_ne!(next, last);
        last = next;
    }
    let mut last = s.next();
    for _ in 0..50 {
        let next = s.next();
        assert_ne!(next, last);
        last = next;
    }
    assert_eq!(PROMPT_COUNT, 510);
    assert_eq!(CATEGORY_COUNT, 34);
    assert_eq!(SYSTEM_COUNT, 25);
}

#[test]
fn conversation_history_grows_each_turn() {
    let cfg = cfg(0, None);
    let mut sampler = PromptSampler::new(Some(1)).unwrap();
    let mut run: ConversationRun<f64> = ConversationRun::start(&cfg, &mut sampler, 0, 0);
    let mut counts = Vec::new();
    for idx in 0..3 {
        assert_eq!(run.turn_due(), None);
        counts.push(run.messages.len());
        assert_eq!(run.record(ok_turn(0, idx)), None);
        let f = sampler.next_followup();
        run.grow(f);
    }
    counts.push(run.messages.len());
    let overflow = TurnOutcome::failed(0, 3, Duration::from_millis(1), ErrorKind::ContextOverflow);
    assert_eq!(run.turn_due(), None);
    assert_eq!(run.record(overflow), Some(TerminalReason::ContextLimit));
    // [system, seed] then two more messages per turn.
    assert_eq!(counts, vec![2, 4, 6, 8], "messages array must grow by 2 each turn (one assistant + one pool user turn)");
    let c = run.finish(Duration::from_secs(1));
    assert_eq!(c.terminal, TerminalReason::ContextLimit);
    assert_eq!(c.turns.len(), 4);
    assert_eq!(c.ok_turns().len(), 3);
    assert!(!c.turns[0].prompt.is_empty());
}

#[test]
fn max_turns_cap_stops_conversation() {
    let cfg = cfg(3, Some("fixed persona"));
    let mut sampler = PromptSampler::new(Some(9)).unwrap();
    let mut run: ConversationRun<f64> = ConversationRun::start(&cfg, &mut sampler, 5, 1);
    assert_eq!(run.messages[0], ("system".to_string(), "fixed persona".to_string()));
    for idx in 0..3 {
        assert_eq!(run.turn_due(), None);
        assert_eq!(run.record(ok_turn(5, idx)), None);
        run.grow(sampler.next_followup());
    }
    assert_eq!(run.turn_due(), Some(TerminalReason::MaxTurns));
    let c = run.finish(Duration::from_secs(2));
    assert_eq!(c.terminal, TerminalReason::MaxTurns);
    assert_eq!(c.turns.len(), 3);
    assert!(c.turns.iter().all(|t| t.success));
    assert_eq!(c.id, 5);
    assert_eq!(c.slot, 1);
    assert_eq!(c.system, "fixed persona");
}

#[test]
fn recorded_prompt_is_the_pending_user_message() {
    let cfg = cfg(0, Some(""));
    let mut sampler = PromptSampler::new(Some(11)).unwrap();
    let mut run: ConversationRun<f64> = ConversationRun::start(&cfg, &mut sampler, 0, 0);
    // An empty system prompt is not sent.
    assert_eq!(run.messages.len(), 1);
    let seed = run.messages[0].1.clone();
    run.record(ok_turn(0, 0));
    assert_eq!(run.turns[0].prompt, seed);
    run.grow("follow up please");
    assert_eq!(run.messages.last().unwrap(), &("user".to_string(), "follow up please".to_string()));
    let err = TurnOutcome::failed(0, 1, Duration::from_millis(1), ErrorKind::Http(500));
    assert_eq!(run.record(err), Some(TerminalReason::Error(ErrorKind::Http(500))));
    assert_eq!(run.turns[1].prompt, "follow up please");
}

#[test]
fn slot_gates() {
    assert!(may_start(0, 1000));
    assert!(may_start(4, 3));
    assert!(!may_start(4, 4));
    assert!(may_run(0, 99));
    assert!(may_run(4, 3));
    assert!(!may_run(4, 4));
}

#[test]
fn target_bounds_admitted_conversations() {
    let total = 5;
    let mut next = 0usize;
    let mut admitted = Vec::new();
    for _round in 0..4 {
        for _slot in 0..3 {
            let id = next;
            next += 1;
            if may_run(total, id) {
                admitted.push(id);
            }
        }
    }
    assert_eq!(admitted, vec![0, 1, 2, 3, 4]);
    assert!(admitted.len() <= total);
}

#[test]
fn unseeded_sampler_uses_os_randomness() {
    let mut s = PromptSampler::new(None).expect("operating-system randomness");
    let first = s.seed();
    assert!(!first.is_empty());
}

#[test]
fn draws_map_onto_other_prompts() {
    assert_eq!(pick_other(3, 2), 2);
    assert_eq!(pick_other(3, 3), 4);
    assert_eq!(pick_other(0, 0), 1);
    let picks: Vec<usize> = (0..PROMPT_COUNT - 1).map(|r| pick_other(7, r)).collect();
    assert!(!picks.contains(&7));
    assert_eq!(picks.len(), PROMPT_COUNT - 1);
    assert_eq!(pick_in_category(30, 15, 4), 34);
    assert_eq!(pick_other_in_category(30, 15, 32, 1), 31);
    assert_eq!(pick_other_in_category(30, 15, 32, 2), 33);
    assert_eq!(pick_other_in_category(30, 15, 30, 13), 44);
}

#[test]
fn same_seed_same_mixed_calls() {
    let mut a = PromptSampler::new(Some(7)).unwrap();
    let mut b = PromptSampler::new(Some(7)).unwrap();
    for _ in 0..5 {
        assert_eq!(a.seed(), b.seed());
        assert_eq!(a.system(), b.system());
        assert_eq!(a.next(), b.next());
        assert_eq!(a.next_followup(), b.next_followup());
    }
}

#[test]
fn shorter_session_replays_start() {
    let mut short = PromptSampler::new(Some(123)).unwrap();
    let mut long = PromptSampler::new(Some(123)).unwrap();
    let a: Vec<&str> = vec![short.system(), short.seed(), short.next_followup(), short.next_followup()];
    let b: Vec<&str> = vec![long.system(), long.seed(), long.next_followup(), long.next_followup(), long.next_followup(), long.next()];
    assert_eq!(a[..], b[..4]);
}
