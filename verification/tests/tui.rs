use llmprobe::metrics::{ConfigSnapshot, ConversationOutcome, ErrorKind, GrowResult, TerminalReason, TurnOutcome};
use llmprobe::runner::RunEvent;
use llmprobe::tui::{
    centered_fixed, clamp_index, key_fits, detail_scroll, footer_hint, handle_key, max_scroll, openable, phase, phase_badge,
    push_capped, spark_scale, status_label, table_order, table_title, target_label, tick_work, token_cell, turn_body,
    Area, Key, KeyAction, LiveRun, Nav, PauseClock, Phase, SortKey, TickWork, Tone, SPARK_LEN,
};
use std::collections::VecDeque;
use std::time::Duration;

fn ok_turn(conv_id: usize, idx: usize, prompt: &str, reply: &str) -> TurnOutcome<f64> {
    TurnOutcome {
        conv_id,
        turn_idx: idx,
        prompt_tokens: Some(10),
        completion_tokens: Some(5),
        e2e: Duration::from_millis(3),
        ttft: None,
        tpot_ms: None,
        itl_ms: None,
        tps: None,
        success: true,
        error: None,
        prompt: prompt.into(),
        reply: Some(reply.into()),
        error_body: None,
    }
}

fn done_conv(id: usize) -> ConversationOutcome<f64> {
    ConversationOutcome {
        id,
        slot: 0,
        system: String::new(),
        turns: vec![ok_turn(id, 0, "p", "r")],
        terminal: TerminalReason::MaxTurns,
        wall_clock: Duration::from_secs(1),
    }
}

fn snapshot() -> ConfigSnapshot {
    ConfigSnapshot { endpoint: "http://x".into(), model: "m".into(), concurrency: 2, stream: false, max_tokens: None }
}

#[test]
fn sort_key_cycles() {
    let mut k = SortKey::Recent;
    let mut labels = Vec::new();
    for _ in 0..4 {
        labels.push(k.label());
        k = k.next();
    }
    assert_eq!(k, SortKey::Recent);
    assert_eq!(labels, vec!["recent", "turns", "TTFT", "TPS"]);
}

#[test]
fn phase_precedence() {
    assert_eq!(phase(true, true, true), Phase::Replay);
    assert_eq!(phase(false, true, true), Phase::Paused);
    assert_eq!(phase(false, false, true), Phase::Done);
    assert_eq!(phase(false, false, false), Phase::Live);
    assert_eq!(phase_badge(Phase::Paused), " PAUSED ");
    assert!(table_title(Phase::Replay).contains("[REPLAY]"));
    assert!(footer_hint(Phase::Live).starts_with(" q quit"));
}

#[test]
fn push_capped_keeps_last_samples() {
    let mut buf = VecDeque::new();
    for v in 0..(SPARK_LEN as u64 + 5) {
        push_capped(&mut buf, v);
    }
    assert_eq!(buf.len(), SPARK_LEN);
    assert_eq!(buf.front(), Some(&5));
    assert_eq!(buf.back(), Some(&(SPARK_LEN as u64 + 4)));
}

#[test]
fn centered_modal_fits() {
    let r = centered_fixed(Area { x: 0, y: 0, width: 200, height: 50 }, 102, 34);
    assert_eq!(r, Area { x: 49, y: 8, width: 102, height: 34 });
    let r = centered_fixed(Area { x: 2, y: 3, width: 40, height: 10 }, 102, 34);
    assert_eq!(r, Area { x: 2, y: 3, width: 40, height: 10 });
}

#[test]
fn keys_navigate_and_esc_steps_back() {
    let mut nav = Nav::new();
    assert_eq!(handle_key(&mut nav, Key::Down, 3, 0, 0, false), KeyAction::Continue);
    assert_eq!(handle_key(&mut nav, Key::Char('j'), 3, 0, 0, false), KeyAction::Continue);
    assert_eq!(handle_key(&mut nav, Key::Down, 3, 0, 0, false), KeyAction::Continue);
    assert_eq!(nav.selected, 2);
    handle_key(&mut nav, Key::Char('g'), 3, 0, 0, false);
    assert_eq!(nav.selected, 0);
    handle_key(&mut nav, Key::Char('s'), 3, 0, 0, false);
    assert_eq!(nav.sort, SortKey::Turns);
    handle_key(&mut nav, Key::Enter, 3, 4, 0, false);
    assert!(nav.show_detail);
    handle_key(&mut nav, Key::Char('G'), 3, 4, 0, false);
    assert_eq!(nav.detail_turn, 3);
    handle_key(&mut nav, Key::Enter, 3, 4, 10, false);
    assert!(nav.show_turn);
    handle_key(&mut nav, Key::Char('x'), 3, 4, 10, false);
    assert!(nav.turn_expanded);
    handle_key(&mut nav, Key::Char('G'), 3, 4, 10, false);
    assert_eq!(nav.turn_scroll, 10);
    handle_key(&mut nav, Key::Down, 3, 4, 10, false);
    assert_eq!(nav.turn_scroll, 10);
    handle_key(&mut nav, Key::Esc, 3, 4, 10, false);
    assert!(!nav.show_turn && nav.show_detail);
    handle_key(&mut nav, Key::Esc, 3, 4, 10, false);
    assert!(!nav.show_detail);
    assert_eq!(handle_key(&mut nav, Key::Char(' '), 3, 4, 10, false), KeyAction::TogglePause);
    assert_eq!(handle_key(&mut nav, Key::Char('p'), 3, 4, 10, true), KeyAction::Continue);
    handle_key(&mut nav, Key::Char('?'), 3, 4, 10, false);
    assert!(nav.show_help);
    assert_eq!(handle_key(&mut nav, Key::Char('q'), 3, 4, 10, false), KeyAction::Continue);
    assert!(!nav.show_help);
    assert_eq!(handle_key(&mut nav, Key::Esc, 3, 4, 10, false), KeyAction::Quit);
}

#[test]
fn live_run_bookkeeping() {
    let mut live: LiveRun<f64> = LiveRun::new(2);
    assert!(!live.apply(RunEvent::ConvStarted { conv_id: 1, slot: 1 }));
    assert!(!live.apply(RunEvent::ConvStarted { conv_id: 0, slot: 0 }));
    assert_eq!(live.partial.values().map(|p| p.conv_id).collect::<Vec<_>>(), vec![0, 1]);
    live.apply(RunEvent::TurnStarted { conv_id: 0, turn_idx: 0 });
    live.apply(RunEvent::TurnFinished { conv_id: 0, turn_idx: 0, outcome: ok_turn(0, 0, "a", "b") });
    live.apply(RunEvent::TurnFinished { conv_id: 7, turn_idx: 0, outcome: ok_turn(7, 0, "a", "b") });
    assert_eq!(live.partial[&0].turns.len(), 1);
    assert_eq!(live.partial[&1].turns.len(), 0);
    assert!(!live.apply(RunEvent::ConvFinished { conv_id: 0, outcome: done_conv(0) }));
    assert_eq!(live.partial.len(), 1);
    assert!(!live.done);
    assert!(live.apply(RunEvent::ConvFinished { conv_id: 1, outcome: done_conv(1) }));
    assert!(live.done);
    // Done is reported once only.
    assert!(!live.apply(RunEvent::ConvFinished { conv_id: 2, outcome: done_conv(2) }));
}

#[test]
fn snapshot_cancels_partial_conversations() {
    let mut live: LiveRun<f64> = LiveRun::new(0);
    assert!(live.infinite());
    live.apply(RunEvent::ConvStarted { conv_id: 3, slot: 0 });
    live.apply(RunEvent::ConvStarted { conv_id: 4, slot: 1 });
    live.apply(RunEvent::TurnFinished { conv_id: 4, turn_idx: 0, outcome: ok_turn(4, 0, "q", "a") });
    live.apply(RunEvent::ConvFinished { conv_id: 9, outcome: done_conv(9) });
    assert!(!live.done);
    let r: GrowResult<f64> = live.into_result(Duration::from_secs(5), snapshot());
    assert_eq!(r.conversations.len(), 2);
    assert_eq!(r.conversations[0].id, 9);
    assert_eq!(r.conversations[1].id, 4);
    assert_eq!(r.conversations[1].slot, 1);
    assert_eq!(r.conversations[1].terminal, TerminalReason::Cancelled);
    assert_eq!(r.conversations[1].turns.len(), 1);
    assert_eq!(r.conversations[1].wall_clock, Duration::ZERO);
    assert_eq!(r.conversations[0].wall_clock, Duration::from_secs(1));
    assert_eq!(r.wall_clock, Duration::from_secs(5));
    let replay = LiveRun::replaying(r);
    assert!(replay.done);
    assert_eq!(replay.total_conversations, 2);
}

#[test]
fn turn_view_collapsed_and_expanded() {
    let turns = vec![ok_turn(0, 0, "seed q", "first answer"), ok_turn(0, 1, "line one\r\nline two\n", "")];
    let body = turn_body(&turns, 1, false);
    let texts: Vec<&str> = body.iter().map(|l| l.text.as_str()).collect();
    assert!(texts[0].starts_with("  ── REQUEST (last of 3 messages · x to expand) ─"));
    assert_eq!(texts[0].chars().count(), 107);
    assert_eq!(body[0].tone, Tone::Dim);
    assert_eq!(&texts[1..3], &["  line one", "  line two"]);
    assert_eq!(texts[3], "");
    assert!(texts[4].starts_with("  ── RESPONSE (assistant) "));
    assert_eq!(texts[5], "  (empty response)");
    assert_eq!(body.len(), 6);

    let body = turn_body(&turns, 1, true);
    let texts: Vec<&str> = body.iter().map(|l| l.text.as_str()).collect();
    assert!(texts[0].starts_with("  ── REQUEST (3 messages · x to collapse) "));
    assert_eq!(&texts[1..7], &["  [user]", "  seed q", "  [assistant]", "  first answer", "  [user]", "  line one"]);
    assert_eq!(body[1].tone, Tone::Accent);

    let failed = vec![TurnOutcome::<f64>::failed(0, 0, Duration::from_millis(1), ErrorKind::Timeout)];
    let body = turn_body(&failed, 0, false);
    assert!(body[0].text.starts_with("  ── REQUEST (user) "));
    assert_eq!(body[1].text, "  (empty)");
    assert_eq!(body.last().unwrap().text, "  request failed: timeout");
    assert_eq!(body.last().unwrap().tone, Tone::Bad);
}

#[test]
fn view_helpers() {
    assert_eq!(max_scroll(&[1; 38]), 0);
    assert_eq!(max_scroll(&[0, 107, 108, 214, 215]), 0);
    assert_eq!(max_scroll(&[107 * 40]), 2);
    assert_eq!(clamp_index(5, 3), 2);
    assert_eq!(clamp_index(1, 3), 1);
    assert_eq!(clamp_index(4, 0), 0);
    assert_eq!(detail_scroll(5, 10), 0);
    assert_eq!(detail_scroll(5, 40), 14);
    let t = ok_turn(0, 0, "p", "r");
    assert_eq!(status_label(&t), "✓ ok");
    assert!(openable(&t));
    let mut quiet = ok_turn(0, 0, "p", "");
    quiet.reply = None;
    assert!(!openable(&quiet));
    let f = TurnOutcome::<f64>::failed(0, 0, Duration::from_millis(1), ErrorKind::Http(503));
    assert_eq!(status_label(&f), "✗ HTTP 503");
    assert!(openable(&f));
    assert_eq!(token_cell(0), "—");
    assert_eq!(token_cell(1234567), "1,234,567");
    assert_eq!(target_label(0), "∞");
    assert_eq!(target_label(20), "20");
    assert_eq!(spark_scale(&[]), (0, 0));
    assert_eq!(spark_scale(&[3, 9, 4]), (4, 9));
}

#[test]
fn pause_time_is_excluded() {
    let mut c = PauseClock::new();
    assert_eq!(c.elapsed(100), 100);
    c.toggle(100);
    assert!(c.is_paused());
    assert_eq!(c.elapsed(160), 100);
    c.toggle(160);
    assert!(!c.is_paused());
    assert_eq!(c.elapsed(200), 140);
    c.freeze(250);
    assert_eq!(c.elapsed(10_000), 190);
}

#[test]
fn tick_decisions() {
    assert_eq!(tick_work(true, false, 0, 240, false), TickWork::Skip);
    assert_eq!(tick_work(false, true, 100, 240, false), TickWork::Skip);
    assert_eq!(tick_work(false, true, 240, 240, false), TickWork::Recompute { push_samples: true });
    assert_eq!(tick_work(false, false, 0, 240, true), TickWork::Recompute { push_samples: false });
}

#[test]
fn table_orders() {
    let rows = vec![(0, 5), (1, 2), (2, 5), (3, 9)];
    assert_eq!(table_order(&rows, false), vec![3, 2, 1, 0]);
    assert_eq!(table_order(&rows, true), vec![3, 2, 0, 1]);
    let many: Vec<(usize, usize)> = (0..600).map(|i| (i, 1)).collect();
    let order = table_order(&many, false);
    assert_eq!(order.len(), 500);
    assert_eq!(order[0], 599);
}

#[test]
fn key_range_guard() {
    let mut nav = Nav::new();
    assert!(key_fits(&nav, Key::Down));
    nav.selected = usize::MAX;
    assert!(!key_fits(&nav, Key::Char('j')));
    assert!(key_fits(&nav, Key::Up));
    nav.show_help = true;
    assert!(key_fits(&nav, Key::Down));
}

#[test]
fn failed_turn_shows_error_body() {
    let err = llmprobe::error::ProbeError::Api { status: 400, body: "bad request\nfield x".into() };
    let failed = vec![TurnOutcome::<f64>::from_error(0, 0, Duration::from_millis(1), &err)];
    let body = turn_body(&failed, 0, false);
    let n = body.len();
    assert_eq!(body[n - 2].text, "  bad request");
    assert_eq!(body[n - 1].text, "  field x");
    assert_eq!(body[n - 1].tone, Tone::Bad);
    assert!(body[n - 3].text.starts_with("  ── RESPONSE (assistant) "));
}

#[test]
fn snapshot_orders_cancelled_by_id() {
    let mut live: LiveRun<f64> = LiveRun::new(0);
    for id in [5usize, 2, 9] {
        live.apply(RunEvent::ConvStarted { conv_id: id, slot: id });
        live.apply(RunEvent::TurnFinished { conv_id: id, turn_idx: 0, outcome: ok_turn(id, 0, "q", "a") });
    }
    live.apply(RunEvent::ConvStarted { conv_id: 1, slot: 0 });
    let r: GrowResult<f64> = live.into_result(Duration::from_secs(1), snapshot());
    assert_eq!(r.conversations.iter().map(|c| c.id).collect::<Vec<_>>(), vec![2, 5, 9]);
    assert!(r.conversations.iter().all(|c| c.terminal == TerminalReason::Cancelled));
}
