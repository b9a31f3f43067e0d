use llmprobe::cli::Args;
use llmprobe::metrics::{ConfigSnapshot, ConvTally};
use llmprobe::report::{exit_code, paint, push, render_conversation_counts, render_header, small_n_note, BOLD};
use llmprobe::text::{lines_of, thousands};

fn tally(total: usize, ctx: usize, mt: usize, errors: usize, cancelled: usize) -> ConvTally {
    ConvTally {
        total,
        context_limit: ctx,
        max_turns_hit: mt,
        errors,
        cancelled,
        turns_to_limit: vec![],
        context_depths: vec![],
    }
}

#[test]
fn paint_wraps_only_when_on() {
    assert_eq!(paint(true, BOLD, "x"), "\x1b[1mx\x1b[0m");
    assert_eq!(paint(false, BOLD, "x"), "x");
    let mut out = String::from("a");
    push(&mut out, "b".into());
    assert_eq!(out, "ab\n");
}

#[test]
fn header_lines() {
    let cfg = ConfigSnapshot {
        endpoint: "http://h/v1/chat/completions".into(),
        model: "m".into(),
        concurrency: 4,
        stream: true,
        max_tokens: None,
    };
    let mut out = String::new();
    render_header(&mut out, &cfg, false);
    assert_eq!(
        out,
        "llmprobe — http://h/v1/chat/completions  (model: m)\nmode: streaming · slots: 4 · max-tokens: unlimited\n"
    );
    let cfg = ConfigSnapshot { stream: false, max_tokens: Some(64), ..cfg };
    let mut out = String::new();
    render_header(&mut out, &cfg, false);
    assert!(out.ends_with("mode: non-streaming · slots: 4 · max-tokens: 64\n"));
}

#[test]
fn conversation_counts_line() {
    let mut out = String::new();
    render_conversation_counts(&mut out, &tally(10, 7, 1, 2, 0), false);
    assert_eq!(out, "Conversations\n  10 total   7 ctx-limit   2 error   1 max-turns   0 cancelled\n");
    let mut out = String::new();
    render_conversation_counts(&mut out, &tally(1, 1, 0, 0, 0), true);
    assert!(out.contains("\x1b[32m1 ctx-limit\x1b[0m"));
    assert!(out.contains("   0 error   "));
}

#[test]
fn small_sample_note() {
    assert_eq!(small_n_note(0), None);
    assert_eq!(small_n_note(5).as_deref(), Some("(small N: percentiles over 5 turns are approximate)"));
    assert_eq!(small_n_note(20), None);
}

#[test]
fn exit_codes() {
    assert_eq!(exit_code(0, 0), 0);
    assert_eq!(exit_code(3, 3), 1);
    assert_eq!(exit_code(3, 1), 2);
    assert_eq!(exit_code(3, 0), 0);
}

#[test]
fn thousands_groups_digits() {
    assert_eq!(thousands(0), "0");
    assert_eq!(thousands(999), "999");
    assert_eq!(thousands(1000), "1,000");
    assert_eq!(thousands(61440), "61,440");
    assert_eq!(thousands(16384), "16,384");
    assert_eq!(thousands(u64::MAX), "18,446,744,073,709,551,615");
    // Removing the separators gives the plain number.
    assert_eq!(thousands(1234567).replace(',', ""), "1234567");
}

#[test]
fn lines_match_str_lines() {
    for s in ["", "a", "a\n", "a\r\nb", "\n\nx\n", "trail\r", "x\ry\n"] {
        let want: Vec<String> = s.lines().map(|l| l.to_string()).collect();
        assert_eq!(lines_of(s), want, "input {s:?}");
    }
}

fn args() -> Args {
    Args {
        url: Some("http://x".into()),
        model: Some("m".into()),
        conversations: 0,
        concurrency: 1,
        stream: false,
        system: None,
        max_turns: 0,
        max_tokens: None,
        seed: None,
        timeout: 60,
        api_key: None,
        headers: vec![],
        no_tui: false,
        json: false,
        no_color: false,
        output: None,
        replay: None,
    }
}

#[test]
fn startup_decisions() {
    let a = args();
    assert_eq!(a.missing_input(), None);
    assert!(a.use_color(false, true));
    assert!(!a.use_color(true, true));
    assert!(!a.use_color(false, false));
    let a = Args { json: true, ..args() };
    assert!(!a.use_color(false, true));
    let a = Args { url: None, ..args() };
    assert_eq!(a.missing_input(), Some("--url is required unless --replay is given"));
    let a = Args { model: None, ..args() };
    assert_eq!(a.missing_input(), Some("--model is required unless --replay is given"));
}
