//! Per-turn and per-conversation measurement records, and the selection and
//! counting behind the aggregate report.
//!
//! The rate metrics of a turn (TPOT, ITL, TPS) are real numbers; they travel
//! here in the type parameter `F`, which this module never computes with.

use crate::error::ProbeError;
use crate::text::{decimal, decimal_chars, string_of};
use std::time::Duration;
use vstd::prelude::*;

verus! {

/// `Duration::clone`. Claimed: the clone equals the original (`Duration` is `Copy`).
pub assume_specification[ <Duration as Clone>::clone ](d: &Duration) -> (r: Duration)
    ensures
        r == *d,
;

// ── Error classification ──────────────────────────────────────────────────────

#[derive(Debug, Clone, Copy, PartialEq, Eq, Structural)]
pub enum ErrorKind {
    ContextOverflow,
    Http(u16),
    Timeout,
    Connect,
    Decode,
    Stream,
    /// Invalid configuration detected before any HTTP request was made.
    Config,
}

/// The kind recorded for a failed request.
pub open spec fn kind_of(err: ProbeError) -> ErrorKind {
    match err {
        ProbeError::ContextOverflow { .. } => ErrorKind::ContextOverflow,
        ProbeError::Api { status, .. } => ErrorKind::Http(status),
        ProbeError::Timeout => ErrorKind::Timeout,
        ProbeError::Decode(_) => ErrorKind::Decode,
        ProbeError::Stream(_) => ErrorKind::Stream,
        ProbeError::Http { timeout, .. } => if timeout {
            ErrorKind::Timeout
        } else {
            ErrorKind::Connect
        },
        ProbeError::Config(_) => ErrorKind::Config,
    }
}

/// The text shown for an error kind.
pub open spec fn kind_label(k: ErrorKind) -> Seq<char> {
    match k {
        ErrorKind::ContextOverflow => "ctx-limit"@,
        ErrorKind::Http(c) => "HTTP "@ + decimal(c as nat),
        ErrorKind::Timeout => "timeout"@,
        ErrorKind::Connect => "connect"@,
        ErrorKind::Decode => "decode"@,
        ErrorKind::Stream => "stream"@,
        ErrorKind::Config => "config"@,
    }
}

impl ErrorKind {
    pub fn from_probe(err: &ProbeError) -> (k: ErrorKind)
        ensures
            k == kind_of(*err),
    {
        match err {
            ProbeError::ContextOverflow { .. } => ErrorKind::ContextOverflow,
            ProbeError::Api { status, .. } => ErrorKind::Http(*status),
            ProbeError::Timeout => ErrorKind::Timeout,
            ProbeError::Decode(_) => ErrorKind::Decode,
            ProbeError::Stream(_) => ErrorKind::Stream,
            ProbeError::Http { timeout, .. } => {
                if *timeout {
                    ErrorKind::Timeout
                } else {
                    ErrorKind::Connect
                }
            },
            ProbeError::Config(_) => ErrorKind::Config,
        }
    }

    /// The display text of this kind (`ctx-limit`, `HTTP 500`, `timeout`, …).
    pub fn label(&self) -> (s: String)
        ensures
            s@ == kind_label(*self),
    {
        match self {
            ErrorKind::ContextOverflow => String::from_str("ctx-limit"),
            ErrorKind::Http(c) => {
                let mut s = String::from_str("HTTP ");
                let d = string_of(&decimal_chars(*c as u64));
                s.append(d.as_str());
                s
            },
            ErrorKind::Timeout => String::from_str("timeout"),
            ErrorKind::Connect => String::from_str("connect"),
            ErrorKind::Decode => String::from_str("decode"),
            ErrorKind::Stream => String::from_str("stream"),
            ErrorKind::Config => String::from_str("config"),
        }
    }
}

// ── Per-turn outcome ──────────────────────────────────────────────────────────

/// Measurement record for one turn inside a conversation.
#[derive(Debug, Clone)]
pub struct TurnOutcome<F> {
    pub conv_id: usize,
    pub turn_idx: usize,
    /// Prompt (input) tokens sent to the model this turn.
    pub prompt_tokens: Option<u32>,
    pub completion_tokens: Option<u32>,
    /// End-to-end latency: send → last byte received.
    pub e2e: Duration,
    /// Time to first content token (streaming only).
    pub ttft: Option<Duration>,
    /// `(e2e − ttft) / (completion_tokens − 1)` in ms; the per-step decode latency.
    pub tpot_ms: Option<F>,
    /// Mean of observed inter-token wall-clock gaps (streaming only).
    pub itl_ms: Option<F>,
    /// `completion_tokens / gen_time` in tokens/s.
    pub tps: Option<F>,
    pub success: bool,
    pub error: Option<ErrorKind>,
    /// The user prompt sent this turn (pool seed on turn 0, follow-up after).
    pub prompt: String,
    /// Captured assistant reply text, used to grow conversation history.
    pub reply: Option<String>,
    /// The server's error body of a refused turn, capped.
    pub error_body: Option<String>,
}

impl<F> TurnOutcome<F> {
    /// The record of a turn whose request failed with `error` after `e2e`.
    pub fn failed(conv_id: usize, turn_idx: usize, e2e: Duration, error: ErrorKind) -> (t: Self)
        ensures
            t.conv_id == conv_id,
            t.turn_idx == turn_idx,
            t.prompt_tokens is None,
            t.completion_tokens is None,
            t.e2e == e2e,
            t.ttft is None,
            t.tpot_ms is None,
            t.itl_ms is None,
            t.tps is None,
            !t.success,
            t.error == Some(error),
            t.prompt@ == Seq::<char>::empty(),
            t.reply is None,
            t.error_body is None,
    {
        TurnOutcome {
            conv_id,
            turn_idx,
            prompt_tokens: None,
            completion_tokens: None,
            e2e,
            ttft: None,
            tpot_ms: None,
            itl_ms: None,
            tps: None,
            success: false,
            error: Some(error),
            prompt: String::new(),
            reply: None,
            error_body: None,
        }
    }

    /// The record of a turn whose request failed with `err` after `e2e`: its
    /// kind, and the server's error body when the server sent one.
    pub fn from_error(conv_id: usize, turn_idx: usize, e2e: Duration, err: &ProbeError) -> (t: Self)
        ensures
            t.conv_id == conv_id,
            t.turn_idx == turn_idx,
            t.prompt_tokens is None,
            t.completion_tokens is None,
            t.e2e == e2e,
            t.ttft is None,
            t.tpot_ms is None,
            t.itl_ms is None,
            t.tps is None,
            !t.success,
            t.error == Some(kind_of(*err)),
            t.prompt@ == Seq::<char>::empty(),
            t.reply is None,
            body_view(t.error_body) == server_body(*err),
    {
        let mut t = TurnOutcome::failed(conv_id, turn_idx, e2e, ErrorKind::from_probe(err));
        t.error_body = match err {
            ProbeError::Api { body, .. } => if body.as_str().is_empty() {
                None
            } else {
                Some(crate::client::cap_body(body.clone()))
            },
            ProbeError::ContextOverflow { body } => if body.as_str().is_empty() {
                None
            } else {
                Some(crate::client::cap_body(body.clone()))
            },
            _ => None,
        };
        t
    }
}

/// The error body of a turn record, as characters.
pub open spec fn body_view(b: Option<String>) -> Option<Seq<char>> {
    match b {
        Some(s) => Some(s@),
        None => None,
    }
}

/// The error body the server sent with `err`, capped: the non-empty body of a
/// refusal (an API error or a context overflow); none for the other errors.
pub open spec fn server_body(err: ProbeError) -> Option<Seq<char>> {
    match err {
        ProbeError::Api { body, .. } => if body@.len() > 0 {
            Some(crate::client::capped(body@))
        } else {
            None
        },
        ProbeError::ContextOverflow { body } => if body@.len() > 0 {
            Some(crate::client::capped(body@))
        } else {
            None
        },
        _ => None,
    }
}

/// A turn record is consistent: it succeeded exactly when it carries no error.
pub open spec fn turn_wf<F>(t: TurnOutcome<F>) -> bool {
    t.success <==> t.error is None
}

// ── Per-conversation outcome ──────────────────────────────────────────────────

#[derive(Debug, Clone, Copy, PartialEq, Eq, Structural)]
pub enum TerminalReason {
    ContextLimit,
    MaxTurns,
    Error(ErrorKind),
    Cancelled,
}

/// The text shown for a terminal reason.
pub open spec fn terminal_label(r: TerminalReason) -> Seq<char> {
    match r {
        TerminalReason::ContextLimit => "ctx-limit"@,
        TerminalReason::MaxTurns => "max-turns"@,
        TerminalReason::Error(k) => "error("@ + kind_label(k) + ")"@,
        TerminalReason::Cancelled => "cancelled"@,
    }
}

impl TerminalReason {
    /// The display text of this reason (`ctx-limit`, `max-turns`, `error(…)`, `cancelled`).
    pub fn label(&self) -> (s: String)
        ensures
            s@ == terminal_label(*self),
    {
        match self {
            TerminalReason::ContextLimit => String::from_str("ctx-limit"),
            TerminalReason::MaxTurns => String::from_str("max-turns"),
            TerminalReason::Error(k) => {
                let mut s = String::from_str("error(");
                let inner = k.label();
                s.append(inner.as_str());
                s.append(")");
                s
            },
            TerminalReason::Cancelled => String::from_str("cancelled"),
        }
    }
}

#[derive(Debug, Clone)]
pub struct ConversationOutcome<F> {
    pub id: usize,
    pub slot: usize,
    /// System prompt used for this conversation (override or pool pick).
    pub system: String,
    pub turns: Vec<TurnOutcome<F>>,
    pub terminal: TerminalReason,
    pub wall_clock: Duration,
}

/// The successful turns of `s`, in order.
pub open spec fn ok_seq<F>(s: Seq<TurnOutcome<F>>) -> Seq<TurnOutcome<F>>
    decreases s.len(),
{
    if s.len() == 0 {
        seq![]
    } else if s.last().success {
        ok_seq(s.drop_last()).push(s.last())
    } else {
        ok_seq(s.drop_last())
    }
}

/// Prompt tokens of the last successful turn (`None` when no turn succeeded
/// or that turn reported no usage).
pub open spec fn depth_of<F>(s: Seq<TurnOutcome<F>>) -> Option<u32>
    decreases s.len(),
{
    if s.len() == 0 {
        None
    } else if s.last().success {
        s.last().prompt_tokens
    } else {
        depth_of(s.drop_last())
    }
}

pub open spec fn opt_tokens(o: Option<u32>) -> nat {
    match o {
        Some(v) => v as nat,
        None => 0,
    }
}

/// Sum of the prompt tokens reported by the successful turns of `s`.
pub open spec fn prompt_sum<F>(s: Seq<TurnOutcome<F>>) -> nat
    decreases s.len(),
{
    if s.len() == 0 {
        0
    } else if s.last().success {
        prompt_sum(s.drop_last()) + opt_tokens(s.last().prompt_tokens)
    } else {
        prompt_sum(s.drop_last())
    }
}

/// Sum of the completion tokens reported by the successful turns of `s`.
pub open spec fn completion_sum<F>(s: Seq<TurnOutcome<F>>) -> nat
    decreases s.len(),
{
    if s.len() == 0 {
        0
    } else if s.last().success {
        completion_sum(s.drop_last()) + opt_tokens(s.last().completion_tokens)
    } else {
        completion_sum(s.drop_last())
    }
}

proof fn lemma_prefix_step<T>(s: Seq<T>, i: int)
    requires
        0 <= i < s.len(),
    ensures
        s.take(i + 1).drop_last() == s.take(i),
        s.take(i + 1).last() == s[i],
        s.take(i + 1).len() > 0,
{
    assert(s.take(i + 1).drop_last() =~= s.take(i));
}

proof fn lemma_prompt_sum_mono<F>(s: Seq<TurnOutcome<F>>, i: int)
    requires
        0 <= i <= s.len(),
    ensures
        prompt_sum(s.take(i)) <= prompt_sum(s),
    decreases s.len() - i,
{
    if i < s.len() {
        lemma_prefix_step(s, i);
        lemma_prompt_sum_mono(s, i + 1);
    } else {
        assert(s.take(i) =~= s);
    }
}

proof fn lemma_completion_sum_mono<F>(s: Seq<TurnOutcome<F>>, i: int)
    requires
        0 <= i <= s.len(),
    ensures
        completion_sum(s.take(i)) <= completion_sum(s),
    decreases s.len() - i,
{
    if i < s.len() {
        lemma_prefix_step(s, i);
        lemma_completion_sum_mono(s, i + 1);
    } else {
        assert(s.take(i) =~= s);
    }
}

impl<F> ConversationOutcome<F> {
    /// Successful turns (excludes the final overflow/error turn).
    pub fn ok_turns(&self) -> (out: Vec<&TurnOutcome<F>>)
        ensures
            out@.len() == ok_seq(self.turns@).len(),
            forall|i: int| 0 <= i < out@.len() ==> *out@[i] == ok_seq(self.turns@)[i],
    {
        let mut out: Vec<&TurnOutcome<F>> = Vec::new();
        let mut i: usize = 0;
        while i < self.turns.len()
            invariant
                i <= self.turns.len(),
                out@.len() == ok_seq(self.turns@.take(i as int)).len(),
                forall|k: int|
                    0 <= k < out@.len() ==> *out@[k] == ok_seq(self.turns@.take(i as int))[k],
            decreases self.turns.len() - i,
        {
            proof {
                lemma_prefix_step(self.turns@, i as int);
            }
            let t = &self.turns[i];
            if t.success {
                out.push(t);
            }
            i += 1;
        }
        assert(self.turns@.take(i as int) =~= self.turns@);
        out
    }

    /// Total prompt tokens of the last successful turn (context depth reached).
    pub fn context_depth(&self) -> (d: Option<u32>)
        ensures
            d == depth_of(self.turns@),
    {
        let mut i: usize = self.turns.len();
        assert(self.turns@.take(i as int) =~= self.turns@);
        while i > 0
            invariant
                i <= self.turns.len(),
                depth_of(self.turns@) == depth_of(self.turns@.take(i as int)),
            decreases i,
        {
            proof {
                lemma_prefix_step(self.turns@, i - 1);
            }
            let t = &self.turns[i - 1];
            if t.success {
                return t.prompt_tokens;
            }
            i -= 1;
        }
        None
    }

    /// Sum of the prompt tokens reported by the successful turns.
    pub fn total_prompt_tokens(&self) -> (n: u64)
        requires
            prompt_sum(self.turns@) <= u64::MAX,
        ensures
            n == prompt_sum(self.turns@),
    {
        prompt_total(self.turns.as_slice())
    }

    /// Sum of the completion tokens reported by the successful turns.
    pub fn total_completion_tokens(&self) -> (n: u64)
        requires
            completion_sum(self.turns@) <= u64::MAX,
        ensures
            n == completion_sum(self.turns@),
    {
        completion_total(self.turns.as_slice())
    }
}

/// Sum of the prompt tokens reported by the successful turns of `turns`.
pub fn prompt_total<F>(turns: &[TurnOutcome<F>]) -> (n: u64)
    requires
        prompt_sum(turns@) <= u64::MAX,
    ensures
        n == prompt_sum(turns@),
{
    let mut n: u64 = 0;
    let mut i: usize = 0;
    while i < turns.len()
        invariant
            i <= turns.len(),
            prompt_sum(turns@) <= u64::MAX,
            n == prompt_sum(turns@.take(i as int)),
        decreases turns.len() - i,
    {
        proof {
            lemma_prefix_step(turns@, i as int);
            lemma_prompt_sum_mono(turns@, i + 1);
        }
        let t = &turns[i];
        if t.success {
            if let Some(v) = t.prompt_tokens {
                n = n + v as u64;
            }
        }
        i += 1;
    }
    assert(turns@.take(i as int) =~= turns@);
    n
}

/// Sum of the completion tokens reported by the successful turns of `turns`.
pub fn completion_total<F>(turns: &[TurnOutcome<F>]) -> (n: u64)
    requires
        completion_sum(turns@) <= u64::MAX,
    ensures
        n == completion_sum(turns@),
{
    let mut n: u64 = 0;
    let mut i: usize = 0;
    while i < turns.len()
        invariant
            i <= turns.len(),
            completion_sum(turns@) <= u64::MAX,
            n == completion_sum(turns@.take(i as int)),
        decreases turns.len() - i,
    {
        proof {
            lemma_prefix_step(turns@, i as int);
            lemma_completion_sum_mono(turns@, i + 1);
        }
        let t = &turns[i];
        if t.success {
            if let Some(v) = t.completion_tokens {
                n = n + v as u64;
            }
        }
        i += 1;
    }
    assert(turns@.take(i as int) =~= turns@);
    n
}

// ── Request reconstruction ────────────────────────────────────────────────────

/// A message list as (role, content) character sequences.
pub open spec fn msgs_view(m: Seq<(String, String)>) -> Seq<(Seq<char>, Seq<char>)> {
    m.map_values(|p: (String, String)| (p.0@, p.1@))
}

/// The reply text a turn contributes to the history (empty when none was captured).
pub open spec fn reply_text<F>(t: TurnOutcome<F>) -> Seq<char> {
    match t.reply {
        Some(r) => r@,
        None => Seq::<char>::empty(),
    }
}

/// The user/assistant exchange of every turn in `s`.
pub open spec fn history_view<F>(s: Seq<TurnOutcome<F>>) -> Seq<(Seq<char>, Seq<char>)>
    decreases s.len(),
{
    if s.len() == 0 {
        seq![]
    } else {
        history_view(s.drop_last()).push(("user"@, s.last().prompt@)).push(
            ("assistant"@, reply_text(s.last())),
        )
    }
}

/// The messages sent at `turn_idx`: the exchanges before it, then its own prompt.
pub open spec fn request_view<F>(s: Seq<TurnOutcome<F>>, turn_idx: int) -> Seq<
    (Seq<char>, Seq<char>),
> {
    let k = if turn_idx < s.len() {
        turn_idx
    } else {
        s.len() as int
    };
    if turn_idx < s.len() {
        history_view(s.take(k)).push(("user"@, s[turn_idx].prompt@))
    } else {
        history_view(s.take(k))
    }
}

fn role_message(role: &str, content: &String) -> (m: (String, String))
    ensures
        m.0@ == role@,
        m.1@ == content@,
{
    (String::from_str(role), content.clone())
}

/// Full message list sent to the API at `turn_idx`, reconstructed by interleaving
/// each turn's stored prompt with its captured reply.
pub fn request_messages<F>(turns: &[TurnOutcome<F>], turn_idx: usize) -> (msgs: Vec<(String, String)>)
    ensures
        msgs_view(msgs@) == request_view(turns@, turn_idx as int),
{
    let mut msgs: Vec<(String, String)> = Vec::new();
    let n = if turn_idx < turns.len() {
        turn_idx
    } else {
        turns.len()
    };
    let mut i: usize = 0;
    while i < n
        invariant
            n <= turns.len(),
            i <= n,
            msgs_view(msgs@) == history_view(turns@.take(i as int)),
        decreases n - i,
    {
        proof {
            lemma_prefix_step(turns@, i as int);
        }
        let t = &turns[i];
        let ghost before = msgs@;
        msgs.push(role_message("user", &t.prompt));
        let reply = match &t.reply {
            Some(r) => r.clone(),
            None => String::new(),
        };
        msgs.push((String::from_str("assistant"), reply));
        assert(msgs_view(msgs@) =~= msgs_view(before).push(("user"@, t.prompt@)).push(
            ("assistant"@, reply_text(*t)),
        ));
        i += 1;
    }
    if turn_idx < turns.len() {
        let ghost before = msgs@;
        msgs.push(role_message("user", &turns[turn_idx].prompt));
        assert(msgs_view(msgs@) =~= msgs_view(before).push(("user"@, turns@[turn_idx as int].prompt@)));
    }
    msgs
}

// ── Run-level result ──────────────────────────────────────────────────────────

/// Snapshot of the run settings needed for report display.
#[derive(Debug, Clone)]
pub struct ConfigSnapshot {
    pub endpoint: String,
    pub model: String,
    pub concurrency: usize,
    pub stream: bool,
    pub max_tokens: Option<u32>,
}

/// The complete output of a grow run.
#[derive(Debug, Clone)]
pub struct GrowResult<F> {
    pub conversations: Vec<ConversationOutcome<F>>,
    pub wall_clock: Duration,
    pub config: ConfigSnapshot,
}


// ── Aggregate selection and counting ─────────────────────────────────────────

/// Every turn of every conversation, conversation by conversation.
pub open spec fn all_turns<F>(c: Seq<ConversationOutcome<F>>) -> Seq<TurnOutcome<F>>
    decreases c.len(),
{
    if c.len() == 0 {
        seq![]
    } else {
        all_turns(c.drop_last()) + c.last().turns@
    }
}

/// Turns that count toward the success rate: all but context-overflow turns,
/// which are the designed end of a conversation rather than a failure.
pub open spec fn counted_turns<F>(s: Seq<TurnOutcome<F>>) -> nat
    decreases s.len(),
{
    if s.len() == 0 {
        0
    } else if s.last().error == Some(ErrorKind::ContextOverflow) {
        counted_turns(s.drop_last())
    } else {
        counted_turns(s.drop_last()) + 1
    }
}

/// Completion-token counts of the successful turns that report one.
pub open spec fn ok_lens<F>(s: Seq<TurnOutcome<F>>) -> Seq<u32>
    decreases s.len(),
{
    if s.len() == 0 {
        seq![]
    } else if s.last().success && s.last().completion_tokens is Some {
        ok_lens(s.drop_last()).push(s.last().completion_tokens->0)
    } else {
        ok_lens(s.drop_last())
    }
}

/// TTFT of the successful turns that measured one.
pub open spec fn ok_ttfts<F>(s: Seq<TurnOutcome<F>>) -> Seq<Duration>
    decreases s.len(),
{
    if s.len() == 0 {
        seq![]
    } else if s.last().success && s.last().ttft is Some {
        ok_ttfts(s.drop_last()).push(s.last().ttft->0)
    } else {
        ok_ttfts(s.drop_last())
    }
}

/// TPOT of the successful turns that measured one.
pub open spec fn ok_tpots<F>(s: Seq<TurnOutcome<F>>) -> Seq<F>
    decreases s.len(),
{
    if s.len() == 0 {
        seq![]
    } else if s.last().success && s.last().tpot_ms is Some {
        ok_tpots(s.drop_last()).push(s.last().tpot_ms->0)
    } else {
        ok_tpots(s.drop_last())
    }
}

/// ITL of the successful turns that measured one.
pub open spec fn ok_itls<F>(s: Seq<TurnOutcome<F>>) -> Seq<F>
    decreases s.len(),
{
    if s.len() == 0 {
        seq![]
    } else if s.last().success && s.last().itl_ms is Some {
        ok_itls(s.drop_last()).push(s.last().itl_ms->0)
    } else {
        ok_itls(s.drop_last())
    }
}

/// Each turn adds its own ITL to the ITL samples: a successful turn that
/// measured an ITL `v` adds `v`, whatever its TPOT; any other turn adds none.
pub proof fn law_itl_samples_from_itl<F>(s: Seq<TurnOutcome<F>>, t: TurnOutcome<F>)
    ensures
        t.success && t.itl_ms is Some ==> ok_itls(s.push(t)) == ok_itls(s).push(t.itl_ms->0),
        !t.success || t.itl_ms is None ==> ok_itls(s.push(t)) == ok_itls(s),
        ok_itls(s.push(t)).len() <= ok_itls(s).len() + 1,
{
    assert(s.push(t).drop_last() =~= s);
}

/// Per-request TPS of the successful turns that measured one.
pub open spec fn ok_tpss<F>(s: Seq<TurnOutcome<F>>) -> Seq<F>
    decreases s.len(),
{
    if s.len() == 0 {
        seq![]
    } else if s.last().success && s.last().tps is Some {
        ok_tpss(s.drop_last()).push(s.last().tps->0)
    } else {
        ok_tpss(s.drop_last())
    }
}

/// End-to-end latency of every successful turn.
pub open spec fn ok_e2es<F>(s: Seq<TurnOutcome<F>>) -> Seq<Duration>
    decreases s.len(),
{
    if s.len() == 0 {
        seq![]
    } else if s.last().success {
        ok_e2es(s.drop_last()).push(s.last().e2e)
    } else {
        ok_e2es(s.drop_last())
    }
}

/// How many conversations ended for each reason:
/// (context limit, max turns, error, cancelled).
pub open spec fn terminal_counts<F>(c: Seq<ConversationOutcome<F>>) -> (nat, nat, nat, nat)
    decreases c.len(),
{
    if c.len() == 0 {
        (0, 0, 0, 0)
    } else {
        let r = terminal_counts(c.drop_last());
        match c.last().terminal {
            TerminalReason::ContextLimit => (r.0 + 1, r.1, r.2, r.3),
            TerminalReason::MaxTurns => (r.0, r.1 + 1, r.2, r.3),
            TerminalReason::Error(_) => (r.0, r.1, r.2 + 1, r.3),
            TerminalReason::Cancelled => (r.0, r.1, r.2, r.3 + 1),
        }
    }
}

/// Successful-turn counts of the conversations that reached the context limit.
pub open spec fn limit_turns<F>(c: Seq<ConversationOutcome<F>>) -> Seq<usize>
    decreases c.len(),
{
    if c.len() == 0 {
        seq![]
    } else if c.last().terminal == TerminalReason::ContextLimit {
        limit_turns(c.drop_last()).push(ok_seq(c.last().turns@).len() as usize)
    } else {
        limit_turns(c.drop_last())
    }
}

/// Context depths of the conversations that reached the context limit and report one.
pub open spec fn limit_depths<F>(c: Seq<ConversationOutcome<F>>) -> Seq<u32>
    decreases c.len(),
{
    if c.len() == 0 {
        seq![]
    } else if c.last().terminal == TerminalReason::ContextLimit && depth_of(c.last().turns@) is Some {
        limit_depths(c.drop_last()).push(depth_of(c.last().turns@)->0)
    } else {
        limit_depths(c.drop_last())
    }
}

#[derive(Debug, Clone)]
/// Turn-level selections and counts for the aggregate report.
pub struct TurnTally<F> {
    /// Turns excluding context-overflow turns (the success-rate denominator).
    pub total_turns: usize,
    pub ok_turns: usize,
    pub total_completion_tokens: u64,
    /// Completion-token count of each successful turn that reports one.
    pub output_lens: Vec<u32>,
    pub ttft: Vec<Duration>,
    pub tpot_ms: Vec<F>,
    pub itl_ms: Vec<F>,
    pub e2e: Vec<Duration>,
    pub tps: Vec<F>,
}

#[derive(Debug, Clone)]
/// Conversation-level counts for the aggregate report.
pub struct ConvTally {
    pub total: usize,
    pub context_limit: usize,
    pub max_turns_hit: usize,
    pub errors: usize,
    pub cancelled: usize,
    /// Successful turns of each conversation that reached the context limit.
    pub turns_to_limit: Vec<usize>,
    /// Context depth of each conversation that reached the context limit.
    pub context_depths: Vec<u32>,
}

#[derive(Debug, Clone)]
/// The turns of one TPOT degradation bucket (turn indices `4b … 4b+3`).
pub struct DegradationGroup<F> {
    /// `turns lo–hi`, one-based.
    pub label: String,
    pub tpot_ms: Vec<F>,
}

#[derive(Debug, Clone)]
/// Everything the aggregate report is computed from.
pub struct Tally<F> {
    pub turns: TurnTally<F>,
    pub conversations: ConvTally,
    pub degradation: Vec<DegradationGroup<F>>,
}

proof fn lemma_all_turns_step<F>(c: Seq<ConversationOutcome<F>>, i: int, j: int)
    requires
        0 <= i < c.len(),
        0 <= j < c[i].turns@.len(),
    ensures
        (all_turns(c.take(i)) + c[i].turns@.take(j + 1)).drop_last() == all_turns(c.take(i))
            + c[i].turns@.take(j),
        (all_turns(c.take(i)) + c[i].turns@.take(j + 1)).last() == c[i].turns@[j],
        (all_turns(c.take(i)) + c[i].turns@.take(j + 1)).len() > 0,
{
    assert((all_turns(c.take(i)) + c[i].turns@.take(j + 1)).drop_last() =~= all_turns(c.take(i))
        + c[i].turns@.take(j));
}

proof fn lemma_all_turns_next<F>(c: Seq<ConversationOutcome<F>>, i: int)
    requires
        0 <= i < c.len(),
    ensures
        all_turns(c.take(i + 1)) == all_turns(c.take(i)) + c[i].turns@.take(
            c[i].turns@.len() as int,
        ),
{
    assert(c.take(i + 1).drop_last() =~= c.take(i));
    assert(c[i].turns@.take(c[i].turns@.len() as int) =~= c[i].turns@);
}

/// Every turn of every conversation, in order.
pub fn flat_turns<F>(convs: &[ConversationOutcome<F>]) -> (out: Vec<&TurnOutcome<F>>)
    ensures
        out@.len() == all_turns(convs@).len(),
        forall|k: int| 0 <= k < out@.len() ==> *out@[k] == all_turns(convs@)[k],
{
    let mut out: Vec<&TurnOutcome<F>> = Vec::new();
    let mut i: usize = 0;
    while i < convs.len()
        invariant
            i <= convs.len(),
            out@.len() == all_turns(convs@.take(i as int)).len(),
            forall|k: int| 0 <= k < out@.len() ==> *out@[k] == all_turns(convs@.take(i as int))[k],
        decreases convs.len() - i,
    {
        let turns = &convs[i].turns;
        let mut j: usize = 0;
        assert(turns@.take(0) =~= Seq::<TurnOutcome<F>>::empty());
        assert(all_turns(convs@.take(i as int)) + turns@.take(0) =~= all_turns(
            convs@.take(i as int),
        ));
        while j < turns.len()
            invariant
                i < convs.len(),
                turns@ == convs@[i as int].turns@,
                j <= turns.len(),
                out@.len() == (all_turns(convs@.take(i as int)) + turns@.take(j as int)).len(),
                forall|k: int|
                    0 <= k < out@.len() ==> *out@[k] == (all_turns(convs@.take(i as int))
                        + turns@.take(j as int))[k],
            decreases turns.len() - j,
        {
            proof {
                lemma_all_turns_step(convs@, i as int, j as int);
            }
            out.push(&turns[j]);
            j += 1;
        }
        proof {
            lemma_all_turns_next(convs@, i as int);
        }
        i += 1;
    }
    assert(convs@.take(i as int) =~= convs@);
    out
}

/// The conditions under which tallying cannot overflow: the completion-token
/// total fits in `u64`, and every degradation bucket label fits in `usize`.
pub open spec fn tally_fits<F>(convs: Seq<ConversationOutcome<F>>) -> bool {
    &&& completion_sum(all_turns(convs)) <= u64::MAX
    &&& labels_fit(all_turns(convs), bucket_count(convs))
}

proof fn lemma_counted_le<F>(s: Seq<TurnOutcome<F>>)
    ensures
        counted_turns(s) <= s.len(),
        ok_seq(s).len() <= s.len(),
    decreases s.len(),
{
    if s.len() > 0 {
        lemma_counted_le(s.drop_last());
    }
}

/// Selects and counts the turn-level samples of the aggregate report.
fn tally_turns<F: Copy>(convs: &[ConversationOutcome<F>]) -> (t: TurnTally<F>)
    requires
        completion_sum(all_turns(convs@)) <= u64::MAX,
    ensures
        t.total_turns == counted_turns(all_turns(convs@)),
        t.ok_turns == ok_seq(all_turns(convs@)).len(),
        t.total_completion_tokens == completion_sum(all_turns(convs@)),
        t.output_lens@ == ok_lens(all_turns(convs@)),
        t.ttft@ == ok_ttfts(all_turns(convs@)),
        t.tpot_ms@ == ok_tpots(all_turns(convs@)),
        t.itl_ms@ == ok_itls(all_turns(convs@)),
        t.e2e@ == ok_e2es(all_turns(convs@)),
        t.tps@ == ok_tpss(all_turns(convs@)),
{
    let ghost s = all_turns(convs@);
    let flat = flat_turns(convs);
    let mut total_turns: usize = 0;
    let mut ok_turns: usize = 0;
    let mut total_completion_tokens: u64 = 0;
    let mut output_lens: Vec<u32> = Vec::new();
    let mut ttft: Vec<Duration> = Vec::new();
    let mut tpot_ms: Vec<F> = Vec::new();
    let mut itl_ms: Vec<F> = Vec::new();
    let mut e2e: Vec<Duration> = Vec::new();
    let mut tps: Vec<F> = Vec::new();
    let mut i: usize = 0;
    while i < flat.len()
        invariant
            s == all_turns(convs@),
            flat@.len() == s.len(),
            forall|k: int| 0 <= k < flat@.len() ==> *flat@[k] == s[k],
            completion_sum(s) <= u64::MAX,
            i <= flat.len(),
            total_turns == counted_turns(s.take(i as int)),
            ok_turns == ok_seq(s.take(i as int)).len(),
            total_completion_tokens == completion_sum(s.take(i as int)),
            output_lens@ == ok_lens(s.take(i as int)),
            ttft@ == ok_ttfts(s.take(i as int)),
            tpot_ms@ == ok_tpots(s.take(i as int)),
            itl_ms@ == ok_itls(s.take(i as int)),
            e2e@ == ok_e2es(s.take(i as int)),
            tps@ == ok_tpss(s.take(i as int)),
        decreases flat.len() - i,
    {
        proof {
            lemma_prefix_step(s, i as int);
            lemma_completion_sum_mono(s, i + 1);
            lemma_counted_le(s.take(i as int));
        }
        let t: &TurnOutcome<F> = flat[i];
        if t.error != Some(ErrorKind::ContextOverflow) {
            total_turns += 1;
        }
        if t.success {
            ok_turns += 1;
            if let Some(c) = t.completion_tokens {
                total_completion_tokens = total_completion_tokens + c as u64;
                output_lens.push(c);
            }
            if let Some(d) = t.ttft {
                ttft.push(d);
            }
            if let Some(v) = t.tpot_ms {
                tpot_ms.push(v);
            }
            if let Some(v) = t.itl_ms {
                itl_ms.push(v);
            }
            e2e.push(t.e2e);
            if let Some(v) = t.tps {
                tps.push(v);
            }
        }
        i += 1;
    }
    assert(s.take(i as int) =~= s);
    TurnTally {
        total_turns,
        ok_turns,
        total_completion_tokens,
        output_lens,
        ttft,
        tpot_ms,
        itl_ms,
        e2e,
        tps,
    }
}

/// Every conversation is counted under exactly one ending: the context-limit,
/// max-turns, error and cancelled counts add up to the number of conversations.
pub proof fn law_conversation_counts_partition<F>(c: Seq<ConversationOutcome<F>>)
    ensures
        terminal_counts(c).0 + terminal_counts(c).1 + terminal_counts(c).2 + terminal_counts(c).3
            == c.len(),
    decreases c.len(),
{
    if c.len() > 0 {
        law_conversation_counts_partition(c.drop_last());
    }
}

/// Counts conversations by how they ended, and collects the turn counts and
/// context depths of those that reached the context limit.
fn tally_conversations<F>(convs: &[ConversationOutcome<F>]) -> (t: ConvTally)
    ensures
        t.total == convs@.len(),
        t.context_limit == terminal_counts(convs@).0,
        t.max_turns_hit == terminal_counts(convs@).1,
        t.errors == terminal_counts(convs@).2,
        t.cancelled == terminal_counts(convs@).3,
        t.turns_to_limit@ == limit_turns(convs@),
        t.context_depths@ == limit_depths(convs@),
{
    let mut context_limit: usize = 0;
    let mut max_turns_hit: usize = 0;
    let mut errors: usize = 0;
    let mut cancelled: usize = 0;
    let mut turns_to_limit: Vec<usize> = Vec::new();
    let mut context_depths: Vec<u32> = Vec::new();
    let mut i: usize = 0;
    while i < convs.len()
        invariant
            i <= convs.len(),
            context_limit == terminal_counts(convs@.take(i as int)).0,
            max_turns_hit == terminal_counts(convs@.take(i as int)).1,
            errors == terminal_counts(convs@.take(i as int)).2,
            cancelled == terminal_counts(convs@.take(i as int)).3,
            turns_to_limit@ == limit_turns(convs@.take(i as int)),
            context_depths@ == limit_depths(convs@.take(i as int)),
        decreases convs.len() - i,
    {
        proof {
            lemma_prefix_step(convs@, i as int);
            law_conversation_counts_partition(convs@.take(i as int));
        }
        let conv = &convs[i];
        match conv.terminal {
            TerminalReason::ContextLimit => {
                context_limit += 1;
                let ok = conv.ok_turns();
                turns_to_limit.push(ok.len());
                if let Some(d) = conv.context_depth() {
                    context_depths.push(d);
                }
            },
            TerminalReason::MaxTurns => max_turns_hit += 1,
            TerminalReason::Error(_) => errors += 1,
            TerminalReason::Cancelled => cancelled += 1,
        }
        i += 1;
    }
    assert(convs@.take(i as int) =~= convs@);
    ConvTally {
        total: convs.len(),
        context_limit,
        max_turns_hit,
        errors,
        cancelled,
        turns_to_limit,
        context_depths,
    }
}

// ── TPOT degradation buckets ──────────────────────────────────────────────────

/// Turn-index width of one degradation bucket.
pub const BUCKET: usize = 4;

/// The largest turn index among the last successful turns of the conversations (0 if none).
pub open spec fn max_last_ok<F>(c: Seq<ConversationOutcome<F>>) -> nat
    decreases c.len(),
{
    if c.len() == 0 {
        0
    } else {
        let m = max_last_ok(c.drop_last());
        let ok = ok_seq(c.last().turns@);
        if ok.len() > 0 && ok.last().turn_idx > m {
            ok.last().turn_idx as nat
        } else {
            m
        }
    }
}

/// The degradation range spans every conversation: `max_last_ok` is the
/// largest turn index among the last successful turns of the conversations
/// (0 when none succeeded), and when it is not 0 each of those turns falls in
/// one of the `bucket_count` buckets.
pub proof fn law_max_last_ok_is_max<F>(c: Seq<ConversationOutcome<F>>)
    ensures
        forall|j: int|
            0 <= j < c.len() && ok_seq(#[trigger] c[j].turns@).len() > 0 ==> ok_seq(c[j].turns@).last().turn_idx
                <= max_last_ok(c),
        forall|j: int|
            0 <= j < c.len() && ok_seq(#[trigger] c[j].turns@).len() > 0 && max_last_ok(c) > 0
                ==> ok_seq(c[j].turns@).last().turn_idx / 4 < bucket_count(c),
        max_last_ok(c) == 0 || exists|j: int|
            0 <= j < c.len() && ok_seq(#[trigger] c[j].turns@).len() > 0 && ok_seq(c[j].turns@).last().turn_idx
                == max_last_ok(c),
    decreases c.len(),
{
    if c.len() > 0 {
        let init = c.drop_last();
        law_max_last_ok_is_max(init);
        assert forall|j: int|
            0 <= j < c.len() && ok_seq(#[trigger] c[j].turns@).len() > 0 implies ok_seq(c[j].turns@).last().turn_idx
                <= max_last_ok(c) by {
            if j < c.len() - 1 {
                assert(c[j] == init[j]);
            }
        }
        if max_last_ok(c) > 0 {
            if max_last_ok(c) == max_last_ok(init) {
                let j = choose|j: int|
                    0 <= j < init.len() && ok_seq(#[trigger] init[j].turns@).len() > 0 && ok_seq(
                        init[j].turns@,
                    ).last().turn_idx == max_last_ok(init);
                assert(c[j] == init[j]);
            } else {
                assert(c[c.len() - 1] == c.last());
            }
        }
    }
}

/// Number of buckets: enough to hold `max_last_ok`, none when it is 0.
pub open spec fn bucket_count<F>(c: Seq<ConversationOutcome<F>>) -> nat {
    let m = max_last_ok(c);
    if m == 0 {
        0
    } else {
        m / 4 + 1
    }
}

/// TPOT samples of the successful turns whose index falls in bucket `b`.
pub open spec fn bucket_samples<F>(s: Seq<TurnOutcome<F>>, b: nat) -> Seq<F>
    decreases s.len(),
{
    if s.len() == 0 {
        seq![]
    } else if s.last().success && s.last().tpot_ms is Some && s.last().turn_idx / 4 == b {
        bucket_samples(s.drop_last(), b).push(s.last().tpot_ms->0)
    } else {
        bucket_samples(s.drop_last(), b)
    }
}

/// `turns lo–hi` for bucket `b` (one-based turn numbers).
pub open spec fn bucket_label(b: nat) -> Seq<char> {
    "turns "@ + decimal(4 * b + 1) + seq!['\u{2013}'] + decimal(4 * b + 4)
}

/// The non-empty buckets among the first `k`, in order, with their labels.
pub open spec fn groups_upto<F>(s: Seq<TurnOutcome<F>>, k: nat) -> Seq<(Seq<char>, Seq<F>)>
    decreases k,
{
    if k == 0 {
        seq![]
    } else {
        let prev = groups_upto(s, (k - 1) as nat);
        let samples = bucket_samples(s, (k - 1) as nat);
        if samples.len() > 0 {
            prev.push((bucket_label((k - 1) as nat), samples))
        } else {
            prev
        }
    }
}

/// The degradation table of a run: TPOT samples grouped by turn-index bucket.
pub open spec fn degradation_view<F>(c: Seq<ConversationOutcome<F>>) -> Seq<(Seq<char>, Seq<F>)> {
    groups_upto(all_turns(c), bucket_count(c))
}

/// Every bucket below `nb` that holds a sample has an upper turn number that fits in `usize`.
pub open spec fn labels_fit<F>(s: Seq<TurnOutcome<F>>, nb: nat) -> bool {
    forall|j: int|
        0 <= j < s.len() && (#[trigger] s[j]).success && s[j].tpot_ms is Some && s[j].turn_idx
            / 4 < nb ==> s[j].turn_idx / 4 * 4 + 4 <= usize::MAX
}

pub open spec fn group_view<F>(g: DegradationGroup<F>) -> (Seq<char>, Seq<F>) {
    (g.label@, g.tpot_ms@)
}

fn max_last_ok_idx<F>(convs: &[ConversationOutcome<F>]) -> (m: usize)
    ensures
        m == max_last_ok(convs@),
{
    let mut m: usize = 0;
    let mut i: usize = 0;
    while i < convs.len()
        invariant
            i <= convs.len(),
            m == max_last_ok(convs@.take(i as int)),
        decreases convs.len() - i,
    {
        proof {
            lemma_prefix_step(convs@, i as int);
        }
        let ok = convs[i].ok_turns();
        if ok.len() > 0 {
            let last = ok[ok.len() - 1];
            if last.turn_idx > m {
                m = last.turn_idx;
            }
        }
        i += 1;
    }
    assert(convs@.take(i as int) =~= convs@);
    m
}

proof fn lemma_bucket_samples_other<F>(s: Seq<TurnOutcome<F>>, i: int, b: nat)
    requires
        0 <= i < s.len(),
        !(s[i].success && s[i].tpot_ms is Some && s[i].turn_idx / 4 == b),
    ensures
        bucket_samples(s.take(i + 1), b) == bucket_samples(s.take(i), b),
{
    lemma_prefix_step(s, i);
}

fn bucket_label_string(b: usize) -> (out: String)
    requires
        b * 4 + 4 <= usize::MAX,
    ensures
        out@ == bucket_label(b as nat),
{
    let lo = b * BUCKET + 1;
    let hi = lo + BUCKET - 1;
    let mut v: Vec<char> = crate::text::chars_of("turns ");
    let lo_d = decimal_chars(lo as u64);
    let hi_d = decimal_chars(hi as u64);
    crate::text::append_chars(&mut v, &lo_d);
    v.push('\u{2013}');
    crate::text::append_chars(&mut v, &hi_d);
    assert(v@ =~= bucket_label(b as nat));
    string_of(&v)
}

/// Buckets successful turns by index (1–4, 5–8, …) and collects the TPOT
/// samples of each non-empty bucket, in bucket order.
pub fn degradation_groups<F: Copy>(convs: &[ConversationOutcome<F>]) -> (out: Vec<DegradationGroup<F>>)
    requires
        labels_fit(all_turns(convs@), bucket_count(convs@)),
    ensures
        out@.map_values(|g: DegradationGroup<F>| group_view(g)) == degradation_view(convs@),
{
    let ghost s = all_turns(convs@);
    let max_idx = max_last_ok_idx(convs);
    if max_idx == 0 {
        let out: Vec<DegradationGroup<F>> = Vec::new();
        assert(out@.map_values(|g: DegradationGroup<F>| group_view(g)) =~= degradation_view(convs@));
        return out;
    }
    let nb = max_idx / BUCKET + 1;
    let flat = flat_turns(convs);
    // One sample list per bucket.
    let mut buckets: Vec<Vec<F>> = Vec::new();
    let mut b: usize = 0;
    while b < nb
        invariant
            b <= nb,
            buckets@.len() == b,
            forall|k: int| 0 <= k < b ==> (#[trigger] buckets@[k])@ == Seq::<F>::empty(),
        decreases nb - b,
    {
        buckets.push(Vec::new());
        b += 1;
    }
    proof {
        assert forall|k: int| 0 <= k < nb implies (#[trigger] buckets@[k])@ == bucket_samples(
            s.take(0),
            k as nat,
        ) by {
            assert(s.take(0).len() == 0);
        }
    }
    let mut i: usize = 0;
    while i < flat.len()
        invariant
            s == all_turns(convs@),
            flat@.len() == s.len(),
            forall|k: int| 0 <= k < flat@.len() ==> *flat@[k] == s[k],
            i <= flat.len(),
            nb == max_idx / 4 + 1,
            buckets@.len() == nb,
            forall|k: int|
                0 <= k < nb ==> (#[trigger] buckets@[k])@ == bucket_samples(
                    s.take(i as int),
                    k as nat,
                ),
        decreases flat.len() - i,
    {
        proof {
            lemma_prefix_step(s, i as int);
        }
        let t: &TurnOutcome<F> = flat[i];
        if t.success && t.tpot_ms.is_some() && t.turn_idx / BUCKET < nb {
            let bi = t.turn_idx / BUCKET;
            let v = t.tpot_ms.unwrap();
            let ghost old_buckets = buckets@;
            let mut tmp: Vec<F> = Vec::new();
            std::mem::swap(&mut tmp, &mut buckets[bi]);
            tmp.push(v);
            buckets.set(bi, tmp);
            proof {
                assert forall|k: int| 0 <= k < nb implies (#[trigger] buckets@[k])@
                    == bucket_samples(s.take(i + 1), k as nat) by {
                    if k != bi {
                        lemma_bucket_samples_other(s, i as int, k as nat);
                        assert(buckets@[k] == old_buckets[k]);
                    }
                }
            }
        } else {
            proof {
                assert forall|k: int| 0 <= k < nb implies (#[trigger] buckets@[k])@
                    == bucket_samples(s.take(i + 1), k as nat) by {
                    lemma_bucket_samples_other(s, i as int, k as nat);
                }
            }
        }
        i += 1;
    }
    assert(s.take(i as int) =~= s);
    // Emit the non-empty buckets in order.
    let mut out: Vec<DegradationGroup<F>> = Vec::new();
    let mut k: usize = 0;
    assert(out@.map_values(|g: DegradationGroup<F>| group_view(g)) =~= groups_upto(s, 0));
    while k < nb
        invariant
            s == all_turns(convs@),
            labels_fit(s, nb as nat),
            nb == bucket_count(convs@),
            buckets@.len() == nb,
            forall|j: int| k <= j < nb ==> (#[trigger] buckets@[j])@ == bucket_samples(s, j as nat),
            k <= nb,
            out@.map_values(|g: DegradationGroup<F>| group_view(g)) == groups_upto(s, k as nat),
        decreases nb - k,
    {
        if buckets[k].len() > 0 {
            proof {
                lemma_nonempty_bucket_fits(s, k as nat, nb as nat);
            }
            let label = bucket_label_string(k);
            let mut samples: Vec<F> = Vec::new();
            std::mem::swap(&mut samples, &mut buckets[k]);
            let ghost before = out@;
            out.push(DegradationGroup { label, tpot_ms: samples });
            proof {
                assert(out@.map_values(|g: DegradationGroup<F>| group_view(g)) =~= before.map_values(
                    |g: DegradationGroup<F>| group_view(g),
                ).push((bucket_label(k as nat), bucket_samples(s, k as nat))));
            }
            buckets.set(k, Vec::new());
        }
        k += 1;
    }
    out
}

proof fn lemma_nonempty_bucket_fits<F>(s: Seq<TurnOutcome<F>>, b: nat, nb: nat)
    requires
        labels_fit(s, nb),
        b < nb,
        bucket_samples(s, b).len() > 0,
    ensures
        b * 4 + 4 <= usize::MAX,
    decreases s.len(),
{
    if s.len() > 0 {
        let l = s.last();
        if l.success && l.tpot_ms is Some && l.turn_idx / 4 == b {
            assert(s[s.len() - 1] == l);
        } else {
            assert forall|j: int|
                0 <= j < s.drop_last().len() && (#[trigger] s.drop_last()[j]).success
                    && s.drop_last()[j].tpot_ms is Some && s.drop_last()[j].turn_idx / 4
                    < nb implies s.drop_last()[j].turn_idx / 4 * 4 + 4 <= usize::MAX by {
                assert(s.drop_last()[j] == s[j]);
            }
            lemma_nonempty_bucket_fits(s.drop_last(), b, nb);
        }
    }
}

/// Whether tallying `result` stays within machine integers (see `tally_fits`).
pub fn tally_in_range<F>(result: &GrowResult<F>) -> (b: bool)
    ensures
        b == tally_fits(result.conversations@),
{
    let convs = result.conversations.as_slice();
    assert(convs@ == result.conversations@);
    let flat = flat_turns(convs);
    let ghost s = all_turns(convs@);
    let max_idx = max_last_ok_idx(convs);
    let nb: usize = if max_idx == 0 { 0 } else { max_idx / BUCKET + 1 };
    let mut sum: u64 = 0;
    let mut i: usize = 0;
    while i < flat.len()
        invariant
            convs@ == result.conversations@,
            s == all_turns(convs@),
            flat@.len() == s.len(),
            forall|k: int| 0 <= k < flat@.len() ==> *flat@[k] == s[k],
            nb == bucket_count(convs@),
            i <= flat.len(),
            sum == completion_sum(s.take(i as int)),
            forall|j: int|
                0 <= j < i && (#[trigger] s[j]).success && s[j].tpot_ms is Some && s[j].turn_idx
                    / 4 < nb ==> s[j].turn_idx / 4 * 4 + 4 <= usize::MAX,
        decreases flat.len() - i,
    {
        proof {
            lemma_prefix_step(s, i as int);
        }
        let t: &TurnOutcome<F> = flat[i];
        if t.success && t.tpot_ms.is_some() && t.turn_idx / BUCKET < nb {
            if t.turn_idx / BUCKET > (usize::MAX - 4) / 4 {
                proof {
                    let x = t.turn_idx / 4;
                    assert(x * 4 + 4 > usize::MAX) by (nonlinear_arith)
                        requires
                            x > (usize::MAX - 4) / 4,
                    ;
                    assert(*t == s[i as int]);
                    assert(!labels_fit(s, nb as nat));
                }
                return false;
            }
        }
        if t.success {
            if let Some(c) = t.completion_tokens {
                if sum > u64::MAX - c as u64 {
                    proof {
                        assert(*t == s[i as int]);
                        lemma_completion_sum_mono(s, i + 1);
                        assert(completion_sum(s.take(i + 1)) == sum + c);
                    }
                    return false;
                }
                sum = sum + c as u64;
            }
        }
        i += 1;
    }
    assert(s.take(i as int) =~= s);
    true
}

/// The selections and counts behind the aggregate report of `result`.
pub fn tally<F: Copy>(result: &GrowResult<F>) -> (t: Tally<F>)
    requires
        tally_fits(result.conversations@),
    ensures
        t.turns.total_turns == counted_turns(all_turns(result.conversations@)),
        t.turns.ok_turns == ok_seq(all_turns(result.conversations@)).len(),
        t.turns.total_completion_tokens == completion_sum(all_turns(result.conversations@)),
        t.turns.output_lens@ == ok_lens(all_turns(result.conversations@)),
        t.turns.ttft@ == ok_ttfts(all_turns(result.conversations@)),
        t.turns.tpot_ms@ == ok_tpots(all_turns(result.conversations@)),
        t.turns.itl_ms@ == ok_itls(all_turns(result.conversations@)),
        t.turns.e2e@ == ok_e2es(all_turns(result.conversations@)),
        t.turns.tps@ == ok_tpss(all_turns(result.conversations@)),
        t.conversations.total == result.conversations@.len(),
        t.conversations.context_limit == terminal_counts(result.conversations@).0,
        t.conversations.max_turns_hit == terminal_counts(result.conversations@).1,
        t.conversations.errors == terminal_counts(result.conversations@).2,
        t.conversations.cancelled == terminal_counts(result.conversations@).3,
        t.conversations.turns_to_limit@ == limit_turns(result.conversations@),
        t.conversations.context_depths@ == limit_depths(result.conversations@),
        t.degradation@.map_values(|g: DegradationGroup<F>| group_view(g)) == degradation_view(
            result.conversations@,
        ),
{
    let convs = result.conversations.as_slice();
    let turns = tally_turns(convs);
    let conversations = tally_conversations(convs);
    let degradation = degradation_groups(convs);
    Tally { turns, conversations, degradation }
}

// ── Percentiles and extremes ─────────────────────────────────────────────────

/// Zero-based index of the nearest-rank `p`-th percentile among `n > 0` sorted
/// samples: rank `⌈p·n/100⌉`, clamped to `1..=n`.
pub open spec fn nearest_rank_index(n: nat, p: nat) -> int {
    let rank = (p * n + 99) / 100;
    if rank < 1 {
        0
    } else if rank > n {
        n - 1
    } else {
        rank - 1
    }
}

/// The nearest-rank `p`-th percentile of the ascending `sorted`, or `None` when empty.
pub fn percentile<T: Copy>(sorted: &[T], p: u32) -> (r: Option<T>)
    ensures
        sorted@.len() == 0 ==> r is None,
        sorted@.len() > 0 ==> r == Some(sorted@[nearest_rank_index(sorted@.len(), p as nat)]),
{
    let n = sorted.len();
    if n == 0 {
        return None;
    }
    assert((p as u128) * (n as u128) <= 0xffff_ffffu128 * 0xffff_ffff_ffff_ffffu128) by (nonlinear_arith)
        requires
            p <= 0xffff_ffffu32,
            n <= 0xffff_ffff_ffff_ffffu64,
    ;
    let prod: u128 = (p as u128) * (n as u128);
    let rank: u128 = (prod + 99) / 100;
    let idx: usize = if rank < 1 {
        0
    } else if rank > n as u128 {
        n - 1
    } else {
        (rank - 1) as usize
    };
    Some(sorted[idx])
}

/// Smallest and largest of `v`, or `None` when empty.
pub fn min_max(v: &[u32]) -> (r: Option<(u32, u32)>)
    ensures
        v@.len() == 0 ==> r is None,
        v@.len() > 0 ==> (r matches Some((lo, hi)) && v@.contains(lo) && v@.contains(hi) && (forall|
            k: int,
        | 0 <= k < v@.len() ==> lo <= v@[k] && v@[k] <= hi)),
{
    if v.len() == 0 {
        return None;
    }
    let mut lo = v[0];
    let mut hi = v[0];
    let mut i: usize = 1;
    while i < v.len()
        invariant
            1 <= i <= v.len(),
            v@.contains(lo),
            v@.contains(hi),
            forall|k: int| 0 <= k < i ==> lo <= v@[k] && v@[k] <= hi,
        decreases v.len() - i,
    {
        if v[i] < lo {
            lo = v[i];
        }
        if v[i] > hi {
            hi = v[i];
        }
        i += 1;
    }
    Some((lo, hi))
}

} // verus!
