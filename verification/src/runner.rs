//! The conversation grow loop as a state machine.
//!
//! A conversation starts from an optional system prompt and a seed message and
//! grows one turn at a time: each successful reply is appended together with a
//! follow-up, and the conversation ends at the first failed turn (a context
//! overflow being the expected end) or at the turn cap. The caller performs
//! the requests; this module decides what is sent next and when to stop.

use crate::config::{opening_messages, opening_view, RunConfig};
use crate::metrics::{
    all_turns, counted_turns, history_view, msgs_view, ok_seq, reply_text, request_view,
    ConversationOutcome, ErrorKind, TerminalReason, TurnOutcome,
};
use crate::prompts::{
    in_category, is_pool_system, prompt_text, step, system_text, Draw, PromptSampler,
};
use std::time::Duration;
use vstd::prelude::*;

verus! {

/// Live progress events streamed from the grow loop to the dashboard.
#[derive(Debug, Clone)]
pub enum RunEvent<F> {
    ConvStarted { conv_id: usize, slot: usize },
    TurnStarted { conv_id: usize, turn_idx: usize },
    TurnFirstToken { conv_id: usize, turn_idx: usize, ttft: Duration },
    TurnFinished { conv_id: usize, turn_idx: usize, outcome: TurnOutcome<F> },
    ConvFinished { conv_id: usize, outcome: ConversationOutcome<F> },
}

/// The system message that opens a conversation, if the system prompt is non-empty.
pub open spec fn sys_prefix(system: Seq<char>) -> Seq<(Seq<char>, Seq<char>)> {
    if system.len() == 0 {
        seq![]
    } else {
        seq![("system"@, system)]
    }
}

/// How a conversation ends when a turn fails with `err`.
pub open spec fn failure_reason(err: Option<ErrorKind>) -> TerminalReason {
    match err {
        Some(ErrorKind::ContextOverflow) => TerminalReason::ContextLimit,
        Some(k) => TerminalReason::Error(k),
        None => TerminalReason::Error(ErrorKind::Connect),
    }
}

/// Turn `i` of conversation `conv_id` is recorded at position `i`.
pub open spec fn turns_numbered<F>(conv_id: usize, turns: Seq<TurnOutcome<F>>) -> bool {
    forall|i: int|
        0 <= i < turns.len() ==> (#[trigger] turns[i]).turn_idx == i && turns[i].conv_id
            == conv_id
}

pub open spec fn all_ok<F>(turns: Seq<TurnOutcome<F>>) -> bool {
    forall|i: int| 0 <= i < turns.len() ==> (#[trigger] turns[i]).success
}

pub open spec fn all_wf<F>(turns: Seq<TurnOutcome<F>>) -> bool {
    forall|i: int| 0 <= i < turns.len() ==> crate::metrics::turn_wf(#[trigger] turns[i])
}

/// The turns fit the way the conversation ended: at the cap every turn
/// succeeded; otherwise every turn but the last succeeded and the last one's
/// failure gives the reason.
pub open spec fn ending_fits<F>(turns: Seq<TurnOutcome<F>>, end: TerminalReason, max_turns: usize) -> bool {
    match end {
        TerminalReason::MaxTurns => max_turns > 0 && turns.len() == max_turns && all_ok(turns),
        TerminalReason::Cancelled => false,
        _ => {
            &&& turns.len() > 0
            &&& all_ok(turns.drop_last())
            &&& !turns.last().success
            &&& end == failure_reason(turns.last().error)
        },
    }
}

/// A finished conversation as the grow loop produces it, under a turn cap of `max_turns`.
pub open spec fn conversation_shaped<F>(c: ConversationOutcome<F>, max_turns: usize) -> bool {
    &&& turns_numbered(c.id, c.turns@)
    &&& all_wf(c.turns@)
    &&& ending_fits(c.turns@, c.terminal, max_turns)
}

/// `a` is the record `b` with possibly another prompt.
pub open spec fn same_but_prompt<F>(a: TurnOutcome<F>, b: TurnOutcome<F>) -> bool {
    &&& a.conv_id == b.conv_id
    &&& a.turn_idx == b.turn_idx
    &&& a.prompt_tokens == b.prompt_tokens
    &&& a.completion_tokens == b.completion_tokens
    &&& a.e2e == b.e2e
    &&& a.ttft == b.ttft
    &&& a.tpot_ms == b.tpot_ms
    &&& a.itl_ms == b.itl_ms
    &&& a.tps == b.tps
    &&& a.success == b.success
    &&& a.error == b.error
    &&& a.reply == b.reply
    &&& a.error_body == b.error_body
}

/// One conversation being grown.
pub struct ConversationRun<F> {
    pub conv_id: usize,
    pub slot: usize,
    /// The system prompt (empty when none is sent).
    pub system: String,
    /// Turn cap; `0` = unlimited.
    pub max_turns: usize,
    /// The messages to send on the next turn.
    pub messages: Vec<(String, String)>,
    pub turns: Vec<TurnOutcome<F>>,
    /// The last turn succeeded and its follow-up has not been appended yet.
    pub awaiting_followup: bool,
    /// How the conversation ended, once it has.
    pub end: Option<TerminalReason>,
}

impl<F> ConversationRun<F> {
    /// The state is one the grow loop can reach.
    pub open spec fn wf(&self) -> bool {
        &&& turns_numbered(self.conv_id, self.turns@)
        &&& all_wf(self.turns@)
        &&& (self.max_turns > 0 ==> self.turns@.len() <= self.max_turns)
        &&& match self.end {
            None => {
                &&& all_ok(self.turns@)
                &&& if self.awaiting_followup {
                    &&& self.turns@.len() > 0
                    &&& msgs_view(self.messages@) == sys_prefix(self.system@) + history_view(
                        self.turns@,
                    )
                } else {
                    &&& self.messages@.len() > 0
                    &&& self.messages@.last().0@ == "user"@
                    &&& msgs_view(self.messages@).drop_last() == sys_prefix(self.system@)
                        + history_view(self.turns@)
                }
            },
            Some(e) => ending_fits(self.turns@, e, self.max_turns),
        }
    }

    /// The prompt of the next turn (the last user message).
    pub open spec fn pending_prompt(&self) -> Seq<char> {
        self.messages@.last().1@
    }

    /// Starts conversation `conv_id` on `slot`: the run's fixed system prompt
    /// (or one drawn from the pool) and a seed message drawn from the pool.
    pub fn start(cfg: &RunConfig, sampler: &mut PromptSampler, conv_id: usize, slot: usize) -> (run: Self)
        requires
            old(sampler).wf(),
        ensures
            final(sampler).wf(),
            run.wf(),
            run.conv_id == conv_id,
            run.slot == slot,
            run.max_turns == cfg.max_turns_per_conv,
            run.turns@.len() == 0,
            run.end is None,
            !run.awaiting_followup,
            cfg.system_prompt matches Some(s) ==> run.system@ == s@,
            cfg.system_prompt is None ==> is_pool_system(run.system@),
            cfg.system_prompt is None ==> run.system@ == system_text(
                step(old(sampler)@, Draw::System).1 as usize,
            ),
            ({
                let before = if cfg.system_prompt is None {
                    step(old(sampler)@, Draw::System).0
                } else {
                    old(sampler)@
                };
                &&& final(sampler)@ == step(before, Draw::Seed).0
                &&& msgs_view(run.messages@) == opening_view(
                    run.system@,
                    prompt_text(step(before, Draw::Seed).1 as usize),
                )
            }),
            final(sampler).last_pick() matches Some(i) && in_category(final(sampler).topic(), i)
                && msgs_view(run.messages@) == opening_view(run.system@, prompt_text(i)),
    {
        let system: String = match &cfg.system_prompt {
            Some(s) => s.clone(),
            None => String::from_str(sampler.system()),
        };
        let seed = sampler.seed();
        let messages = opening_messages(&system, seed);
        let run = ConversationRun {
            conv_id,
            slot,
            system,
            max_turns: cfg.max_turns_per_conv,
            messages,
            turns: Vec::new(),
            awaiting_followup: false,
            end: None,
        };
        proof {
            let mv = msgs_view(run.messages@);
            assert(mv.len() == run.messages@.len());
            assert(mv.len() > 0);
            assert(mv[mv.len() - 1] == (run.messages@.last().0@, run.messages@.last().1@));
            assert(run.messages@.last().0@ == "user"@);
            assert(mv.drop_last() =~= sys_prefix(run.system@) + history_view(run.turns@));
        }
        run
    }

    /// Before each turn: ends the conversation at the turn cap.
    pub fn turn_due(&mut self) -> (r: Option<TerminalReason>)
        requires
            old(self).wf(),
            old(self).end is None,
            !old(self).awaiting_followup,
        ensures
            final(self).wf(),
            r == (if old(self).max_turns > 0 && old(self).turns@.len() >= old(self).max_turns {
                Some(TerminalReason::MaxTurns)
            } else {
                None
            }),
            final(self).end == r,
            final(self).turns@ == old(self).turns@,
            final(self).messages@ == old(self).messages@,
            final(self).awaiting_followup == old(self).awaiting_followup,
            final(self).conv_id == old(self).conv_id,
            final(self).slot == old(self).slot,
            final(self).system == old(self).system,
            final(self).max_turns == old(self).max_turns,
    {
        if self.max_turns > 0 && self.turns.len() >= self.max_turns {
            self.end = Some(TerminalReason::MaxTurns);
            Some(TerminalReason::MaxTurns)
        } else {
            None
        }
    }

    /// Records the outcome of the turn just sent. A failed turn ends the
    /// conversation; a successful one appends the assistant reply, after which
    /// a follow-up must be added with `grow`.
    ///
    /// The request that was sent is exactly what `request_messages` rebuilds
    /// for this turn from the recorded turns, after the system message.
    pub fn record(&mut self, outcome: TurnOutcome<F>) -> (r: Option<TerminalReason>)
        requires
            old(self).wf(),
            old(self).end is None,
            !old(self).awaiting_followup,
            old(self).max_turns > 0 ==> old(self).turns@.len() < old(self).max_turns,
            outcome.turn_idx == old(self).turns@.len(),
            outcome.conv_id == old(self).conv_id,
            crate::metrics::turn_wf(outcome),
        ensures
            final(self).wf(),
            r == (if outcome.success {
                None
            } else {
                Some(failure_reason(outcome.error))
            }),
            final(self).end == r,
            final(self).turns@.len() == old(self).turns@.len() + 1,
            final(self).turns@.drop_last() == old(self).turns@,
            same_but_prompt(final(self).turns@.last(), outcome),
            final(self).turns@.last().prompt@ == old(self).pending_prompt(),
            sys_prefix(old(self).system@) + request_view(
                final(self).turns@,
                old(self).turns@.len() as int,
            ) == msgs_view(old(self).messages@),
            outcome.success ==> final(self).awaiting_followup && msgs_view(final(self).messages@)
                == msgs_view(old(self).messages@).push(("assistant"@, reply_text(outcome))),
            !outcome.success ==> final(self).messages@ == old(self).messages@,
            final(self).conv_id == old(self).conv_id,
            final(self).slot == old(self).slot,
            final(self).system == old(self).system,
            final(self).max_turns == old(self).max_turns,
    {
        let ghost old_turns = self.turns@;
        let ghost old_msgs = self.messages@;
        let last = self.messages.len() - 1;
        let mut outcome = outcome;
        outcome.prompt = self.messages[last].1.clone();
        let success = outcome.success;
        let error = outcome.error;
        let reply = match &outcome.reply {
            Some(text) => text.clone(),
            None => String::new(),
        };
        let ghost recorded = outcome;
        self.turns.push(outcome);
        proof {
            assert(self.turns@.drop_last() =~= old_turns);
            assert(self.turns@.take(old_turns.len() as int) =~= old_turns);
            assert(msgs_view(old_msgs) =~= msgs_view(old_msgs).drop_last().push(
                msgs_view(old_msgs).last(),
            ));
            assert(sys_prefix(self.system@) + request_view(self.turns@, old_turns.len() as int)
                =~= msgs_view(old_msgs));
            assert forall|i: int| 0 <= i < self.turns@.len() implies (
            #[trigger] self.turns@[i]).turn_idx == i && self.turns@[i].conv_id == self.conv_id by {
                if i < old_turns.len() {
                    assert(self.turns@[i] == old_turns[i]);
                }
            }
            assert forall|i: int| 0 <= i < self.turns@.len() implies crate::metrics::turn_wf(
                #[trigger] self.turns@[i],
            ) by {
                if i < old_turns.len() {
                    assert(self.turns@[i] == old_turns[i]);
                }
            }
        }
        if !success {
            let reason = match error {
                Some(ErrorKind::ContextOverflow) => TerminalReason::ContextLimit,
                Some(k) => TerminalReason::Error(k),
                None => TerminalReason::Error(ErrorKind::Connect),
            };
            self.end = Some(reason);
            return Some(reason);
        }
        let ghost before = self.messages@;
        self.messages.push((String::from_str("assistant"), reply));
        self.awaiting_followup = true;
        proof {
            assert(msgs_view(self.messages@) =~= msgs_view(before).push(
                ("assistant"@, reply_text(recorded)),
            ));
            assert forall|i: int| 0 <= i < self.turns@.len() implies (#[trigger] self.turns@[i]).success by {
                if i < old_turns.len() {
                    assert(self.turns@[i] == old_turns[i]);
                }
            }
            assert(history_view(self.turns@) =~= history_view(old_turns).push(
                ("user"@, recorded.prompt@),
            ).push(("assistant"@, reply_text(recorded))));
            assert(msgs_view(self.messages@) =~= sys_prefix(self.system@) + history_view(
                self.turns@,
            ));
        }
        None
    }

    /// After a successful turn: appends the next user message.
    pub fn grow(&mut self, followup: &str)
        requires
            old(self).wf(),
            old(self).end is None,
            old(self).awaiting_followup,
        ensures
            final(self).wf(),
            !final(self).awaiting_followup,
            final(self).end is None,
            msgs_view(final(self).messages@) == msgs_view(old(self).messages@).push(
                ("user"@, followup@),
            ),
            final(self).pending_prompt() == followup@,
            final(self).turns@ == old(self).turns@,
            final(self).conv_id == old(self).conv_id,
            final(self).slot == old(self).slot,
            final(self).system == old(self).system,
            final(self).max_turns == old(self).max_turns,
    {
        let ghost before = self.messages@;
        self.messages.push((String::from_str("user"), String::from_str(followup)));
        self.awaiting_followup = false;
        proof {
            assert(msgs_view(self.messages@) =~= msgs_view(before).push(("user"@, followup@)));
            assert(msgs_view(self.messages@).drop_last() =~= msgs_view(before));
        }
    }

    /// The record of the finished conversation.
    pub fn finish(self, wall_clock: Duration) -> (c: ConversationOutcome<F>)
        requires
            self.wf(),
            self.end is Some,
        ensures
            c.id == self.conv_id,
            c.slot == self.slot,
            c.system == self.system,
            c.turns@ == self.turns@,
            c.terminal == self.end->0,
            c.wall_clock == wall_clock,
            conversation_shaped(c, self.max_turns),
    {
        let terminal = match self.end {
            Some(t) => t,
            None => TerminalReason::Cancelled,
        };
        ConversationOutcome {
            id: self.conv_id,
            slot: self.slot,
            system: self.system,
            turns: self.turns,
            terminal,
            wall_clock,
        }
    }
}

proof fn lemma_history_len<F>(s: Seq<TurnOutcome<F>>)
    ensures
        history_view(s).len() == 2 * s.len(),
    decreases s.len(),
{
    if s.len() > 0 {
        lemma_history_len(s.drop_last());
    }
}

/// Between turns the request grows by exactly two messages per completed turn
/// (the reply and the follow-up), on top of the opening system and seed messages.
pub proof fn law_history_grows_by_two<F>(run: ConversationRun<F>)
    requires
        run.wf(),
        run.end is None,
        !run.awaiting_followup,
    ensures
        run.messages@.len() == sys_prefix(run.system@).len() + 2 * run.turns@.len() + 1,
{
    lemma_history_len(run.turns@);
    assert(msgs_view(run.messages@).drop_last().len() == run.messages@.len() - 1);
}

/// The opening request of a conversation is its system message, if any, then the seed.
pub proof fn law_opening_request(system: Seq<char>, seed: Seq<char>)
    ensures
        opening_view(system, seed) == sys_prefix(system).push(("user"@, seed)),
{
    assert(opening_view(system, seed) =~= sys_prefix(system).push(("user"@, seed)));
}

// ── Slot scheduling ───────────────────────────────────────────────────────────

/// Whether a slot should start another conversation after `completed` have
/// finished, for a target of `total` (`0` = run forever).
pub fn may_start(total: usize, completed: usize) -> (b: bool)
    ensures
        b == (total == 0 || completed < total),
{
    !(total > 0 && completed >= total)
}

/// Whether the conversation id a slot just claimed is within the target.
pub fn may_run(total: usize, conv_id: usize) -> (b: bool)
    ensures
        b == (total == 0 || conv_id < total),
        b && total > 0 ==> conv_id < total,
{
    !(total > 0 && conv_id >= total)
}

/// A run with a target of `total` conversations runs at most `total` of them:
/// the ids slots claim from the shared counter are distinct, and `may_run`
/// admits only ids below the target.
pub proof fn law_at_most_target(total: usize, admitted: Seq<usize>)
    requires
        total > 0,
        admitted.no_duplicates(),
        forall|i: int| 0 <= i < admitted.len() ==> #[trigger] admitted[i] < total,
    ensures
        admitted.len() <= total,
{
    let ids = admitted.map_values(|x: usize| x as int);
    assert forall|i: int, j: int| 0 <= i < ids.len() && 0 <= j < ids.len() && i != j implies ids[i]
        != ids[j] by {
        assert(admitted[i] != admitted[j]);
    }
    assert(ids.no_duplicates());
    ids.unique_seq_to_set();
    vstd::set_lib::lemma_int_range(0, total as int);
    assert forall|x: int| ids.to_set().contains(x) implies vstd::set_lib::set_int_range(
        0,
        total as int,
    ).contains(x) by {
        let i = choose|i: int| 0 <= i < ids.len() && ids[i] == x;
        assert(admitted[i] < total);
    }
    vstd::set_lib::lemma_len_subset(ids.to_set(), vstd::set_lib::set_int_range(0, total as int));
}

// ── Success-rate law ──────────────────────────────────────────────────────────

proof fn lemma_counted_concat<F>(a: Seq<TurnOutcome<F>>, b: Seq<TurnOutcome<F>>)
    ensures
        counted_turns(a + b) == counted_turns(a) + counted_turns(b),
        ok_seq(a + b).len() == ok_seq(a).len() + ok_seq(b).len(),
    decreases b.len(),
{
    if b.len() == 0 {
        assert(a + b =~= a);
    } else {
        assert((a + b).drop_last() =~= a + b.drop_last());
        lemma_counted_concat(a, b.drop_last());
    }
}

proof fn lemma_clean_turns<F>(s: Seq<TurnOutcome<F>>, last_overflow: bool)
    requires
        all_wf(s),
        last_overflow ==> s.len() > 0 && all_ok(s.drop_last()) && !s.last().success
            && s.last().error == Some(ErrorKind::ContextOverflow),
        !last_overflow ==> all_ok(s),
    ensures
        counted_turns(s) == ok_seq(s).len(),
    decreases s.len(),
{
    if s.len() > 0 {
        let p = s.drop_last();
        assert(all_wf(p)) by {
            assert forall|i: int| 0 <= i < p.len() implies crate::metrics::turn_wf(#[trigger] p[i]) by {
                assert(p[i] == s[i]);
            }
        }
        if last_overflow {
            lemma_clean_turns(p, false);
        } else {
            assert(all_ok(p)) by {
                assert forall|i: int| 0 <= i < p.len() implies (#[trigger] p[i]).success by {
                    assert(p[i] == s[i]);
                }
            }
            assert(s.last() == s[s.len() - 1]);
            assert(crate::metrics::turn_wf(s[s.len() - 1]));
            lemma_clean_turns(p, false);
        }
    }
}

/// In a run where every conversation reached the context limit or the turn
/// cap, every counted turn succeeded: the context-overflow turns that end the
/// conversations are left out of the success-rate denominator, so the success
/// rate is 100%.
pub proof fn law_clean_run_full_success<F>(convs: Seq<ConversationOutcome<F>>, max_turns: usize)
    requires
        forall|i: int|
            0 <= i < convs.len() ==> conversation_shaped(#[trigger] convs[i], max_turns) && (
            convs[i].terminal == TerminalReason::ContextLimit || convs[i].terminal
                == TerminalReason::MaxTurns),
    ensures
        counted_turns(all_turns(convs)) == ok_seq(all_turns(convs)).len(),
    decreases convs.len(),
{
    if convs.len() > 0 {
        let p = convs.drop_last();
        assert forall|i: int| 0 <= i < p.len() implies conversation_shaped(#[trigger] p[i], max_turns)
            && (p[i].terminal == TerminalReason::ContextLimit || p[i].terminal
            == TerminalReason::MaxTurns) by {
            assert(p[i] == convs[i]);
        }
        law_clean_run_full_success(p, max_turns);
        let c = convs.last();
        assert(c == convs[convs.len() - 1]);
        lemma_counted_concat(all_turns(p), c.turns@);
        if c.terminal == TerminalReason::ContextLimit {
            lemma_clean_turns(c.turns@, true);
        } else {
            lemma_clean_turns(c.turns@, false);
        }
    }
}

} // verus!
