//! The dashboard's state machine: sort order, display phase, key navigation
//! through the conversation table and its modals, sparkline history, the
//! placement of fixed-size modals, and the bookkeeping of live conversations.

use crate::metrics::{
    kind_label, reply_text, request_messages, request_view, ConfigSnapshot, ConversationOutcome,
    GrowResult, TerminalReason, TurnOutcome,
};
use crate::text::{
    chars_of, decimal, decimal_string, grouped_decimal, lines_of, push_char, text_lines, thousands,
};
use crate::runner::RunEvent;
use std::collections::{BTreeMap, VecDeque};
use vstd::std_specs::iter::IteratorSpec;
use std::time::Duration;
use vstd::prelude::*;

verus! {

/// Number of samples kept in a sparkline history.
pub const SPARK_LEN: usize = 60;

/// Most conversation rows shown in the table.
pub const MAX_CONV_ROWS: usize = 500;

// ── Sort order ────────────────────────────────────────────────────────────────

/// Sort order for the conversation table, cycled with `s`.
#[derive(Debug, Clone, Copy, PartialEq, Eq, Structural)]
pub enum SortKey {
    /// Most-recent conversation first (default).
    Recent,
    /// Most turns first.
    Turns,
    /// Slowest average TTFT first.
    Ttft,
    /// Slowest (lowest) average TPS first.
    Tps,
}

pub open spec fn next_key(k: SortKey) -> SortKey {
    match k {
        SortKey::Recent => SortKey::Turns,
        SortKey::Turns => SortKey::Ttft,
        SortKey::Ttft => SortKey::Tps,
        SortKey::Tps => SortKey::Recent,
    }
}

pub open spec fn key_label(k: SortKey) -> Seq<char> {
    match k {
        SortKey::Recent => "recent"@,
        SortKey::Turns => "turns"@,
        SortKey::Ttft => "TTFT"@,
        SortKey::Tps => "TPS"@,
    }
}

impl SortKey {
    /// The next order in the cycle recent → turns → TTFT → TPS → recent.
    pub fn next(self) -> (n: Self)
        ensures
            n == next_key(self),
    {
        match self {
            SortKey::Recent => SortKey::Turns,
            SortKey::Turns => SortKey::Ttft,
            SortKey::Ttft => SortKey::Tps,
            SortKey::Tps => SortKey::Recent,
        }
    }

    pub fn label(self) -> (s: &'static str)
        ensures
            s@ == key_label(self),
    {
        match self {
            SortKey::Recent => "recent",
            SortKey::Turns => "turns",
            SortKey::Ttft => "TTFT",
            SortKey::Tps => "TPS",
        }
    }
}

/// Pressing `s` four times returns to the same order, visiting all four.
pub proof fn law_sort_cycle(k: SortKey)
    ensures
        next_key(next_key(next_key(next_key(k)))) == k,
        next_key(k) != k,
        next_key(next_key(k)) != k,
        next_key(next_key(next_key(k))) != k,
{
}

// ── Display phase ────────────────────────────────────────────────────────────

/// Mutually exclusive display phase.
#[derive(Debug, Clone, Copy, PartialEq, Eq, Structural)]
pub enum Phase {
    Live,
    Paused,
    Done,
    Replay,
}

/// The phase, by precedence replay > paused > done > live.
pub fn phase(is_replay: bool, paused: bool, done: bool) -> (p: Phase)
    ensures
        p == (if is_replay {
            Phase::Replay
        } else if paused {
            Phase::Paused
        } else if done {
            Phase::Done
        } else {
            Phase::Live
        }),
{
    if is_replay {
        Phase::Replay
    } else if paused {
        Phase::Paused
    } else if done {
        Phase::Done
    } else {
        Phase::Live
    }
}

// ── Sparkline history ─────────────────────────────────────────────────────────

/// Appends `v`, dropping the oldest sample when `SPARK_LEN` are held.
pub fn push_capped(buf: &mut VecDeque<u64>, v: u64)
    ensures
        old(buf)@.len() == SPARK_LEN ==> final(buf)@ == old(buf)@.drop_first().push(v),
        old(buf)@.len() != SPARK_LEN ==> final(buf)@ == old(buf)@.push(v),
        old(buf)@.len() <= SPARK_LEN ==> final(buf)@.len() <= SPARK_LEN,
{
    if buf.len() == SPARK_LEN {
        buf.pop_front();
    }
    buf.push_back(v);
}

// ── Modal placement ──────────────────────────────────────────────────────────

/// A rectangle of terminal cells.
#[derive(Debug, Clone, Copy, PartialEq, Eq, Structural)]
pub struct Area {
    pub x: u16,
    pub y: u16,
    pub width: u16,
    pub height: u16,
}

/// A `w`×`h` rectangle centred in `area`, shrunk to fit.
pub fn centered_fixed(area: Area, w: u16, h: u16) -> (r: Area)
    requires
        area.x + area.width <= u16::MAX,
        area.y + area.height <= u16::MAX,
    ensures
        r.width == (if w < area.width {
            w
        } else {
            area.width
        }),
        r.height == (if h < area.height {
            h
        } else {
            area.height
        }),
        r.x == area.x + (area.width - r.width) / 2,
        r.y == area.y + (area.height - r.height) / 2,
        area.x <= r.x && r.x + r.width <= area.x + area.width,
        area.y <= r.y && r.y + r.height <= area.y + area.height,
{
    let w = if w < area.width {
        w
    } else {
        area.width
    };
    let h = if h < area.height {
        h
    } else {
        area.height
    };
    Area {
        x: area.x + (area.width - w) / 2,
        y: area.y + (area.height - h) / 2,
        width: w,
        height: h,
    }
}

// ── Key navigation ───────────────────────────────────────────────────────────

/// A key press, as far as the dashboard distinguishes keys.
#[derive(Debug, Clone, Copy, PartialEq, Eq, Structural)]
pub enum Key {
    Char(char),
    Up,
    Down,
    Enter,
    Esc,
    Other,
}

/// What the caller must do after a key press.
#[derive(Debug, Clone, Copy, PartialEq, Eq, Structural)]
pub enum KeyAction {
    Continue,
    Quit,
    /// Pause or resume the run.
    TogglePause,
}

/// Where the user is in the table and its modals.
#[derive(Debug, Clone, Copy, PartialEq, Eq, Structural)]
pub struct Nav {
    /// Selected conversation row.
    pub selected: usize,
    pub sort: SortKey,
    pub show_detail: bool,
    /// Selected turn row inside the detail modal.
    pub detail_turn: usize,
    /// Request/response drill-down for the selected turn is open.
    pub show_turn: bool,
    /// Scroll offset inside the request/response view.
    pub turn_scroll: u16,
    /// false = last user message only, true = full request payload.
    pub turn_expanded: bool,
    pub show_help: bool,
}

impl Nav {
    pub fn new() -> (n: Self)
        ensures
            n.selected == 0,
            n.sort == SortKey::Recent,
            !n.show_detail,
            n.detail_turn == 0,
            !n.show_turn,
            n.turn_scroll == 0,
            !n.turn_expanded,
            !n.show_help,
    {
        Nav {
            selected: 0,
            sort: SortKey::Recent,
            show_detail: false,
            detail_turn: 0,
            show_turn: false,
            turn_scroll: 0,
            turn_expanded: false,
            show_help: false,
        }
    }
}

pub open spec fn is_char(k: Key, c: char) -> bool {
    k == Key::Char(c)
}

/// The last valid index of a list of `n` items (0 when empty).
pub open spec fn last_index(n: usize) -> usize {
    if n == 0 {
        0
    } else {
        (n - 1) as usize
    }
}

pub open spec fn min_usize(a: int, b: int) -> int {
    if a < b {
        a
    } else {
        b
    }
}

/// The navigation step never overflows a counter.
pub open spec fn key_in_range(nav: Nav, key: Key) -> bool {
    let down = key == Key::Down || is_char(key, 'j');
    &&& (down && !nav.show_help && nav.show_turn ==> nav.turn_scroll < u16::MAX)
    &&& (down && !nav.show_help && !nav.show_turn && nav.show_detail ==> nav.detail_turn
        < usize::MAX)
    &&& (down && !nav.show_help && !nav.show_turn && !nav.show_detail ==> nav.selected
        < usize::MAX)
}

/// Whether `key` can be applied to `nav`: a downward step never runs a
/// cursor past the range of its counter.
pub fn key_fits(nav: &Nav, key: Key) -> (b: bool)
    ensures
        b == key_in_range(*nav, key),
{
    let down = key == Key::Down || key == Key::Char('j');
    if !down || nav.show_help {
        true
    } else if nav.show_turn {
        nav.turn_scroll < u16::MAX
    } else if nav.show_detail {
        nav.detail_turn < usize::MAX
    } else {
        nav.selected < usize::MAX
    }
}

/// Applies one key press. `rows` is the number of conversation rows,
/// `turns` the number of turns of the selected conversation, and
/// `max_scroll` the largest scroll offset of the request/response view.
/// The innermost open view handles the key: help, then the turn view, then the
/// detail modal, then the table.
pub fn handle_key(nav: &mut Nav, key: Key, rows: usize, turns: usize, max_scroll: u16, is_replay: bool) -> (a: KeyAction)
    requires
        key_in_range(*old(nav), key),
    ensures
        // Help overlay: only `?`, Esc and `q` close it.
        old(nav).show_help ==> a == KeyAction::Continue && *final(nav) == (Nav {
            show_help: !(is_char(key, '?') || key == Key::Esc || is_char(key, 'q')),
            ..*old(nav)
        }),
        // Request/response view.
        !old(nav).show_help && old(nav).show_turn ==> a == KeyAction::Continue && *final(nav) == (
        if key == Key::Esc || is_char(key, 'q') {
            Nav { show_turn: false, ..*old(nav) }
        } else if key == Key::Up || is_char(key, 'k') {
            Nav {
                turn_scroll: if old(nav).turn_scroll > 0 {
                    (old(nav).turn_scroll - 1) as u16
                } else {
                    0
                },
                ..*old(nav)
            }
        } else if key == Key::Down || is_char(key, 'j') {
            Nav {
                turn_scroll: min_usize(old(nav).turn_scroll + 1, max_scroll as int) as u16,
                ..*old(nav)
            }
        } else if is_char(key, 'g') {
            Nav { turn_scroll: 0, ..*old(nav) }
        } else if is_char(key, 'G') {
            Nav { turn_scroll: max_scroll, ..*old(nav) }
        } else if is_char(key, 'x') {
            Nav { turn_expanded: !old(nav).turn_expanded, turn_scroll: 0, ..*old(nav) }
        } else {
            *old(nav)
        }),
        // Conversation detail modal.
        !old(nav).show_help && !old(nav).show_turn && old(nav).show_detail ==> a
            == KeyAction::Continue && *final(nav) == (if key == Key::Esc || is_char(key, 'q') {
            Nav { show_detail: false, ..*old(nav) }
        } else if key == Key::Up || is_char(key, 'k') {
            Nav {
                detail_turn: if old(nav).detail_turn > 0 {
                    (old(nav).detail_turn - 1) as usize
                } else {
                    0
                },
                ..*old(nav)
            }
        } else if key == Key::Down || is_char(key, 'j') {
            Nav {
                detail_turn: min_usize(old(nav).detail_turn + 1, last_index(turns) as int) as usize,
                ..*old(nav)
            }
        } else if is_char(key, 'g') {
            Nav { detail_turn: 0, ..*old(nav) }
        } else if is_char(key, 'G') {
            Nav { detail_turn: last_index(turns), ..*old(nav) }
        } else if key == Key::Enter && turns > 0 {
            Nav { show_turn: true, turn_scroll: 0, turn_expanded: false, ..*old(nav) }
        } else {
            *old(nav)
        }),
        // Conversation table.
        !old(nav).show_help && !old(nav).show_turn && !old(nav).show_detail ==> (if is_char(
            key,
            'q',
        ) || key == Key::Esc {
            a == KeyAction::Quit && *final(nav) == *old(nav)
        } else if (is_char(key, 'p') || is_char(key, ' ')) && !is_replay {
            a == KeyAction::TogglePause && *final(nav) == *old(nav)
        } else if is_char(key, 's') {
            a == KeyAction::Continue && *final(nav) == (Nav { sort: next_key(old(nav).sort), ..*old(nav) })
        } else if is_char(key, '?') {
            a == KeyAction::Continue && *final(nav) == (Nav { show_help: true, ..*old(nav) })
        } else if key == Key::Enter && rows > 0 {
            a == KeyAction::Continue && *final(nav) == (Nav {
                show_detail: true,
                detail_turn: 0,
                ..*old(nav)
            })
        } else if key == Key::Up || is_char(key, 'k') {
            a == KeyAction::Continue && *final(nav) == (Nav {
                selected: if old(nav).selected > 0 {
                    (old(nav).selected - 1) as usize
                } else {
                    0
                },
                ..*old(nav)
            })
        } else if key == Key::Down || is_char(key, 'j') {
            a == KeyAction::Continue && *final(nav) == (Nav {
                selected: min_usize(old(nav).selected + 1, last_index(rows) as int) as usize,
                ..*old(nav)
            })
        } else if is_char(key, 'g') {
            a == KeyAction::Continue && *final(nav) == (Nav { selected: 0, ..*old(nav) })
        } else if is_char(key, 'G') {
            a == KeyAction::Continue && *final(nav) == (Nav { selected: last_index(rows), ..*old(nav) })
        } else {
            a == KeyAction::Continue && *final(nav) == *old(nav)
        }),
        // Cursors stay on the list they point into.
        old(nav).selected <= last_index(rows) ==> final(nav).selected <= last_index(rows),
        old(nav).detail_turn <= last_index(turns) ==> final(nav).detail_turn <= last_index(turns),
        old(nav).turn_scroll <= max_scroll ==> final(nav).turn_scroll <= max_scroll,
        // Esc steps back exactly one level, quitting from the table.
        key == Key::Esc ==> (if old(nav).show_help {
            !final(nav).show_help && final(nav).show_turn == old(nav).show_turn
                && final(nav).show_detail == old(nav).show_detail
        } else if old(nav).show_turn {
            !final(nav).show_turn && final(nav).show_detail == old(nav).show_detail
        } else if old(nav).show_detail {
            !final(nav).show_detail
        } else {
            a == KeyAction::Quit
        }),
{
    let is = |c: char| -> (b: bool)
        ensures
            b == (key == Key::Char(c)),
        { key == Key::Char(c) };
    if nav.show_help {
        if is('?') || key == Key::Esc || is('q') {
            nav.show_help = false;
        }
        return KeyAction::Continue;
    }
    if nav.show_turn {
        if key == Key::Esc || is('q') {
            nav.show_turn = false;
        } else if key == Key::Up || is('k') {
            nav.turn_scroll = if nav.turn_scroll > 0 {
                nav.turn_scroll - 1
            } else {
                0
            };
        } else if key == Key::Down || is('j') {
            let next = nav.turn_scroll + 1;
            nav.turn_scroll = if next < max_scroll {
                next
            } else {
                max_scroll
            };
        } else if is('g') {
            nav.turn_scroll = 0;
        } else if is('G') {
            nav.turn_scroll = max_scroll;
        } else if is('x') {
            nav.turn_expanded = !nav.turn_expanded;
            nav.turn_scroll = 0;
        }
        return KeyAction::Continue;
    }
    if nav.show_detail {
        let last = if turns > 0 {
            turns - 1
        } else {
            0
        };
        if key == Key::Esc || is('q') {
            nav.show_detail = false;
        } else if key == Key::Up || is('k') {
            nav.detail_turn = if nav.detail_turn > 0 {
                nav.detail_turn - 1
            } else {
                0
            };
        } else if key == Key::Down || is('j') {
            let next = nav.detail_turn + 1;
            nav.detail_turn = if next < last {
                next
            } else {
                last
            };
        } else if is('g') {
            nav.detail_turn = 0;
        } else if is('G') {
            nav.detail_turn = last;
        } else if key == Key::Enter && turns > 0 {
            nav.show_turn = true;
            nav.turn_scroll = 0;
            nav.turn_expanded = false;
        }
        return KeyAction::Continue;
    }
    let last = if rows > 0 {
        rows - 1
    } else {
        0
    };
    if is('q') || key == Key::Esc {
        return KeyAction::Quit;
    } else if (is('p') || is(' ')) && !is_replay {
        return KeyAction::TogglePause;
    } else if is('s') {
        nav.sort = nav.sort.next();
    } else if is('?') {
        nav.show_help = true;
    } else if key == Key::Enter && rows > 0 {
        nav.show_detail = true;
        nav.detail_turn = 0;
    } else if key == Key::Up || is('k') {
        nav.selected = if nav.selected > 0 {
            nav.selected - 1
        } else {
            0
        };
    } else if key == Key::Down || is('j') {
        let next = nav.selected + 1;
        nav.selected = if next < last {
            next
        } else {
            last
        };
    } else if is('g') {
        nav.selected = 0;
    } else if is('G') {
        nav.selected = last;
    }
    KeyAction::Continue
}


// ── Live conversation bookkeeping ────────────────────────────────────────────

/// A conversation that has started but not yet finished.
#[derive(Debug, Clone)]
pub struct PartialConv<F> {
    pub conv_id: usize,
    pub slot: usize,
    /// Turns recorded so far, in the order they finished.
    pub turns: Vec<TurnOutcome<F>>,
}

/// The in-progress conversations by id, as `(slot, turns)`.
pub open spec fn partial_view<F>(m: Map<usize, PartialConv<F>>) -> Map<usize, (usize, Seq<TurnOutcome<F>>)> {
    m.map_values(|p: PartialConv<F>| (p.slot, p.turns@))
}

/// `c` is the record of in-progress conversation `id` with `(slot, turns)`
/// `e`, ended as cancelled.
pub open spec fn cancelled_record<F>(c: ConversationOutcome<F>, id: usize, e: (usize, Seq<TurnOutcome<F>>)) -> bool {
    &&& c.id == id
    &&& c.slot == e.0
    &&& c.turns@ == e.1
    &&& c.terminal == TerminalReason::Cancelled
    &&& c.system@ == Seq::<char>::empty()
    &&& c.wall_clock == secs_duration(0)
}

/// What `Duration::from_secs(secs)` returns: a duration of `secs` seconds,
/// a value of its argument alone.
pub uninterp spec fn secs_duration(secs: u64) -> Duration;

/// `Duration::from_secs`. Claimed: the result is `secs_duration(secs)`; it
/// never panics.
#[verifier::external_body]
fn duration_from_secs(secs: u64) -> (d: Duration)
    ensures
        d == secs_duration(secs),
{
    Duration::from_secs(secs)
}

proof fn lemma_usize_keys_ordered()
    ensures
        vstd::laws_cmp::obeys_cmp::<usize>(),
        vstd::laws_cmp::obeys_cmp::<&usize>(),
{
    broadcast use vstd::laws_cmp::group_laws_cmp;

}

proof fn lemma_increasing_keys(all: Seq<&usize>)
    requires
        vstd::std_specs::btree::increasing_seq(all),
    ensures
        forall|i: int, j: int| 0 <= i < j < all.len() ==> *all[i] < *all[j],
{
    broadcast use vstd::std_specs::btree::group_btree_axioms;

    lemma_usize_keys_ordered();
    assert forall|i: int, j: int| 0 <= i < j < all.len() implies *all[i] < *all[j] by {
        vstd::std_specs::btree::axiom_increasing_seq_meaning::<&usize>(all);
        assert(vstd::std_specs::cmp::OrdSpec::cmp_spec(&all[i], &all[j]) is Less);
    }
}

/// The ids of `m`, ascending.
fn ascending_keys<F>(m: &BTreeMap<usize, PartialConv<F>>) -> (ks: Vec<usize>)
    ensures
        forall|i: int, j: int| 0 <= i < j < ks@.len() ==> ks@[i] < ks@[j],
        ks@.to_set() == m@.dom(),
{
    broadcast use vstd::std_specs::btree::group_btree_axioms;

    proof {
        lemma_usize_keys_ordered();
    }
    let mut ks: Vec<usize> = Vec::new();
    let ghost all = IteratorSpec::remaining(&vstd::std_specs::btree::spec_keys_iter(m));
    for k in it: m.keys()
        invariant
            it.seq() == all,
            ks@ == all.take(it.index() as int).map_values(|r: &usize| *r),
    {
        ks.push(*k);
        assert(all.take(it.index() + 1) =~= all.take(it.index() as int).push(k));
        assert(ks@ =~= all.take(it.index() + 1).map_values(|r: &usize| *r));
    }
    assert(all.take(all.len() as int) =~= all);
    assert(ks@ =~= all.unref());
    assert(all.unref().to_set() == m@.dom());
    assert(vstd::std_specs::btree::increasing_seq(all));
    proof {
        lemma_increasing_keys(all);
    }
    assert forall|i: int, j: int| 0 <= i < j < ks@.len() implies ks@[i] < ks@[j] by {
        assert(ks@[i] == *all[i] && ks@[j] == *all[j]);
    }
    ks
}

/// The dashboard's record of a run: conversations in progress, those finished,
/// and whether the run has reached its target.
#[derive(Debug, Clone)]
pub struct LiveRun<F> {
    /// Target number of conversations; 0 runs until stopped.
    pub total_conversations: usize,
    /// In-progress conversations by id.
    pub partial: BTreeMap<usize, PartialConv<F>>,
    pub completed: Vec<ConversationOutcome<F>>,
    pub done: bool,
}

impl<F> LiveRun<F> {
    /// The in-progress conversations by id, as `(slot, turns)`.
    pub open spec fn live(&self) -> Map<usize, (usize, Seq<TurnOutcome<F>>)> {
        partial_view(self.partial@)
    }

    /// Each in-progress conversation is filed under its own id.
    pub open spec fn wf(&self) -> bool {
        forall|k: usize| #[trigger] self.partial@.contains_key(k) ==> self.partial@[k].conv_id == k
    }

    /// A run that has not started any conversation yet.
    pub fn new(total_conversations: usize) -> (r: Self)
        ensures
            r.wf(),
            r.total_conversations == total_conversations,
            r.live() == Map::<usize, (usize, Seq<TurnOutcome<F>>)>::empty(),
            r.completed@.len() == 0,
            !r.done,
    {
        let r = LiveRun { total_conversations, partial: BTreeMap::new(), completed: Vec::new(), done: false };
        assert(r.live() =~= Map::<usize, (usize, Seq<TurnOutcome<F>>)>::empty());
        r
    }

    /// The finished record of a saved run, for replay.
    pub fn replaying(result: GrowResult<F>) -> (r: Self)
        ensures
            r.wf(),
            r.total_conversations == result.conversations@.len(),
            r.live() == Map::<usize, (usize, Seq<TurnOutcome<F>>)>::empty(),
            r.completed@ == result.conversations@,
            r.done,
    {
        let total = result.conversations.len();
        let r = LiveRun { total_conversations: total, partial: BTreeMap::new(), completed: result.conversations, done: true };
        assert(r.live() =~= Map::<usize, (usize, Seq<TurnOutcome<F>>)>::empty());
        r
    }

    /// A run with no target keeps going until stopped.
    pub fn infinite(&self) -> (b: bool)
        ensures
            b == (self.total_conversations == 0),
    {
        self.total_conversations == 0
    }

    /// Applies one progress event. Returns `true` exactly when this event
    /// completes the target number of conversations, which marks the run done.
    pub fn apply(&mut self, ev: RunEvent<F>) -> (finished_now: bool)
        requires
            old(self).wf(),
        ensures
            final(self).wf(),
            final(self).total_conversations == old(self).total_conversations,
            match ev {
                RunEvent::ConvStarted { conv_id, slot } => {
                    &&& final(self).live() == old(self).live().insert(conv_id, (slot, Seq::<TurnOutcome<F>>::empty()))
                    &&& final(self).completed@ == old(self).completed@
                    &&& final(self).done == old(self).done
                    &&& !finished_now
                },
                RunEvent::TurnFinished { conv_id, turn_idx, outcome } => {
                    &&& final(self).live() == (if old(self).live().contains_key(conv_id) {
                        old(self).live().insert(
                            conv_id,
                            (old(self).live()[conv_id].0, old(self).live()[conv_id].1.push(outcome)),
                        )
                    } else {
                        old(self).live()
                    })
                    &&& final(self).completed@ == old(self).completed@
                    &&& final(self).done == old(self).done
                    &&& !finished_now
                },
                RunEvent::ConvFinished { conv_id, outcome } => {
                    &&& final(self).live() == old(self).live().remove(conv_id)
                    &&& final(self).completed@ == old(self).completed@.push(outcome)
                    &&& finished_now == (!old(self).done && old(self).total_conversations != 0
                        && final(self).completed@.len() >= old(self).total_conversations)
                    &&& final(self).done == (old(self).done || finished_now)
                },
                _ => {
                    &&& final(self).live() == old(self).live()
                    &&& final(self).completed@ == old(self).completed@
                    &&& final(self).done == old(self).done
                    &&& !finished_now
                },
            },
    {
        broadcast use vstd::std_specs::btree::group_btree_axioms;

        proof {
            lemma_usize_keys_ordered();
        }
        let ghost m0 = self.partial@;
        match ev {
            RunEvent::ConvStarted { conv_id, slot } => {
                self.partial.insert(conv_id, PartialConv { conv_id, slot, turns: Vec::new() });
                assert(self.live() =~= partial_view(m0).insert(conv_id, (slot, Seq::<TurnOutcome<F>>::empty())));
                false
            },
            RunEvent::TurnFinished { conv_id, turn_idx: _, outcome } => {
                match self.partial.remove(&conv_id) {
                    Some(mut entry) => {
                        assert(m0.contains_key(conv_id) && m0[conv_id] == entry);
                        entry.turns.push(outcome);
                        self.partial.insert(conv_id, entry);
                        assert(self.live() =~= partial_view(m0).insert(
                            conv_id,
                            (partial_view(m0)[conv_id].0, partial_view(m0)[conv_id].1.push(outcome)),
                        ));
                    },
                    None => {
                        assert(self.partial@ =~= m0);
                    },
                }
                false
            },
            RunEvent::ConvFinished { conv_id, outcome } => {
                self.partial.remove(&conv_id);
                assert(self.live() =~= partial_view(m0).remove(conv_id));
                self.completed.push(outcome);
                if self.total_conversations != 0 && self.completed.len() >= self.total_conversations
                    && !self.done {
                    self.done = true;
                    true
                } else {
                    false
                }
            },
            _ => false,
        }
    }

    /// The run so far as a result: the finished conversations in the order they
    /// finished, then each in-progress conversation that has recorded a turn,
    /// by ascending id, ended as cancelled.
    pub fn into_result(self, wall_clock: Duration, config: ConfigSnapshot) -> (r: GrowResult<F>)
        ensures
            r.wall_clock == wall_clock,
            r.config == config,
            r.conversations@.len() >= self.completed@.len(),
            forall|k: int| 0 <= k < self.completed@.len() ==> r.conversations@[k] == self.completed@[k],
            // The cancelled records: ascending ids, ...
            forall|i: int, j: int|
                self.completed@.len() <= i < j < r.conversations@.len() ==> r.conversations@[i].id
                    < r.conversations@[j].id,
            // ... each an in-progress conversation with turns, ...
            forall|i: int|
                self.completed@.len() <= i < r.conversations@.len() ==> {
                    let id = #[trigger] r.conversations@[i].id;
                    &&& self.live().contains_key(id)
                    &&& self.live()[id].1.len() > 0
                    &&& cancelled_record(r.conversations@[i], id, self.live()[id])
                },
            // ... and every such conversation has one.
            forall|id: usize|
                #[trigger] self.live().contains_key(id) && self.live()[id].1.len() > 0 ==> exists|i: int|
                    self.completed@.len() <= i < r.conversations@.len() && r.conversations@[i].id == id,
    {
        broadcast use vstd::std_specs::btree::group_btree_axioms;

        proof {
            lemma_usize_keys_ordered();
        }
        let ghost live0 = self.live();
        let ghost m0 = self.partial@;
        let ghost done_before = self.completed@;
        let ks = ascending_keys(&self.partial);
        let LiveRun { total_conversations: _, partial, completed, done: _ } = self;
        let mut rest = partial;
        let mut out = completed;
        let ghost c = done_before.len() as int;
        let mut n: usize = 0;
        while n < ks.len()
            invariant
                n <= ks@.len(),
                c == done_before.len(),
                live0 == partial_view(m0),
                forall|i: int, j: int| 0 <= i < j < ks@.len() ==> ks@[i] < ks@[j],
                ks@.to_set() == m0.dom(),
                forall|j: int|
                    n <= j < ks@.len() ==> rest@.contains_key(#[trigger] ks@[j]) && rest@[ks@[j]]
                        == m0[ks@[j]],
                out@.len() >= c,
                forall|k: int| 0 <= k < c ==> out@[k] == done_before[k],
                forall|i: int, j: int| c <= i < j < out@.len() ==> out@[i].id < out@[j].id,
                forall|i: int|
                    c <= i < out@.len() ==> {
                        let id = #[trigger] out@[i].id;
                        &&& ks@.take(n as int).contains(id)
                        &&& live0.contains_key(id)
                        &&& live0[id].1.len() > 0
                        &&& cancelled_record(out@[i], id, live0[id])
                    },
                forall|j: int|
                    0 <= j < n && live0[#[trigger] ks@[j]].1.len() > 0 ==> exists|i: int|
                        c <= i < out@.len() && out@[i].id == ks@[j],
            decreases ks@.len() - n,
        {
            let k = ks[n];
            assert(ks@.to_set().contains(k));
            let ghost before = out@;
            let ghost rest_before = rest@;
            match rest.remove(&k) {
                Some(pc) => {
                    assert(pc == m0[k]);
                    assert(live0.contains_key(k));
                    assert(live0[k] == (pc.slot, pc.turns@));
                    if pc.turns.len() > 0 {
                        let rec = ConversationOutcome {
                            id: k,
                            slot: pc.slot,
                            system: String::new(),
                            turns: pc.turns,
                            terminal: TerminalReason::Cancelled,
                            wall_clock: duration_from_secs(0),
                        };
                        out.push(rec);
                        assert forall|i: int| c <= i < before.len() implies out@[i].id < k by {
                            let id = before[i].id;
                            assert(ks@.take(n as int).contains(id));
                            let j = choose|j: int| 0 <= j < n && ks@.take(n as int)[j] == id;
                            assert(ks@[j] == id);
                        }
                    }
                },
                None => {
                    assert(false);
                },
            }
            assert forall|j: int|
                n + 1 <= j < ks@.len() implies rest@.contains_key(#[trigger] ks@[j]) && rest@[ks@[j]]
                == m0[ks@[j]] by {
                assert(ks@[j] != k);
                assert(rest_before.contains_key(ks@[j]));
            }
            assert forall|i: int| c <= i < out@.len() implies ks@.take(n + 1).contains(#[trigger] out@[i].id) by {
                if i < before.len() {
                    let id = before[i].id;
                    assert(ks@.take(n as int).contains(id));
                    let j = choose|j: int| 0 <= j < n && ks@.take(n as int)[j] == id;
                    assert(ks@.take(n + 1)[j] == id);
                } else {
                    assert(ks@.take(n + 1)[n as int] == k);
                }
            }
            assert forall|j: int|
                0 <= j < n + 1 && live0[#[trigger] ks@[j]].1.len() > 0 implies exists|i: int|
                c <= i < out@.len() && out@[i].id == ks@[j] by {
                if j < n {
                    let i = choose|i: int| c <= i < before.len() && before[i].id == ks@[j];
                    assert(out@[i] == before[i]);
                } else {
                    assert(out@[out@.len() - 1].id == k);
                }
            }
            n += 1;
        }
        proof {
            assert forall|id: usize|
                #[trigger] live0.contains_key(id) && live0[id].1.len() > 0 implies exists|i: int|
                c <= i < out@.len() && out@[i].id == id by {
                assert(m0.dom().contains(id));
                assert(ks@.to_set().contains(id));
                let j = choose|j: int| 0 <= j < ks@.len() && ks@[j] == id;
                assert(live0[ks@[j]].1.len() > 0);
            }
        }
        GrowResult { conversations: out, wall_clock, config }
    }
}

// ── Request/response view ────────────────────────────────────────────────────

/// Text columns inside the request/response modal.
pub const TURN_INNER: usize = 107;

/// Rows visible inside the request/response modal.
pub const TURN_VIEWPORT: usize = 38;

/// How a line of a modal is drawn.
#[derive(Debug, Clone, Copy, PartialEq, Eq, Structural)]
pub enum Tone {
    Plain,
    Dim,
    Accent,
    Bad,
}

/// One line of a modal body.
#[derive(Debug, Clone)]
pub struct ViewLine {
    pub tone: Tone,
    pub text: String,
}

pub open spec fn lines_view(v: Seq<ViewLine>) -> Seq<(Tone, Seq<char>)> {
    v.map_values(|l: ViewLine| (l.tone, l.text@))
}

/// `n` box-drawing rule characters.
pub open spec fn rule(n: nat) -> Seq<char> {
    Seq::new(n, |i: int| '─')
}

/// A section heading padded with a rule to the modal's width.
pub open spec fn divider(label: Seq<char>) -> (Tone, Seq<char>) {
    (Tone::Dim, label + rule(if label.len() < TURN_INNER { (TURN_INNER - label.len()) as nat } else { 0 }))
}

/// The lines of `text`, each indented by two spaces and drawn in `tone`.
pub open spec fn indented_in(tone: Tone, text: Seq<char>) -> Seq<(Tone, Seq<char>)> {
    text_lines(text).map_values(|l: Seq<char>| (tone, "  "@ + l))
}

/// The lines of `text`, each indented by two spaces.
pub open spec fn indented(text: Seq<char>) -> Seq<(Tone, Seq<char>)> {
    indented_in(Tone::Plain, text)
}

/// The error body recorded on a turn, as characters (empty when none).
pub open spec fn body_text<F>(t: TurnOutcome<F>) -> Seq<char> {
    match t.error_body {
        Some(b) => b@,
        None => Seq::<char>::empty(),
    }
}

/// Every message of a request: its role as a heading, then its content.
pub open spec fn all_messages(msgs: Seq<(Seq<char>, Seq<char>)>) -> Seq<(Tone, Seq<char>)>
    decreases msgs.len(),
{
    if msgs.len() == 0 {
        seq![]
    } else {
        all_messages(msgs.drop_last()) + seq![(Tone::Accent, "  ["@ + msgs.last().0 + "]"@)]
            + indented(msgs.last().1)
    }
}

/// The request section: the whole payload when expanded, else its last message.
pub open spec fn request_section(msgs: Seq<(Seq<char>, Seq<char>)>, expanded: bool) -> Seq<(Tone, Seq<char>)> {
    let n = msgs.len();
    if expanded {
        seq![divider("  ── REQUEST ("@ + decimal(n) + " messages · x to collapse) "@)] + all_messages(msgs)
    } else {
        let label = if n > 1 {
            "  ── REQUEST (last of "@ + decimal(n) + " messages · x to expand) "@
        } else {
            "  ── REQUEST (user) "@
        };
        let last = if n > 0 { msgs.last().1 } else { Seq::<char>::empty() };
        seq![divider(label)] + if last.len() == 0 {
            seq![(Tone::Dim, "  (empty)"@)]
        } else {
            indented(last)
        }
    }
}

/// The response section: the captured reply, or for a failed turn the
/// server's error body, or the error's kind when the server sent no body.
pub open spec fn response_section<F>(t: TurnOutcome<F>) -> Seq<(Tone, Seq<char>)> {
    seq![divider("  ── RESPONSE (assistant) "@)] + if t.success {
        if reply_text(t).len() > 0 {
            indented(reply_text(t))
        } else {
            seq![(Tone::Dim, "  (empty response)"@)]
        }
    } else if body_text(t).len() > 0 {
        indented_in(Tone::Bad, body_text(t))
    } else {
        seq![
            (Tone::Bad, match t.error {
                Some(e) => "  request failed: "@ + kind_label(e),
                None => "  request failed"@,
            }),
        ]
    }
}

/// Body of the request/response view of turn `k`: request, a blank line, response.
pub open spec fn turn_body_view<F>(turns: Seq<TurnOutcome<F>>, k: int, expanded: bool) -> Seq<(Tone, Seq<char>)> {
    request_section(request_view(turns, k), expanded) + seq![(Tone::Plain, Seq::<char>::empty())]
        + response_section(turns[k])
}

fn divider_line(label: String) -> (l: ViewLine)
    ensures
        (l.tone, l.text@) == divider(label@),
{
    let n = chars_of(label.as_str()).len();
    let fill = if n < TURN_INNER { TURN_INNER - n } else { 0 };
    let ghost start = label@;
    let mut text = label;
    let mut k: usize = 0;
    while k < fill
        invariant
            k <= fill,
            text@ == start + rule(k as nat),
        decreases fill - k,
    {
        push_char(&mut text, '─');
        k += 1;
        assert(text@ =~= start + rule(k as nat));
    }
    ViewLine { tone: Tone::Dim, text }
}

fn push_line(out: &mut Vec<ViewLine>, tone: Tone, text: String)
    ensures
        lines_view(final(out)@) == lines_view(old(out)@).push((tone, text@)),
{
    out.push(ViewLine { tone, text });
    assert(lines_view(out@) =~= lines_view(old(out)@).push((tone, text@)));
}

fn push_indented(out: &mut Vec<ViewLine>, tone: Tone, text: &str)
    ensures
        lines_view(final(out)@) == lines_view(old(out)@) + indented_in(tone, text@),
{
    let ls = lines_of(text);
    let ghost base = lines_view(out@);
    let mut i: usize = 0;
    while i < ls.len()
        invariant
            i <= ls@.len(),
            ls@.map_values(|l: String| l@) == text_lines(text@),
            lines_view(out@) == base + indented_in(tone, text@).take(i as int),
        decreases ls@.len() - i,
    {
        let mut line = String::from_str("  ");
        line.append(ls[i].as_str());
        assert(ls@.map_values(|l: String| l@)[i as int] == ls@[i as int]@);
        push_line(out, tone, line);
        assert(indented_in(tone, text@).take(i + 1) =~= indented_in(tone, text@).take(i as int).push(indented_in(tone, text@)[i as int]));
        assert(lines_view(out@) =~= base + indented_in(tone, text@).take(i + 1));
        i += 1;
    }
    assert(indented_in(tone, text@).take(i as int) =~= indented_in(tone, text@));
}

proof fn lemma_all_messages_step(msgs: Seq<(Seq<char>, Seq<char>)>, i: int)
    requires
        0 <= i < msgs.len(),
    ensures
        all_messages(msgs.take(i + 1)) == all_messages(msgs.take(i)) + seq![(Tone::Accent, "  ["@ + msgs[i].0 + "]"@)]
            + indented(msgs[i].1),
{
    assert(msgs.take(i + 1).drop_last() =~= msgs.take(i));
}

fn request_lines(msgs: &Vec<(String, String)>, expanded: bool) -> (out: Vec<ViewLine>)
    ensures
        lines_view(out@) == request_section(crate::metrics::msgs_view(msgs@), expanded),
{
    let ghost mv = crate::metrics::msgs_view(msgs@);
    let n = msgs.len();
    let mut out: Vec<ViewLine> = Vec::new();
    if expanded {
        let mut label = String::from_str("  ── REQUEST (");
        let count = decimal_string(n as u64);
        label.append(count.as_str());
        label.append(" messages · x to collapse) ");
        out.push(divider_line(label));
        assert(lines_view(out@) =~= seq![divider("  ── REQUEST ("@ + decimal(n as nat) + " messages · x to collapse) "@)]);
        let ghost head = lines_view(out@);
        let mut i: usize = 0;
        assert(mv.take(0) =~= Seq::<(Seq<char>, Seq<char>)>::empty());
        assert(head + all_messages(mv.take(0)) =~= head);
        while i < n
            invariant
                n == msgs@.len(),
                mv == crate::metrics::msgs_view(msgs@),
                i <= n,
                lines_view(out@) == head + all_messages(mv.take(i as int)),
            decreases n - i,
        {
            let mut role = String::from_str("  [");
            role.append(msgs[i].0.as_str());
            role.append("]");
            push_line(&mut out, Tone::Accent, role);
            push_indented(&mut out, Tone::Plain, msgs[i].1.as_str());
            proof {
                lemma_all_messages_step(mv, i as int);
                assert(mv[i as int] == (msgs@[i as int].0@, msgs@[i as int].1@));
            }
            assert(lines_view(out@) =~= head + all_messages(mv.take(i + 1)));
            i += 1;
        }
        assert(mv.take(n as int) =~= mv);
    } else {
        let label = if n > 1 {
            let mut l = String::from_str("  ── REQUEST (last of ");
            let count = decimal_string(n as u64);
            l.append(count.as_str());
            l.append(" messages · x to expand) ");
            l
        } else {
            String::from_str("  ── REQUEST (user) ")
        };
        out.push(divider_line(label));
        let ghost head = lines_view(out@);
        let last: &str = if n > 0 { msgs[n - 1].1.as_str() } else { "" };
        let ghost last_v = if n > 0 { mv.last().1 } else { Seq::<char>::empty() };
        assert(last@ == last_v) by {
            if n > 0 {
                assert(mv.last() == (msgs@[n - 1].0@, msgs@[n - 1].1@));
            } else {
                reveal_strlit("");
            }
        }
        if last.is_empty() {
            push_line(&mut out, Tone::Dim, String::from_str("  (empty)"));
        } else {
            push_indented(&mut out, Tone::Plain, last);
        }
        assert(lines_view(out@) =~= request_section(mv, expanded));
    }
    out
}

/// Body of the request/response view for turn `turn_idx` of `turns`: the
/// request (its last message, or every message when `expanded`), a blank
/// line, then the reply or the error.
pub fn turn_body<F>(turns: &[TurnOutcome<F>], turn_idx: usize, expanded: bool) -> (out: Vec<ViewLine>)
    requires
        turn_idx < turns@.len(),
    ensures
        lines_view(out@) == turn_body_view(turns@, turn_idx as int, expanded),
{
    let msgs = request_messages(turns, turn_idx);
    let mut out = request_lines(&msgs, expanded);
    push_line(&mut out, Tone::Plain, String::new());
    let ghost before = lines_view(out@);
    assert(before == request_section(request_view(turns@, turn_idx as int), expanded) + seq![
        (Tone::Plain, Seq::<char>::empty()),
    ]);
    let resp_div = divider_line(String::from_str("  ── RESPONSE (assistant) "));
    push_line(&mut out, resp_div.tone, resp_div.text);
    let ghost mid = lines_view(out@);
    let t = &turns[turn_idx];
    let ghost tail: Seq<(Tone, Seq<char>)> = response_section(*t).drop_first();
    assert(response_section(*t) =~= seq![divider("  ── RESPONSE (assistant) "@)] + tail);
    if t.success {
        let has_reply = match &t.reply {
            Some(r) => !r.as_str().is_empty(),
            None => false,
        };
        assert(has_reply == (reply_text(*t).len() > 0));
        if has_reply {
            match &t.reply {
                Some(r) => push_indented(&mut out, Tone::Plain, r.as_str()),
                None => {},
            }
        } else {
            push_line(&mut out, Tone::Dim, String::from_str("  (empty response)"));
        }
    } else {
        let has_body = match &t.error_body {
            Some(b) => !b.as_str().is_empty(),
            None => false,
        };
        assert(has_body == (body_text(*t).len() > 0));
        if has_body {
            match &t.error_body {
                Some(b) => push_indented(&mut out, Tone::Bad, b.as_str()),
                None => {},
            }
        } else {
            let text = match t.error {
                Some(e) => {
                    let mut m = String::from_str("  request failed: ");
                    let l = e.label();
                    m.append(l.as_str());
                    m
                },
                None => String::from_str("  request failed"),
            };
            push_line(&mut out, Tone::Bad, text);
        }
    }
    assert(lines_view(out@) =~= mid + tail);
    assert(lines_view(out@) =~= turn_body_view(turns@, turn_idx as int, expanded));
    out
}


/// Rows the request/response view needs for lines of the given display widths,
/// each wrapped at `TURN_INNER` columns (an empty line still takes a row).
pub open spec fn wrapped_rows(widths: Seq<usize>) -> nat
    decreases widths.len(),
{
    if widths.len() == 0 {
        0
    } else {
        let w = if widths.last() < 1 { 1 } else { widths.last() as int };
        wrapped_rows(widths.drop_last()) + ((w + TURN_INNER - 1) / (TURN_INNER as int)) as nat
    }
}

/// Every line takes at least one row, and a line takes the fewest rows of
/// `TURN_INNER` columns that hold it (an empty line takes one): the view has at
/// least as many rows as lines, and adding a line of width `w` adds `r` rows
/// with `r >= 1`, `r * TURN_INNER >= w` and `(r - 1) * TURN_INNER < max(w, 1)`.
pub proof fn law_every_line_takes_a_row(widths: Seq<usize>, w: usize)
    ensures
        wrapped_rows(widths) >= widths.len(),
        ({
            let r = wrapped_rows(widths.push(w)) - wrapped_rows(widths);
            &&& r >= 1
            &&& r * TURN_INNER >= w
            &&& (r - 1) * TURN_INNER < (if w < 1 { 1 } else { w as int })
        }),
    decreases widths.len(),
{
    if widths.len() > 0 {
        law_every_line_takes_a_row(widths.drop_last(), widths.last());
    }
    assert(widths.push(w).drop_last() =~= widths);
    let m: int = if w < 1 { 1 } else { w as int };
    let r = (m + TURN_INNER - 1) / (TURN_INNER as int);
    assert(r >= 1 && r * 107 >= m && (r - 1) * 107 < m) by (nonlinear_arith)
        requires
            m >= 1,
            r == (m + 107 - 1) / 107,
    ;
}

/// Largest scroll offset of the request/response view whose lines have the
/// given display widths: the wrapped rows beyond one viewport, cut to `u16`.
pub fn max_scroll(widths: &[usize]) -> (r: u16)
    requires
        wrapped_rows(widths@) <= usize::MAX,
    ensures
        r == (if wrapped_rows(widths@) > TURN_VIEWPORT {
            (wrapped_rows(widths@) - TURN_VIEWPORT) as u16
        } else {
            0u16
        }),
{
    let mut total: usize = 0;
    let mut i: usize = 0;
    while i < widths.len()
        invariant
            i <= widths@.len(),
            total == wrapped_rows(widths@.take(i as int)),
            wrapped_rows(widths@) <= usize::MAX,
        decreases widths@.len() - i,
    {
        proof {
            assert(widths@.take(i + 1).drop_last() =~= widths@.take(i as int));
            lemma_wrapped_rows_prefix(widths@, i + 1);
        }
        let w = if widths[i] < 1 { 1 } else { widths[i] };
        let rows = w / TURN_INNER + if w % TURN_INNER == 0 { 0 } else { 1 };
        assert(rows == (w + TURN_INNER - 1) / (TURN_INNER as int)) by (nonlinear_arith)
            requires
                w >= 1,
                rows == w / 107 + if w % 107 == 0 { 0int } else { 1int },
                TURN_INNER == 107,
        ;
        total = total + rows;
        i += 1;
    }
    assert(widths@.take(i as int) =~= widths@);
    let extra = if total > TURN_VIEWPORT { total - TURN_VIEWPORT } else { 0 };
    #[verifier::truncate]
    (extra as u16)
}

proof fn lemma_wrapped_rows_prefix(widths: Seq<usize>, i: int)
    requires
        0 <= i <= widths.len(),
    ensures
        wrapped_rows(widths.take(i)) <= wrapped_rows(widths),
    decreases widths.len() - i,
{
    if i < widths.len() {
        lemma_wrapped_rows_prefix(widths, i + 1);
        assert(widths.take(i + 1).drop_last() =~= widths.take(i));
    } else {
        assert(widths.take(i) =~= widths);
    }
}

/// `i` clamped to the last index of a list of `n` items (0 when empty).
pub fn clamp_index(i: usize, n: usize) -> (r: usize)
    ensures
        r == (if i < last_index(n) { i } else { last_index(n) }),
{
    let last = if n > 0 { n - 1 } else { 0 };
    if i < last { i } else { last }
}

/// Rows visible inside the conversation-detail modal.
pub const DETAIL_VIEWPORT: usize = 32;

/// Scroll offset of the detail modal that keeps the selected turn, on line
/// `lead + sel_turn`, inside the viewport.
pub fn detail_scroll(lead: usize, sel_turn: usize) -> (r: u16)
    requires
        lead + sel_turn <= usize::MAX,
    ensures
        r == (if lead + sel_turn > DETAIL_VIEWPORT - 1 {
            (lead + sel_turn - (DETAIL_VIEWPORT - 1)) as u16
        } else {
            0u16
        }),
{
    let line = lead + sel_turn;
    let extra = if line > DETAIL_VIEWPORT - 1 { line - (DETAIL_VIEWPORT - 1) } else { 0 };
    #[verifier::truncate]
    (extra as u16)
}

/// The status shown for a turn.
pub open spec fn status_text<F>(t: TurnOutcome<F>) -> Seq<char> {
    if t.success {
        "✓ ok"@
    } else {
        match t.error {
            Some(e) => "✗ "@ + kind_label(e),
            None => "✗ error"@,
        }
    }
}

/// The status label of a turn: `✓ ok`, or `✗` and its error.
pub fn status_label<F>(t: &TurnOutcome<F>) -> (s: String)
    ensures
        s@ == status_text(*t),
{
    if t.success {
        String::from_str("✓ ok")
    } else {
        match t.error {
            Some(e) => {
                let mut s = String::from_str("✗ ");
                let l = e.label();
                s.append(l.as_str());
                s
            },
            None => String::from_str("✗ error"),
        }
    }
}

/// A turn row is marked as openable when it has a reply to show or failed.
pub fn openable<F>(t: &TurnOutcome<F>) -> (b: bool)
    ensures
        b == (reply_text(*t).len() > 0 || !t.success),
{
    let has_reply = match &t.reply {
        Some(r) => !r.as_str().is_empty(),
        None => false,
    };
    has_reply || !t.success
}

/// A token total as shown in the table: grouped digits, or a dash for none.
pub fn token_cell(n: u64) -> (s: String)
    ensures
        s@ == (if n > 0 { grouped_decimal(n as nat) } else { "—"@ }),
{
    if n > 0 {
        thousands(n)
    } else {
        String::from_str("—")
    }
}

/// The conversation target as shown: `∞` for a run without one.
pub fn target_label(total: usize) -> (s: String)
    ensures
        s@ == (if total == 0 { "∞"@ } else { decimal(total as nat) }),
{
    if total == 0 {
        String::from_str("∞")
    } else {
        decimal_string(total as u64)
    }
}

/// The latest and the largest sample of a sparkline (0 when there are none).
pub fn spark_scale(series: &[u64]) -> (r: (u64, u64))
    ensures
        series@.len() == 0 ==> r == (0u64, 0u64),
        series@.len() > 0 ==> r.0 == series@.last(),
        series@.len() > 0 ==> series@.contains(r.1),
        forall|k: int| 0 <= k < series@.len() ==> series@[k] <= r.1,
{
    let n = series.len();
    if n == 0 {
        return (0, 0);
    }
    let mut peak = series[0];
    let mut i: usize = 1;
    while i < n
        invariant
            n == series@.len(),
            1 <= i <= n,
            series@.contains(peak),
            forall|k: int| 0 <= k < i ==> series@[k] <= peak,
        decreases n - i,
    {
        if series[i] > peak {
            peak = series[i];
        }
        i += 1;
    }
    (series[n - 1], peak)
}

/// The badge shown in the header for each phase.
pub fn phase_badge(p: Phase) -> (s: &'static str)
    ensures
        s@ == (match p {
            Phase::Replay => " REPLAY "@,
            Phase::Paused => " PAUSED "@,
            Phase::Done => "  DONE  "@,
            Phase::Live => "  LIVE  "@,
        }),
{
    match p {
        Phase::Replay => " REPLAY ",
        Phase::Paused => " PAUSED ",
        Phase::Done => "  DONE  ",
        Phase::Live => "  LIVE  ",
    }
}

/// The title of the conversation table for each phase.
pub fn table_title(p: Phase) -> (s: &'static str)
    ensures
        s@ == (match p {
            Phase::Replay => "conversations [REPLAY] — ↑/↓ select  ·  enter: turn detail  ·  q quit"@,
            Phase::Paused => "conversations [PAUSED] — ↑/↓ select  ·  enter: turn detail  ·  space: resume"@,
            _ => "conversations — ↑/↓ select  ·  enter: turn detail  ·  space: pause"@,
        }),
{
    match p {
        Phase::Replay => "conversations [REPLAY] — ↑/↓ select  ·  enter: turn detail  ·  q quit",
        Phase::Paused => "conversations [PAUSED] — ↑/↓ select  ·  enter: turn detail  ·  space: resume",
        _ => "conversations — ↑/↓ select  ·  enter: turn detail  ·  space: pause",
    }
}

/// The key hints of the footer for each phase.
pub fn footer_hint(p: Phase) -> (s: &'static str)
    ensures
        s@ == (match p {
            Phase::Paused => "  space/p resume  ·  ↑/↓ select  ·  enter detail  ·  q quit  ·  ? help"@,
            Phase::Replay => " [REPLAY]  q / esc quit  ·  ↑/↓ select  ·  enter detail  ·  ? help"@,
            Phase::Done => " [DONE]  q quit  ·  ↑/↓ select  ·  enter detail  ·  ? help"@,
            Phase::Live => " q quit  ·  space/p pause  ·  ↑/↓ select  ·  enter detail  ·  ? help"@,
        }),
{
    match p {
        Phase::Paused => "  space/p resume  ·  ↑/↓ select  ·  enter detail  ·  q quit  ·  ? help",
        Phase::Replay => " [REPLAY]  q / esc quit  ·  ↑/↓ select  ·  enter detail  ·  ? help",
        Phase::Done => " [DONE]  q quit  ·  ↑/↓ select  ·  enter detail  ·  ? help",
        Phase::Live => " q quit  ·  space/p pause  ·  ↑/↓ select  ·  enter detail  ·  ? help",
    }
}


// ── Pause-aware clock ────────────────────────────────────────────────────────

/// Run time with pauses left out, on a monotonic clock read by the caller in
/// nanoseconds since the run started.
#[derive(Debug, Clone, Copy, PartialEq, Eq, Structural)]
pub struct PauseClock {
    /// Time spent in finished pauses.
    pub paused_total: u64,
    /// When the current pause began, while paused.
    pub pause_start: Option<u64>,
    /// The elapsed time frozen when the run completed.
    pub final_elapsed: Option<u64>,
}

/// `a - b`, or 0 when `b > a`.
pub open spec fn sat_sub(a: int, b: int) -> int {
    if a > b { a - b } else { 0 }
}

/// Time spent paused as of `now`: finished pauses and the current one.
pub open spec fn paused_as_of(c: PauseClock, now: u64) -> int {
    c.paused_total + match c.pause_start {
        Some(t) => sat_sub(now as int, t as int),
        None => 0,
    }
}

/// Elapsed run time as of `now`: frozen once the run completed, else the time
/// since the start less the time spent paused (0 at the least).
pub open spec fn elapsed_as_of(c: PauseClock, now: u64) -> int {
    match c.final_elapsed {
        Some(f) => f as int,
        None => sat_sub(now as int, paused_as_of(c, now)),
    }
}

/// The clock after a toggle at `now`: paused from `now` when it was running;
/// when it was paused, running again with the pause just ended added to the
/// paused total (which stops at `u64::MAX`).
pub open spec fn toggled(c: PauseClock, now: u64) -> PauseClock {
    match c.pause_start {
        None => PauseClock { pause_start: Some(now), ..c },
        Some(_) => PauseClock {
            paused_total: if paused_as_of(c, now) <= u64::MAX {
                paused_as_of(c, now) as u64
            } else {
                u64::MAX
            },
            pause_start: None,
            ..c
        },
    }
}

impl PauseClock {
    /// A running clock with no pause yet.
    pub fn new() -> (c: Self)
        ensures
            c == (PauseClock { paused_total: 0, pause_start: None, final_elapsed: None }),
    {
        PauseClock { paused_total: 0, pause_start: None, final_elapsed: None }
    }

    pub fn is_paused(&self) -> (b: bool)
        ensures
            b == self.pause_start is Some,
    {
        self.pause_start.is_some()
    }

    /// Elapsed run time as of `now`, pauses excluded.
    pub fn elapsed(&self, now: u64) -> (e: u64)
        ensures
            e == elapsed_as_of(*self, now),
    {
        match self.final_elapsed {
            Some(f) => f,
            None => {
                let current: u64 = match self.pause_start {
                    Some(t) => if now > t { now - t } else { 0 },
                    None => 0,
                };
                let paused: u128 = self.paused_total as u128 + current as u128;
                if (now as u128) > paused {
                    (now as u128 - paused) as u64
                } else {
                    0
                }
            },
        }
    }

    /// Pauses a running clock at `now`, or resumes a paused one, adding the
    /// pause just ended to the paused total (which stops at `u64::MAX`).
    pub fn toggle(&mut self, now: u64)
        ensures
            *final(self) == toggled(*old(self), now),
            old(self).pause_start is None ==> *final(self) == (PauseClock {
                pause_start: Some(now),
                ..*old(self)
            }),
            old(self).pause_start is Some ==> *final(self) == (PauseClock {
                paused_total: if paused_as_of(*old(self), now) <= u64::MAX {
                    paused_as_of(*old(self), now) as u64
                } else {
                    u64::MAX
                },
                pause_start: None,
                ..*old(self)
            }),
    {
        match self.pause_start {
            Some(t) => {
                let current: u64 = if now > t { now - t } else { 0 };
                self.paused_total = if current <= u64::MAX - self.paused_total {
                    self.paused_total + current
                } else {
                    u64::MAX
                };
                self.pause_start = None;
            },
            None => {
                self.pause_start = Some(now);
            },
        }
    }

    /// Freezes the elapsed time at its value as of `now`.
    pub fn freeze(&mut self, now: u64)
        ensures
            *final(self) == (PauseClock {
                final_elapsed: Some(elapsed_as_of(*old(self), now) as u64),
                ..*old(self)
            }),
    {
        let e = self.elapsed(now);
        self.final_elapsed = Some(e);
    }
}

/// Pause time is excluded from elapsed time: while paused, the elapsed time
/// stands still, and after a pause from `t1` to `t2` it is `t2 - t1` less
/// than the time since the start (when nothing else was paused).
pub proof fn law_pause_excluded(c: PauseClock, t1: u64, t2: u64, now: u64)
    requires
        c.final_elapsed is None,
        c.pause_start is None,
        c.paused_total == 0,
        t1 <= t2 <= now,
    ensures
        ({
            let paused = PauseClock { pause_start: Some(t1), ..c };
            &&& elapsed_as_of(paused, t2) == elapsed_as_of(paused, t1)
            &&& elapsed_as_of(paused, t1) == t1
            &&& elapsed_as_of(PauseClock { paused_total: (t2 - t1) as u64, pause_start: None, ..c }, now)
                == now - (t2 - t1)
        }),
{
}

/// Pauses accumulate: while paused from `t`, the time spent paused is the
/// paused total so far plus `now - t`; and after two pauses, from `t1` to `t2`
/// and from `t3` to `t4`, toggled on a fresh clock, the elapsed time at `now`
/// is the time since the start less both pauses.
pub proof fn law_pauses_accumulate(c: PauseClock, t: u64, now: u64, t1: u64, t2: u64, t3: u64, t4: u64)
    requires
        c.pause_start == Some(t),
        t <= now,
        t1 <= t2 <= t3 <= t4 <= now,
    ensures
        paused_as_of(c, now) == c.paused_total + (now - t),
        c.paused_total + (now - t) <= u64::MAX ==> toggled(c, now).paused_total == c.paused_total
            + (now - t) && toggled(c, now).pause_start is None,
        ({
            let fresh = PauseClock { paused_total: 0, pause_start: None, final_elapsed: None };
            let after = toggled(toggled(toggled(toggled(fresh, t1), t2), t3), t4);
            &&& after.pause_start is None
            &&& after.paused_total == (t2 - t1) + (t4 - t3)
            &&& elapsed_as_of(after, now) == now - (t2 - t1) - (t4 - t3)
        }),
{
}

/// What a redraw tick does besides drawing.
#[derive(Debug, Clone, Copy, PartialEq, Eq, Structural)]
pub enum TickWork {
    /// Nothing: paused, or the report is still fresh.
    Skip,
    /// Recompute the report; push sparkline samples too unless the run is done.
    Recompute { push_samples: bool },
}

/// The work of one tick: nothing while paused; otherwise the report is
/// recomputed when there is none yet or the last one is `report_tick_ms` old.
pub fn tick_work(paused: bool, has_report: bool, since_report_ms: u64, report_tick_ms: u64, done: bool) -> (w: TickWork)
    ensures
        w == (if paused || (has_report && since_report_ms < report_tick_ms) {
            TickWork::Skip
        } else {
            TickWork::Recompute { push_samples: !done }
        }),
{
    if paused {
        return TickWork::Skip;
    }
    if has_report && since_report_ms < report_tick_ms {
        return TickWork::Skip;
    }
    TickWork::Recompute { push_samples: !done }
}


// ── Conversation table order ─────────────────────────────────────────────────

/// Row `a` of `rows` (conversation id, turn count) goes above row `b`: by more
/// turns first when `by_turns`, then by the more recent (larger) id, and rows
/// that tie keep their order.
pub open spec fn goes_above(rows: Seq<(usize, usize)>, by_turns: bool, a: int, b: int) -> bool {
    let (ia, ta) = rows[a];
    let (ib, tb) = rows[b];
    if by_turns && ta != tb {
        ta > tb
    } else if ia != ib {
        ia > ib
    } else {
        a < b
    }
}

/// `order` lists distinct rows of `rows`, each row above the ones after it.
pub open spec fn ordered_rows(rows: Seq<(usize, usize)>, by_turns: bool, order: Seq<usize>) -> bool {
    &&& forall|i: int| 0 <= i < order.len() ==> order[i] < rows.len()
    &&& forall|i: int, j: int|
        0 <= i < j < order.len() ==> goes_above(rows, by_turns, order[i] as int, order[j] as int)
}

proof fn lemma_above_order(rows: Seq<(usize, usize)>, by_turns: bool, a: int, b: int, c: int)
    ensures
        a != b ==> goes_above(rows, by_turns, a, b) || goes_above(rows, by_turns, b, a),
        goes_above(rows, by_turns, a, b) && goes_above(rows, by_turns, b, c) ==> goes_above(
            rows,
            by_turns,
            a,
            c,
        ),
{
}

fn above(rows: &[(usize, usize)], by_turns: bool, a: usize, b: usize) -> (r: bool)
    requires
        a < rows@.len(),
        b < rows@.len(),
    ensures
        r == goes_above(rows@, by_turns, a as int, b as int),
{
    let (ia, ta) = rows[a];
    let (ib, tb) = rows[b];
    if by_turns && ta != tb {
        ta > tb
    } else if ia != ib {
        ia > ib
    } else {
        a < b
    }
}

/// The table order of `rows` (conversation id, turn count) for the recent and
/// the turns sort: every row once, most turns first when `by_turns`, then the
/// most recent id first; at most `MAX_CONV_ROWS` rows are kept.
pub fn table_order(rows: &[(usize, usize)], by_turns: bool) -> (order: Vec<usize>)
    ensures
        order@.len() == (if rows@.len() < MAX_CONV_ROWS { rows@.len() } else { MAX_CONV_ROWS as nat }),
        ordered_rows(rows@, by_turns, order@),
        rows@.len() <= MAX_CONV_ROWS ==> forall|m: usize| m < rows@.len() ==> #[trigger] order@.contains(m),
        forall|m: usize, i: int|
            #![trigger order@.contains(m), order@[i]]
            m < rows@.len() && !order@.contains(m) && 0 <= i < order@.len() ==> goes_above(
                rows@,
                by_turns,
                order@[i] as int,
                m as int,
            ),
{
    let mut order: Vec<usize> = Vec::new();
    let mut k: usize = 0;
    while k < rows.len()
        invariant
            k <= rows@.len(),
            order@.len() == k,
            ordered_rows(rows@, by_turns, order@),
            forall|i: int| 0 <= i < order@.len() ==> order@[i] < k,
            forall|m: usize| m < k ==> #[trigger] order@.contains(m),
        decreases rows@.len() - k,
    {
        let mut p: usize = 0;
        while p < order.len()
            invariant
                k < rows@.len(),
                p <= order@.len(),
                forall|i: int| 0 <= i < order@.len() ==> order@[i] < k,
                forall|q: int| 0 <= q < p ==> goes_above(rows@, by_turns, order@[q] as int, k as int),
            ensures
                p <= order@.len(),
                forall|q: int| 0 <= q < p ==> goes_above(rows@, by_turns, order@[q] as int, k as int),
                p < order@.len() ==> !goes_above(rows@, by_turns, order@[p as int] as int, k as int),
            decreases order@.len() - p,
        {
            if !above(rows, by_turns, order[p], k) {
                break;
            }
            p += 1;
        }
        let ghost before = order@;
        order.insert(p, k);
        proof {
            assert(order@ == before.insert(p as int, k));
            assert forall|i: int, j: int| 0 <= i < j < order@.len() implies goes_above(
                rows@,
                by_turns,
                order@[i] as int,
                order@[j] as int,
            ) by {
                if j < p {
                    assert(order@[i] == before[i] && order@[j] == before[j]);
                } else if j == p {
                    assert(order@[i] == before[i]);
                } else if i == p {
                    assert(order@[j] == before[j - 1]);
                    assert(!goes_above(rows@, by_turns, before[p as int] as int, k as int));
                    assert(before[p as int] < k);
                    lemma_above_order(rows@, by_turns, k as int, before[p as int] as int, before[j - 1] as int);
                    lemma_above_order(rows@, by_turns, before[p as int] as int, k as int, 0);
                } else if i < p {
                    assert(order@[i] == before[i] && order@[j] == before[j - 1]);
                } else {
                    assert(order@[i] == before[i - 1] && order@[j] == before[j - 1]);
                }
            }
            assert forall|m: usize| m < k + 1 implies #[trigger] order@.contains(m) by {
                if m == k {
                    assert(order@[p as int] == k);
                } else {
                    assert(before.contains(m));
                    let q = choose|q: int| 0 <= q < before.len() && before[q] == m;
                    if q < p {
                        assert(order@[q] == before[q]);
                    } else {
                        assert(order@[q + 1] == before[q]);
                    }
                }
            }
        }
        k += 1;
    }
    let ghost full = order@;
    if order.len() > MAX_CONV_ROWS {
        order.truncate(MAX_CONV_ROWS);
        assert(order@ == full.take(MAX_CONV_ROWS as int));
        assert forall|m: usize, i: int|
            #![trigger order@.contains(m), order@[i]]
            m < rows@.len() && !order@.contains(m) && 0 <= i < order@.len() implies goes_above(
            rows@,
            by_turns,
            order@[i] as int,
            m as int,
        ) by {
            assert(full.contains(m));
            let j = choose|j: int| 0 <= j < full.len() && full[j] == m;
            if j < MAX_CONV_ROWS {
                assert(order@[j] == m);
            }
            assert(order@[i] == full[i]);
        }
    } else {
        assert forall|m: usize| m < rows@.len() implies #[trigger] order@.contains(m) by {}
    }
    order
}

} // verus!
