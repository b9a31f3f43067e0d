//! The parts of the plain-text report that are built from counts and text:
//! colouring, line assembly, the header, the conversation counts, the
//! small-sample note, and the process exit status.

use crate::metrics::{ConfigSnapshot, ConvTally};
use crate::text::{concat_str, decimal, decimal_string};
use vstd::prelude::*;

verus! {

/// Below this many successful turns the percentiles are flagged as approximate.
pub const SMALL_N: usize = 20;

pub const ACCENT: &'static str = "1;36";

pub const BOLD: &'static str = "1";

pub const GREEN: &'static str = "32";

pub const RED: &'static str = "31";

pub const YELLOW: &'static str = "33";

/// `s` wrapped in the ANSI colour `code` when `on`.
pub open spec fn painted(on: bool, code: Seq<char>, s: Seq<char>) -> Seq<char> {
    if on {
        "\x1b["@ + code + "m"@ + s + "\x1b[0m"@
    } else {
        s
    }
}

/// `s` wrapped in the ANSI colour `code` when `on`, unchanged otherwise.
pub fn paint(on: bool, code: &str, s: &str) -> (out: String)
    ensures
        out@ == painted(on, code@, s@),
{
    if on {
        let mut out = String::from_str("\x1b[");
        out.append(code);
        out.append("m");
        out.append(s);
        out.append("\x1b[0m");
        out
    } else {
        String::from_str(s)
    }
}

/// Appends `line` and a line break to `out`.
pub fn push(out: &mut String, line: String)
    ensures
        final(out)@ == old(out)@ + line@ + "\n"@,
{
    out.append(line.as_str());
    out.append("\n");
}

/// The two header lines: endpoint and model, then mode, slots and token cap.
pub open spec fn header_text(cfg: ConfigSnapshot, color: bool) -> Seq<char> {
    let mode = if cfg.stream { "streaming"@ } else { "non-streaming"@ };
    let cap = match cfg.max_tokens {
        Some(n) => decimal(n as nat),
        None => "unlimited"@,
    };
    painted(color, ACCENT@, "llmprobe"@) + " — "@ + cfg.endpoint@ + "  (model: "@ + cfg.model@
        + ")"@ + "\n"@ + "mode: "@ + mode + " · slots: "@ + decimal(cfg.concurrency as nat)
        + " · max-tokens: "@ + cap + "\n"@
}

/// Appends the report header for the run settings `cfg`.
pub fn render_header(out: &mut String, cfg: &ConfigSnapshot, color: bool)
    ensures
        final(out)@ == old(out)@ + header_text(*cfg, color),
{
    let mut first = paint(color, ACCENT, "llmprobe");
    first.append(" — ");
    first.append(cfg.endpoint.as_str());
    first.append("  (model: ");
    first.append(cfg.model.as_str());
    first.append(")");
    let ghost l1 = first@;
    push(out, first);
    let mut second = String::from_str("mode: ");
    second.append(if cfg.stream { "streaming" } else { "non-streaming" });
    second.append(" · slots: ");
    let slots = decimal_string(cfg.concurrency as u64);
    second.append(slots.as_str());
    second.append(" · max-tokens: ");
    let cap = match cfg.max_tokens {
        Some(n) => decimal_string(n as u64),
        None => String::from_str("unlimited"),
    };
    second.append(cap.as_str());
    push(out, second);
    assert(final(out)@ =~= old(out)@ + header_text(*cfg, color));
}

/// The conversation section of the report: a heading, then the count of
/// conversations by how they ended (errors in red when there are any).
pub open spec fn conversations_text(c: ConvTally, color: bool) -> Seq<char> {
    let errors = decimal(c.errors as nat) + " error"@;
    painted(color, BOLD@, "Conversations"@) + "\n"@ + "  "@ + decimal(c.total as nat) + " total   "@
        + painted(color, GREEN@, decimal(c.context_limit as nat) + " ctx-limit"@) + "   "@ + (
    if c.errors > 0 {
        painted(color, RED@, errors)
    } else {
        errors
    }) + "   "@ + decimal(c.max_turns_hit as nat) + " max-turns   "@ + decimal(
        c.cancelled as nat,
    ) + " cancelled"@ + "\n"@
}

/// Appends the conversation counts of the report.
pub fn render_conversation_counts(out: &mut String, c: &ConvTally, color: bool)
    ensures
        final(out)@ == old(out)@ + conversations_text(*c, color),
{
    push(out, paint(color, BOLD, "Conversations"));
    let mut line = String::from_str("  ");
    let total = decimal_string(c.total as u64);
    line.append(total.as_str());
    line.append(" total   ");
    let ctx = decimal_string(c.context_limit as u64);
    let ctx_text = concat_str(ctx.as_str(), " ctx-limit");
    let ctx_s = paint(color, GREEN, ctx_text.as_str());
    line.append(ctx_s.as_str());
    line.append("   ");
    let errs = decimal_string(c.errors as u64);
    let err_text = concat_str(errs.as_str(), " error");
    let err_s = if c.errors > 0 {
        paint(color, RED, err_text.as_str())
    } else {
        err_text
    };
    line.append(err_s.as_str());
    line.append("   ");
    let mt = decimal_string(c.max_turns_hit as u64);
    line.append(mt.as_str());
    line.append(" max-turns   ");
    let cn = decimal_string(c.cancelled as u64);
    line.append(cn.as_str());
    line.append(" cancelled");
    push(out, line);
    assert(final(out)@ =~= old(out)@ + conversations_text(*c, color));
}

/// The note printed when the percentiles rest on few turns.
pub fn small_n_note(ok_turns: usize) -> (r: Option<String>)
    ensures
        0 < ok_turns < SMALL_N ==> (r matches Some(s) && s@ == "(small N: percentiles over "@
            + decimal(ok_turns as nat) + " turns are approximate)"@),
        !(0 < ok_turns < SMALL_N) ==> r is None,
{
    if ok_turns > 0 && ok_turns < SMALL_N {
        let mut s = String::from_str("(small N: percentiles over ");
        let n = decimal_string(ok_turns as u64);
        s.append(n.as_str());
        s.append(" turns are approximate)");
        Some(s)
    } else {
        None
    }
}

/// Process exit status of a finished run: 1 when every conversation ended in
/// an error, 2 when some did, 0 otherwise.
pub fn exit_code(total: usize, errors: usize) -> (code: u8)
    ensures
        code == (if total > 0 && errors == total {
            1u8
        } else if errors > 0 {
            2u8
        } else {
            0u8
        }),
{
    if total > 0 && errors == total {
        1
    } else if errors > 0 {
        2
    } else {
        0
    }
}

} // verus!
