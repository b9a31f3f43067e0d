//! The decisions around one conversation turn: the request body, how a failed
//! response is classified, how a Server-Sent-Events stream is framed and
//! turned into events, and how the turn's record is assembled.

use crate::config::RunConfig;
use crate::error::{is_context_overflow, lowercase, mentions_overflow, overflow_status, ProbeError};
use crate::metrics::TurnOutcome;
use crate::text::{
    append_chars, chars_of, slice_chars, starts_with, starts_with_chars, same_chars, string_of,
};
use crate::types::{ChatChunk, ChatRequest, ChatResponse, Message, StreamOptions, Usage};
use std::time::Duration;
use vstd::prelude::*;
use vstd::string::StringSliceAdditionalSpecFns;
use vstd::utf8::{decode_utf8, encode_utf8, encode_utf8_decode_utf8, valid_utf8};

verus! {

/// Characters of an error body kept for classification and display.
pub const ERR_BODY_LIMIT: usize = 512;

/// Characters of a reply kept in a turn record.
pub const BODY_LIMIT: usize = 8192;

// ── Request body ─────────────────────────────────────────────────────────────

/// The request body for `messages` under `cfg`.
pub fn build_request<'a>(cfg: &'a RunConfig, messages: &'a [(String, String)]) -> (req: ChatRequest<'a>)
    ensures
        req.model@ == cfg.model@,
        req.messages@.len() == messages@.len(),
        forall|i: int|
            0 <= i < messages@.len() ==> (#[trigger] req.messages@[i]).role@ == messages@[i].0@
                && req.messages@[i].content@ == messages@[i].1@,
        req.stream == cfg.stream,
        req.max_tokens == cfg.max_tokens,
        req.stream_options == (if cfg.stream {
            Some(StreamOptions { include_usage: true })
        } else {
            None
        }),
{
    let mut msgs: Vec<Message<'a>> = Vec::new();
    let mut i: usize = 0;
    while i < messages.len()
        invariant
            i <= messages.len(),
            msgs@.len() == i,
            forall|k: int|
                0 <= k < i ==> (#[trigger] msgs@[k]).role@ == messages@[k].0@ && msgs@[k].content@
                    == messages@[k].1@,
        decreases messages.len() - i,
    {
        let (role, content) = &messages[i];
        msgs.push(Message { role: role.as_str(), content: content.as_str() });
        i += 1;
    }
    let stream_options = if cfg.stream {
        Some(StreamOptions { include_usage: true })
    } else {
        None
    };
    ChatRequest {
        model: cfg.model.as_str(),
        messages: msgs,
        stream: cfg.stream,
        max_tokens: cfg.max_tokens,
        stream_options,
    }
}

// ── Bodies ───────────────────────────────────────────────────────────────────

pub open spec fn truncation_marker() -> Seq<char> {
    "\n\u{2026} (truncated)"@
}

/// A reply as kept in a turn record: at most `BODY_LIMIT` characters, marked when cut.
pub open spec fn capped(s: Seq<char>) -> Seq<char> {
    if s.len() <= BODY_LIMIT {
        s
    } else {
        s.take(BODY_LIMIT as int) + truncation_marker()
    }
}

/// Caps a reply at `BODY_LIMIT` characters, appending a truncation marker when cut.
pub fn cap_body(s: String) -> (out: String)
    ensures
        out@ == capped(s@),
{
    let v = chars_of(s.as_str());
    if v.len() <= BODY_LIMIT {
        return s;
    }
    let mut t = slice_chars(&v, 0, BODY_LIMIT);
    append_chars(&mut t, &chars_of("\n\u{2026} (truncated)"));
    assert(t@ =~= capped(s@));
    string_of(&t)
}

/// The first `ERR_BODY_LIMIT` characters of an error body.
pub open spec fn err_excerpt(body: Seq<char>) -> Seq<char> {
    if body.len() <= ERR_BODY_LIMIT {
        body
    } else {
        body.take(ERR_BODY_LIMIT as int)
    }
}

/// The error for a non-2xx response with status `status` and body `raw`: a
/// context overflow when the (truncated) body says so, otherwise an API error.
pub fn classify_failure(status: u16, raw: &str) -> (e: ProbeError)
    ensures
        ({
            let t = err_excerpt(raw@);
            if overflow_status(status) && mentions_overflow(lowercase(t)) {
                e matches ProbeError::ContextOverflow { body } && body@ == t
            } else {
                e matches ProbeError::Api { status: s, body } && s == status && body@ == t
            }
        }),
{
    let v = chars_of(raw);
    let n = if v.len() <= ERR_BODY_LIMIT {
        v.len()
    } else {
        ERR_BODY_LIMIT
    };
    let t = string_of(&slice_chars(&v, 0, n));
    assert(t@ =~= err_excerpt(raw@));
    if is_context_overflow(status, t.as_str()) {
        ProbeError::ContextOverflow { body: t }
    } else {
        ProbeError::Api { status, body: t }
    }
}

// ── Server-Sent-Events framing ───────────────────────────────────────────────

/// One meaningful line of an SSE stream.
#[derive(Debug, Clone, PartialEq, Eq)]
pub enum SseLine {
    /// The payload of a `data:` line.
    Data(String),
    /// The `data: [DONE]` terminator.
    Done,
}

/// What a stream line means, as characters.
pub enum LineView {
    Data(Seq<char>),
    Done,
}

pub open spec fn line_view(l: SseLine) -> LineView {
    match l {
        SseLine::Data(s) => LineView::Data(s@),
        SseLine::Done => LineView::Done,
    }
}

/// How one complete line (without its `\n`) is handled.
pub enum LineClass {
    /// Not UTF-8: the stream is broken.
    Invalid,
    /// Blank, a comment, or not a `data:` field.
    Skip,
    Done,
    Data(Seq<char>),
}

/// Classifies a line: strip one trailing `\r`; skip blanks, `:` comments and
/// non-`data:` fields; strip `data:` and one following space; `[DONE]` ends the stream.
pub open spec fn classify_line(line: Seq<u8>) -> LineClass {
    if !valid_utf8(line) {
        LineClass::Invalid
    } else {
        let s0 = decode_utf8(line);
        let s = if s0.len() > 0 && s0.last() == '\r' {
            s0.drop_last()
        } else {
            s0
        };
        if s.len() == 0 || s[0] == ':' {
            LineClass::Skip
        } else if !starts_with(s, "data:"@) {
            LineClass::Skip
        } else {
            let p = s.skip("data:"@.len() as int);
            let q = if p.len() > 0 && p[0] == ' ' {
                p.drop_first()
            } else {
                p
            };
            if q == "[DONE]"@ {
                LineClass::Done
            } else {
                LineClass::Data(q)
            }
        }
    }
}

/// Index of the first `\n` in `b`, if any.
pub open spec fn first_newline(b: Seq<u8>) -> Option<int>
    decreases b.len(),
{
    if b.len() == 0 {
        None
    } else if b[0] == 10u8 {
        Some(0)
    } else {
        match first_newline(b.drop_first()) {
            Some(i) => Some(i + 1),
            None => None,
        }
    }
}

/// The outcome of decoding a buffer: the lines emitted, the bytes left
/// buffered, and whether a line was not UTF-8.
#[verifier::ext_equal]
pub struct Scan {
    pub frames: Seq<LineView>,
    pub rest: Seq<u8>,
    pub err: bool,
}

/// Decodes the complete lines of `buf` in order, stopping after `[DONE]` or at
/// the first non-UTF-8 line; the unread bytes stay buffered.
pub open spec fn scan(buf: Seq<u8>) -> Scan
    decreases buf.len(),
{
    match first_newline(buf) {
        Some(p) => if 0 <= p < buf.len() {
            let after = buf.skip(p + 1);
            match classify_line(buf.take(p)) {
                LineClass::Invalid => Scan { frames: seq![], rest: after, err: true },
                LineClass::Skip => scan(after),
                LineClass::Done => Scan { frames: seq![LineView::Done], rest: after, err: false },
                LineClass::Data(s) => {
                    let r = scan(after);
                    Scan { frames: seq![LineView::Data(s)] + r.frames, rest: r.rest, err: r.err }
                },
            }
        } else {
            Scan { frames: seq![], rest: buf, err: false }
        },
        None => Scan { frames: seq![], rest: buf, err: false },
    }
}

/// `r` with the frames `f` emitted before it.
pub open spec fn after_frames(f: Seq<LineView>, r: Scan) -> Scan {
    Scan { frames: f + r.frames, rest: r.rest, err: r.err }
}

pub open spec fn lines_view(v: Seq<SseLine>) -> Seq<LineView> {
    v.map_values(|l: SseLine| line_view(l))
}

proof fn lemma_first_newline_some(b: Seq<u8>, i: int)
    requires
        0 <= i < b.len(),
        b[i] == 10u8,
        forall|m: int| 0 <= m < i ==> b[m] != 10u8,
    ensures
        first_newline(b) == Some(i),
    decreases i,
{
    if i > 0 {
        lemma_first_newline_some(b.drop_first(), i - 1);
    }
}

proof fn lemma_first_newline_none(b: Seq<u8>)
    requires
        forall|m: int| 0 <= m < b.len() ==> b[m] != 10u8,
    ensures
        first_newline(b) is None,
    decreases b.len(),
{
    if b.len() > 0 {
        lemma_first_newline_none(b.drop_first());
    }
}

proof fn lemma_first_newline_bound(b: Seq<u8>)
    ensures
        first_newline(b) matches Some(p) ==> 0 <= p < b.len() && b[p] == 10u8 && forall|m: int|
            0 <= m < p ==> b[m] != 10u8,
        first_newline(b) is None ==> forall|m: int| 0 <= m < b.len() ==> b[m] != 10u8,
    decreases b.len(),
{
    if b.len() > 0 && b[0] != 10u8 {
        lemma_first_newline_bound(b.drop_first());
        assert forall|m: int| 1 <= m < b.len() implies b[m] == b.drop_first()[m - 1] by {}
    }
}

/// `std::str::from_utf8`. Claimed: it yields a string exactly when the bytes
/// are well-formed UTF-8, and the string's UTF-8 encoding is those bytes.
#[verifier::external_body]
fn utf8_str(b: &[u8]) -> (r: Option<&str>)
    ensures
        r is Some <==> valid_utf8(b@),
        r matches Some(s) ==> s.spec_bytes() == b@,
{
    std::str::from_utf8(b).ok()
}

fn byte_range(v: &Vec<u8>, i: usize, j: usize) -> (out: Vec<u8>)
    requires
        i <= j <= v.len(),
    ensures
        out@ == v@.subrange(i as int, j as int),
{
    let mut out: Vec<u8> = Vec::new();
    let mut k = i;
    while k < j
        invariant
            i <= k <= j <= v.len(),
            out@ == v@.subrange(i as int, k as int),
        decreases j - k,
    {
        out.push(v[k]);
        k += 1;
    }
    out
}

/// Classifies one line (already UTF-8 decoded into `s`).
fn classify_text(line: &Vec<u8>, s: &str) -> (c: Option<SseLine>)
    requires
        s.spec_bytes() == line@,
        valid_utf8(line@),
    ensures
        match classify_line(line@) {
            LineClass::Skip => c is None,
            LineClass::Done => c == Some(SseLine::Done),
            LineClass::Data(q) => c matches Some(SseLine::Data(p)) && p@ == q,
            LineClass::Invalid => false,
        },
{
    proof {
        encode_utf8_decode_utf8(s@);
    }
    assert(decode_utf8(line@) == s@);
    let c0 = chars_of(s);
    let c = if c0.len() > 0 && c0[c0.len() - 1] == '\r' {
        slice_chars(&c0, 0, c0.len() - 1)
    } else {
        slice_chars(&c0, 0, c0.len())
    };
    assert(c0@.subrange(0, c0@.len() as int) =~= c0@);
    assert(c0@.len() > 0 ==> c0@.subrange(0, c0@.len() - 1) =~= c0@.drop_last());
    if c.len() == 0 || c[0] == ':' {
        return None;
    }
    let prefix = chars_of("data:");
    if !starts_with_chars(&c, &prefix) {
        return None;
    }
    let p = slice_chars(&c, prefix.len(), c.len());
    assert(p@ =~= c@.skip("data:"@.len() as int));
    let q = if p.len() > 0 && p[0] == ' ' {
        slice_chars(&p, 1, p.len())
    } else {
        slice_chars(&p, 0, p.len())
    };
    assert(p@.subrange(0, p@.len() as int) =~= p@);
    assert(p@.len() > 0 ==> p@.subrange(1, p@.len() as int) =~= p@.drop_first());
    let done = chars_of("[DONE]");
    if same_chars(&q, &done) {
        Some(SseLine::Done)
    } else {
        Some(SseLine::Data(string_of(&q)))
    }
}

/// Incremental SSE decoder: bytes in, complete meaningful lines out.
pub struct SseDecoder {
    buf: Vec<u8>,
}

impl View for SseDecoder {
    type V = Seq<u8>;

    /// The bytes received but not yet consumed as complete lines.
    closed spec fn view(&self) -> Seq<u8> {
        self.buf@
    }
}

impl SseDecoder {
    pub fn new() -> (d: Self)
        ensures
            d@ == Seq::<u8>::empty(),
    {
        SseDecoder { buf: Vec::new() }
    }

    /// Buffers `bytes` and decodes every complete line now available, in
    /// order, stopping after `[DONE]`. A line that is not UTF-8 is a stream
    /// error; the lines after it stay buffered.
    pub fn feed(&mut self, bytes: &[u8]) -> (r: Result<Vec<SseLine>, ProbeError>)
        ensures
            ({
                let sc = scan(old(self)@ + bytes@);
                &&& final(self)@ == sc.rest
                &&& (r is Err <==> sc.err)
                &&& r matches Err(e) ==> (e matches ProbeError::Stream(m) && m@
                    == "invalid utf-8 in stream"@)
                &&& r matches Ok(v) ==> lines_view(v@) == sc.frames
            }),
    {
        let mut total: Vec<u8> = Vec::new();
        std::mem::swap(&mut total, &mut self.buf);
        let ghost whole = total@ + bytes@;
        let mut b: usize = 0;
        while b < bytes.len()
            invariant
                b <= bytes.len(),
                whole == old(self)@ + bytes@,
                total@ == old(self)@ + bytes@.take(b as int),
            decreases bytes.len() - b,
        {
            total.push(bytes[b]);
            b += 1;
        }
        assert(bytes@.take(bytes@.len() as int) =~= bytes@);
        let mut out: Vec<SseLine> = Vec::new();
        let mut start: usize = 0;
        assert(whole.skip(0) =~= whole);
        assert(lines_view(out@) =~= Seq::<LineView>::empty());
        assert(after_frames(lines_view(out@), scan(whole.skip(0))) =~= scan(whole));
        loop
            invariant
                whole == old(self)@ + bytes@,
                total@ == whole,
                start <= total.len(),
                scan(whole) == after_frames(lines_view(out@), scan(whole.skip(start as int))),
            decreases total.len() - start,
        {
            let mut k = start;
            while k < total.len() && total[k] != 10u8
                invariant
                    start <= k <= total.len(),
                    forall|m: int| start <= m < k ==> total@[m] != 10u8,
                decreases total.len() - k,
            {
                k += 1;
            }
            let ghost tail = whole.skip(start as int);
            if k == total.len() {
                proof {
                    assert forall|m: int| 0 <= m < tail.len() implies tail[m] != 10u8 by {
                        assert(tail[m] == whole[start + m]);
                    }
                    lemma_first_newline_none(tail);
                    assert(scan(tail) == Scan { frames: seq![], rest: tail, err: false });
                    assert(lines_view(out@) + seq![] =~= lines_view(out@));
                }
                self.buf = byte_range(&total, start, total.len());
                assert(self.buf@ =~= tail);
                return Ok(out);
            }
            proof {
                assert forall|m: int| 0 <= m < k - start implies tail[m] != 10u8 by {
                    assert(tail[m] == whole[start + m]);
                }
                lemma_first_newline_some(tail, k - start);
                assert(tail.take(k - start) =~= whole.subrange(start as int, k as int));
                assert(tail.skip(k - start + 1) =~= whole.skip(k + 1));
            }
            let line = byte_range(&total, start, k);
            let ghost after = whole.skip(k + 1);
            match utf8_str(line.as_slice()) {
                None => {
                    self.buf = byte_range(&total, k + 1, total.len());
                    assert(self.buf@ =~= after);
                    assert(lines_view(out@) + seq![] =~= lines_view(out@));
                    return Err(ProbeError::Stream(String::from_str("invalid utf-8 in stream")));
                },
                Some(s) => {
                    let c = classify_text(&line, s);
                    match c {
                        None => {
                            start = k + 1;
                        },
                        Some(SseLine::Done) => {
                            let ghost before = out@;
                            out.push(SseLine::Done);
                            self.buf = byte_range(&total, k + 1, total.len());
                            assert(self.buf@ =~= after);
                            assert(lines_view(out@) =~= lines_view(before) + seq![LineView::Done]);
                            return Ok(out);
                        },
                        Some(SseLine::Data(p)) => {
                            let ghost before = out@;
                            let ghost q = p@;
                            out.push(SseLine::Data(p));
                            assert(lines_view(out@) =~= lines_view(before) + seq![LineView::Data(q)]);
                            assert(lines_view(out@) + scan(after).frames =~= lines_view(before) + (seq![
                                LineView::Data(q),
                            ] + scan(after).frames));
                            start = k + 1;
                        },
                    }
                },
            }
        }
    }
}

impl Default for SseDecoder {
    fn default() -> (d: Self)
        ensures
            d@ == Seq::<u8>::empty(),
    {
        SseDecoder::new()
    }
}

/// Feeding a stream in two pieces decodes the same lines as feeding it whole,
/// as long as the first piece ends the stream neither with `[DONE]` nor with a
/// broken line.
pub proof fn law_feed_split(buf: Seq<u8>, more: Seq<u8>)
    requires
        !scan(buf).err,
        !scan(buf).frames.contains(LineView::Done),
    ensures
        scan(buf + more) == after_frames(scan(buf).frames, scan(scan(buf).rest + more)),
    decreases buf.len(),
{
    lemma_first_newline_bound(buf);
    match first_newline(buf) {
        Some(p) => {
            let after = buf.skip(p + 1);
            let whole = buf + more;
            assert forall|m: int| 0 <= m < p implies whole[m] != 10u8 by {
                assert(whole[m] == buf[m]);
            }
            lemma_first_newline_some(whole, p);
            assert(whole.take(p) =~= buf.take(p));
            assert(whole.skip(p + 1) =~= after + more);
            assert(scan(whole) == match classify_line(buf.take(p)) {
                LineClass::Invalid => Scan { frames: seq![], rest: after + more, err: true },
                LineClass::Skip => scan(after + more),
                LineClass::Done => Scan { frames: seq![LineView::Done], rest: after + more, err: false },
                LineClass::Data(s) => {
                    let r = scan(after + more);
                    Scan { frames: seq![LineView::Data(s)] + r.frames, rest: r.rest, err: r.err }
                },
            });
            match classify_line(buf.take(p)) {
                LineClass::Invalid => {},
                LineClass::Skip => {
                    law_feed_split(after, more);
                    assert(scan(buf + more) =~= after_frames(scan(buf).frames, scan(scan(buf).rest + more)));
                },
                LineClass::Done => {
                    assert(scan(buf).frames[0] == LineView::Done);
                },
                LineClass::Data(s) => {
                    let r = scan(after);
                    assert(scan(buf).frames =~= seq![LineView::Data(s)] + r.frames);
                    assert forall|j: int| 0 <= j < r.frames.len() implies r.frames[j]
                        != LineView::Done by {
                        assert(scan(buf).frames[j + 1] == r.frames[j]);
                    }
                    law_feed_split(after, more);
                    assert(scan(buf + more).frames =~= seq![LineView::Data(s)] + (r.frames + scan(
                        r.rest + more,
                    ).frames));
                    assert(scan(buf + more) =~= after_frames(scan(buf).frames, scan(scan(buf).rest + more)));
                },
            }
        },
        None => {
            let whole = buf + more;
            assert(scan(buf) == Scan { frames: seq![], rest: buf, err: false });
            assert(seq![] + scan(buf + more).frames =~= scan(buf + more).frames);
            assert(scan(buf + more) =~= after_frames(scan(buf).frames, scan(scan(buf).rest + more)));
        },
    }
}

/// Decoding never takes back a stop: a broken line or `[DONE]` met in a prefix
/// of the stream is met again however many bytes follow.
pub proof fn law_prefix_stop_persists(buf: Seq<u8>, more: Seq<u8>)
    ensures
        scan(buf).err ==> scan(buf + more).err,
        scan(buf).frames.contains(LineView::Done) ==> scan(buf + more).frames.contains(
            LineView::Done,
        ),
    decreases buf.len(),
{
    lemma_first_newline_bound(buf);
    match first_newline(buf) {
        Some(p) => {
            let after = buf.skip(p + 1);
            let whole = buf + more;
            assert forall|m: int| 0 <= m < p implies whole[m] != 10u8 by {
                assert(whole[m] == buf[m]);
            }
            lemma_first_newline_some(whole, p);
            assert(whole.take(p) =~= buf.take(p));
            assert(whole.skip(p + 1) =~= after + more);
            law_prefix_stop_persists(after, more);
            match classify_line(buf.take(p)) {
                LineClass::Data(s) => {
                    let r = scan(after);
                    let r2 = scan(after + more);
                    if scan(buf).frames.contains(LineView::Done) {
                        let j = choose|j: int|
                            0 <= j < scan(buf).frames.len() && scan(buf).frames[j] == LineView::Done;
                        assert(j > 0);
                        assert(r.frames[j - 1] == LineView::Done);
                        assert(r.frames.contains(LineView::Done));
                        let k = choose|k: int| 0 <= k < r2.frames.len() && r2.frames[k] == LineView::Done;
                        assert(scan(whole).frames[k + 1] == LineView::Done);
                    }
                },
                LineClass::Done => {
                    assert(scan(whole).frames[0] == LineView::Done);
                },
                _ => {},
            }
        },
        None => {},
    }
}

/// Decoding gives the same lines however the stream is split between reads:
/// when decoding the whole of `buf + more` meets no broken line and no
/// `[DONE]`, decoding `buf` and then the rest it leaves buffered together with
/// `more` gives the same lines and leaves the same bytes buffered.
pub proof fn law_split_reads(buf: Seq<u8>, more: Seq<u8>)
    requires
        !scan(buf + more).err,
        !scan(buf + more).frames.contains(LineView::Done),
    ensures
        scan(buf + more) == after_frames(scan(buf).frames, scan(scan(buf).rest + more)),
{
    law_prefix_stop_persists(buf, more);
    law_feed_split(buf, more);
}

// ── Stream events ─────────────────────────────────────────────────────────────

#[derive(Debug, Clone, PartialEq, Eq)]
pub enum SseEvent {
    Content(String),
    Usage(Usage),
    Done,
}

pub enum EventView {
    Content(Seq<char>),
    Usage(Usage),
    Done,
}

pub open spec fn event_view(e: SseEvent) -> EventView {
    match e {
        SseEvent::Content(s) => EventView::Content(s@),
        SseEvent::Usage(u) => EventView::Usage(u),
        SseEvent::Done => EventView::Done,
    }
}

pub open spec fn events_view(v: Seq<SseEvent>) -> Seq<EventView> {
    v.map_values(|e: SseEvent| event_view(e))
}

fn copy_event(e: &SseEvent) -> (r: SseEvent)
    ensures
        r == *e,
{
    match e {
        SseEvent::Content(s) => SseEvent::Content(s.clone()),
        SseEvent::Usage(u) => SseEvent::Usage(*u),
        SseEvent::Done => SseEvent::Done,
    }
}

/// The events of one parsed chunk: the first choice's content when non-empty,
/// then the usage when present.
pub open spec fn chunk_events_view(c: ChatChunk) -> Seq<EventView> {
    let content = if c.choices@.len() > 0 && c.choices@[0].delta.content is Some
        && c.choices@[0].delta.content->0@.len() > 0 {
        seq![EventView::Content(c.choices@[0].delta.content->0@)]
    } else {
        seq![]
    };
    let usage = match c.usage {
        Some(u) => seq![EventView::Usage(u)],
        None => seq![],
    };
    content + usage
}

/// The events of one parsed chunk.
pub fn chunk_events(c: &ChatChunk) -> (v: Vec<SseEvent>)
    ensures
        events_view(v@) == chunk_events_view(*c),
{
    let mut v: Vec<SseEvent> = Vec::new();
    if c.choices.len() > 0 {
        if let Some(content) = &c.choices[0].delta.content {
            if !content.as_str().is_empty() {
                v.push(SseEvent::Content(content.clone()));
            }
        }
    }
    if let Some(u) = c.usage {
        v.push(SseEvent::Usage(u));
    }
    assert(events_view(v@) =~= chunk_events_view(*c));
    v
}

/// The events of decoded lines, given each `data:` payload's parse result:
/// a payload that did not parse is a stream error; `[DONE]` ends the events.
pub open spec fn events_result(lines: Seq<SseLine>, parsed: Seq<Result<ChatChunk, String>>) -> Result<
    Seq<EventView>,
    Seq<char>,
>
    decreases lines.len(),
{
    if lines.len() == 0 || parsed.len() == 0 {
        Ok(seq![])
    } else {
        match lines[0] {
            SseLine::Done => Ok(seq![EventView::Done]),
            SseLine::Data(_) => match parsed[0] {
                Err(m) => Err("bad SSE chunk: "@ + m@),
                Ok(c) => match events_result(lines.drop_first(), parsed.drop_first()) {
                    Ok(rest) => Ok(chunk_events_view(c) + rest),
                    Err(e) => Err(e),
                },
            },
        }
    }
}

/// Turns decoded lines into events; `parsed[i]` is the JSON parse of line `i`'s
/// payload (ignored for `[DONE]`), or the parser's message.
pub fn events_of(lines: &Vec<SseLine>, parsed: &Vec<Result<ChatChunk, String>>) -> (r: Result<
    Vec<SseEvent>,
    ProbeError,
>)
    requires
        parsed@.len() == lines@.len(),
    ensures
        match (r, events_result(lines@, parsed@)) {
            (Ok(v), Ok(w)) => events_view(v@) == w,
            (Err(ProbeError::Stream(m)), Err(w)) => m@ == w,
            _ => false,
        },
{
    let mut out: Vec<SseEvent> = Vec::new();
    let mut i: usize = 0;
    assert(lines@.skip(0) =~= lines@);
    assert(parsed@.skip(0) =~= parsed@);
    while i < lines.len()
        invariant
            parsed@.len() == lines@.len(),
            i <= lines.len(),
            events_result(lines@, parsed@) == (match events_result(
                lines@.skip(i as int),
                parsed@.skip(i as int),
            ) {
                Ok(rest) => Ok(events_view(out@) + rest),
                Err(e) => Err(e),
            }),
        decreases lines.len() - i,
    {
        assert(lines@.skip(i as int)[0] == lines@[i as int]);
        assert(parsed@.skip(i as int)[0] == parsed@[i as int]);
        assert(lines@.skip(i as int).drop_first() =~= lines@.skip(i + 1));
        assert(parsed@.skip(i as int).drop_first() =~= parsed@.skip(i + 1));
        match &lines[i] {
            SseLine::Done => {
                let ghost before = out@;
                out.push(SseEvent::Done);
                assert(events_view(out@) =~= events_view(before) + seq![EventView::Done]);
                return Ok(out);
            },
            SseLine::Data(_) => {
                match &parsed[i] {
                    Err(m) => {
                        let mut msg = String::from_str("bad SSE chunk: ");
                        msg.append(m.as_str());
                        return Err(ProbeError::Stream(msg));
                    },
                    Ok(c) => {
                        let evs = chunk_events(c);
                        let ghost before = out@;
                        let mut j: usize = 0;
                        while j < evs.len()
                            invariant
                                j <= evs.len(),
                                events_view(out@) == events_view(before) + events_view(
                                    evs@.take(j as int),
                                ),
                            decreases evs.len() - j,
                        {
                            let ghost prev = out@;
                            out.push(copy_event(&evs[j]));
                            assert(events_view(out@) =~= events_view(prev).push(event_view(evs@[j as int])));
                            assert(events_view(evs@.take(j + 1)) =~= events_view(
                                evs@.take(j as int),
                            ).push(event_view(evs@[j as int])));
                            assert(events_view(out@) =~= events_view(before) + events_view(
                                evs@.take(j + 1),
                            ));
                            j += 1;
                        }
                        assert(evs@.take(evs@.len() as int) =~= evs@);
                        assert(events_view(out@) =~= events_view(before) + chunk_events_view(*c));
                        proof {
                            match events_result(lines@.skip(i + 1), parsed@.skip(i + 1)) {
                                Ok(rest) => {
                                    assert(events_view(before) + (chunk_events_view(*c) + rest)
                                        =~= events_view(out@) + rest);
                                },
                                Err(_) => {},
                            }
                        }
                    },
                }
            },
        }
        i += 1;
    }
    proof {
        assert(lines@.skip(i as int).len() == 0);
        assert(events_view(out@) + seq![] =~= events_view(out@));
    }
    Ok(out)
}

/// Turning lines into events also does not depend on the split: for lines
/// `l1` (with their parses `p1`) that hold no `[DONE]` and parse, the events of
/// `l1` followed by `l2` are those of `l1` followed by those of `l2`.
pub proof fn law_events_split(
    l1: Seq<SseLine>,
    p1: Seq<Result<ChatChunk, String>>,
    l2: Seq<SseLine>,
    p2: Seq<Result<ChatChunk, String>>,
)
    requires
        l1.len() == p1.len(),
        !l1.contains(SseLine::Done),
        events_result(l1, p1) is Ok,
    ensures
        events_result(l1 + l2, p1 + p2) == (match events_result(l2, p2) {
            Ok(w) => Ok(events_result(l1, p1)->Ok_0 + w),
            Err(x) => Err(x),
        }),
    decreases l1.len(),
{
    if l1.len() == 0 {
        assert(l1 + l2 =~= l2);
        assert(p1 + p2 =~= p2);
        assert(events_result(l1, p1) == Ok::<Seq<EventView>, Seq<char>>(seq![]));
        match events_result(l2, p2) {
            Ok(w) => {
                assert(Seq::<EventView>::empty() + w =~= w);
            },
            Err(_) => {},
        }
    } else {
        assert((l1 + l2).drop_first() =~= l1.drop_first() + l2);
        assert((p1 + p2).drop_first() =~= p1.drop_first() + p2);
        assert((l1 + l2)[0] == l1[0]);
        assert((p1 + p2)[0] == p1[0]);
        assert(l1[0] != SseLine::Done);
        assert(!l1.drop_first().contains(SseLine::Done)) by {
            if l1.drop_first().contains(SseLine::Done) {
                let j = choose|j: int| 0 <= j < l1.drop_first().len() && l1.drop_first()[j] == SseLine::Done;
                assert(l1[j + 1] == SseLine::Done);
            }
        }
        law_events_split(l1.drop_first(), p1.drop_first(), l2, p2);
        match events_result(l2, p2) {
            Ok(w) => {
                let c = p1[0]->Ok_0;
                let rest = events_result(l1.drop_first(), p1.drop_first())->Ok_0;
                assert(chunk_events_view(c) + (rest + w) =~= (chunk_events_view(c) + rest) + w);
            },
            Err(_) => {},
        }
    }
}

// ── Stream accumulation ───────────────────────────────────────────────────────

/// What a streamed reply has produced so far.
pub struct StreamState {
    /// Reply text; stops growing once it holds `BODY_LIMIT` bytes or more.
    pub reply: String,
    pub usage: Option<Usage>,
    /// Some non-empty content has arrived (the first token was seen).
    pub content_seen: bool,
    /// `[DONE]` arrived.
    pub done: bool,
}

impl StreamState {
    pub fn new() -> (s: Self)
        ensures
            s.reply@ == Seq::<char>::empty(),
            s.usage is None,
            !s.content_seen,
            !s.done,
    {
        StreamState { reply: String::new(), usage: None, content_seen: false, done: false }
    }

    /// Applies one event; returns whether it carried the first content token.
    pub fn apply(&mut self, ev: SseEvent) -> (first: bool)
        ensures
            match ev {
                SseEvent::Content(text) => {
                    &&& first == !old(self).content_seen
                    &&& final(self).content_seen
                    &&& final(self).reply@ == (if (encode_utf8(old(self).reply@).len() as usize) < BODY_LIMIT {
                        old(self).reply@ + text@
                    } else {
                        old(self).reply@
                    })
                    &&& final(self).usage == old(self).usage
                    &&& final(self).done == old(self).done
                },
                SseEvent::Usage(u) => {
                    &&& !first
                    &&& final(self).usage == Some(u)
                    &&& final(self).reply@ == old(self).reply@
                    &&& final(self).content_seen == old(self).content_seen
                    &&& final(self).done == old(self).done
                },
                SseEvent::Done => {
                    &&& !first
                    &&& final(self).done
                    &&& final(self).usage == old(self).usage
                    &&& final(self).reply@ == old(self).reply@
                    &&& final(self).content_seen == old(self).content_seen
                },
            },
    {
        match ev {
            SseEvent::Content(text) => {
                let ghost before = self.reply@;
                let n = self.reply.as_str().len();
                assert(n == encode_utf8(before).len() as usize);
                if n < BODY_LIMIT {
                    let mut r = String::new();
                    std::mem::swap(&mut r, &mut self.reply);
                    r.append(text.as_str());
                    assert(r@ == before + text@);
                    self.reply = r;
                }
                let first = !self.content_seen;
                self.content_seen = true;
                first
            },
            SseEvent::Usage(u) => {
                self.usage = Some(u);
                false
            },
            SseEvent::Done => {
                self.done = true;
                false
            },
        }
    }

    /// The reply to record: `None` when nothing arrived, else the capped text.
    pub fn finish_reply(&self) -> (r: Option<String>)
        ensures
            self.reply@.len() == 0 ==> r is None,
            self.reply@.len() > 0 ==> (r matches Some(t) && t@ == capped(self.reply@)),
    {
        if self.reply.as_str().is_empty() {
            None
        } else {
            Some(cap_body(self.reply.clone()))
        }
    }
}

// ── Turn records ─────────────────────────────────────────────────────────────

/// The reply a non-streaming response contributes: the first choice's
/// non-empty content, capped.
pub open spec fn answer_reply(resp: ChatResponse) -> Option<Seq<char>> {
    if resp.choices@.len() > 0 && resp.choices@[0].message.content is Some
        && resp.choices@[0].message.content->0@.len() > 0 {
        Some(capped(resp.choices@[0].message.content->0@))
    } else {
        None
    }
}

pub open spec fn opt_view(o: Option<String>) -> Option<Seq<char>> {
    match o {
        Some(s) => Some(s@),
        None => None,
    }
}

/// The record of a turn answered by a non-streaming response after `e2e`;
/// `tps` is the rate computed from the completion tokens and `e2e`.
pub fn answered_outcome<F>(
    conv_id: usize,
    turn_idx: usize,
    resp: &ChatResponse,
    e2e: Duration,
    tps: Option<F>,
) -> (t: TurnOutcome<F>)
    ensures
        t.conv_id == conv_id,
        t.turn_idx == turn_idx,
        t.prompt_tokens == (match resp.usage {
            Some(u) => Some(u.prompt_tokens),
            None => None,
        }),
        t.completion_tokens == (match resp.usage {
            Some(u) => Some(u.completion_tokens),
            None => None,
        }),
        t.e2e == e2e,
        t.ttft is None,
        t.tpot_ms is None,
        t.itl_ms is None,
        t.tps == tps,
        t.success,
        t.error is None,
        t.prompt@ == Seq::<char>::empty(),
        opt_view(t.reply) == answer_reply(*resp),
        t.error_body is None,
{
    let (prompt_tokens, completion_tokens) = match resp.usage {
        Some(u) => (Some(u.prompt_tokens), Some(u.completion_tokens)),
        None => (None, None),
    };
    let mut reply: Option<String> = None;
    if resp.choices.len() > 0 {
        if let Some(c) = &resp.choices[0].message.content {
            if !c.as_str().is_empty() {
                reply = Some(cap_body(c.clone()));
            }
        }
    }
    TurnOutcome {
        conv_id,
        turn_idx,
        prompt_tokens,
        completion_tokens,
        e2e,
        ttft: None,
        tpot_ms: None,
        itl_ms: None,
        tps,
        success: true,
        error: None,
        prompt: String::new(),
        reply,
        error_body: None,
    }
}

/// The decode window of a streamed turn, with every instant in nanoseconds
/// after the request was sent: from the first content chunk to the last when
/// the last came later; for a single chunk, the end-to-end time less the time
/// to the first token, when that leaves any time; none before any content.
pub open spec fn decode_window_of(first: Option<u64>, last: Option<u64>, e2e: u64) -> Option<u64> {
    match (first, last) {
        (Some(f), Some(l)) => if l > f {
            Some((l - f) as u64)
        } else if e2e > f {
            Some((e2e - f) as u64)
        } else {
            None
        },
        _ => None,
    }
}

/// The decode window of a streamed turn (see `decode_window_of`).
pub fn decode_window(first: Option<u64>, last: Option<u64>, e2e: u64) -> (w: Option<u64>)
    ensures
        w == decode_window_of(first, last, e2e),
{
    match (first, last) {
        (Some(f), Some(l)) => if l > f {
            Some(l - f)
        } else if e2e > f {
            Some(e2e - f)
        } else {
            None
        },
        _ => None,
    }
}

/// The record of a streamed turn; the timings and rates are measured by the caller.
#[allow(clippy::too_many_arguments)]
pub fn streamed_outcome<F>(
    conv_id: usize,
    turn_idx: usize,
    state: &StreamState,
    e2e: Duration,
    ttft: Option<Duration>,
    tpot_ms: Option<F>,
    itl_ms: Option<F>,
    tps: Option<F>,
) -> (t: TurnOutcome<F>)
    ensures
        t.conv_id == conv_id,
        t.turn_idx == turn_idx,
        t.prompt_tokens == (match state.usage {
            Some(u) => Some(u.prompt_tokens),
            None => None,
        }),
        t.completion_tokens == (match state.usage {
            Some(u) => Some(u.completion_tokens),
            None => None,
        }),
        t.e2e == e2e,
        t.ttft == ttft,
        t.tpot_ms == tpot_ms,
        t.itl_ms == itl_ms,
        t.tps == tps,
        t.success,
        t.error is None,
        t.prompt@ == Seq::<char>::empty(),
        state.reply@.len() == 0 ==> t.reply is None,
        state.reply@.len() > 0 ==> opt_view(t.reply) == Some(capped(state.reply@)),
        t.error_body is None,
{
    let (prompt_tokens, completion_tokens) = match state.usage {
        Some(u) => (Some(u.prompt_tokens), Some(u.completion_tokens)),
        None => (None, None),
    };
    TurnOutcome {
        conv_id,
        turn_idx,
        prompt_tokens,
        completion_tokens,
        e2e,
        ttft,
        tpot_ms,
        itl_ms,
        tps,
        success: true,
        error: None,
        prompt: String::new(),
        reply: state.finish_reply(),
        error_body: None,
    }
}

} // verus!
