//! Typed domain errors for the core layer, and context-overflow detection.

use crate::text::{chars_of, concat_str, contains, contains_chars, decimal, decimal_string};
use vstd::prelude::*;

verus! {

/// Why a request (or the configuration before any request) failed.
///
/// Transport failures are carried as plain values: whether the transport
/// reported an expired deadline, and its message.
#[derive(Debug, Clone, PartialEq, Eq)]
pub enum ProbeError {
    /// Transport-level failure (DNS, connect, TLS, read).
    Http { timeout: bool, message: String },
    /// Server returned a non-2xx status (not a context overflow).
    Api { status: u16, body: String },
    /// Server refused the request because the conversation exceeded its context window.
    ContextOverflow { body: String },
    /// Response body failed to deserialize.
    Decode(String),
    /// Streaming-specific failure (malformed SSE line, broken stream).
    Stream(String),
    /// Per-request deadline exceeded.
    Timeout,
    /// Invalid configuration or un-parseable URL, surfaced before any request.
    Config(String),
}

/// What `str::to_lowercase` returns for a string with the characters `s`
/// (Unicode lowercase mapping, including its context-dependent final sigma).
pub uninterp spec fn lowercase(s: Seq<char>) -> Seq<char>;

/// `str::to_lowercase`. Claimed: the result is the lowercase mapping of `s`, a
/// function of the characters of `s` alone; the mapping itself is not stated.
#[verifier::external_body]
fn to_lowercase(s: &str) -> (r: String)
    ensures
        r@ == lowercase(s@),
{
    s.to_lowercase()
}

/// The phrases servers use when a prompt exceeds the model's context window.
pub open spec fn overflow_phrases() -> Seq<Seq<char>> {
    seq![
        "maximum context length"@,
        "context_length_exceeded"@,
        "context window"@,
        "too many tokens"@,
        "exceeds the limit"@,
        "prompt is too long"@,
    ]
}

/// Some overflow phrase occurs in `text`.
pub open spec fn mentions_overflow(text: Seq<char>) -> bool {
    exists|i: int| 0 <= i < overflow_phrases().len() && contains(text, #[trigger] overflow_phrases()[i])
}

/// The overflow phrases: a text that holds any of these phrases mentions an
/// overflow, and a text that mentions an overflow holds one of them.
pub proof fn law_overflow_phrases(text: Seq<char>)
    ensures
        contains(text, "maximum context length"@) ==> mentions_overflow(text),
        contains(text, "context_length_exceeded"@) ==> mentions_overflow(text),
        contains(text, "context window"@) ==> mentions_overflow(text),
        contains(text, "too many tokens"@) ==> mentions_overflow(text),
        contains(text, "exceeds the limit"@) ==> mentions_overflow(text),
        contains(text, "prompt is too long"@) ==> mentions_overflow(text),
        mentions_overflow(text) ==> contains(text, "maximum context length"@) || contains(
            text,
            "context_length_exceeded"@,
        ) || contains(text, "context window"@) || contains(text, "too many tokens"@) || contains(
            text,
            "exceeds the limit"@,
        ) || contains(text, "prompt is too long"@),
{
    let p = overflow_phrases();
    assert(p[0] == "maximum context length"@);
    assert(p[1] == "context_length_exceeded"@);
    assert(p[2] == "context window"@);
    assert(p[3] == "too many tokens"@);
    assert(p[4] == "exceeds the limit"@);
    assert(p[5] == "prompt is too long"@);
}

/// The statuses with which servers refuse an over-long prompt.
pub open spec fn overflow_status(status: u16) -> bool {
    status == 400 || status == 413
}

fn overflow_phrase_list() -> (v: Vec<Vec<char>>)
    ensures
        v@.len() == overflow_phrases().len(),
        forall|i: int| 0 <= i < v@.len() ==> (#[trigger] v@[i])@ == overflow_phrases()[i],
{
    let mut v: Vec<Vec<char>> = Vec::new();
    v.push(chars_of("maximum context length"));
    v.push(chars_of("context_length_exceeded"));
    v.push(chars_of("context window"));
    v.push(chars_of("too many tokens"));
    v.push(chars_of("exceeds the limit"));
    v.push(chars_of("prompt is too long"));
    v
}

/// Whether an already lower-cased error body contains one of the overflow phrases.
pub fn mentions_overflow_phrase(lower: &str) -> (b: bool)
    ensures
        b == mentions_overflow(lower@),
{
    let text = chars_of(lower);
    let phrases = overflow_phrase_list();
    let mut i: usize = 0;
    while i < phrases.len()
        invariant
            i <= phrases.len(),
            text@ == lower@,
            phrases@.len() == overflow_phrases().len(),
            forall|k: int| 0 <= k < phrases@.len() ==> (#[trigger] phrases@[k])@ == overflow_phrases()[k],
            forall|k: int| 0 <= k < i ==> !contains(lower@, #[trigger] overflow_phrases()[k]),
        decreases phrases.len() - i,
    {
        if contains_chars(&text, &phrases[i]) {
            assert(contains(lower@, overflow_phrases()[i as int]));
            return true;
        }
        i += 1;
    }
    false
}

/// Returns `true` when an HTTP error body looks like a context-window overflow:
/// the status is 400 or 413 and the lower-cased body holds an overflow phrase.
pub fn is_context_overflow(status: u16, body: &str) -> (b: bool)
    ensures
        b == (overflow_status(status) && mentions_overflow(lowercase(body@))),
{
    if status != 400 && status != 413 {
        return false;
    }
    let lower = to_lowercase(body);
    mentions_overflow_phrase(lower.as_str())
}

/// The message shown for an error.
pub open spec fn error_text(e: ProbeError) -> Seq<char> {
    match e {
        ProbeError::Http { message, .. } => "request error: "@ + message@,
        ProbeError::Api { status, body } => "HTTP "@ + decimal(status as nat) + ": "@ + body@,
        ProbeError::ContextOverflow { body } => "context overflow: "@ + body@,
        ProbeError::Decode(m) => "decode error: "@ + m@,
        ProbeError::Stream(m) => "stream error: "@ + m@,
        ProbeError::Timeout => "request timed out"@,
        ProbeError::Config(m) => m@,
    }
}

impl ProbeError {
    /// The message shown for this error.
    pub fn message(&self) -> (s: String)
        ensures
            s@ == error_text(*self),
    {
        match self {
            ProbeError::Http { message, .. } => concat_str("request error: ", message.as_str()),
            ProbeError::Api { status, body } => {
                let mut s = String::from_str("HTTP ");
                let code = decimal_string(*status as u64);
                s.append(code.as_str());
                s.append(": ");
                s.append(body.as_str());
                s
            },
            ProbeError::ContextOverflow { body } => concat_str("context overflow: ", body.as_str()),
            ProbeError::Decode(m) => concat_str("decode error: ", m.as_str()),
            ProbeError::Stream(m) => concat_str("stream error: ", m.as_str()),
            ProbeError::Timeout => String::from_str("request timed out"),
            ProbeError::Config(m) => String::from_str(m.as_str()),
        }
    }
}

} // verus!
