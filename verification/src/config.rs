//! Validated, normalized run settings.

use crate::error::ProbeError;
use crate::text::{
    append_chars, chars_of, concat_str, ends_with, ends_with_chars, find_char, first_index_of,
    is_ws, slice_chars, starts_with, starts_with_chars, string_of, trim, trim_chars, trim_end,
    trim_end_char, trim_end_char_chars, trim_start,
};
use vstd::prelude::*;

verus! {

/// Seconds allowed for establishing a connection.
pub const CONNECT_TIMEOUT_SECS: u64 = 10;

/// Everything the runner/client need, already validated and normalized.
#[derive(Debug, Clone)]
pub struct RunConfig {
    /// Fully-resolved `.../v1/chat/completions` URL.
    pub endpoint: String,
    pub model: String,
    /// Total conversations to run across all slots; `0` = run forever.
    pub conversations: usize,
    /// Number of concurrent conversation slots.
    pub concurrency: usize,
    pub stream: bool,
    /// Fixed system prompt; `None` draws one from the built-in pool per conversation.
    pub system_prompt: Option<String>,
    /// Per-conversation turn cap; `0` = unlimited.
    pub max_turns_per_conv: usize,
    pub max_tokens: Option<u32>,
    /// Seed for reproducible prompt selection; `None` = a fresh random seed.
    pub rng_seed: Option<u64>,
    /// Per-turn request timeout, in seconds (covers the whole stream).
    pub timeout_secs: u64,
    pub api_key: Option<String>,
    pub headers: Vec<(String, String)>,
}

// ── Endpoint normalization ────────────────────────────────────────────────────

/// The input with surrounding whitespace and trailing slashes removed.
pub open spec fn endpoint_core(input: Seq<char>) -> Seq<char> {
    trim_end_char(trim(input), '/')
}

/// The chat-completions URL a base or full endpoint stands for.
pub open spec fn resolved(input: Seq<char>) -> Seq<char> {
    let t = endpoint_core(input);
    if ends_with(t, "/chat/completions"@) {
        t
    } else if ends_with(t, "/v1"@) {
        t + "/chat/completions"@
    } else {
        t + "/v1/chat/completions"@
    }
}

pub open spec fn is_http_url(s: Seq<char>) -> bool {
    starts_with(s, "http://"@) || starts_with(s, "https://"@)
}

/// The resolved endpoint, or the message of the configuration error.
pub open spec fn endpoint_result(input: Seq<char>) -> Result<Seq<char>, Seq<char>> {
    if endpoint_core(input).len() == 0 {
        Err("url must not be empty"@)
    } else if !is_http_url(resolved(input)) {
        Err("url must be an absolute http(s) URL: "@ + input)
    } else {
        Ok(resolved(input))
    }
}

/// `r` is the configuration-error outcome `e`, or the success outcome `v`.
pub open spec fn config_outcome(r: Result<String, ProbeError>, e: Result<Seq<char>, Seq<char>>) -> bool {
    match (r, e) {
        (Ok(s), Ok(v)) => s@ == v,
        (Err(ProbeError::Config(m)), Err(x)) => m@ == x,
        _ => false,
    }
}

/// Normalize a base or full endpoint into a chat-completions URL.
pub fn resolve_endpoint(input: &str) -> (r: Result<String, ProbeError>)
    ensures
        config_outcome(r, endpoint_result(input@)),
{
    let v = chars_of(input);
    let trimmed = trim_chars(&v);
    let mut t = trim_end_char_chars(&trimmed, '/');
    if t.len() == 0 {
        return Err(ProbeError::Config(String::from_str("url must not be empty")));
    }
    let ghost core = t@;
    let full = chars_of("/chat/completions");
    let v1 = chars_of("/v1");
    if ends_with_chars(&t, &full) {
    } else if ends_with_chars(&t, &v1) {
        append_chars(&mut t, &full);
    } else {
        let v1_full = chars_of("/v1/chat/completions");
        append_chars(&mut t, &v1_full);
    }
    assert(t@ == resolved(input@));
    let http = chars_of("http://");
    let https = chars_of("https://");
    if !(starts_with_chars(&t, &http) || starts_with_chars(&t, &https)) {
        return Err(
            ProbeError::Config(concat_str("url must be an absolute http(s) URL: ", input)),
        );
    }
    Ok(string_of(&t))
}

// ── Laws of endpoint normalization ───────────────────────────────────────────

proof fn lemma_trim_start_first(s: Seq<char>)
    ensures
        trim_start(s).len() > 0 ==> !is_ws(trim_start(s)[0]),
        trim_start(s).len() <= s.len(),
    decreases s.len(),
{
    if s.len() > 0 && is_ws(s[0]) {
        lemma_trim_start_first(s.drop_first());
    }
}

proof fn lemma_trim_end_prefix(s: Seq<char>)
    ensures
        trim_end(s) == s.take(trim_end(s).len() as int),
        trim_end(s).len() <= s.len(),
        trim_end(s).len() > 0 ==> !is_ws(trim_end(s).last()),
    decreases s.len(),
{
    if s.len() > 0 && is_ws(s.last()) {
        lemma_trim_end_prefix(s.drop_last());
        assert(s.drop_last().take(trim_end(s).len() as int) =~= s.take(trim_end(s).len() as int));
    } else {
        assert(s.take(s.len() as int) =~= s);
    }
}

proof fn lemma_trim_end_char_prefix(s: Seq<char>, c: char)
    ensures
        trim_end_char(s, c) == s.take(trim_end_char(s, c).len() as int),
        trim_end_char(s, c).len() <= s.len(),
        trim_end_char(s, c).len() > 0 ==> trim_end_char(s, c).last() != c,
    decreases s.len(),
{
    if s.len() > 0 && s.last() == c {
        lemma_trim_end_char_prefix(s.drop_last(), c);
        assert(s.drop_last().take(trim_end_char(s, c).len() as int) =~= s.take(
            trim_end_char(s, c).len() as int,
        ));
    } else {
        assert(s.take(s.len() as int) =~= s);
    }
}

/// A non-empty core starts with a non-whitespace character.
proof fn lemma_core_first(input: Seq<char>)
    ensures
        endpoint_core(input).len() > 0 ==> !is_ws(endpoint_core(input)[0]),
{
    let ts = trim_start(input);
    lemma_trim_start_first(input);
    lemma_trim_end_prefix(ts);
    lemma_trim_end_char_prefix(trim(input), '/');
    let te = trim(input);
    if endpoint_core(input).len() > 0 {
        assert(endpoint_core(input)[0] == te[0]);
        assert(te[0] == ts[0]);
    }
}

proof fn lemma_trim_fixed(s: Seq<char>)
    requires
        s.len() > 0,
        !is_ws(s[0]),
        !is_ws(s.last()),
    ensures
        trim(s) == s,
{
}

proof fn lemma_ends_with_concat(a: Seq<char>, b: Seq<char>, p: Seq<char>)
    requires
        ends_with(b, p),
    ensures
        ends_with(a + b, p),
{
    assert((a + b).skip((a + b).len() - p.len()) =~= b.skip(b.len() - p.len()));
}

proof fn lemma_ends_with_last(s: Seq<char>, p: Seq<char>)
    requires
        ends_with(s, p),
        p.len() > 0,
    ensures
        s.len() > 0 && s.last() == p.last(),
{
    assert(s.skip(s.len() - p.len())[p.len() - 1] == s.last());
}

/// The resolved endpoint ends with `/chat/completions` and keeps the core's first character.
proof fn lemma_resolved_shape(input: Seq<char>)
    requires
        endpoint_core(input).len() > 0,
    ensures
        ends_with(resolved(input), "/chat/completions"@),
        resolved(input).len() > 0,
        resolved(input)[0] == endpoint_core(input)[0],
        resolved(input).last() == 's',
{
    reveal_strlit("/chat/completions");
    reveal_strlit("/v1/chat/completions");
    reveal_strlit("/v1");
    let t = endpoint_core(input);
    if ends_with(t, "/chat/completions"@) {
        lemma_ends_with_last(t, "/chat/completions"@);
    } else if ends_with(t, "/v1"@) {
        assert(ends_with("/chat/completions"@, "/chat/completions"@)) by {
            assert("/chat/completions"@.skip(0) =~= "/chat/completions"@);
        }
        lemma_ends_with_concat(t, "/chat/completions"@, "/chat/completions"@);
    } else {
        assert(ends_with("/v1/chat/completions"@, "/chat/completions"@)) by {
            assert("/v1/chat/completions"@.skip(3) =~= "/chat/completions"@);
        }
        lemma_ends_with_concat(t, "/v1/chat/completions"@, "/chat/completions"@);
    }
}

/// Normalizing an already-normalized endpoint changes nothing.
pub proof fn law_resolve_idempotent(input: Seq<char>)
    requires
        endpoint_result(input) is Ok,
    ensures
        endpoint_result(endpoint_result(input)->Ok_0) == endpoint_result(input),
{
    let x = resolved(input);
    lemma_core_first(input);
    lemma_resolved_shape(input);
    assert(!is_ws(x[0]));
    assert(!is_ws(x.last()));
    lemma_trim_fixed(x);
    assert(trim_end_char(x, '/') == x);
    assert(endpoint_core(x) == x);
    assert(resolved(x) == x);
}

/// A base URL, the same URL with `/v1`, and the full chat-completions URL all
/// resolve to the same endpoint. `base` is a URL as typed: no surrounding
/// whitespace, no trailing slash, not already ending in `/v1` or
/// `/chat/completions`.
pub proof fn law_resolve_equivalent_forms(base: Seq<char>)
    requires
        base.len() > 0,
        !is_ws(base[0]),
        !is_ws(base.last()),
        base.last() != '/',
        !ends_with(base, "/v1"@),
        !ends_with(base, "/chat/completions"@),
    ensures
        endpoint_result(base) is Ok <==> endpoint_result(base + "/v1"@) is Ok,
        endpoint_result(base) is Ok <==> endpoint_result(base + "/v1/chat/completions"@) is Ok,
        endpoint_result(base) is Ok ==> endpoint_result(base + "/v1"@) == endpoint_result(base),
        endpoint_result(base) is Ok ==> endpoint_result(base + "/v1/chat/completions"@)
            == endpoint_result(base),
{
    reveal_strlit("/chat/completions");
    reveal_strlit("/v1/chat/completions");
    reveal_strlit("/v1");
    let full = "/v1/chat/completions"@;
    let b1 = base + "/v1"@;
    let b2 = base + full;
    // The plain base.
    lemma_trim_fixed(base);
    assert(endpoint_core(base) == base);
    assert(resolved(base) == b2);
    // base + "/v1"
    assert(b1.last() == '1');
    assert(b1[0] == base[0]);
    lemma_trim_fixed(b1);
    assert(endpoint_core(b1) == b1);
    assert(ends_with(b1, "/v1"@)) by {
        assert(b1.skip(b1.len() - 3) =~= "/v1"@);
    }
    if ends_with(b1, "/chat/completions"@) {
        lemma_ends_with_last(b1, "/chat/completions"@);
    }
    assert(resolved(b1) =~= b1 + "/chat/completions"@);
    assert(b1 + "/chat/completions"@ =~= b2);
    // base + "/v1/chat/completions"
    assert(b2.last() == 's');
    assert(b2[0] == base[0]);
    lemma_trim_fixed(b2);
    assert(endpoint_core(b2) == b2);
    assert(ends_with(b2, "/chat/completions"@)) by {
        assert(b2.skip(b2.len() - 17) =~= "/chat/completions"@);
    }
    assert(resolved(b2) == b2);
}

// ── Header parsing ────────────────────────────────────────────────────────────

/// `key<sep>value` split at the first `sep`, both sides trimmed.
pub open spec fn kv_pair(s: Seq<char>, sep: char) -> Option<(Seq<char>, Seq<char>)> {
    match first_index_of(s, sep) {
        Some(i) => Some((trim(s.take(i)), trim(s.skip(i + 1)))),
        None => None,
    }
}

/// The message reported for an entry without a separator.
pub open spec fn kv_error(kind: Seq<char>, sep: char, s: Seq<char>) -> Seq<char> {
    kind + " must be in 'key"@ + seq![sep] + " value' form: "@ + s
}

/// `raw[i]` is the first entry of `raw` without a separator.
pub open spec fn first_bad_kv(raw: Seq<String>, sep: char, i: int) -> bool {
    &&& 0 <= i < raw.len()
    &&& kv_pair(raw[i]@, sep) is None
    &&& forall|k: int| 0 <= k < i ==> (#[trigger] kv_pair(raw[k]@, sep)) is Some
}

fn kv_error_message(kind: &str, sep: char, s: &String) -> (m: String)
    ensures
        m@ == kv_error(kind@, sep, s@),
{
    let mut v = chars_of(kind);
    append_chars(&mut v, &chars_of(" must be in 'key"));
    v.push(sep);
    append_chars(&mut v, &chars_of(" value' form: "));
    append_chars(&mut v, &chars_of(s.as_str()));
    assert(v@ =~= kv_error(kind@, sep, s@));
    string_of(&v)
}

/// Split `key: value` strings on the first occurrence of `sep`, trimming both sides.
pub fn parse_kv(kind: &str, sep: char, raw: &[String]) -> (r: Result<Vec<(String, String)>, ProbeError>)
    ensures
        r is Ok <==> forall|k: int| 0 <= k < raw@.len() ==> (#[trigger] kv_pair(raw@[k]@, sep)) is Some,
        r matches Ok(v) ==> v@.len() == raw@.len() && forall|k: int|
            0 <= k < raw@.len() ==> Some(((#[trigger] v@[k]).0@, v@[k].1@)) == kv_pair(
                raw@[k]@,
                sep,
            ),
        r matches Err(e) ==> exists|i: int|
            first_bad_kv(raw@, sep, i) && (e matches ProbeError::Config(m) && m@ == kv_error(
                kind@,
                sep,
                raw@[i]@,
            )),
{
    let mut out: Vec<(String, String)> = Vec::new();
    let mut i: usize = 0;
    while i < raw.len()
        invariant
            i <= raw.len(),
            out@.len() == i,
            forall|k: int| 0 <= k < i ==> (#[trigger] kv_pair(raw@[k]@, sep)) is Some,
            forall|k: int|
                0 <= k < i ==> Some(((#[trigger] out@[k]).0@, out@[k].1@)) == kv_pair(
                    raw@[k]@,
                    sep,
                ),
        decreases raw.len() - i,
    {
        let s = &raw[i];
        let v = chars_of(s.as_str());
        match find_char(&v, sep) {
            Some(p) => {
                let key = trim_chars(&slice_chars(&v, 0, p));
                let value = trim_chars(&slice_chars(&v, p + 1, v.len()));
                assert(v@.subrange(0, p as int) =~= v@.take(p as int));
                assert(v@.subrange(p + 1, v@.len() as int) =~= v@.skip(p + 1));
                out.push((string_of(&key), string_of(&value)));
            },
            None => {
                let m = kv_error_message(kind, sep, s);
                assert(first_bad_kv(raw@, sep, i as int));
                return Err(ProbeError::Config(m));
            },
        }
        i += 1;
    }
    Ok(out)
}


// ── Building a configuration ──────────────────────────────────────────────────

/// Every entry has a `:` separator.
pub open spec fn headers_ok(raw: Seq<String>) -> bool {
    forall|k: int| 0 <= k < raw.len() ==> (#[trigger] kv_pair(raw[k]@, ':')) is Some
}

/// The numeric settings are acceptable.
pub open spec fn limits_ok(concurrency: usize, max_tokens: Option<u32>, timeout_secs: u64) -> bool {
    concurrency >= 1 && timeout_secs > 0 && max_tokens != Some(0u32)
}

impl RunConfig {
    /// Validates and normalizes the command-line settings. Checks, in order:
    /// concurrency ≥ 1, timeout > 0, max-tokens ≥ 1 when set, the endpoint,
    /// then the `Key: Value` headers; the first failing check is reported.
    #[allow(clippy::too_many_arguments)]
    pub fn build(
        url: &str,
        model: String,
        conversations: usize,
        concurrency: usize,
        stream: bool,
        system: Option<String>,
        max_turns_per_conv: usize,
        max_tokens: Option<u32>,
        seed: Option<u64>,
        timeout_secs: u64,
        api_key: Option<String>,
        raw_headers: &[String],
    ) -> (r: Result<Self, ProbeError>)
        ensures
            concurrency < 1 ==> (r matches Err(ProbeError::Config(m)) && m@
                == "concurrency must be >= 1"@),
            concurrency >= 1 && timeout_secs == 0 ==> (r matches Err(ProbeError::Config(m)) && m@
                == "timeout must be > 0"@),
            concurrency >= 1 && timeout_secs > 0 && max_tokens == Some(0u32) ==> (r matches Err(
                ProbeError::Config(m),
            ) && m@ == "max-tokens must be >= 1 when set"@),
            limits_ok(concurrency, max_tokens, timeout_secs) && endpoint_result(url@) is Err ==> (
            r matches Err(ProbeError::Config(m)) && endpoint_result(url@) == Err::<Seq<char>, Seq<char>>(m@)),
            limits_ok(concurrency, max_tokens, timeout_secs) && endpoint_result(url@) is Ok
                && !headers_ok(raw_headers@) ==> exists|i: int|
                first_bad_kv(raw_headers@, ':', i) && (r matches Err(ProbeError::Config(m)) && m@
                    == kv_error("header"@, ':', raw_headers@[i]@)),
            r is Ok <==> limits_ok(concurrency, max_tokens, timeout_secs) && endpoint_result(
                url@,
            ) is Ok && headers_ok(raw_headers@),
            r matches Ok(c) ==> {
                &&& c.endpoint@ == endpoint_result(url@)->Ok_0
                &&& c.model == model
                &&& c.conversations == conversations
                &&& c.concurrency == concurrency
                &&& c.stream == stream
                &&& c.system_prompt == system
                &&& c.max_turns_per_conv == max_turns_per_conv
                &&& c.max_tokens == max_tokens
                &&& c.rng_seed == seed
                &&& c.timeout_secs == timeout_secs
                &&& c.api_key == api_key
                &&& c.headers@.len() == raw_headers@.len()
                &&& forall|k: int|
                    0 <= k < raw_headers@.len() ==> Some(((#[trigger] c.headers@[k]).0@, c.headers@[k].1@))
                        == kv_pair(raw_headers@[k]@, ':')
            },
    {
        if concurrency < 1 {
            return Err(ProbeError::Config(String::from_str("concurrency must be >= 1")));
        }
        if timeout_secs == 0 {
            return Err(ProbeError::Config(String::from_str("timeout must be > 0")));
        }
        if matches!(max_tokens, Some(0)) {
            return Err(ProbeError::Config(String::from_str("max-tokens must be >= 1 when set")));
        }
        let endpoint = match resolve_endpoint(url) {
            Ok(e) => e,
            Err(e) => return Err(e),
        };
        let headers = match parse_kv("header", ':', raw_headers) {
            Ok(h) => h,
            Err(e) => return Err(e),
        };
        Ok(RunConfig {
            endpoint,
            model,
            conversations,
            concurrency,
            stream,
            system_prompt: system,
            max_turns_per_conv,
            max_tokens,
            rng_seed: seed,
            timeout_secs,
            api_key,
            headers,
        })
    }

    /// The opening messages of a conversation: the system prompt (this run's
    /// fixed one when set, else `pool_system`) unless it is empty, then the
    /// user's seed message. Single source of truth for the runner's growth
    /// loop and the request view.
    pub fn seed_messages(&self, pool_system: &str, seed: &str) -> (m: Vec<(String, String)>)
        ensures
            crate::metrics::msgs_view(m@) == opening_view(
                conversation_system(self.system_prompt, pool_system@),
                seed@,
            ),
    {
        let system: String = match &self.system_prompt {
            Some(s) => s.clone(),
            None => String::from_str(pool_system),
        };
        opening_messages(&system, seed)
    }

    /// The settings a report shows for this run.
    pub fn snapshot(&self) -> (c: crate::metrics::ConfigSnapshot)
        ensures
            c.endpoint@ == self.endpoint@,
            c.model@ == self.model@,
            c.concurrency == self.concurrency,
            c.stream == self.stream,
            c.max_tokens == self.max_tokens,
    {
        crate::metrics::ConfigSnapshot {
            endpoint: self.endpoint.clone(),
            model: self.model.clone(),
            concurrency: self.concurrency,
            stream: self.stream,
            max_tokens: self.max_tokens,
        }
    }
}

/// The system prompt a conversation uses: the fixed one when set, else the pool's.
pub open spec fn conversation_system(fixed: Option<String>, pool_system: Seq<char>) -> Seq<char> {
    match fixed {
        Some(s) => s@,
        None => pool_system,
    }
}

/// `[("system", system)]` unless `system` is empty, then `("user", seed)`.
pub open spec fn opening_view(system: Seq<char>, seed: Seq<char>) -> Seq<(Seq<char>, Seq<char>)> {
    if system.len() == 0 {
        seq![("user"@, seed)]
    } else {
        seq![("system"@, system), ("user"@, seed)]
    }
}

/// The first request of a conversation.
pub fn opening_messages(system: &String, seed: &str) -> (m: Vec<(String, String)>)
    ensures
        crate::metrics::msgs_view(m@) == opening_view(system@, seed@),
{
    let mut m: Vec<(String, String)> = Vec::new();
    if system.as_str().is_empty() {
        m.push((String::from_str("user"), String::from_str(seed)));
        assert(crate::metrics::msgs_view(m@) =~= opening_view(system@, seed@));
    } else {
        m.push((String::from_str("system"), system.clone()));
        m.push((String::from_str("user"), String::from_str(seed)));
        assert(crate::metrics::msgs_view(m@) =~= opening_view(system@, seed@));
    }
    m
}

} // verus!
