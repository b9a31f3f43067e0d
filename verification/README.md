# llmprobe

Grows multi-turn conversations against an OpenAI-compatible
`/v1/chat/completions` endpoint until the server refuses with a
context-overflow error, and reports TTFT, TPOT, TPS and context-window
behaviour per turn, per conversation and in aggregate.

## Layout

- `src/` — the library, specified and proved with Verus:
  - `config.rs` endpoint normalisation, header parsing, run settings;
  - `error.rs` errors and context-overflow detection;
  - `client.rs` request bodies, error classification, SSE framing and
    decoding, stream accumulation, turn records;
  - `runner.rs` the per-conversation grow state machine and slot gating;
  - `prompts.rs` the prompt pools and the sampler;
  - `metrics.rs` turn/conversation records, the aggregate tally,
    degradation buckets, percentiles;
  - `tui.rs` dashboard state: key navigation, live bookkeeping, the pause
    clock, table order, the request/response view text;
  - `report.rs` report header, counts, colouring, exit status;
  - `text.rs` character-level string helpers and their laws.
- `app/` — the binary: HTTP, async tasks, terminal drawing, JSON and files.
- `tests/` — tests of the library.

Real-valued rates are carried through the library in a type parameter and
computed only in `app/`.
