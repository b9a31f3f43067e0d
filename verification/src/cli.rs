//! The command-line settings and the decisions taken from them before a run.

use vstd::prelude::*;

verus! {

/// Parsed command-line settings.
#[derive(Debug, Clone)]
pub struct Args {
    /// Base or full endpoint; `/v1/chat/completions` is appended if absent.
    pub url: Option<String>,
    pub model: Option<String>,
    /// Total conversations to complete across all slots; 0 = run forever.
    pub conversations: usize,
    /// Concurrent conversation slots (virtual users).
    pub concurrency: usize,
    pub stream: bool,
    /// Fixed system prompt; when omitted one is drawn from the built-in pool per conversation.
    pub system: Option<String>,
    /// Turn cap per conversation; 0 = unlimited.
    pub max_turns: usize,
    pub max_tokens: Option<u32>,
    /// Seed for reproducible prompt selection.
    pub seed: Option<u64>,
    /// Per-turn request timeout in seconds.
    pub timeout: u64,
    pub api_key: Option<String>,
    /// Extra headers in `Key: Value` form.
    pub headers: Vec<String>,
    /// Print a plain report instead of opening the live dashboard.
    pub no_tui: bool,
    /// Print a machine-readable JSON report.
    pub json: bool,
    /// Disable ANSI colours in the plain report.
    pub no_color: bool,
    /// File to save the completed run to.
    pub output: Option<String>,
    /// Saved run to open instead of running.
    pub replay: Option<String>,
}

impl Args {
    /// Why a live run cannot start from these settings, if it cannot: the
    /// endpoint and the model are required unless a saved run is replayed.
    pub fn missing_input(&self) -> (m: Option<&'static str>)
        ensures
            self.url is None ==> (m matches Some(s) && s@ == "--url is required unless --replay is given"@),
            self.url is Some && self.model is None ==> (m matches Some(s) && s@
                == "--model is required unless --replay is given"@),
            self.url is Some && self.model is Some ==> m is None,
    {
        if self.url.is_none() {
            Some("--url is required unless --replay is given")
        } else if self.model.is_none() {
            Some("--model is required unless --replay is given")
        } else {
            None
        }
    }

    /// Whether the plain report is coloured: not for JSON, not when disabled by
    /// flag or by `NO_COLOR`, and only on a terminal.
    pub fn use_color(&self, no_color_env: bool, stdout_is_terminal: bool) -> (b: bool)
        ensures
            b == (!self.json && !self.no_color && !no_color_env && stdout_is_terminal),
    {
        !self.json && !self.no_color && !no_color_env && stdout_is_terminal
    }
}

} // verus!
