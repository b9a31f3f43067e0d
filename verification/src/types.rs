//! Wire types for the OpenAI-compatible chat-completions API.
//!
//! Only the fields the prober needs are modeled. Request types borrow to avoid
//! cloning the conversation per request; response types own their data.

use vstd::prelude::*;

verus! {

/// Request body for `POST /v1/chat/completions`.
#[derive(Debug)]
pub struct ChatRequest<'a> {
    pub model: &'a str,
    pub messages: Vec<Message<'a>>,
    pub stream: bool,
    /// Omitted from the body when `None`.
    pub max_tokens: Option<u32>,
    /// Only set when streaming, to request a final usage-bearing chunk.
    pub stream_options: Option<StreamOptions>,
}

#[derive(Debug)]
pub struct Message<'a> {
    pub role: &'a str,
    pub content: &'a str,
}

#[derive(Debug, Clone, Copy, PartialEq, Eq, Structural)]
pub struct StreamOptions {
    pub include_usage: bool,
}

/// Non-streaming response.
#[derive(Debug, Clone)]
pub struct ChatResponse {
    pub choices: Vec<Choice>,
    pub usage: Option<Usage>,
}

#[derive(Debug, Clone)]
pub struct Choice {
    pub message: AssistantMsg,
}

#[derive(Debug, Clone)]
pub struct AssistantMsg {
    pub content: Option<String>,
}

/// Token accounting from the API's `usage` field — the only token source.
#[derive(Debug, Clone, Copy, PartialEq, Eq, Structural)]
pub struct Usage {
    pub completion_tokens: u32,
    pub prompt_tokens: u32,
}

/// A single streaming chunk (`data:` payload, excluding `[DONE]`).
///
/// `choices` may be empty on the final usage-bearing chunk.
#[derive(Debug, Clone)]
pub struct ChatChunk {
    pub choices: Vec<DeltaChoice>,
    pub usage: Option<Usage>,
}

#[derive(Debug, Clone)]
pub struct DeltaChoice {
    pub delta: Delta,
}

#[derive(Debug, Clone)]
pub struct Delta {
    pub content: Option<String>,
}

} // verus!
