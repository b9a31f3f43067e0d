//! Verified core of an OpenAI-compatible chat-endpoint load prober that grows
//! conversations turn by turn until the server reports a context overflow.

pub mod text;
pub mod cli;
pub mod error;
pub mod metrics;
pub mod config;
pub mod types;
pub mod client;
pub mod prompts;
pub mod runner;
pub mod tui;
pub mod report;
