//! Core of an interactive terminal chat assistant: conversation state, command
//! parsing, response stream reassembly and the session's decision logic.

pub mod doc_metrics;
pub mod json;
pub mod model;
pub mod text;
pub mod words;
pub mod command;
pub mod parser;
pub mod script;
pub mod telemetry;
pub mod escapes;
pub mod session;
pub mod conversation;

pub use text::{decimal_text, elapsed_text, truncate_safe};
