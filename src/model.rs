//! Messages exchanged with the model: tool uses, tool results and turns.
use vstd::prelude::*;

verus! {

/// A request of the model to run one tool.
pub struct ToolUse {
    pub id: String,
    pub name: String,
    pub args: serde_json::Value,
    /// The JSON text that `args` was read from.
    pub args_text: String,
}

#[derive(Clone, Copy, Debug, PartialEq, Eq, Structural)]
pub enum ToolResultStatus {
    Success,
    Error,
}

/// One block of what a tool handed back.
pub enum ToolResultContent {
    Text(String),
    Json(serde_json::Value),
}

/// What running (or refusing to run) one tool use produced.
pub struct ToolResult {
    pub tool_use_id: String,
    pub status: ToolResultStatus,
    pub content: Vec<ToolResultContent>,
}

/// One answer of the model: prose and the tools it asks to run.
pub struct AssistantMessage {
    pub message_id: Option<String>,
    pub content: String,
    pub tool_uses: Vec<ToolUse>,
}

/// One message of the user: text, and the results of the tools that the
/// previous assistant message asked for.
pub struct UserMessage {
    pub content: String,
    pub tool_results: Vec<ToolResult>,
}

pub enum Turn {
    User(UserMessage),
    Assistant(AssistantMessage),
}

pub open spec fn use_ids(uses: Seq<ToolUse>) -> Seq<Seq<char>> {
    uses.map_values(|u: ToolUse| u.id@)
}

pub open spec fn result_ids(results: Seq<ToolResult>) -> Seq<Seq<char>> {
    results.map_values(|r: ToolResult| r.tool_use_id@)
}

/// The text of a content block, if it is text.
pub open spec fn block_text(b: ToolResultContent) -> Option<Seq<char>> {
    match b {
        ToolResultContent::Text(t) => Some(t@),
        ToolResultContent::Json(_) => None,
    }
}

/// A failed result for tool use `id` whose only block is `text`.
pub open spec fn is_error_result(r: ToolResult, id: Seq<char>, text: Seq<char>) -> bool {
    &&& r.tool_use_id@ == id
    &&& r.status == ToolResultStatus::Error
    &&& r.content@.len() == 1
    &&& block_text(r.content@[0]) == Some(text)
}

/// Builds a failed result for tool use `id` that carries `text`.
pub fn error_result(id: String, text: String) -> (r: ToolResult)
    ensures
        is_error_result(r, id@, text@),
{
    ToolResult { tool_use_id: id, status: ToolResultStatus::Error, content: vec![ToolResultContent::Text(text)] }
}

} // verus!
