//! Assistant-side message data.

use vstd::prelude::*;
use crate::tools::ToolCall;

verus! {

/// Assistant message returned by chat models.
#[derive(Debug)]
pub struct AIMessage {
    /// Natural language content.
    pub content: String,
    /// Optional tool call requests emitted by the model.
    pub tool_calls: Vec<ToolCall>,
}

} // verus!
