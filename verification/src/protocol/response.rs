use vstd::prelude::*;

use crate::protocol::message::ChatMessage;
use crate::protocol::tools::ToolCall;

verus! {

/// Token counts that a provider reports for one completion.
#[derive(Debug, Clone, Copy, PartialEq, Eq, Structural)]
pub struct Usage {
    pub prompt_tokens: u32,
    pub completion_tokens: u32,
    pub total_tokens: u32,
}

/// A provider's answer to a chat request.
#[derive(Debug, PartialEq)]
pub struct ChatResponse {
    pub message: ChatMessage,
    pub finish_reason: Option<String>,
    pub usage: Option<Usage>,
    /// The tool calls that the model asks for; empty when it asks for none.
    pub tool_calls: Vec<ToolCall>,
}

/// `reason` is present and reads `word`.
pub open spec fn finished_with(reason: Option<String>, word: Seq<char>) -> bool {
    reason matches Some(r) && r@ == word
}

/// Whether an optional reason reads the given word.
fn reason_is(reason: &Option<String>, word: &str) -> (answer: bool)
    ensures
        answer == finished_with(*reason, word@),
{
    match reason {
        Some(r) => *r == String::from_str(word),
        None => false,
    }
}

impl ChatResponse {
    /// The model stopped to call tools.
    pub fn is_tool_call(&self) -> (answer: bool)
        ensures
            answer == finished_with(self.finish_reason, "tool_calls"@),
    {
        reason_is(&self.finish_reason, "tool_calls")
    }

    /// The model finished its answer naturally.
    pub fn is_complete(&self) -> (answer: bool)
        ensures
            answer == finished_with(self.finish_reason, "stop"@),
    {
        reason_is(&self.finish_reason, "stop")
    }

    /// The text of the answer.
    pub fn content(&self) -> (text: &str)
        ensures
            text@ == self.message.content@,
    {
        self.message.content.as_str()
    }
}

/// A response is never both a request for tools and a finished answer.
pub proof fn lemma_tool_call_and_complete_exclusive(reason: Option<String>)
    ensures
        !(finished_with(reason, "tool_calls"@) && finished_with(reason, "stop"@)),
{
    reveal_strlit("tool_calls");
    reveal_strlit("stop");
    assert("tool_calls"@.len() != "stop"@.len());
}

/// One piece of a streamed answer.
#[derive(Debug, PartialEq)]
pub struct ChatStreamChunk {
    pub delta: String,
    pub finish_reason: Option<String>,
}

impl ChatStreamChunk {
    /// The chunk ends the stream.
    pub fn is_final(&self) -> (answer: bool)
        ensures
            answer == self.finish_reason is Some,
    {
        self.finish_reason.is_some()
    }
}

} // verus!
