//! Messages exchanged with chat-completion models, and the replies they send.

use vstd::prelude::*;

verus! {

/// Who speaks a message of a conversation.
#[derive(Debug, Clone, Copy, PartialEq, Eq, Structural)]
pub enum MessageRole {
    System,
    User,
    Assistant,
    Tool,
}

/// A message of a conversation.
#[derive(Debug, Clone)]
pub struct ChatMessage {
    pub role: MessageRole,
    pub content: String,
    pub reasoning_content: Option<String>,
    pub tool_call_id: Option<String>,
    pub tool_calls: Option<Vec<ToolCall>>,
}

/// A call of a tool that a model asks for.
#[derive(Debug, Clone)]
pub struct ToolCall {
    pub id: Option<String>,
    pub call_type: Option<String>,
    pub function: FunctionCall,
    pub index: Option<u32>,
}

/// The function a tool call names, with its arguments as JSON text.
#[derive(Debug, Clone)]
pub struct FunctionCall {
    pub name: String,
    pub arguments: String,
}

impl Default for FunctionCall {
    fn default() -> (res: Self)
        ensures
            res.name@ == Seq::<char>::empty(),
            res.arguments@ == Seq::<char>::empty(),
    {
        FunctionCall { name: String::new(), arguments: String::new() }
    }
}

/// A complete reply of a chat-completion endpoint.
#[derive(Debug, Clone)]
pub struct ChatCompletionResponse {
    pub id: Option<String>,
    pub choices: Vec<Choice>,
    pub usage: Option<Usage>,
}

/// One alternative of a reply.
#[derive(Debug, Clone)]
pub struct Choice {
    pub index: u32,
    pub message: ChatMessage,
    pub finish_reason: Option<String>,
}

/// The tokens a reply consumed.
#[derive(Debug, Clone)]
pub struct Usage {
    pub prompt_tokens: Option<u32>,
    pub completion_tokens: Option<u32>,
    pub total_tokens: Option<u32>,
}

/// One chunk of a streamed reply.
#[derive(Debug, Clone)]
pub struct ChatCompletionChunk {
    pub id: Option<String>,
    pub choices: Vec<DeltaChoice>,
}

/// One alternative of a streamed chunk.
#[derive(Debug, Clone)]
pub struct DeltaChoice {
    pub delta: Delta,
    pub index: u32,
    pub finish_reason: Option<String>,
}

/// The part of a message that a streamed chunk adds.
#[derive(Debug, Clone)]
pub struct Delta {
    pub role: Option<MessageRole>,
    pub content: Option<String>,
    pub reasoning_content: Option<String>,
    pub tool_calls: Option<Vec<ToolCall>>,
}

/// The models a local Ollama server lists.
#[derive(Debug, Clone)]
pub struct OllamaTagsResponse {
    pub models: Option<Vec<OllamaModel>>,
}

/// A model that a local Ollama server offers.
#[derive(Debug, Clone)]
pub struct OllamaModel {
    pub name: String,
    pub size: Option<u64>,
    pub modified_at: Option<String>,
}

/// Progress of a streamed answer, as shown to the user.
#[derive(Debug, Clone)]
pub struct StreamUpdate {
    pub update_type: String,
    pub content: String,
    pub tool_name: Option<String>,
    pub tool_result: Option<String>,
}

} // verus!
