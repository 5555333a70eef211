//! Chat completions: conversations as lists of messages with roles.

use vstd::prelude::*;

use crate::api::{post_json, post_json_stream, post_request};
use crate::config::OpenAIClient;
use crate::http::Request;
use crate::stream::StreamDecoder;

verus! {

/// The role of a message in a conversation.
#[derive(Debug, Clone, Copy, PartialEq, Eq, Structural)]
pub enum ChatRole {
    /// System-level instructions.
    System,
    /// A message of the user.
    User,
    /// A message of the assistant.
    Assistant,
    /// A message of a tool.
    Tool,
    /// A message of a function.
    Function,
    /// Any role that is not known.
    Other,
}

/// A single message of a conversation.
#[derive(Debug, Clone)]
pub struct ChatMessage {
    /// The role of the sender.
    pub role: ChatRole,
    /// The content of the message.
    pub content: String,
    /// The name of the sender, if any.
    pub name: Option<String>,
}

/// The response of the chat completions endpoint.
#[derive(Debug)]
pub struct CreateChatCompletionResponse {
    /// The identifier of the completion.
    pub id: String,
    /// The object type, usually `chat.completion`.
    pub object: String,
    /// When the completion was created, in seconds since the epoch.
    pub created: u64,
    /// The model that was used.
    pub model: String,
    /// The generated choices.
    pub choices: Vec<ChatCompletionChoice>,
    /// The token usage, where the API gives it.
    pub usage: Option<ChatCompletionUsage>,
}

/// One choice of a chat completion.
#[derive(Debug)]
pub struct ChatCompletionChoice {
    /// The index of the choice.
    pub index: u32,
    /// The message of the choice.
    pub message: ChatMessage,
    /// Why the completion ended, such as `stop` or `length`.
    pub finish_reason: Option<String>,
}

/// The token usage of a chat completion.
#[derive(Debug)]
pub struct ChatCompletionUsage {
    /// The number of tokens in the prompt.
    pub prompt_tokens: u32,
    /// The number of tokens in the answer.
    pub completion_tokens: u32,
    /// The number of tokens that the request consumed.
    pub total_tokens: u32,
}

/// The partial update of a message in a streamed chat completion.
#[derive(Debug)]
pub struct ChatCompletionDelta {
    /// The role, where the chunk gives it.
    pub role: Option<String>,
    /// The partial content of the message.
    pub content: Option<String>,
}

/// One choice of a chunk of a streamed chat completion.
#[derive(Debug)]
pub struct ChatCompletionChunkChoice {
    /// The index of the choice.
    pub index: u32,
    /// The partial update of the message.
    pub delta: ChatCompletionDelta,
    /// The log probabilities of the choice, if any.
    pub logprobs: Option<serde_json::Value>,
    /// Why the generation ended, where it did.
    pub finish_reason: Option<String>,
}

/// One chunk of a streamed chat completion.
#[derive(Debug)]
pub struct CreateChatCompletionChunk {
    /// The identifier of the chunk.
    pub id: String,
    /// The object type, such as `chat.completion.chunk`.
    pub object: String,
    /// When the chunk was created, in seconds since the epoch.
    pub created: u64,
    /// The model that generated the completion.
    pub model: String,
    /// The choices of the chunk.
    pub choices: Vec<ChatCompletionChunkChoice>,
}

/// Describes the request that creates a chat completion: `POST
/// chat/completions`, with the request as JSON text.
pub fn create_chat_completion(client: &OpenAIClient, request: &str) -> (call: Request)
    ensures
        call@ == post_request(client@, "chat/completions"@, request@),
{
    post_json(client, "chat/completions", request)
}

/// Describes the request that creates a streamed chat completion: `POST
/// chat/completions`, with the request as JSON text. Gives the decoder of the
/// stream with it.
pub fn create_chat_completion_stream(client: &OpenAIClient, request: &str) -> (call: (
    Request,
    StreamDecoder,
))
    ensures
        call.0@ == post_request(client@, "chat/completions"@, request@),
        call.1.spec_state() is AwaitingHeaders,
{
    post_json_stream(client, "chat/completions", request)
}

} // verus!
