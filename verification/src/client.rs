//! The first chat client: one call, to the chat completions endpoint of a
//! given base URL.

pub mod chat_input;
pub mod client;
pub mod error;
pub mod tool;

use vstd::prelude::*;

use crate::models::Role;

pub use self::client::ChatGPTClient;
pub use self::error::ChatGPTError;

verus! {

/// The response of a chat call.
#[derive(Debug)]
pub struct ChatResponse {
    /// The identifier of the completion.
    pub id: String,
    /// The object type.
    pub object: String,
    /// When the completion was created, in seconds since the epoch.
    pub created: i64,
    /// The model that was used.
    pub model: String,
    /// The token usage.
    pub usage: Usage,
    /// The generated choices.
    pub choices: Vec<Choice>,
}

/// The token usage of a chat call.
#[derive(Debug)]
pub struct Usage {
    /// The number of tokens in the prompt.
    pub prompt_tokens: i64,
    /// The number of tokens in the completion.
    pub completion_tokens: i64,
    /// The number of tokens that the call consumed.
    pub total_tokens: i64,
}

/// One choice of a chat response.
#[derive(Debug)]
pub struct Choice {
    /// The message of the choice.
    pub message: Message,
    /// Why the generation ended.
    pub finish_reason: String,
}

/// A message of a chat call, with plain text as its content.
#[derive(Debug, Clone)]
pub struct Message {
    /// The role of the sender.
    pub role: Role,
    /// The content of the message.
    pub content: String,
}

} // verus!
