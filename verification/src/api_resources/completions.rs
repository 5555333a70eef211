//! Text completions.

use vstd::prelude::*;
use vstd::string::StringExecFns;

use crate::api::{post_json, post_request};
use crate::config::OpenAIClient;
use crate::http::Request;

verus! {

/// The ways in which a prompt can be given. On the wire the shape of the
/// JSON value tells them apart; there is no tag.
#[derive(Debug, Clone)]
pub enum PromptInput {
    /// A single prompt.
    String(String),
    /// Several prompts.
    Strings(Vec<String>),
    /// A single sequence of token identifiers.
    Ints(Vec<i64>),
    /// Several sequences of token identifiers.
    MultiInts(Vec<Vec<i64>>),
}

/// The ways in which stop sequences can be given.
#[derive(Debug, Clone)]
pub enum StopSequence {
    /// A single stop sequence.
    Single(String),
    /// Several stop sequences.
    Multiple(Vec<String>),
}

/// The options of a streamed completion; there are none so far.
#[derive(Debug, Clone)]
pub struct ChatCompletionStreamOptions {
}

impl Default for ChatCompletionStreamOptions {
    fn default() -> ChatCompletionStreamOptions {
        ChatCompletionStreamOptions {  }
    }
}

/// The prompt of a request that gives none: the end-of-text marker.
pub fn default_prompt() -> (prompt: Option<PromptInput>)
    ensures
        prompt matches Some(PromptInput::String(text)) && text@ == "<|endoftext|>"@,
{
    Some(PromptInput::String(String::from_str("<|endoftext|>")))
}

/// The maximum number of tokens of a request that gives none: 16.
pub fn default_max_tokens() -> (max_tokens: Option<u32>)
    ensures
        max_tokens == Some(16u32),
{
    Some(16)
}

/// The number of completions of a request that gives none: 1.
pub fn default_n() -> (n: Option<u32>)
    ensures
        n == Some(1u32),
{
    Some(1)
}

/// The number of candidates of a request that gives none: 1.
pub fn default_best_of() -> (best_of: Option<u32>)
    ensures
        best_of == Some(1u32),
{
    Some(1)
}

/// The response of the completions endpoint.
#[derive(Debug)]
pub struct CreateCompletionResponse {
    /// The identifier of the completion.
    pub id: String,
    /// The object type, usually `text_completion`.
    pub object: String,
    /// When the completion was created, in seconds since the epoch.
    pub created: u64,
    /// The model that was used.
    pub model: String,
    /// The generated completions.
    pub choices: Vec<CompletionChoice>,
    /// The token usage, where the API gives it.
    pub usage: Option<CompletionUsage>,
}

/// One generated completion.
#[derive(Debug)]
pub struct CompletionChoice {
    /// The generated text.
    pub text: String,
    /// The index of the completion.
    pub index: u32,
    /// Why the completion ended, such as `stop` or `length`.
    pub finish_reason: Option<String>,
    /// The log probabilities, where they were requested.
    pub logprobs: Option<serde_json::Value>,
}

/// The token usage of a completion.
#[derive(Debug)]
pub struct CompletionUsage {
    /// The number of tokens in the prompt.
    pub prompt_tokens: u32,
    /// The number of tokens in the completion.
    pub completion_tokens: u32,
    /// The number of tokens that the request consumed.
    pub total_tokens: u32,
}

/// Describes the request that creates a completion: `POST completions`, with
/// the request as JSON text.
pub fn create_completion(client: &OpenAIClient, request: &str) -> (call: Request)
    ensures
        call@ == post_request(client@, "completions"@, request@),
{
    post_json(client, "completions", request)
}

} // verus!
