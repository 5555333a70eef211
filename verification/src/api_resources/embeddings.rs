//! Embeddings: vectors for texts.

use vstd::prelude::*;

use crate::api::{post_json, post_request};
use crate::config::OpenAIClient;
use crate::http::Request;

verus! {

/// The ways in which the input of an embeddings request can be given. On the
/// wire the shape of the JSON value tells them apart; there is no tag.
#[derive(Debug, Clone)]
pub enum EmbeddingsInput {
    /// A single text.
    String(String),
    /// Several texts.
    Strings(Vec<String>),
    /// A single sequence of token identifiers.
    Ints(Vec<i64>),
    /// Several sequences of token identifiers.
    MultiInts(Vec<Vec<i64>>),
}

/// A request for embeddings.
#[derive(Debug, Clone)]
pub struct CreateEmbeddingsRequest {
    /// The identifier of the model, such as `text-embedding-ada-002`.
    pub model: String,
    /// The input to embed.
    pub input: EmbeddingsInput,
    /// An identifier of the end user, if any.
    pub user: Option<String>,
}

/// The token usage of an embeddings request.
#[derive(Debug)]
pub struct EmbeddingsUsage {
    /// The number of tokens in the input.
    pub prompt_tokens: u32,
    /// The number of tokens that the request consumed.
    pub total_tokens: u32,
}

/// Describes the request that creates embeddings: `POST embeddings`, with
/// the request as JSON text.
pub fn create_embeddings(client: &OpenAIClient, request: &str) -> (call: Request)
    ensures
        call@ == post_request(client@, "embeddings"@, request@),
{
    post_json(client, "embeddings", request)
}

} // verus!
