//! Moderations: checks of texts against content policy.

use vstd::prelude::*;

use crate::api::{post_json, post_request};
use crate::api_resources::models::Model;
use crate::config::OpenAIClient;
use crate::http::Request;

verus! {

/// The ways in which the input of a moderation request can be given.
#[derive(Debug, Clone)]
pub enum ModerationsInput {
    /// A single text.
    String(String),
    /// Several texts.
    Strings(Vec<String>),
}

/// A request for a moderation check.
#[derive(Debug, Clone)]
pub struct CreateModerationRequest {
    /// The texts to classify.
    pub input: ModerationsInput,
    /// The moderation model; the default one where none is given.
    pub model: Option<Model>,
}

/// The categories of content policy, each with whether the text was flagged
/// under it.
#[derive(Debug)]
pub struct ModerationCategories {
    /// Hateful content.
    pub hate: bool,
    /// Hateful content with threats.
    pub hate_threatening: bool,
    /// Content about self-harm.
    pub self_harm: bool,
    /// Sexual content.
    pub sexual: bool,
    /// Sexual content that involves minors.
    pub sexual_minors: bool,
    /// Violent content.
    pub violence: bool,
    /// Graphic violence.
    pub violence_graphic: bool,
}

/// Describes the request that creates a moderation: `POST moderations`, with
/// the request as JSON text.
pub fn create_moderation(client: &OpenAIClient, request: &str) -> (call: Request)
    ensures
        call@ == post_request(client@, "moderations"@, request@),
{
    post_json(client, "moderations", request)
}

} // verus!
