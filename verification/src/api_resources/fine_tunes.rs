//! Fine-tunes: jobs that train a model on the files of an account.

use vstd::prelude::*;
use vstd::string::StringExecFns;

use crate::api::{delete_json, delete_request, get_json, get_request, post_json, post_request};
use crate::config::OpenAIClient;
use crate::http::Request;
use crate::text::append_text;

verus! {

/// A fine-tune job.
#[derive(Debug)]
pub struct FineTune {
    /// The identifier of the job, such as `ft-XXXX`.
    pub id: String,
    /// The object type, usually `fine-tune`.
    pub object: String,
    /// When the job was created, in seconds since the epoch.
    pub created_at: u64,
    /// When the job was last updated, in seconds since the epoch.
    pub updated_at: u64,
    /// The base model of the job.
    pub model: String,
    /// The name of the fine-tuned model, once there is one.
    pub fine_tuned_model: Option<String>,
    /// The status of the job, such as `pending` or `succeeded`.
    pub status: String,
    /// The events of the job; empty where the API gives none.
    pub events: Vec<FineTuneEvent>,
}

/// One event in the life of a fine-tune job.
#[derive(Debug)]
pub struct FineTuneEvent {
    /// The object type, usually `fine-tune-event`.
    pub object: String,
    /// When the event happened, in seconds since the epoch.
    pub created_at: u64,
    /// The level of the event, such as `info`.
    pub level: String,
    /// The message of the event.
    pub message: String,
}

/// The response of the endpoint that lists the fine-tune jobs.
#[derive(Debug)]
pub struct FineTuneList {
    /// The object type, usually `list`.
    pub object: String,
    /// The jobs.
    pub data: Vec<FineTune>,
}

/// The response of the endpoint that lists the events of a fine-tune job.
#[derive(Debug)]
pub struct FineTuneEventsList {
    /// The object type, usually `list`.
    pub object: String,
    /// The events.
    pub data: Vec<FineTuneEvent>,
}

/// The response of the endpoint that deletes a fine-tuned model.
#[derive(Debug)]
pub struct DeleteFineTuneModelResponse {
    /// The object type, such as `model`.
    pub object: String,
    /// The name of the deleted model.
    pub id: String,
    /// Whether the model was deleted.
    pub deleted: bool,
}

/// Describes the request that creates a fine-tune job: `POST fine-tunes`,
/// with the request as JSON text.
pub fn create_fine_tune(client: &OpenAIClient, request: &str) -> (call: Request)
    ensures
        call@ == post_request(client@, "fine-tunes"@, request@),
{
    post_json(client, "fine-tunes", request)
}

/// Describes the request that lists the fine-tune jobs: `GET fine-tunes`.
pub fn list_fine_tunes(client: &OpenAIClient) -> (call: Request)
    ensures
        call@ == get_request(client@, "fine-tunes"@),
{
    get_json(client, "fine-tunes")
}

/// Describes the request that retrieves the fine-tune job `fine_tune_id`:
/// `GET fine-tunes/{fine_tune_id}`.
pub fn retrieve_fine_tune(client: &OpenAIClient, fine_tune_id: &str) -> (call: Request)
    ensures
        call@ == get_request(client@, "fine-tunes/"@ + fine_tune_id@),
{
    let endpoint = append_text("fine-tunes/", fine_tune_id);
    get_json(client, endpoint.as_str())
}

/// Describes the request that cancels the fine-tune job `fine_tune_id`:
/// `POST fine-tunes/{fine_tune_id}/cancel`, with the JSON value `null` as its
/// body.
pub fn cancel_fine_tune(client: &OpenAIClient, fine_tune_id: &str) -> (call: Request)
    ensures
        call@ == post_request(
            client@,
            "fine-tunes/"@ + fine_tune_id@ + "/cancel"@,
            "null"@,
        ),
{
    let mut endpoint = append_text("fine-tunes/", fine_tune_id);
    endpoint.append("/cancel");
    post_json(client, endpoint.as_str(), "null")
}

/// Describes the request that lists the events of the fine-tune job
/// `fine_tune_id`: `GET fine-tunes/{fine_tune_id}/events`.
pub fn list_fine_tune_events(client: &OpenAIClient, fine_tune_id: &str) -> (call: Request)
    ensures
        call@ == get_request(client@, "fine-tunes/"@ + fine_tune_id@ + "/events"@),
{
    let mut endpoint = append_text("fine-tunes/", fine_tune_id);
    endpoint.append("/events");
    get_json(client, endpoint.as_str())
}

/// Describes the request that deletes the fine-tuned model `model`: `DELETE
/// models/{model}`.
pub fn delete_fine_tune_model(client: &OpenAIClient, model: &str) -> (call: Request)
    ensures
        call@ == delete_request(client@, "models/"@ + model@),
{
    let endpoint = append_text("models/", model);
    delete_json(client, endpoint.as_str())
}

} // verus!
