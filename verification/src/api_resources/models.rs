//! Models of the API: the details that the API returns of a model, and the
//! identifiers of the known models.

use vstd::prelude::*;
use vstd::string::StringExecFns;

use crate::api::{get_json, get_request};
use crate::config::OpenAIClient;
use crate::http::Request;
use crate::text::{append_text, same_text};

verus! {

/// The details of a model, as the API returns them.
#[derive(Debug)]
pub struct ModelInfo {
    /// The unique identifier of the model, such as `text-davinci-003`.
    pub id: String,
    /// The object type, usually `model`.
    pub object: String,
    /// When the model was created, in seconds since the epoch, if known.
    pub created: Option<u64>,
    /// The owner of the model.
    pub owned_by: String,
    /// The permissions of the model; empty where the API gives none.
    pub permission: Vec<ModelPermission>,
    /// The root model, where the API gives one.
    pub root: Option<String>,
    /// The parent model, where the API gives one.
    pub parent: Option<String>,
}

/// One permission entry of a model.
#[derive(Debug)]
pub struct ModelPermission {
    /// The unique identifier of the permission entry.
    pub id: String,
    /// The object type, usually `model_permission`.
    pub object: String,
    /// When the permission was created, in seconds since the epoch.
    pub created: u64,
    /// Whether engines can be created from the model.
    pub allow_create_engine: bool,
    /// Whether sampling from the model is permitted.
    pub allow_sampling: bool,
    /// Whether log probabilities can be requested.
    pub allow_logprobs: bool,
    /// Whether search indices can be accessed.
    pub allow_search_indices: bool,
    /// Whether the model's details can be viewed.
    pub allow_view: bool,
    /// Whether the model can be fine-tuned.
    pub allow_fine_tuning: bool,
    /// The organization that the permission applies to.
    pub organization: String,
    /// The group identifier, if any.
    pub group: Option<String>,
    /// Whether the permission blocks some other action.
    pub is_blocking: bool,
}

/// The response of the endpoint that lists the models.
#[derive(Debug)]
pub struct ModelList {
    /// The object type, usually `list`.
    pub object: String,
    /// The models.
    pub data: Vec<ModelInfo>,
}

/// Describes the request that lists all available models: `GET models`.
pub fn list_models(client: &OpenAIClient) -> (request: Request)
    ensures
        request@ == get_request(client@, "models"@),
{
    get_json(client, "models")
}

/// The models of a decoded list response.
pub fn listed_models(response: ModelList) -> (models: Vec<ModelInfo>)
    ensures
        models == response.data,
{
    response.data
}

/// Describes the request that retrieves the details of the model
/// `model_id`: `GET models/{model_id}`.
pub fn retrieve_model(client: &OpenAIClient, model_id: &str) -> (request: Request)
    ensures
        request@ == get_request(client@, "models/"@ + model_id@),
{
    let endpoint = append_text("models/", model_id);
    get_json(client, endpoint.as_str())
}

/// The identifier of a model: one of the known models, or any other
/// identifier.
#[derive(Debug, Clone, PartialEq)]
pub enum Model {
    /// The model `gpt-4.5-preview`.
    Gpt45Preview,
    /// The model `gpt-4.5-preview-2025-02-27`.
    Gpt45Preview2025_02_27,
    /// The model `gpt-4o-mini-audio-preview`.
    Gpt4oMiniAudioPreview,
    /// The model `gpt-4o-mini-audio-preview-2024-12-17`.
    Gpt4oMiniAudioPreview2024_12_17,
    /// The model `gpt-4o-mini-realtime-preview`.
    Gpt4oMiniRealtimePreview,
    /// The model `dall-e-2`.
    DallE2,
    /// The model `gpt-4o-2024-11-20`.
    Gpt4o2024_11_20,
    /// The model `o1-mini-2024-09-12`.
    O1Mini2024_09_12,
    /// The model `o1-preview-2024-09-12`.
    O1Preview2024_09_12,
    /// The model `o1-mini`.
    O1Mini,
    /// The model `o1-preview`.
    O1Preview,
    /// The model `chatgpt-4o-latest`.
    ChatGpt4oLatest,
    /// The model `whisper-1`.
    Whisper1,
    /// The model `dall-e-3`.
    DallE3,
    /// The model `gpt-4-turbo`.
    Gpt4Turbo,
    /// The model `gpt-4-turbo-preview`.
    Gpt4TurboPreview,
    /// The model `gpt-4o-audio-preview`.
    Gpt4oAudioPreview,
    /// The model `gpt-4o-audio-preview-2024-10-01`.
    Gpt4oAudioPreview2024_10_01,
    /// The model `babbage-002`.
    Babbage002,
    /// The model `omni-moderation-latest`.
    OmniModerationLatest,
    /// The model `omni-moderation-2024-09-26`.
    OmniModeration2024_09_26,
    /// The model `tts-1-hd-1106`.
    Tts1Hd1106,
    /// The model `gpt-4o-2024-08-06`.
    Gpt4o2024_08_06,
    /// The model `gpt-4o`.
    Gpt4o,
    /// The model `gpt-4o-2024-05-13`.
    Gpt4o2024_05_13,
    /// The model `tts-1-hd`.
    Tts1Hd,
    /// The model `gpt-4-turbo-2024-04-09`.
    Gpt4Turbo2024_04_09,
    /// The model `tts-1`.
    Tts1,
    /// The model `gpt-3.5-turbo-16k`.
    Gpt3_5Turbo16k,
    /// The model `tts-1-1106`.
    Tts1_1106,
    /// The model `davinci-002`.
    Davinci002,
    /// The model `gpt-3.5-turbo-1106`.
    Gpt3_5Turbo1106,
    /// The model `gpt-4o-mini-realtime-preview-2024-12-17`.
    Gpt4oMiniRealtimePreview2024_12_17,
    /// The model `gpt-3.5-turbo-instruct`.
    Gpt3_5TurboInstruct,
    /// The model `gpt-4o-realtime-preview-2024-10-01`.
    Gpt4oRealtimePreview2024_10_01,
    /// The model `gpt-3.5-turbo-instruct-0914`.
    Gpt3_5TurboInstruct0914,
    /// The model `gpt-3.5-turbo-0125`.
    Gpt3_5Turbo0125,
    /// The model `gpt-4o-audio-preview-2024-12-17`.
    Gpt4oAudioPreview2024_12_17,
    /// The model `gpt-4o-realtime-preview-2024-12-17`.
    Gpt4oRealtimePreview2024_12_17,
    /// The model `gpt-3.5-turbo`.
    Gpt3_5Turbo,
    /// The model `text-embedding-3-large`.
    TextEmbedding3Large,
    /// The model `gpt-4o-realtime-preview`.
    Gpt4oRealtimePreview,
    /// The model `text-embedding-3-small`.
    TextEmbedding3Small,
    /// The model `gpt-4-0125-preview`.
    Gpt40125Preview,
    /// The model `gpt-4`.
    Gpt4,
    /// The model `text-embedding-ada-002`.
    TextEmbeddingAda002,
    /// The model `gpt-4-1106-preview`.
    Gpt40106Preview,
    /// The model `gpt-4o-mini`.
    Gpt4oMini,
    /// The model `gpt-4-0613`.
    Gpt40613,
    /// The model `gpt-4o-mini-2024-07-18`.
    Gpt4oMini2024_07_18,
    /// The model `gpt-4.1-nano`.
    Gpt41Nano,
    /// The model `gpt-4.1-nano-2025-04-14`.
    Gpt41Nano2025_04_14,
    /// The model `gpt-4.1-mini`.
    Gpt41Mini,
    /// The model `gpt-4.1-mini-2025-04-14`.
    Gpt41Mini2025_04_14,
    /// The model `gpt-4.1`.
    Gpt41,
    /// The model `gpt-4.1-2025-04-14`.
    Gpt41_2025_04_14,
    /// The model `gpt-4o-mini-search-preview`.
    Gpt4oMiniSearchPreview,
    /// The model `gpt-4o-mini-search-preview-2025-03-11`.
    Gpt4oMiniSearchPreview2025_03_11,
    /// The model `gpt-4o-search-preview`.
    Gpt4oSearchPreview,
    /// The model `gpt-4o-search-preview-2025-03-11`.
    Gpt4oSearchPreview2025_03_11,
    /// The model `gpt-4o-mini-tts`.
    Gpt4oMiniTts,
    /// The model `gpt-4o-mini-transcribe`.
    Gpt4oMiniTranscribe,
    /// The model `gpt-4o-transcribe`.
    Gpt4oTranscribe,
    /// The model `gpt-image-1`.
    GptImage1,
    /// The model `o1-2024-12-17`.
    O12024_12_17,
    /// The model `o1`.
    O1,
    /// The model `o1-pro`.
    O1Pro,
    /// The model `o1-pro-2025-03-19`.
    O1Pro2025_03_19,
    /// The model `o3-mini`.
    O3Mini,
    /// The model `o3-mini-2025-01-31`.
    O3Mini2025_01_31,
    /// The model `o4-mini`.
    O4Mini,
    /// The model `o4-mini-2025-04-16`.
    O4Mini2025_04_16,
    /// Any other model, by its identifier.
    Other(String),
}

impl Model {
    /// The identifier of the model, as the API writes it.
    pub open spec fn name(self) -> Seq<char> {
        match self {
            Model::Gpt45Preview => "gpt-4.5-preview"@,
            Model::Gpt45Preview2025_02_27 => "gpt-4.5-preview-2025-02-27"@,
            Model::Gpt4oMiniAudioPreview => "gpt-4o-mini-audio-preview"@,
            Model::Gpt4oMiniAudioPreview2024_12_17 => "gpt-4o-mini-audio-preview-2024-12-17"@,
            Model::Gpt4oMiniRealtimePreview => "gpt-4o-mini-realtime-preview"@,
            Model::DallE2 => "dall-e-2"@,
            Model::Gpt4o2024_11_20 => "gpt-4o-2024-11-20"@,
            Model::O1Mini2024_09_12 => "o1-mini-2024-09-12"@,
            Model::O1Preview2024_09_12 => "o1-preview-2024-09-12"@,
            Model::O1Mini => "o1-mini"@,
            Model::O1Preview => "o1-preview"@,
            Model::ChatGpt4oLatest => "chatgpt-4o-latest"@,
            Model::Whisper1 => "whisper-1"@,
            Model::DallE3 => "dall-e-3"@,
            Model::Gpt4Turbo => "gpt-4-turbo"@,
            Model::Gpt4TurboPreview => "gpt-4-turbo-preview"@,
            Model::Gpt4oAudioPreview => "gpt-4o-audio-preview"@,
            Model::Gpt4oAudioPreview2024_10_01 => "gpt-4o-audio-preview-2024-10-01"@,
            Model::Babbage002 => "babbage-002"@,
            Model::OmniModerationLatest => "omni-moderation-latest"@,
            Model::OmniModeration2024_09_26 => "omni-moderation-2024-09-26"@,
            Model::Tts1Hd1106 => "tts-1-hd-1106"@,
            Model::Gpt4o2024_08_06 => "gpt-4o-2024-08-06"@,
            Model::Gpt4o => "gpt-4o"@,
            Model::Gpt4o2024_05_13 => "gpt-4o-2024-05-13"@,
            Model::Tts1Hd => "tts-1-hd"@,
            Model::Gpt4Turbo2024_04_09 => "gpt-4-turbo-2024-04-09"@,
            Model::Tts1 => "tts-1"@,
            Model::Gpt3_5Turbo16k => "gpt-3.5-turbo-16k"@,
            Model::Tts1_1106 => "tts-1-1106"@,
            Model::Davinci002 => "davinci-002"@,
            Model::Gpt3_5Turbo1106 => "gpt-3.5-turbo-1106"@,
            Model::Gpt4oMiniRealtimePreview2024_12_17 => "gpt-4o-mini-realtime-preview-2024-12-17"@,
            Model::Gpt3_5TurboInstruct => "gpt-3.5-turbo-instruct"@,
            Model::Gpt4oRealtimePreview2024_10_01 => "gpt-4o-realtime-preview-2024-10-01"@,
            Model::Gpt3_5TurboInstruct0914 => "gpt-3.5-turbo-instruct-0914"@,
            Model::Gpt3_5Turbo0125 => "gpt-3.5-turbo-0125"@,
            Model::Gpt4oAudioPreview2024_12_17 => "gpt-4o-audio-preview-2024-12-17"@,
            Model::Gpt4oRealtimePreview2024_12_17 => "gpt-4o-realtime-preview-2024-12-17"@,
            Model::Gpt3_5Turbo => "gpt-3.5-turbo"@,
            Model::TextEmbedding3Large => "text-embedding-3-large"@,
            Model::Gpt4oRealtimePreview => "gpt-4o-realtime-preview"@,
            Model::TextEmbedding3Small => "text-embedding-3-small"@,
            Model::Gpt40125Preview => "gpt-4-0125-preview"@,
            Model::Gpt4 => "gpt-4"@,
            Model::TextEmbeddingAda002 => "text-embedding-ada-002"@,
            Model::Gpt40106Preview => "gpt-4-1106-preview"@,
            Model::Gpt4oMini => "gpt-4o-mini"@,
            Model::Gpt40613 => "gpt-4-0613"@,
            Model::Gpt4oMini2024_07_18 => "gpt-4o-mini-2024-07-18"@,
            Model::Gpt41Nano => "gpt-4.1-nano"@,
            Model::Gpt41Nano2025_04_14 => "gpt-4.1-nano-2025-04-14"@,
            Model::Gpt41Mini => "gpt-4.1-mini"@,
            Model::Gpt41Mini2025_04_14 => "gpt-4.1-mini-2025-04-14"@,
            Model::Gpt41 => "gpt-4.1"@,
            Model::Gpt41_2025_04_14 => "gpt-4.1-2025-04-14"@,
            Model::Gpt4oMiniSearchPreview => "gpt-4o-mini-search-preview"@,
            Model::Gpt4oMiniSearchPreview2025_03_11 => "gpt-4o-mini-search-preview-2025-03-11"@,
            Model::Gpt4oSearchPreview => "gpt-4o-search-preview"@,
            Model::Gpt4oSearchPreview2025_03_11 => "gpt-4o-search-preview-2025-03-11"@,
            Model::Gpt4oMiniTts => "gpt-4o-mini-tts"@,
            Model::Gpt4oMiniTranscribe => "gpt-4o-mini-transcribe"@,
            Model::Gpt4oTranscribe => "gpt-4o-transcribe"@,
            Model::GptImage1 => "gpt-image-1"@,
            Model::O12024_12_17 => "o1-2024-12-17"@,
            Model::O1 => "o1"@,
            Model::O1Pro => "o1-pro"@,
            Model::O1Pro2025_03_19 => "o1-pro-2025-03-19"@,
            Model::O3Mini => "o3-mini"@,
            Model::O3Mini2025_01_31 => "o3-mini-2025-01-31"@,
            Model::O4Mini => "o4-mini"@,
            Model::O4Mini2025_04_16 => "o4-mini-2025-04-16"@,
            Model::Other(name) => name@,
        }
    }

    /// Whether the model is one of the known models.
    pub open spec fn known(self) -> bool {
        !(self is Other)
    }
}

/// The known model with the given identifier, if there is one.
pub open spec fn known_model(name: Seq<char>) -> Option<Model> {
    if name == "gpt-4.5-preview"@ {
        Some(Model::Gpt45Preview)
    } else if name == "gpt-4.5-preview-2025-02-27"@ {
        Some(Model::Gpt45Preview2025_02_27)
    } else if name == "gpt-4o-mini-audio-preview"@ {
        Some(Model::Gpt4oMiniAudioPreview)
    } else if name == "gpt-4o-mini-audio-preview-2024-12-17"@ {
        Some(Model::Gpt4oMiniAudioPreview2024_12_17)
    } else if name == "gpt-4o-mini-realtime-preview"@ {
        Some(Model::Gpt4oMiniRealtimePreview)
    } else if name == "dall-e-2"@ {
        Some(Model::DallE2)
    } else if name == "gpt-4o-2024-11-20"@ {
        Some(Model::Gpt4o2024_11_20)
    } else if name == "o1-mini-2024-09-12"@ {
        Some(Model::O1Mini2024_09_12)
    } else if name == "o1-preview-2024-09-12"@ {
        Some(Model::O1Preview2024_09_12)
    } else if name == "o1-mini"@ {
        Some(Model::O1Mini)
    } else if name == "o1-preview"@ {
        Some(Model::O1Preview)
    } else if name == "chatgpt-4o-latest"@ {
        Some(Model::ChatGpt4oLatest)
    } else if name == "whisper-1"@ {
        Some(Model::Whisper1)
    } else if name == "dall-e-3"@ {
        Some(Model::DallE3)
    } else if name == "gpt-4-turbo"@ {
        Some(Model::Gpt4Turbo)
    } else if name == "gpt-4-turbo-preview"@ {
        Some(Model::Gpt4TurboPreview)
    } else if name == "gpt-4o-audio-preview"@ {
        Some(Model::Gpt4oAudioPreview)
    } else if name == "gpt-4o-audio-preview-2024-10-01"@ {
        Some(Model::Gpt4oAudioPreview2024_10_01)
    } else if name == "babbage-002"@ {
        Some(Model::Babbage002)
    } else if name == "omni-moderation-latest"@ {
        Some(Model::OmniModerationLatest)
    } else if name == "omni-moderation-2024-09-26"@ {
        Some(Model::OmniModeration2024_09_26)
    } else if name == "tts-1-hd-1106"@ {
        Some(Model::Tts1Hd1106)
    } else if name == "gpt-4o-2024-08-06"@ {
        Some(Model::Gpt4o2024_08_06)
    } else if name == "gpt-4o"@ {
        Some(Model::Gpt4o)
    } else if name == "gpt-4o-2024-05-13"@ {
        Some(Model::Gpt4o2024_05_13)
    } else if name == "tts-1-hd"@ {
        Some(Model::Tts1Hd)
    } else if name == "gpt-4-turbo-2024-04-09"@ {
        Some(Model::Gpt4Turbo2024_04_09)
    } else if name == "tts-1"@ {
        Some(Model::Tts1)
    } else if name == "gpt-3.5-turbo-16k"@ {
        Some(Model::Gpt3_5Turbo16k)
    } else if name == "tts-1-1106"@ {
        Some(Model::Tts1_1106)
    } else if name == "davinci-002"@ {
        Some(Model::Davinci002)
    } else if name == "gpt-3.5-turbo-1106"@ {
        Some(Model::Gpt3_5Turbo1106)
    } else if name == "gpt-4o-mini-realtime-preview-2024-12-17"@ {
        Some(Model::Gpt4oMiniRealtimePreview2024_12_17)
    } else if name == "gpt-3.5-turbo-instruct"@ {
        Some(Model::Gpt3_5TurboInstruct)
    } else if name == "gpt-4o-realtime-preview-2024-10-01"@ {
        Some(Model::Gpt4oRealtimePreview2024_10_01)
    } else if name == "gpt-3.5-turbo-instruct-0914"@ {
        Some(Model::Gpt3_5TurboInstruct0914)
    } else if name == "gpt-3.5-turbo-0125"@ {
        Some(Model::Gpt3_5Turbo0125)
    } else if name == "gpt-4o-audio-preview-2024-12-17"@ {
        Some(Model::Gpt4oAudioPreview2024_12_17)
    } else if name == "gpt-4o-realtime-preview-2024-12-17"@ {
        Some(Model::Gpt4oRealtimePreview2024_12_17)
    } else if name == "gpt-3.5-turbo"@ {
        Some(Model::Gpt3_5Turbo)
    } else if name == "text-embedding-3-large"@ {
        Some(Model::TextEmbedding3Large)
    } else if name == "gpt-4o-realtime-preview"@ {
        Some(Model::Gpt4oRealtimePreview)
    } else if name == "text-embedding-3-small"@ {
        Some(Model::TextEmbedding3Small)
    } else if name == "gpt-4-0125-preview"@ {
        Some(Model::Gpt40125Preview)
    } else if name == "gpt-4"@ {
        Some(Model::Gpt4)
    } else if name == "text-embedding-ada-002"@ {
        Some(Model::TextEmbeddingAda002)
    } else if name == "gpt-4-1106-preview"@ {
        Some(Model::Gpt40106Preview)
    } else if name == "gpt-4o-mini"@ {
        Some(Model::Gpt4oMini)
    } else if name == "gpt-4-0613"@ {
        Some(Model::Gpt40613)
    } else if name == "gpt-4o-mini-2024-07-18"@ {
        Some(Model::Gpt4oMini2024_07_18)
    } else if name == "gpt-4.1-nano"@ {
        Some(Model::Gpt41Nano)
    } else if name == "gpt-4.1-nano-2025-04-14"@ {
        Some(Model::Gpt41Nano2025_04_14)
    } else if name == "gpt-4.1-mini"@ {
        Some(Model::Gpt41Mini)
    } else if name == "gpt-4.1-mini-2025-04-14"@ {
        Some(Model::Gpt41Mini2025_04_14)
    } else if name == "gpt-4.1"@ {
        Some(Model::Gpt41)
    } else if name == "gpt-4.1-2025-04-14"@ {
        Some(Model::Gpt41_2025_04_14)
    } else if name == "gpt-4o-mini-search-preview"@ {
        Some(Model::Gpt4oMiniSearchPreview)
    } else if name == "gpt-4o-mini-search-preview-2025-03-11"@ {
        Some(Model::Gpt4oMiniSearchPreview2025_03_11)
    } else if name == "gpt-4o-search-preview"@ {
        Some(Model::Gpt4oSearchPreview)
    } else if name == "gpt-4o-search-preview-2025-03-11"@ {
        Some(Model::Gpt4oSearchPreview2025_03_11)
    } else if name == "gpt-4o-mini-tts"@ {
        Some(Model::Gpt4oMiniTts)
    } else if name == "gpt-4o-mini-transcribe"@ {
        Some(Model::Gpt4oMiniTranscribe)
    } else if name == "gpt-4o-transcribe"@ {
        Some(Model::Gpt4oTranscribe)
    } else if name == "gpt-image-1"@ {
        Some(Model::GptImage1)
    } else if name == "o1-2024-12-17"@ {
        Some(Model::O12024_12_17)
    } else if name == "o1"@ {
        Some(Model::O1)
    } else if name == "o1-pro"@ {
        Some(Model::O1Pro)
    } else if name == "o1-pro-2025-03-19"@ {
        Some(Model::O1Pro2025_03_19)
    } else if name == "o3-mini"@ {
        Some(Model::O3Mini)
    } else if name == "o3-mini-2025-01-31"@ {
        Some(Model::O3Mini2025_01_31)
    } else if name == "o4-mini"@ {
        Some(Model::O4Mini)
    } else if name == "o4-mini-2025-04-16"@ {
        Some(Model::O4Mini2025_04_16)
    } else {
        None
    }
}

/// The model with the given identifier: the known model with that
/// identifier, or else `Other` with the identifier. Every identifier gives a
/// model, and the model's identifier is the one given.
pub fn parse_model_str(s: &str) -> (model: Model)
    ensures
        model.name() == s@,
        model.known() <==> known_model(s@) is Some,
        model.known() ==> known_model(s@) == Some(model),
{
    if same_text(s, "gpt-4.5-preview") {
        Model::Gpt45Preview
    } else if same_text(s, "gpt-4.5-preview-2025-02-27") {
        Model::Gpt45Preview2025_02_27
    } else if same_text(s, "gpt-4o-mini-audio-preview") {
        Model::Gpt4oMiniAudioPreview
    } else if same_text(s, "gpt-4o-mini-audio-preview-2024-12-17") {
        Model::Gpt4oMiniAudioPreview2024_12_17
    } else if same_text(s, "gpt-4o-mini-realtime-preview") {
        Model::Gpt4oMiniRealtimePreview
    } else if same_text(s, "dall-e-2") {
        Model::DallE2
    } else if same_text(s, "gpt-4o-2024-11-20") {
        Model::Gpt4o2024_11_20
    } else if same_text(s, "o1-mini-2024-09-12") {
        Model::O1Mini2024_09_12
    } else if same_text(s, "o1-preview-2024-09-12") {
        Model::O1Preview2024_09_12
    } else if same_text(s, "o1-mini") {
        Model::O1Mini
    } else if same_text(s, "o1-preview") {
        Model::O1Preview
    } else if same_text(s, "chatgpt-4o-latest") {
        Model::ChatGpt4oLatest
    } else if same_text(s, "whisper-1") {
        Model::Whisper1
    } else if same_text(s, "dall-e-3") {
        Model::DallE3
    } else if same_text(s, "gpt-4-turbo") {
        Model::Gpt4Turbo
    } else if same_text(s, "gpt-4-turbo-preview") {
        Model::Gpt4TurboPreview
    } else if same_text(s, "gpt-4o-audio-preview") {
        Model::Gpt4oAudioPreview
    } else if same_text(s, "gpt-4o-audio-preview-2024-10-01") {
        Model::Gpt4oAudioPreview2024_10_01
    } else if same_text(s, "babbage-002") {
        Model::Babbage002
    } else if same_text(s, "omni-moderation-latest") {
        Model::OmniModerationLatest
    } else if same_text(s, "omni-moderation-2024-09-26") {
        Model::OmniModeration2024_09_26
    } else if same_text(s, "tts-1-hd-1106") {
        Model::Tts1Hd1106
    } else if same_text(s, "gpt-4o-2024-08-06") {
        Model::Gpt4o2024_08_06
    } else if same_text(s, "gpt-4o") {
        Model::Gpt4o
    } else if same_text(s, "gpt-4o-2024-05-13") {
        Model::Gpt4o2024_05_13
    } else if same_text(s, "tts-1-hd") {
        Model::Tts1Hd
    } else if same_text(s, "gpt-4-turbo-2024-04-09") {
        Model::Gpt4Turbo2024_04_09
    } else if same_text(s, "tts-1") {
        Model::Tts1
    } else if same_text(s, "gpt-3.5-turbo-16k") {
        Model::Gpt3_5Turbo16k
    } else if same_text(s, "tts-1-1106") {
        Model::Tts1_1106
    } else if same_text(s, "davinci-002") {
        Model::Davinci002
    } else if same_text(s, "gpt-3.5-turbo-1106") {
        Model::Gpt3_5Turbo1106
    } else if same_text(s, "gpt-4o-mini-realtime-preview-2024-12-17") {
        Model::Gpt4oMiniRealtimePreview2024_12_17
    } else if same_text(s, "gpt-3.5-turbo-instruct") {
        Model::Gpt3_5TurboInstruct
    } else if same_text(s, "gpt-4o-realtime-preview-2024-10-01") {
        Model::Gpt4oRealtimePreview2024_10_01
    } else if same_text(s, "gpt-3.5-turbo-instruct-0914") {
        Model::Gpt3_5TurboInstruct0914
    } else if same_text(s, "gpt-3.5-turbo-0125") {
        Model::Gpt3_5Turbo0125
    } else if same_text(s, "gpt-4o-audio-preview-2024-12-17") {
        Model::Gpt4oAudioPreview2024_12_17
    } else if same_text(s, "gpt-4o-realtime-preview-2024-12-17") {
        Model::Gpt4oRealtimePreview2024_12_17
    } else if same_text(s, "gpt-3.5-turbo") {
        Model::Gpt3_5Turbo
    } else if same_text(s, "text-embedding-3-large") {
        Model::TextEmbedding3Large
    } else if same_text(s, "gpt-4o-realtime-preview") {
        Model::Gpt4oRealtimePreview
    } else if same_text(s, "text-embedding-3-small") {
        Model::TextEmbedding3Small
    } else if same_text(s, "gpt-4-0125-preview") {
        Model::Gpt40125Preview
    } else if same_text(s, "gpt-4") {
        Model::Gpt4
    } else if same_text(s, "text-embedding-ada-002") {
        Model::TextEmbeddingAda002
    } else if same_text(s, "gpt-4-1106-preview") {
        Model::Gpt40106Preview
    } else if same_text(s, "gpt-4o-mini") {
        Model::Gpt4oMini
    } else if same_text(s, "gpt-4-0613") {
        Model::Gpt40613
    } else if same_text(s, "gpt-4o-mini-2024-07-18") {
        Model::Gpt4oMini2024_07_18
    } else if same_text(s, "gpt-4.1-nano") {
        Model::Gpt41Nano
    } else if same_text(s, "gpt-4.1-nano-2025-04-14") {
        Model::Gpt41Nano2025_04_14
    } else if same_text(s, "gpt-4.1-mini") {
        Model::Gpt41Mini
    } else if same_text(s, "gpt-4.1-mini-2025-04-14") {
        Model::Gpt41Mini2025_04_14
    } else if same_text(s, "gpt-4.1") {
        Model::Gpt41
    } else if same_text(s, "gpt-4.1-2025-04-14") {
        Model::Gpt41_2025_04_14
    } else if same_text(s, "gpt-4o-mini-search-preview") {
        Model::Gpt4oMiniSearchPreview
    } else if same_text(s, "gpt-4o-mini-search-preview-2025-03-11") {
        Model::Gpt4oMiniSearchPreview2025_03_11
    } else if same_text(s, "gpt-4o-search-preview") {
        Model::Gpt4oSearchPreview
    } else if same_text(s, "gpt-4o-search-preview-2025-03-11") {
        Model::Gpt4oSearchPreview2025_03_11
    } else if same_text(s, "gpt-4o-mini-tts") {
        Model::Gpt4oMiniTts
    } else if same_text(s, "gpt-4o-mini-transcribe") {
        Model::Gpt4oMiniTranscribe
    } else if same_text(s, "gpt-4o-transcribe") {
        Model::Gpt4oTranscribe
    } else if same_text(s, "gpt-image-1") {
        Model::GptImage1
    } else if same_text(s, "o1-2024-12-17") {
        Model::O12024_12_17
    } else if same_text(s, "o1") {
        Model::O1
    } else if same_text(s, "o1-pro") {
        Model::O1Pro
    } else if same_text(s, "o1-pro-2025-03-19") {
        Model::O1Pro2025_03_19
    } else if same_text(s, "o3-mini") {
        Model::O3Mini
    } else if same_text(s, "o3-mini-2025-01-31") {
        Model::O3Mini2025_01_31
    } else if same_text(s, "o4-mini") {
        Model::O4Mini
    } else if same_text(s, "o4-mini-2025-04-16") {
        Model::O4Mini2025_04_16
    } else {
        Model::Other(String::from_str(s))
    }
}

impl Model {
    /// The identifier of the model, as the API writes it.
    pub fn as_str(&self) -> (name: &str)
        ensures
            name@ == self.name(),
    {
        match self {
            Model::Gpt45Preview => "gpt-4.5-preview",
            Model::Gpt45Preview2025_02_27 => "gpt-4.5-preview-2025-02-27",
            Model::Gpt4oMiniAudioPreview => "gpt-4o-mini-audio-preview",
            Model::Gpt4oMiniAudioPreview2024_12_17 => "gpt-4o-mini-audio-preview-2024-12-17",
            Model::Gpt4oMiniRealtimePreview => "gpt-4o-mini-realtime-preview",
            Model::DallE2 => "dall-e-2",
            Model::Gpt4o2024_11_20 => "gpt-4o-2024-11-20",
            Model::O1Mini2024_09_12 => "o1-mini-2024-09-12",
            Model::O1Preview2024_09_12 => "o1-preview-2024-09-12",
            Model::O1Mini => "o1-mini",
            Model::O1Preview => "o1-preview",
            Model::ChatGpt4oLatest => "chatgpt-4o-latest",
            Model::Whisper1 => "whisper-1",
            Model::DallE3 => "dall-e-3",
            Model::Gpt4Turbo => "gpt-4-turbo",
            Model::Gpt4TurboPreview => "gpt-4-turbo-preview",
            Model::Gpt4oAudioPreview => "gpt-4o-audio-preview",
            Model::Gpt4oAudioPreview2024_10_01 => "gpt-4o-audio-preview-2024-10-01",
            Model::Babbage002 => "babbage-002",
            Model::OmniModerationLatest => "omni-moderation-latest",
            Model::OmniModeration2024_09_26 => "omni-moderation-2024-09-26",
            Model::Tts1Hd1106 => "tts-1-hd-1106",
            Model::Gpt4o2024_08_06 => "gpt-4o-2024-08-06",
            Model::Gpt4o => "gpt-4o",
            Model::Gpt4o2024_05_13 => "gpt-4o-2024-05-13",
            Model::Tts1Hd => "tts-1-hd",
            Model::Gpt4Turbo2024_04_09 => "gpt-4-turbo-2024-04-09",
            Model::Tts1 => "tts-1",
            Model::Gpt3_5Turbo16k => "gpt-3.5-turbo-16k",
            Model::Tts1_1106 => "tts-1-1106",
            Model::Davinci002 => "davinci-002",
            Model::Gpt3_5Turbo1106 => "gpt-3.5-turbo-1106",
            Model::Gpt4oMiniRealtimePreview2024_12_17 => "gpt-4o-mini-realtime-preview-2024-12-17",
            Model::Gpt3_5TurboInstruct => "gpt-3.5-turbo-instruct",
            Model::Gpt4oRealtimePreview2024_10_01 => "gpt-4o-realtime-preview-2024-10-01",
            Model::Gpt3_5TurboInstruct0914 => "gpt-3.5-turbo-instruct-0914",
            Model::Gpt3_5Turbo0125 => "gpt-3.5-turbo-0125",
            Model::Gpt4oAudioPreview2024_12_17 => "gpt-4o-audio-preview-2024-12-17",
            Model::Gpt4oRealtimePreview2024_12_17 => "gpt-4o-realtime-preview-2024-12-17",
            Model::Gpt3_5Turbo => "gpt-3.5-turbo",
            Model::TextEmbedding3Large => "text-embedding-3-large",
            Model::Gpt4oRealtimePreview => "gpt-4o-realtime-preview",
            Model::TextEmbedding3Small => "text-embedding-3-small",
            Model::Gpt40125Preview => "gpt-4-0125-preview",
            Model::Gpt4 => "gpt-4",
            Model::TextEmbeddingAda002 => "text-embedding-ada-002",
            Model::Gpt40106Preview => "gpt-4-1106-preview",
            Model::Gpt4oMini => "gpt-4o-mini",
            Model::Gpt40613 => "gpt-4-0613",
            Model::Gpt4oMini2024_07_18 => "gpt-4o-mini-2024-07-18",
            Model::Gpt41Nano => "gpt-4.1-nano",
            Model::Gpt41Nano2025_04_14 => "gpt-4.1-nano-2025-04-14",
            Model::Gpt41Mini => "gpt-4.1-mini",
            Model::Gpt41Mini2025_04_14 => "gpt-4.1-mini-2025-04-14",
            Model::Gpt41 => "gpt-4.1",
            Model::Gpt41_2025_04_14 => "gpt-4.1-2025-04-14",
            Model::Gpt4oMiniSearchPreview => "gpt-4o-mini-search-preview",
            Model::Gpt4oMiniSearchPreview2025_03_11 => "gpt-4o-mini-search-preview-2025-03-11",
            Model::Gpt4oSearchPreview => "gpt-4o-search-preview",
            Model::Gpt4oSearchPreview2025_03_11 => "gpt-4o-search-preview-2025-03-11",
            Model::Gpt4oMiniTts => "gpt-4o-mini-tts",
            Model::Gpt4oMiniTranscribe => "gpt-4o-mini-transcribe",
            Model::Gpt4oTranscribe => "gpt-4o-transcribe",
            Model::GptImage1 => "gpt-image-1",
            Model::O12024_12_17 => "o1-2024-12-17",
            Model::O1 => "o1",
            Model::O1Pro => "o1-pro",
            Model::O1Pro2025_03_19 => "o1-pro-2025-03-19",
            Model::O3Mini => "o3-mini",
            Model::O3Mini2025_01_31 => "o3-mini-2025-01-31",
            Model::O4Mini => "o4-mini",
            Model::O4Mini2025_04_16 => "o4-mini-2025-04-16",
            Model::Other(name) => name.as_str(),
        }
    }
}

/// The model that an owned identifier stands for.
pub open spec fn model_of(name: String) -> Model {
    match known_model(name@) {
        Some(model) => model,
        None => Model::Other(name),
    }
}

impl From<String> for Model {
    fn from(s: String) -> (model: Model) {
        let model = parse_model_str(s.as_str());
        match model {
            Model::Other(_) => Model::Other(s),
            known => known,
        }
    }
}

impl vstd::std_specs::convert::FromSpecImpl<String> for Model {
    open spec fn obeys_from_spec() -> bool {
        true
    }

    open spec fn from_spec(s: String) -> Model {
        model_of(s)
    }
}

impl From<&String> for Model {
    fn from(s: &String) -> (model: Model) {
        let model = parse_model_str(s.as_str());
        match model {
            Model::Other(_) => Model::Other(s.clone()),
            known => known,
        }
    }
}

impl vstd::std_specs::convert::FromSpecImpl<&String> for Model {
    open spec fn obeys_from_spec() -> bool {
        true
    }

    open spec fn from_spec(s: &String) -> Model {
        model_of(*s)
    }
}

impl From<&str> for Model {
    fn from(s: &str) -> (model: Model)
        ensures
            model.name() == s@,
            model.known() <==> known_model(s@) is Some,
            model.known() ==> known_model(s@) == Some(model),
    {
        parse_model_str(s)
    }
}

impl vstd::std_specs::convert::FromSpecImpl<&str> for Model {
    open spec fn obeys_from_spec() -> bool {
        false
    }

    open spec fn from_spec(s: &str) -> Model {
        choose|model: Model|
            model.name() == s@ && (model.known() <==> known_model(s@) is Some) && (model.known()
                ==> known_model(s@) == Some(model))
    }
}

impl Default for Model {
    fn default() -> (model: Model)
        ensures
            model == Model::O1Mini,
    {
        Model::O1Mini
    }
}

/// The character of `name` at index `i`, or a space where it has none.
pub open spec fn character_at(name: Seq<char>, i: int) -> char {
    if 0 <= i < name.len() {
        name[i]
    } else {
        ' '
    }
}

/// What tells the identifiers of the known models apart: the length, the
/// last character, the sixth character from the end, and the ninth
/// character.
pub open spec fn fingerprint(name: Seq<char>) -> (nat, char, char, char) {
    (
        name.len(),
        character_at(name, name.len() - 1),
        character_at(name, name.len() - 6),
        character_at(name, 8),
    )
}

/// The fingerprint of the identifier of each known model.
proof fn lemma_fingerprints()
    ensures
        fingerprint("gpt-4.5-preview"@) == (15nat, 'w', 'r', 'p'),
        fingerprint("gpt-4.5-preview-2025-02-27"@) == (26nat, '7', '-', 'p'),
        fingerprint("gpt-4o-mini-audio-preview"@) == (25nat, 'w', 'r', 'i'),
        fingerprint("gpt-4o-mini-audio-preview-2024-12-17"@) == (36nat, '7', '-', 'i'),
        fingerprint("gpt-4o-mini-realtime-preview"@) == (28nat, 'w', 'r', 'i'),
        fingerprint("dall-e-2"@) == (8nat, '2', 'l', ' '),
        fingerprint("gpt-4o-2024-11-20"@) == (17nat, '0', '-', '0'),
        fingerprint("o1-mini-2024-09-12"@) == (18nat, '2', '-', '2'),
        fingerprint("o1-preview-2024-09-12"@) == (21nat, '2', '-', 'e'),
        fingerprint("o1-mini"@) == (7nat, 'i', '1', ' '),
        fingerprint("o1-preview"@) == (10nat, 'w', 'r', 'e'),
        fingerprint("chatgpt-4o-latest"@) == (17nat, 't', 'l', '4'),
        fingerprint("whisper-1"@) == (9nat, '1', 's', '1'),
        fingerprint("dall-e-3"@) == (8nat, '3', 'l', ' '),
        fingerprint("gpt-4-turbo"@) == (11nat, 'o', '-', 'r'),
        fingerprint("gpt-4-turbo-preview"@) == (19nat, 'w', 'r', 'r'),
        fingerprint("gpt-4o-audio-preview"@) == (20nat, 'w', 'r', 'u'),
        fingerprint("gpt-4o-audio-preview-2024-10-01"@) == (31nat, '1', '-', 'u'),
        fingerprint("babbage-002"@) == (11nat, '2', 'g', '0'),
        fingerprint("omni-moderation-latest"@) == (22nat, 't', 'l', 'e'),
        fingerprint("omni-moderation-2024-09-26"@) == (26nat, '6', '-', 'e'),
        fingerprint("tts-1-hd-1106"@) == (13nat, '6', 'd', '-'),
        fingerprint("gpt-4o-2024-08-06"@) == (17nat, '6', '-', '0'),
        fingerprint("gpt-4o"@) == (6nat, 'o', 'g', ' '),
        fingerprint("gpt-4o-2024-05-13"@) == (17nat, '3', '-', '0'),
        fingerprint("tts-1-hd"@) == (8nat, 'd', 's', ' '),
        fingerprint("gpt-4-turbo-2024-04-09"@) == (22nat, '9', '-', 'r'),
        fingerprint("tts-1"@) == (5nat, '1', ' ', ' '),
        fingerprint("gpt-3.5-turbo-16k"@) == (17nat, 'k', 'b', 't'),
        fingerprint("tts-1-1106"@) == (10nat, '6', '1', '0'),
        fingerprint("davinci-002"@) == (11nat, '2', 'c', '0'),
        fingerprint("gpt-3.5-turbo-1106"@) == (18nat, '6', 'o', 't'),
        fingerprint("gpt-4o-mini-realtime-preview-2024-12-17"@) == (39nat, '7', '-', 'i'),
        fingerprint("gpt-3.5-turbo-instruct"@) == (22nat, 't', 's', 't'),
        fingerprint("gpt-4o-realtime-preview-2024-10-01"@) == (34nat, '1', '-', 'e'),
        fingerprint("gpt-3.5-turbo-instruct-0914"@) == (27nat, '4', 't', 't'),
        fingerprint("gpt-3.5-turbo-0125"@) == (18nat, '5', 'o', 't'),
        fingerprint("gpt-4o-audio-preview-2024-12-17"@) == (31nat, '7', '-', 'u'),
        fingerprint("gpt-4o-realtime-preview-2024-12-17"@) == (34nat, '7', '-', 'e'),
        fingerprint("gpt-3.5-turbo"@) == (13nat, 'o', '-', 't'),
        fingerprint("text-embedding-3-large"@) == (22nat, 'e', '-', 'e'),
        fingerprint("gpt-4o-realtime-preview"@) == (23nat, 'w', 'r', 'e'),
        fingerprint("text-embedding-3-small"@) == (22nat, 'l', '-', 'e'),
        fingerprint("gpt-4-0125-preview"@) == (18nat, 'w', 'r', '2'),
        fingerprint("gpt-4"@) == (5nat, '4', ' ', ' '),
        fingerprint("text-embedding-ada-002"@) == (22nat, '2', 'd', 'e'),
        fingerprint("gpt-4-1106-preview"@) == (18nat, 'w', 'r', '0'),
        fingerprint("gpt-4o-mini"@) == (11nat, 'i', 'o', 'i'),
        fingerprint("gpt-4-0613"@) == (10nat, '3', '4', '1'),
        fingerprint("gpt-4o-mini-2024-07-18"@) == (22nat, '8', '-', 'i'),
        fingerprint("gpt-4.1-nano"@) == (12nat, 'o', '1', 'n'),
        fingerprint("gpt-4.1-nano-2025-04-14"@) == (23nat, '4', '-', 'n'),
        fingerprint("gpt-4.1-mini"@) == (12nat, 'i', '1', 'm'),
        fingerprint("gpt-4.1-mini-2025-04-14"@) == (23nat, '4', '-', 'm'),
        fingerprint("gpt-4.1"@) == (7nat, '1', 'p', ' '),
        fingerprint("gpt-4.1-2025-04-14"@) == (18nat, '4', '-', '2'),
        fingerprint("gpt-4o-mini-search-preview"@) == (26nat, 'w', 'r', 'i'),
        fingerprint("gpt-4o-mini-search-preview-2025-03-11"@) == (37nat, '1', '-', 'i'),
        fingerprint("gpt-4o-search-preview"@) == (21nat, 'w', 'r', 'e'),
        fingerprint("gpt-4o-search-preview-2025-03-11"@) == (32nat, '1', '-', 'e'),
        fingerprint("gpt-4o-mini-tts"@) == (15nat, 's', 'n', 'i'),
        fingerprint("gpt-4o-mini-transcribe"@) == (22nat, 'e', 's', 'i'),
        fingerprint("gpt-4o-transcribe"@) == (17nat, 'e', 's', 'r'),
        fingerprint("gpt-image-1"@) == (11nat, '1', 'm', 'e'),
        fingerprint("o1-2024-12-17"@) == (13nat, '7', '-', '1'),
        fingerprint("o1"@) == (2nat, '1', ' ', ' '),
        fingerprint("o1-pro"@) == (6nat, 'o', 'o', ' '),
        fingerprint("o1-pro-2025-03-19"@) == (17nat, '9', '-', '0'),
        fingerprint("o3-mini"@) == (7nat, 'i', '3', ' '),
        fingerprint("o3-mini-2025-01-31"@) == (18nat, '1', '-', '2'),
        fingerprint("o4-mini"@) == (7nat, 'i', '4', ' '),
        fingerprint("o4-mini-2025-04-16"@) == (18nat, '6', '-', '2'),
{
    reveal_strlit("gpt-4.5-preview");
    reveal_strlit("gpt-4.5-preview-2025-02-27");
    reveal_strlit("gpt-4o-mini-audio-preview");
    reveal_strlit("gpt-4o-mini-audio-preview-2024-12-17");
    reveal_strlit("gpt-4o-mini-realtime-preview");
    reveal_strlit("dall-e-2");
    reveal_strlit("gpt-4o-2024-11-20");
    reveal_strlit("o1-mini-2024-09-12");
    reveal_strlit("o1-preview-2024-09-12");
    reveal_strlit("o1-mini");
    reveal_strlit("o1-preview");
    reveal_strlit("chatgpt-4o-latest");
    reveal_strlit("whisper-1");
    reveal_strlit("dall-e-3");
    reveal_strlit("gpt-4-turbo");
    reveal_strlit("gpt-4-turbo-preview");
    reveal_strlit("gpt-4o-audio-preview");
    reveal_strlit("gpt-4o-audio-preview-2024-10-01");
    reveal_strlit("babbage-002");
    reveal_strlit("omni-moderation-latest");
    reveal_strlit("omni-moderation-2024-09-26");
    reveal_strlit("tts-1-hd-1106");
    reveal_strlit("gpt-4o-2024-08-06");
    reveal_strlit("gpt-4o");
    reveal_strlit("gpt-4o-2024-05-13");
    reveal_strlit("tts-1-hd");
    reveal_strlit("gpt-4-turbo-2024-04-09");
    reveal_strlit("tts-1");
    reveal_strlit("gpt-3.5-turbo-16k");
    reveal_strlit("tts-1-1106");
    reveal_strlit("davinci-002");
    reveal_strlit("gpt-3.5-turbo-1106");
    reveal_strlit("gpt-4o-mini-realtime-preview-2024-12-17");
    reveal_strlit("gpt-3.5-turbo-instruct");
    reveal_strlit("gpt-4o-realtime-preview-2024-10-01");
    reveal_strlit("gpt-3.5-turbo-instruct-0914");
    reveal_strlit("gpt-3.5-turbo-0125");
    reveal_strlit("gpt-4o-audio-preview-2024-12-17");
    reveal_strlit("gpt-4o-realtime-preview-2024-12-17");
    reveal_strlit("gpt-3.5-turbo");
    reveal_strlit("text-embedding-3-large");
    reveal_strlit("gpt-4o-realtime-preview");
    reveal_strlit("text-embedding-3-small");
    reveal_strlit("gpt-4-0125-preview");
    reveal_strlit("gpt-4");
    reveal_strlit("text-embedding-ada-002");
    reveal_strlit("gpt-4-1106-preview");
    reveal_strlit("gpt-4o-mini");
    reveal_strlit("gpt-4-0613");
    reveal_strlit("gpt-4o-mini-2024-07-18");
    reveal_strlit("gpt-4.1-nano");
    reveal_strlit("gpt-4.1-nano-2025-04-14");
    reveal_strlit("gpt-4.1-mini");
    reveal_strlit("gpt-4.1-mini-2025-04-14");
    reveal_strlit("gpt-4.1");
    reveal_strlit("gpt-4.1-2025-04-14");
    reveal_strlit("gpt-4o-mini-search-preview");
    reveal_strlit("gpt-4o-mini-search-preview-2025-03-11");
    reveal_strlit("gpt-4o-search-preview");
    reveal_strlit("gpt-4o-search-preview-2025-03-11");
    reveal_strlit("gpt-4o-mini-tts");
    reveal_strlit("gpt-4o-mini-transcribe");
    reveal_strlit("gpt-4o-transcribe");
    reveal_strlit("gpt-image-1");
    reveal_strlit("o1-2024-12-17");
    reveal_strlit("o1");
    reveal_strlit("o1-pro");
    reveal_strlit("o1-pro-2025-03-19");
    reveal_strlit("o3-mini");
    reveal_strlit("o3-mini-2025-01-31");
    reveal_strlit("o4-mini");
    reveal_strlit("o4-mini-2025-04-16");
}

/// The known models have different identifiers: each known model is found
/// again by its identifier.
pub proof fn lemma_known_model_round_trip(model: Model)
    requires
        model.known(),
    ensures
        known_model(model.name()) == Some(model),
{
    lemma_fingerprints();
}

/// An identifier and its model determine each other: the model of an
/// identifier has that identifier, and two models with one identifier are
/// both known and equal, or both `Other`.
pub proof fn lemma_model_of_identifier(first: Model, second: Model)
    requires
        first.name() == second.name(),
        first.known() <==> known_model(first.name()) is Some,
        second.known() <==> known_model(second.name()) is Some,
    ensures
        first.known() == second.known(),
        first.known() ==> first == second,
{
    if first.known() {
        lemma_known_model_round_trip(first);
        lemma_known_model_round_trip(second);
    }
}

} // verus!
