use chat_gpt_lib_rs::api_resources::models::{
    list_models, listed_models, parse_model_str, retrieve_model, Model, ModelInfo, ModelList,
};
use chat_gpt_lib_rs::http::Method;
use chat_gpt_lib_rs::OpenAIClient;

fn client() -> OpenAIClient {
    OpenAIClient::builder()
        .with_api_key("test-key")
        .with_base_url("https://x/v1/")
        .build(None)
        .unwrap()
}

fn known() -> Vec<(&'static str, Model)> {
    vec![
        ("gpt-4.5-preview", Model::Gpt45Preview),
        ("gpt-4.5-preview-2025-02-27", Model::Gpt45Preview2025_02_27),
        ("gpt-4o-mini-audio-preview", Model::Gpt4oMiniAudioPreview),
        ("gpt-4o-mini-audio-preview-2024-12-17", Model::Gpt4oMiniAudioPreview2024_12_17),
        ("gpt-4o-mini-realtime-preview", Model::Gpt4oMiniRealtimePreview),
        ("dall-e-2", Model::DallE2),
        ("gpt-4o-2024-11-20", Model::Gpt4o2024_11_20),
        ("o1-mini-2024-09-12", Model::O1Mini2024_09_12),
        ("o1-preview-2024-09-12", Model::O1Preview2024_09_12),
        ("o1-mini", Model::O1Mini),
        ("o1-preview", Model::O1Preview),
        ("chatgpt-4o-latest", Model::ChatGpt4oLatest),
        ("whisper-1", Model::Whisper1),
        ("dall-e-3", Model::DallE3),
        ("gpt-4-turbo", Model::Gpt4Turbo),
        ("gpt-4-turbo-preview", Model::Gpt4TurboPreview),
        ("gpt-4o-audio-preview", Model::Gpt4oAudioPreview),
        ("gpt-4o-audio-preview-2024-10-01", Model::Gpt4oAudioPreview2024_10_01),
        ("babbage-002", Model::Babbage002),
        ("omni-moderation-latest", Model::OmniModerationLatest),
        ("omni-moderation-2024-09-26", Model::OmniModeration2024_09_26),
        ("tts-1-hd-1106", Model::Tts1Hd1106),
        ("gpt-4o-2024-08-06", Model::Gpt4o2024_08_06),
        ("gpt-4o", Model::Gpt4o),
        ("gpt-4o-2024-05-13", Model::Gpt4o2024_05_13),
        ("tts-1-hd", Model::Tts1Hd),
        ("gpt-4-turbo-2024-04-09", Model::Gpt4Turbo2024_04_09),
        ("tts-1", Model::Tts1),
        ("gpt-3.5-turbo-16k", Model::Gpt3_5Turbo16k),
        ("tts-1-1106", Model::Tts1_1106),
        ("davinci-002", Model::Davinci002),
        ("gpt-3.5-turbo-1106", Model::Gpt3_5Turbo1106),
        ("gpt-4o-mini-realtime-preview-2024-12-17", Model::Gpt4oMiniRealtimePreview2024_12_17),
        ("gpt-3.5-turbo-instruct", Model::Gpt3_5TurboInstruct),
        ("gpt-4o-realtime-preview-2024-10-01", Model::Gpt4oRealtimePreview2024_10_01),
        ("gpt-3.5-turbo-instruct-0914", Model::Gpt3_5TurboInstruct0914),
        ("gpt-3.5-turbo-0125", Model::Gpt3_5Turbo0125),
        ("gpt-4o-audio-preview-2024-12-17", Model::Gpt4oAudioPreview2024_12_17),
        ("gpt-4o-realtime-preview-2024-12-17", Model::Gpt4oRealtimePreview2024_12_17),
        ("gpt-3.5-turbo", Model::Gpt3_5Turbo),
        ("text-embedding-3-large", Model::TextEmbedding3Large),
        ("gpt-4o-realtime-preview", Model::Gpt4oRealtimePreview),
        ("text-embedding-3-small", Model::TextEmbedding3Small),
        ("gpt-4-0125-preview", Model::Gpt40125Preview),
        ("gpt-4", Model::Gpt4),
        ("text-embedding-ada-002", Model::TextEmbeddingAda002),
        ("gpt-4-1106-preview", Model::Gpt40106Preview),
        ("gpt-4o-mini", Model::Gpt4oMini),
        ("gpt-4-0613", Model::Gpt40613),
        ("gpt-4o-mini-2024-07-18", Model::Gpt4oMini2024_07_18),
        ("gpt-4.1-nano", Model::Gpt41Nano),
        ("gpt-4.1-nano-2025-04-14", Model::Gpt41Nano2025_04_14),
        ("gpt-4.1-mini", Model::Gpt41Mini),
        ("gpt-4.1-mini-2025-04-14", Model::Gpt41Mini2025_04_14),
        ("gpt-4.1", Model::Gpt41),
        ("gpt-4.1-2025-04-14", Model::Gpt41_2025_04_14),
        ("gpt-4o-mini-search-preview", Model::Gpt4oMiniSearchPreview),
        ("gpt-4o-mini-search-preview-2025-03-11", Model::Gpt4oMiniSearchPreview2025_03_11),
        ("gpt-4o-search-preview", Model::Gpt4oSearchPreview),
        ("gpt-4o-search-preview-2025-03-11", Model::Gpt4oSearchPreview2025_03_11),
        ("gpt-4o-mini-tts", Model::Gpt4oMiniTts),
        ("gpt-4o-mini-transcribe", Model::Gpt4oMiniTranscribe),
        ("gpt-4o-transcribe", Model::Gpt4oTranscribe),
        ("gpt-image-1", Model::GptImage1),
        ("o1-2024-12-17", Model::O12024_12_17),
        ("o1", Model::O1),
        ("o1-pro", Model::O1Pro),
        ("o1-pro-2025-03-19", Model::O1Pro2025_03_19),
        ("o3-mini", Model::O3Mini),
        ("o3-mini-2025-01-31", Model::O3Mini2025_01_31),
        ("o4-mini", Model::O4Mini),
        ("o4-mini-2025-04-16", Model::O4Mini2025_04_16),
    ]
}

#[test]
fn every_known_identifier_gives_its_model_and_back() {
    let all = known();
    assert_eq!(all.len(), 72);
    for (name, model) in all {
        assert_eq!(parse_model_str(name), model, "identifier {}", name);
        assert_eq!(model.as_str(), name);
        assert_eq!(Model::from(name), model);
        assert_eq!(Model::from(name.to_string()), model);
        assert_eq!(Model::from(&name.to_string()), model);
    }
}

#[test]
fn known_identifiers_are_distinct() {
    let all = known();
    for (i, (first, _)) in all.iter().enumerate() {
        for (second, _) in all.iter().skip(i + 1) {
            assert_ne!(first, second);
        }
    }
}

#[test]
fn any_other_identifier_is_kept_as_it_is() {
    for name in ["", "gpt-5", "GPT-4", "gpt-4 ", " gpt-4", "o1-min", "text-moderation-latest"] {
        let model = parse_model_str(name);
        assert_eq!(model, Model::Other(name.to_string()));
        assert_eq!(model.as_str(), name);
        assert_eq!(Model::from(name.to_string()), model);
        assert_eq!(Model::from(&name.to_string()), model);
        assert_eq!(Model::from(name), model);
    }
}

#[test]
fn default_model() {
    assert_eq!(Model::default(), Model::O1Mini);
    assert_eq!(Model::default().as_str(), "o1-mini");
}

#[test]
fn list_and_retrieve_requests() {
    let list = list_models(&client());
    assert_eq!(list.method, Method::Get);
    assert_eq!(list.url, "https://x/v1/models");
    let one = retrieve_model(&client(), "text-davinci-003");
    assert_eq!(one.method, Method::Get);
    assert_eq!(one.url, "https://x/v1/models/text-davinci-003");
}

#[test]
fn listed_models_are_the_data_of_the_list() {
    let info = ModelInfo {
        id: "m1".to_string(),
        object: "model".to_string(),
        created: Some(1),
        owned_by: "openai".to_string(),
        permission: Vec::new(),
        root: None,
        parent: None,
    };
    let models = listed_models(ModelList {
        object: "list".to_string(),
        data: vec![info],
    });
    assert_eq!(models.len(), 1);
    assert_eq!(models[0].id, "m1");
}
