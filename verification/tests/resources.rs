use chat_gpt_lib_rs::api_resources::chat::{create_chat_completion, create_chat_completion_stream};
use chat_gpt_lib_rs::api_resources::completions::{
    create_completion, default_best_of, default_max_tokens, default_n, default_prompt, PromptInput,
};
use chat_gpt_lib_rs::api_resources::embeddings::create_embeddings;
use chat_gpt_lib_rs::api_resources::files::{
    delete_file, file_content_result, handle_file_response, list_files, retrieve_file_content,
    retrieve_file_metadata, upload_file, FileObject, UploadFilePurpose,
};
use chat_gpt_lib_rs::api_resources::fine_tunes::{
    cancel_fine_tune, create_fine_tune, delete_fine_tune_model, list_fine_tune_events,
    list_fine_tunes, retrieve_fine_tune,
};
use chat_gpt_lib_rs::api_resources::moderations::create_moderation;
use chat_gpt_lib_rs::http::{HttpStatus, Method};
use chat_gpt_lib_rs::stream::StreamState;
use chat_gpt_lib_rs::{OpenAIClient, OpenAIError};

fn client() -> OpenAIClient {
    OpenAIClient::builder()
        .with_api_key("test-key")
        .with_base_url("https://x/v1/")
        .with_organization("org-9")
        .build(None)
        .unwrap()
}

fn status(code: u16) -> HttpStatus {
    HttpStatus::from_u16(code).unwrap()
}

#[test]
fn post_endpoints() {
    let c = client();
    let calls = [
        (create_chat_completion(&c, "{}"), "https://x/v1/chat/completions"),
        (create_completion(&c, "{}"), "https://x/v1/completions"),
        (create_embeddings(&c, "{}"), "https://x/v1/embeddings"),
        (create_moderation(&c, "{}"), "https://x/v1/moderations"),
        (create_fine_tune(&c, "{}"), "https://x/v1/fine-tunes"),
    ];
    for (request, url) in calls {
        assert_eq!(request.method, Method::Post);
        assert_eq!(request.url, url);
        assert_eq!(request.body.as_deref(), Some("{}"));
        assert_eq!(request.headers.len(), 3);
    }
}

#[test]
fn streamed_chat_completion() {
    let (request, decoder) = create_chat_completion_stream(&client(), "{\"stream\":true}");
    assert_eq!(request.method, Method::Post);
    assert_eq!(request.url, "https://x/v1/chat/completions");
    assert_eq!(request.body.as_deref(), Some("{\"stream\":true}"));
    assert_eq!(decoder.state(), StreamState::AwaitingHeaders);
}

#[test]
fn fine_tune_endpoints() {
    let c = client();
    let list = list_fine_tunes(&c);
    assert_eq!((list.method, list.url.as_str()), (Method::Get, "https://x/v1/fine-tunes"));
    let one = retrieve_fine_tune(&c, "ft-1");
    assert_eq!((one.method, one.url.as_str()), (Method::Get, "https://x/v1/fine-tunes/ft-1"));
    let cancel = cancel_fine_tune(&c, "ft-1");
    assert_eq!(
        (cancel.method, cancel.url.as_str()),
        (Method::Post, "https://x/v1/fine-tunes/ft-1/cancel")
    );
    assert_eq!(cancel.body.as_deref(), Some("null"));
    let events = list_fine_tune_events(&c, "ft-1");
    assert_eq!(
        (events.method, events.url.as_str()),
        (Method::Get, "https://x/v1/fine-tunes/ft-1/events")
    );
    let delete = delete_fine_tune_model(&c, "curie:ft-x");
    assert_eq!(
        (delete.method, delete.url.as_str()),
        (Method::Delete, "https://x/v1/models/curie:ft-x")
    );
    assert!(delete.body.is_none());
}

#[test]
fn file_endpoints() {
    let c = client();
    let list = list_files(&c);
    assert_eq!((list.method, list.url.as_str()), (Method::Get, "https://x/v1/files"));
    let meta = retrieve_file_metadata(&c, "file-abc123");
    assert_eq!((meta.method, meta.url.as_str()), (Method::Get, "https://x/v1/files/file-abc123"));
    let content = retrieve_file_content(&c, "file-abc123");
    assert_eq!(
        (content.method, content.url.as_str()),
        (Method::Get, "https://x/v1/files/file-abc123/content")
    );
    let delete = delete_file(&c, "file-abc123");
    assert_eq!(
        (delete.method, delete.url.as_str()),
        (Method::Delete, "https://x/v1/files/file-abc123")
    );
}

#[test]
fn upload_of_a_file() {
    let form = upload_file(
        &client(),
        Some("train.jsonl"),
        Ok(vec![1, 2, 3]),
        UploadFilePurpose::FineTune,
    )
    .unwrap();
    assert_eq!(form.url, "https://x/v1/files");
    assert_eq!(form.file_name, "train.jsonl");
    assert_eq!(form.media_type, "application/octet-stream");
    assert_eq!(form.contents, vec![1, 2, 3]);
    assert_eq!(form.purpose, "fine-tune");
    assert_eq!(form.headers[0].name, "Authorization");
    assert_eq!(form.headers[0].value, "Bearer test-key");
}

#[test]
fn upload_of_a_file_without_a_name() {
    let form = upload_file(
        &client(),
        None,
        Ok(Vec::new()),
        UploadFilePurpose::Other("assistants".to_string()),
    )
    .unwrap();
    assert_eq!(form.file_name, "upload.bin");
    assert_eq!(form.purpose, "assistants");
    assert!(form.contents.is_empty());
}

#[test]
fn upload_of_a_file_that_could_not_be_read() {
    let result = upload_file(
        &client(),
        Some("missing.jsonl"),
        Err("No such file or directory (os error 2)".to_string()),
        UploadFilePurpose::FineTune,
    );
    match result {
        Err(OpenAIError::ConfigError(msg)) => {
            assert_eq!(msg, "Failed to read file: No such file or directory (os error 2)");
        }
        other => panic!("Expected ConfigError, got {:?}", other),
    }
}

#[test]
fn purpose_as_text() {
    assert_eq!(UploadFilePurpose::FineTune.to_string(), "fine-tune");
    assert_eq!(UploadFilePurpose::Other("x".to_string()).to_string(), "x");
}

#[test]
fn file_content_is_the_body_on_success() {
    assert_eq!(
        file_content_result(status(200), vec![9, 8], "").unwrap(),
        vec![9, 8]
    );
    let body = "{\"error\":{\"message\":\"File not found\",\"type\":\"not_found\",\"code\":null}}";
    match file_content_result(status(404), body.as_bytes().to_vec(), body) {
        Err(OpenAIError::APIError { message, .. }) => assert_eq!(message, "File not found"),
        other => panic!("Expected APIError, got {:?}", other),
    }
}

fn file_object() -> FileObject {
    FileObject {
        id: "file-abc123".to_string(),
        object: "file".to_string(),
        bytes: 1234,
        created_at: 1673643147,
        filename: "mydata.jsonl".to_string(),
        purpose: "fine-tune".to_string(),
        status: Some("uploaded".to_string()),
        status_details: None,
    }
}

#[test]
fn file_response_on_success_and_failure() {
    let ok = handle_file_response(status(200), "{}", || Ok(file_object())).unwrap();
    assert_eq!(ok.id, "file-abc123");
    assert_eq!(ok.bytes, 1234);
    let undecodable = handle_file_response(status(200), "{", || {
        Err(serde_json::from_str::<i64>("{").unwrap_err())
    });
    assert!(matches!(undecodable, Err(OpenAIError::DeserializeError(_))));
    let failed = handle_file_response(status(400), "bad", || Ok(file_object()));
    match failed {
        Err(OpenAIError::APIError { message, .. }) => {
            assert_eq!(message, "HTTP 400 Bad Request returned from OpenAI API; body: bad");
        }
        other => panic!("Expected APIError, got {:?}", other),
    }
}

#[test]
fn defaults_of_a_completion_request() {
    match default_prompt() {
        Some(PromptInput::String(text)) => assert_eq!(text, "<|endoftext|>"),
        other => panic!("unexpected default prompt: {:?}", other),
    }
    assert_eq!(default_max_tokens(), Some(16));
    assert_eq!(default_n(), Some(1));
    assert_eq!(default_best_of(), Some(1));
}
