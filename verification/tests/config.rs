use chat_gpt_lib_rs::config::DEFAULT_BASE_URL;
use chat_gpt_lib_rs::{OpenAIClient, OpenAIError};
use std::time::Duration;

#[test]
fn test_new_with_explicit_key() {
    let client = OpenAIClient::new(Some("sk-test-explicit".to_string()), None).unwrap();
    assert_eq!(client.api_key(), "sk-test-explicit");
    assert_eq!(client.base_url(), DEFAULT_BASE_URL);
    assert!(client.organization().is_none());
}

#[test]
fn test_new_with_env_var() {
    let client = OpenAIClient::new(None, Some("sk-from-env".to_string())).unwrap();
    assert_eq!(client.api_key(), "sk-from-env");
}

#[test]
fn test_new_missing_api_key() {
    let err = OpenAIClient::new(None, None).unwrap_err();
    match err {
        OpenAIError::ConfigError(msg) => {
            assert!(
                msg.contains("Missing API key"),
                "Unexpected error message: {msg}"
            );
        }
        other => panic!("Expected ConfigError, got: {:?}", other),
    }
}

#[test]
fn test_builder_with_all_fields() {
    let client = OpenAIClient::builder()
        .with_api_key("sk-builder")
        .with_base_url("https://custom.example.com/v1/")
        .with_organization("org-xyz")
        .with_timeout(Duration::from_secs(60))
        .build(None)
        .unwrap();

    assert_eq!(client.api_key(), "sk-builder");
    assert_eq!(client.base_url(), "https://custom.example.com/v1/");
    assert_eq!(client.organization(), Some("org-xyz"));
}

#[test]
fn test_builder_uses_default_base_url() {
    let client = OpenAIClient::builder()
        .with_api_key("sk-nokey")
        .build(None)
        .unwrap();

    assert_eq!(client.base_url(), DEFAULT_BASE_URL);
}

#[test]
fn test_builder_no_explicit_key_no_env() {
    let err = OpenAIClient::builder().build(None).unwrap_err();
    match err {
        OpenAIError::ConfigError(msg) => {
            assert!(
                msg.contains("Missing API key"),
                "Expected missing API key message, got: {msg}"
            );
        }
        other => panic!("Expected ConfigError, got: {:?}", other),
    }
}

#[test]
fn test_builder_with_env_fallback() {
    let client = OpenAIClient::builder()
        .build(Some("sk-env-fallback".to_string()))
        .unwrap();
    assert_eq!(client.api_key(), "sk-env-fallback");
    assert_eq!(client.base_url(), DEFAULT_BASE_URL);
}

#[test]
fn explicit_key_wins_over_environment() {
    let client =
        OpenAIClient::new(Some("sk-explicit".to_string()), Some("sk-env".to_string())).unwrap();
    assert_eq!(client.api_key(), "sk-explicit");
    let built = OpenAIClient::builder()
        .with_api_key("sk-set")
        .build(Some("sk-env".to_string()))
        .unwrap();
    assert_eq!(built.api_key(), "sk-set");
}

#[test]
fn missing_key_message_is_exact() {
    match OpenAIClient::new(None, None) {
        Err(OpenAIError::ConfigError(msg)) => assert_eq!(msg, "Missing API key"),
        other => panic!("Expected ConfigError, got: {:?}", other.map(|_| ())),
    }
}

#[test]
fn default_base_url_value() {
    assert_eq!(DEFAULT_BASE_URL, "https://api.openai.com/v1/");
}

#[test]
fn from_parts_maps_a_failed_http_client_to_a_config_error() {
    let cause = reqwest::blocking::Client::new()
        .get("not a url")
        .build()
        .unwrap_err();
    let expected = cause.to_string();
    let result = OpenAIClient::from_parts(
        "https://x/v1".to_string(),
        "sk".to_string(),
        None,
        Err(cause),
    );
    match result {
        Err(OpenAIError::ConfigError(msg)) => {
            assert_eq!(msg, expected);
            assert!(!msg.is_empty());
        }
        other => panic!("Expected ConfigError, got: {:?}", other.map(|_| ())),
    }
}

#[test]
fn from_parts_keeps_the_configuration() {
    let client = OpenAIClient::from_parts(
        "https://x/v1".to_string(),
        "sk".to_string(),
        Some("org".to_string()),
        Ok(reqwest::Client::new()),
    )
    .unwrap();
    assert_eq!(client.base_url(), "https://x/v1");
    assert_eq!(client.api_key(), "sk");
    assert_eq!(client.organization(), Some("org"));
}
