use chat_gpt_lib_rs::api::{
    api_error_from_body, bearer_header, decoded_result, delete_json, endpoint_url, get_json,
    handle_response, parse_error_response, post_json, post_json_stream, read_error_body,
    request_headers,
};
use chat_gpt_lib_rs::error::{OpenAIAPIErrorBody, OpenAIAPIErrorDetails};
use chat_gpt_lib_rs::http::{HttpStatus, Method, Request};
use chat_gpt_lib_rs::stream::StreamState;
use chat_gpt_lib_rs::{OpenAIClient, OpenAIError};

fn client(base_url: &str, organization: Option<&str>) -> OpenAIClient {
    let builder = OpenAIClient::builder()
        .with_api_key("test-key")
        .with_base_url(base_url);
    let builder = match organization {
        Some(id) => builder.with_organization(id),
        None => builder,
    };
    builder.build(None).unwrap()
}

fn status(code: u16) -> HttpStatus {
    HttpStatus::from_u16(code).unwrap()
}

fn header_pairs(request: &Request) -> Vec<(String, String)> {
    request
        .headers
        .iter()
        .map(|h| (h.name.clone(), h.value.clone()))
        .collect()
}

fn pair(name: &str, value: &str) -> (String, String) {
    (name.to_string(), value.to_string())
}

#[test]
fn path_joining_ignores_a_trailing_slash_of_the_base() {
    let with_slash = endpoint_url("https://x/v1/", "models");
    let without_slash = endpoint_url("https://x/v1", "models");
    assert_eq!(with_slash, "https://x/v1/models");
    assert_eq!(without_slash, with_slash);
}

#[test]
fn path_joining_ignores_leading_slashes_of_the_path() {
    assert_eq!(endpoint_url("https://x/v1", "/models"), "https://x/v1/models");
    assert_eq!(endpoint_url("https://x/v1///", "//models"), "https://x/v1/models");
    assert_eq!(endpoint_url("https://x/v1/", "files/abc/content"), "https://x/v1/files/abc/content");
}

#[test]
fn path_joining_of_empty_parts() {
    assert_eq!(endpoint_url("", ""), "/");
    assert_eq!(endpoint_url("///", "///"), "/");
    assert_eq!(endpoint_url("https://x", ""), "https://x/");
}

#[test]
fn get_request_carries_the_bearer_credential() {
    let request = get_json(&client("https://x/v1/", None), "test-get");
    assert_eq!(request.method, Method::Get);
    assert_eq!(request.url, "https://x/v1/test-get");
    assert_eq!(header_pairs(&request), vec![pair("Authorization", "Bearer test-key")]);
    assert!(request.body.is_none());
}

#[test]
fn get_request_carries_the_organization_when_set() {
    let request = get_json(&client("https://x/v1", Some("org-1")), "models");
    assert_eq!(
        header_pairs(&request),
        vec![
            pair("Authorization", "Bearer test-key"),
            pair("OpenAI-Organization", "org-1"),
        ]
    );
}

#[test]
fn post_request_has_the_json_body_and_content_type() {
    let request = post_json(
        &client("https://x/v1", Some("org-1")),
        "test-endpoint",
        "{\"dummy\":true}",
    );
    assert_eq!(request.method, Method::Post);
    assert_eq!(request.url, "https://x/v1/test-endpoint");
    assert_eq!(
        header_pairs(&request),
        vec![
            pair("Authorization", "Bearer test-key"),
            pair("OpenAI-Organization", "org-1"),
            pair("Content-Type", "application/json"),
        ]
    );
    assert_eq!(request.body.as_deref(), Some("{\"dummy\":true}"));
}

#[test]
fn delete_request_has_no_body() {
    let request = delete_json(&client("https://x/v1/", None), "files/f1");
    assert_eq!(request.method, Method::Delete);
    assert_eq!(request.url, "https://x/v1/files/f1");
    assert!(request.body.is_none());
}

#[test]
fn stream_request_is_a_post_and_awaits_headers() {
    let (request, decoder) = post_json_stream(&client("https://x/v1/", None), "chat/completions", "{}");
    assert_eq!(request.method, Method::Post);
    assert_eq!(request.url, "https://x/v1/chat/completions");
    assert_eq!(request.body.as_deref(), Some("{}"));
    assert_eq!(decoder.state(), StreamState::AwaitingHeaders);
}

#[test]
fn bearer_header_value() {
    let header = bearer_header("sk-1");
    assert_eq!(header.name, "Authorization");
    assert_eq!(header.value, "Bearer sk-1");
    assert_eq!(request_headers(&client("https://x", None)).len(), 1);
}

#[test]
fn identical_calls_give_identical_requests() {
    let c = client("https://x/v1/", Some("org"));
    let first = post_json(&c, "completions", "{\"a\":1}");
    let second = post_json(&c, "completions", "{\"a\":1}");
    assert_eq!(first.method, second.method);
    assert_eq!(first.url, second.url);
    assert_eq!(header_pairs(&first), header_pairs(&second));
    assert_eq!(first.body, second.body);
}

#[test]
fn error_body_message_is_kept_exactly() {
    let body = "{\"error\":{\"message\":\"Invalid request\",\"type\":\"invalid_request_error\",\"param\":null,\"code\":\"some_code\"}}";
    let result: Result<(), OpenAIError> = parse_error_response(status(400), body);
    match result {
        Err(OpenAIError::APIError {
            message,
            err_type,
            code,
        }) => {
            assert_eq!(message, "Invalid request");
            assert_eq!(err_type.as_deref(), Some("invalid_request_error"));
            assert_eq!(code.as_deref(), Some("some_code"));
        }
        other => panic!("Expected APIError, got {:?}", other),
    }
}

#[test]
fn error_body_with_null_or_absent_code() {
    let with_null = "{\"error\":{\"message\":\"m\",\"type\":\"t\",\"code\":null}}";
    let absent = "{\"error\":{\"message\":\"m\",\"type\":\"t\"}}";
    for body in [with_null, absent] {
        let result: Result<(), OpenAIError> = parse_error_response(status(404), body);
        match result {
            Err(OpenAIError::APIError {
                message,
                err_type,
                code,
            }) => {
                assert_eq!(message, "m");
                assert_eq!(err_type.as_deref(), Some("t"));
                assert!(code.is_none());
            }
            other => panic!("Expected APIError, got {:?}", other),
        }
    }
}

#[test]
fn body_of_another_shape_is_embedded_with_the_status() {
    let bodies = [
        "not json at all",
        "",
        "{\"error\":\"plain text\"}",
        "{\"error\":{\"message\":\"m\"}}",
        "{\"error\":{\"message\":5,\"type\":\"t\"}}",
        "{\"error\":{\"message\":\"m\",\"type\":\"t\",\"code\":7}}",
        "[1,2,3]",
    ];
    for body in bodies {
        let result: Result<(), OpenAIError> = parse_error_response(status(404), body);
        match result {
            Err(OpenAIError::APIError {
                message,
                err_type,
                code,
            }) => {
                assert_eq!(
                    message,
                    format!("HTTP 404 Not Found returned from OpenAI API; body: {}", body)
                );
                assert!(message.contains("404"));
                assert!(message.contains(body));
                assert!(err_type.is_none());
                assert!(code.is_none());
            }
            other => panic!("Expected APIError, got {:?}", other),
        }
    }
}

#[test]
fn fallback_message_for_a_status_without_reason_phrase() {
    let result: Result<(), OpenAIError> = parse_error_response(status(599), "oops");
    match result {
        Err(OpenAIError::APIError { message, .. }) => {
            assert_eq!(
                message,
                "HTTP 599 <unknown status code> returned from OpenAI API; body: oops"
            );
        }
        other => panic!("Expected APIError, got {:?}", other),
    }
}

#[test]
fn error_from_a_given_body() {
    let body = OpenAIAPIErrorBody {
        error: OpenAIAPIErrorDetails {
            message: "Resource not found".to_string(),
            err_type: "not_found".to_string(),
            code: Some("missing_resource".to_string()),
        },
    };
    match api_error_from_body(status(404), "ignored", Some(body)) {
        OpenAIError::APIError {
            message,
            err_type,
            code,
        } => {
            assert_eq!(message, "Resource not found");
            assert_eq!(err_type.as_deref(), Some("not_found"));
            assert_eq!(code.as_deref(), Some("missing_resource"));
        }
        other => panic!("Expected APIError, got {:?}", other),
    }
    match api_error_from_body(status(500), "raw", None) {
        OpenAIError::APIError {
            message,
            err_type,
            code,
        } => {
            assert_eq!(
                message,
                "HTTP 500 Internal Server Error returned from OpenAI API; body: raw"
            );
            assert!(err_type.is_none());
            assert!(code.is_none());
        }
        other => panic!("Expected APIError, got {:?}", other),
    }
}

#[test]
fn reading_an_error_body_from_a_parsed_value() {
    let value = serde_json::from_str::<serde_json::Value>("{\"error\":{\"message\":\"m\",\"type\":\"t\",\"code\":\"c\"},\"extra\":[1]}").unwrap();
    let body = read_error_body(&value).unwrap();
    assert_eq!(body.error.message, "m");
    assert_eq!(body.error.err_type, "t");
    assert_eq!(body.error.code.as_deref(), Some("c"));

    let other = serde_json::from_str::<serde_json::Value>("{\"error\":[\"m\",\"t\",null]}").unwrap();
    assert!(read_error_body(&other).is_none());
    let no_type = serde_json::from_str::<serde_json::Value>("{\"error\":{\"message\":\"m\",\"type\":null}}").unwrap();
    assert!(read_error_body(&no_type).is_none());
}

#[test]
fn success_with_a_body_that_decodes() {
    let text = "{\"foo\":\"hello\",\"bar\":42}";
    let result = handle_response(status(200), text, || {
        serde_json::from_str::<serde_json::Value>(text)
    });
    let parsed = result.unwrap();
    assert_eq!(parsed.get("foo").and_then(|v| v.as_str()), Some("hello"));
    assert_eq!(parsed.get("bar").and_then(|v| v.as_i64()), Some(42));
}

#[test]
fn success_with_a_body_that_does_not_decode() {
    let text = "{\"foo\": 123, \"bar\": \"not_an_integer\"}";
    let result = handle_response(status(200), text, || {
        serde_json::from_str::<std::collections::BTreeMap<String, i32>>(text)
    });
    assert!(matches!(result, Err(OpenAIError::DeserializeError(_))));
}

#[test]
fn every_success_status_decodes_and_every_other_status_fails() {
    for code in [200u16, 201, 204, 299] {
        let result = handle_response(status(code), "7", || serde_json::from_str::<i64>("7"));
        assert_eq!(result.unwrap(), 7);
    }
    for code in [100u16, 199, 300, 400, 404, 500, 999] {
        let result = handle_response(status(code), "7", || serde_json::from_str::<i64>("7"));
        assert!(matches!(result, Err(OpenAIError::APIError { .. })));
    }
}

#[test]
fn failure_status_does_not_decode_the_body() {
    let mut called = false;
    let body = "{\"error\":{\"message\":\"Resource not found\",\"type\":\"not_found\",\"code\":\"missing_resource\"}}";
    let result = handle_response(status(404), body, || {
        called = true;
        serde_json::from_str::<i64>("7")
    });
    match result {
        Err(OpenAIError::APIError { message, .. }) => {
            assert!(message.contains("Resource not found"));
        }
        other => panic!("Expected APIError, got {:?}", other),
    }
    assert!(!called);
}

#[test]
fn repeated_handling_gives_the_same_result() {
    let body = "{\"error\":{\"message\":\"m\",\"type\":\"t\",\"code\":null}}";
    let first = handle_response(status(429), body, || serde_json::from_str::<i64>("1"));
    let second = handle_response(status(429), body, || serde_json::from_str::<i64>("1"));
    assert_eq!(format!("{:?}", first), format!("{:?}", second));
    let ok_first = handle_response(status(200), "[1,2]", || serde_json::from_str::<Vec<i64>>("[1,2]"));
    let ok_second = handle_response(status(200), "[1,2]", || serde_json::from_str::<Vec<i64>>("[1,2]"));
    assert_eq!(ok_first.unwrap(), ok_second.unwrap());
}

#[test]
fn decoded_result_keeps_value_and_cause() {
    assert_eq!(decoded_result(serde_json::from_str::<i64>("5")).unwrap(), 5);
    let cause = serde_json::from_str::<i64>("x").unwrap_err().to_string();
    match decoded_result(serde_json::from_str::<i64>("x")) {
        Err(OpenAIError::DeserializeError(e)) => assert_eq!(e.to_string(), cause),
        other => panic!("Expected DeserializeError, got {:?}", other),
    }
}
