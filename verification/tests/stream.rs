use chat_gpt_lib_rs::http::HttpStatus;
use chat_gpt_lib_rs::stream::{
    decode_line, Emission, LineOutcome, StreamAction, StreamDecoder, StreamState, DATA_PREFIX,
    SENTINEL,
};
use chat_gpt_lib_rs::OpenAIError;

fn started() -> StreamDecoder {
    let mut decoder = StreamDecoder::new();
    let action = decoder.on_response(HttpStatus::from_u16(200).unwrap());
    assert!(matches!(action, StreamAction::ReadLine));
    decoder
}

fn transport_error() -> reqwest::Error {
    reqwest::blocking::Client::new()
        .get("not a url")
        .build()
        .unwrap_err()
}

/// Drives a decoder over the lines as a caller does, and collects the items.
fn items(lines: &[&str]) -> (Vec<serde_json::Value>, StreamState) {
    let mut decoder = started();
    let mut found = Vec::new();
    for line in lines {
        match decoder.on_line(line) {
            StreamAction::ReadLine => {}
            StreamAction::Decode(text) => {
                match decoder.on_decoded(serde_json::from_str::<serde_json::Value>(&text)) {
                    Emission::Item(Ok(value)) => found.push(value),
                    Emission::Item(Err(error)) => panic!("unexpected error item: {:?}", error),
                    Emission::Skipped(_) => {}
                    Emission::Nothing => panic!("a streaming decoder yields something"),
                }
            }
            StreamAction::Stop => break,
            StreamAction::ReadErrorBody => panic!("not awaited"),
        }
    }
    decoder.on_end();
    (found, decoder.state())
}

fn object_a(n: i64) -> serde_json::Value {
    let mut map = serde_json::Map::new();
    map.insert("a".to_string(), serde_json::Value::from(n));
    serde_json::Value::Object(map)
}

#[test]
fn stream_of_one_item_a_blank_line_and_the_sentinel() {
    let (found, state) = items(&["data: {\"a\":1}", "", "data: [DONE]"]);
    assert_eq!(found, vec![object_a(1)]);
    assert_eq!(state, StreamState::Done);
}

#[test]
fn malformed_fragment_is_skipped_not_fatal() {
    let (found, state) = items(&["data: not-json", "data: {\"a\":2}"]);
    assert_eq!(found, vec![object_a(2)]);
    assert_eq!(state, StreamState::Done);
}

#[test]
fn items_come_in_the_order_of_their_lines() {
    let (found, _) = items(&["data: {\"a\":1}", "{\"a\":2}", "  data:{\"a\":3}  "]);
    assert_eq!(found, vec![object_a(1), object_a(2), object_a(3)]);
}

#[test]
fn constants_of_the_wire_format() {
    assert_eq!(SENTINEL, "[DONE]");
    assert_eq!(DATA_PREFIX, "data:");
}

#[test]
fn blank_lines_hold_nothing() {
    for line in ["", " ", "\t", "\r", " \u{a0}\u{2003}\u{3000} ", "\u{85}"] {
        assert!(matches!(decode_line(line), LineOutcome::Skip), "line {:?}", line);
    }
}

#[test]
fn lines_with_the_sentinel_end_the_stream() {
    for line in ["[DONE]", "data: [DONE]", "  data:[DONE]\r", "x[DONE]y", "data: {\"a\":\"[DONE]\"}"] {
        assert!(matches!(decode_line(line), LineOutcome::End), "line {:?}", line);
    }
    for line in ["[DONE", "DONE]", "[done]", "[ DONE ]"] {
        assert!(matches!(decode_line(line), LineOutcome::Payload(_)), "line {:?}", line);
    }
}

fn payload(line: &str) -> String {
    match decode_line(line) {
        LineOutcome::Payload(text) => text,
        other => panic!("expected a payload for {:?}, got {:?}", line, other),
    }
}

#[test]
fn prefix_and_following_whitespace_are_stripped() {
    assert_eq!(payload("data: {\"a\":1}"), "{\"a\":1}");
    assert_eq!(payload("data:{\"a\":1}"), "{\"a\":1}");
    assert_eq!(payload("data: \t  {\"a\":1}"), "{\"a\":1}");
    assert_eq!(payload("  data: {\"a\":1}  \r"), "{\"a\":1}");
    assert_eq!(payload("data:"), "");
    assert_eq!(payload("data: h\u{e9}llo \u{4e16}"), "h\u{e9}llo \u{4e16}");
}

#[test]
fn line_without_prefix_is_parsed_as_it_is() {
    assert_eq!(payload("{\"a\":1}"), "{\"a\":1}");
    assert_eq!(payload("  {\"a\": 1}\n"), "{\"a\": 1}");
    assert_eq!(payload("Data: x"), "Data: x");
    assert_eq!(payload("dat"), "dat");
    assert_eq!(payload("event: data: x"), "event: data: x");
}

#[test]
fn prefix_is_stripped_once() {
    assert_eq!(payload("data:data: x"), "data: x");
    assert_eq!(payload("data: data:"), "data:");
}

#[test]
fn failure_status_fails_the_call_before_any_item() {
    let mut decoder = StreamDecoder::new();
    assert_eq!(decoder.state(), StreamState::AwaitingHeaders);
    let action = decoder.on_response(HttpStatus::from_u16(401).unwrap());
    assert!(matches!(action, StreamAction::ReadErrorBody));
    assert_eq!(decoder.state(), StreamState::Errored);
    assert!(matches!(decoder.on_line("data: {\"a\":1}"), StreamAction::Stop));
    assert!(matches!(
        decoder.on_decoded(serde_json::from_str::<i64>("1")),
        Emission::Nothing
    ));
    assert_eq!(decoder.state(), StreamState::Errored);
}

#[test]
fn lines_before_the_status_yield_nothing() {
    let mut decoder = StreamDecoder::new();
    assert!(matches!(decoder.on_line("data: {\"a\":1}"), StreamAction::Stop));
    assert_eq!(decoder.state(), StreamState::AwaitingHeaders);
    decoder.on_end();
    assert_eq!(decoder.state(), StreamState::AwaitingHeaders);
}

#[test]
fn sentinel_ends_the_stream() {
    let mut decoder = started();
    assert!(matches!(decoder.on_line("data: [DONE]"), StreamAction::Stop));
    assert_eq!(decoder.state(), StreamState::Done);
    assert!(matches!(decoder.on_line("data: {\"a\":1}"), StreamAction::Stop));
    assert!(matches!(
        decoder.on_response(HttpStatus::from_u16(200).unwrap()),
        StreamAction::Stop
    ));
    assert!(matches!(
        decoder.on_read_failure::<i64>(transport_error()),
        Emission::Nothing
    ));
    assert_eq!(decoder.state(), StreamState::Done);
}

#[test]
fn end_of_body_ends_the_stream() {
    let mut decoder = started();
    assert_eq!(decoder.state(), StreamState::StreamingLines);
    decoder.on_end();
    assert_eq!(decoder.state(), StreamState::Done);
}

#[test]
fn read_failure_is_the_last_item() {
    let mut decoder = started();
    match decoder.on_read_failure::<i64>(transport_error()) {
        Emission::Item(Err(OpenAIError::HTTPError(_))) => {}
        other => panic!("expected a transport error item, got {:?}", other),
    }
    assert_eq!(decoder.state(), StreamState::Errored);
    assert!(matches!(decoder.on_line("{\"a\":1}"), StreamAction::Stop));
    assert!(matches!(
        decoder.on_read_failure::<i64>(transport_error()),
        Emission::Nothing
    ));
}

#[test]
fn send_failure_fails_the_call() {
    let mut decoder = StreamDecoder::new();
    let error = decoder.on_send_failure(transport_error());
    assert!(matches!(error, OpenAIError::HTTPError(_)));
    assert_eq!(decoder.state(), StreamState::Errored);
}

#[test]
fn decoded_fragment_is_an_item_and_a_failed_one_is_skipped() {
    let decoder = started();
    match decoder.on_decoded(serde_json::from_str::<i64>("41")) {
        Emission::Item(Ok(value)) => assert_eq!(value, 41),
        other => panic!("expected an item, got {:?}", other),
    }
    let cause = serde_json::from_str::<i64>("x").unwrap_err().to_string();
    match decoder.on_decoded(serde_json::from_str::<i64>("x")) {
        Emission::Skipped(error) => assert_eq!(error.to_string(), cause),
        other => panic!("expected a skipped fragment, got {:?}", other),
    }
    assert_eq!(decoder.state(), StreamState::StreamingLines);
}

#[test]
fn buffered_lines_give_their_fragments_up_to_the_sentinel() {
    let lines: Vec<String> = ["data: {\"a\":1}", "", "data: not-json", "data: [DONE]", "data: {\"a\":9}"]
        .iter()
        .map(|s| s.to_string())
        .collect();
    let mut decoder = started();
    let found = decoder.decode_lines(&lines);
    assert_eq!(found, vec!["{\"a\":1}".to_string(), "not-json".to_string()]);
    assert_eq!(decoder.state(), StreamState::Done);

    let mut open = started();
    let more = open.decode_lines(&lines[..3].to_vec());
    assert_eq!(more.len(), 2);
    assert_eq!(open.state(), StreamState::StreamingLines);

    let mut fresh = StreamDecoder::new();
    assert!(fresh.decode_lines(&lines).is_empty());
    assert_eq!(fresh.state(), StreamState::AwaitingHeaders);
}
