//! The transport layer: which request a call sends, and what its response
//! means.
//!
//! A call is made in three steps. [`get_json`], [`post_json`] or
//! [`post_json_stream`] describes the request. The caller sends it and reads
//! the status and the body of the response. [`handle_response`] then gives
//! the result of the call.

use vstd::prelude::*;
use vstd::string::StrSliceExecFns;
use vstd::string::StringExecFns;

use crate::config::{ClientModel, OpenAIClient};
use crate::error::{ErrorModel, OpenAIAPIErrorBody, OpenAIAPIErrorDetails, OpenAIError};
use crate::http::{status_digits, status_text, Header, HttpStatus, Method, Request, RequestModel};
use crate::json::{as_text, is_null, member, parse_json, parse_value, Json};
use crate::stream::StreamDecoder;
use crate::text::{
    append_text, chars_of, contains, leading_run, leading_run_in, occurs_at, strip_end,
    strip_start, trailing_run, trailing_run_in, CharClass,
};

verus! {

/// The URL of an endpoint: the base URL without its trailing slashes, one
/// slash, and the endpoint's path without its leading slashes.
pub open spec fn joined_url(base_url: Seq<char>, endpoint: Seq<char>) -> Seq<char> {
    strip_end(base_url, CharClass::Exactly('/')) + seq!['/'] + strip_start(
        endpoint,
        CharClass::Exactly('/'),
    )
}

/// Joins an endpoint's path to a base URL with exactly one slash between
/// them, whatever slashes the base URL ends with and the path starts with.
pub fn endpoint_url(base_url: &str, endpoint: &str) -> (url: String)
    ensures
        url@ == joined_url(base_url@, endpoint@),
{
    let base = chars_of(base_url);
    let trailing = trailing_run_in(&base, 0, base.len(), CharClass::Exactly('/'));
    let path = chars_of(endpoint);
    let leading = leading_run_in(&path, 0, path.len(), CharClass::Exactly('/'));
    proof {
        assert(base@.subrange(0, base.len() as int) =~= base_url@);
        assert(path@.subrange(0, path.len() as int) =~= endpoint@);
        reveal_strlit("/");
        assert("/"@ =~= seq!['/']);
    }
    let stem = base_url.substring_char(0, base.len() - trailing);
    let rest = endpoint.substring_char(leading, path.len());
    let mut url = append_text(stem, "/");
    url.append(rest);
    url
}

/// The headers that authenticate a request: the bearer credential, and the
/// organization where one is configured.
pub open spec fn auth_headers(client: ClientModel) -> Seq<(Seq<char>, Seq<char>)> {
    let bearer = seq![("Authorization"@, "Bearer "@ + client.api_key)];
    match client.organization {
        Some(organization) => bearer.push(("OpenAI-Organization"@, organization)),
        None => bearer,
    }
}

/// The header that declares a JSON body.
pub open spec fn json_content_type() -> (Seq<char>, Seq<char>) {
    ("Content-Type"@, "application/json"@)
}

/// The `GET` request for an endpoint.
pub open spec fn get_request(client: ClientModel, endpoint: Seq<char>) -> RequestModel {
    RequestModel {
        method: Method::Get,
        url: joined_url(client.base_url, endpoint),
        headers: auth_headers(client),
        body: None,
    }
}

/// The `POST` request for an endpoint, with a JSON body.
pub open spec fn post_request(client: ClientModel, endpoint: Seq<char>, body: Seq<char>) -> RequestModel {
    RequestModel {
        method: Method::Post,
        url: joined_url(client.base_url, endpoint),
        headers: auth_headers(client).push(json_content_type()),
        body: Some(body),
    }
}

/// The `DELETE` request for an endpoint.
pub open spec fn delete_request(client: ClientModel, endpoint: Seq<char>) -> RequestModel {
    RequestModel {
        method: Method::Delete,
        url: joined_url(client.base_url, endpoint),
        headers: auth_headers(client),
        body: None,
    }
}

/// The header that carries the bearer credential.
pub fn bearer_header(api_key: &str) -> (header: Header)
    ensures
        header@ == ("Authorization"@, "Bearer "@ + api_key@),
{
    let value = append_text("Bearer ", api_key);
    Header::new("Authorization", value.as_str())
}

/// The headers that authenticate a request of `client`.
pub fn request_headers(client: &OpenAIClient) -> (headers: Vec<Header>)
    ensures
        headers@.map_values(|header: Header| header@) == auth_headers(client@),
{
    let mut headers: Vec<Header> = Vec::new();
    headers.push(bearer_header(client.api_key()));
    match client.organization() {
        Some(organization) => {
            headers.push(Header::new("OpenAI-Organization", organization));
        },
        None => {},
    }
    proof {
        assert(headers@.map_values(|header: Header| header@) =~= auth_headers(client@));
    }
    headers
}

/// Describes the `GET` request to `endpoint`: the joined URL and the
/// authenticating headers.
pub fn get_json(client: &OpenAIClient, endpoint: &str) -> (request: Request)
    ensures
        request@ == get_request(client@, endpoint@),
{
    Request {
        method: Method::Get,
        url: endpoint_url(client.base_url(), endpoint),
        headers: request_headers(client),
        body: None,
    }
}

/// Describes the `DELETE` request to `endpoint`: the joined URL and the
/// authenticating headers.
pub fn delete_json(client: &OpenAIClient, endpoint: &str) -> (request: Request)
    ensures
        request@ == delete_request(client@, endpoint@),
{
    Request {
        method: Method::Delete,
        url: endpoint_url(client.base_url(), endpoint),
        headers: request_headers(client),
        body: None,
    }
}

/// Describes the `POST` request to `endpoint` with the JSON text `body` as
/// its full body: the joined URL, the authenticating headers and the JSON
/// content type.
pub fn post_json(client: &OpenAIClient, endpoint: &str, body: &str) -> (request: Request)
    ensures
        request@ == post_request(client@, endpoint@, body@),
{
    let mut headers = request_headers(client);
    let ghost before = headers@;
    headers.push(Header::new("Content-Type", "application/json"));
    proof {
        assert(headers@.map_values(|header: Header| header@) =~= before.map_values(
            |header: Header| header@,
        ).push(json_content_type()));
    }
    Request {
        method: Method::Post,
        url: endpoint_url(client.base_url(), endpoint),
        headers,
        body: Some(String::from_str(body)),
    }
}

/// The error that a JSON value of the remote error shape stands for: an
/// object whose member `error` is an object with a string `message`, a
/// string `type`, and a `code` that is a string, `null` or absent. For any
/// other value, `None`.
pub open spec fn error_shape(json: Json) -> Option<ErrorModel> {
    match json.member("error"@) {
        Some(details) => match (details.member("message"@), details.member("type"@)) {
            (Some(Json::Text(message)), Some(Json::Text(kind))) => match details.member("code"@) {
                None => Some(ErrorModel::Remote { message, kind: Some(kind), code: None }),
                Some(Json::Null) => Some(
                    ErrorModel::Remote { message, kind: Some(kind), code: None },
                ),
                Some(Json::Text(code)) => Some(
                    ErrorModel::Remote { message, kind: Some(kind), code: Some(code) },
                ),
                Some(_) => None,
            },
            _ => None,
        },
        None => None,
    }
}

/// The message of the error for a failure response whose body is not of the
/// remote error shape: it embeds the status and the raw body.
pub open spec fn fallback_message(code: u16, body: Seq<char>) -> Seq<char> {
    "HTTP "@ + status_text(code) + " returned from OpenAI API; body: "@ + body
}

/// The error for a failure response, given what its body was read as: the
/// error that the body reports, or else one whose message embeds the status
/// and the raw body, with neither category nor code.
pub open spec fn error_from_parts(code: u16, body: Seq<char>, reported: Option<ErrorModel>) -> ErrorModel {
    match reported {
        Some(error) => error,
        None => ErrorModel::Remote {
            message: fallback_message(code, body),
            kind: None,
            code: None,
        },
    }
}

/// What a body text reports as a remote error, if it parses as JSON of the
/// remote error shape.
pub open spec fn reported_error(body: Seq<char>) -> Option<ErrorModel> {
    match parse_json(body) {
        Some(json) => error_shape(json),
        None => None,
    }
}

/// The error for a failure response with the given status code and body.
pub open spec fn remote_error(code: u16, body: Seq<char>) -> ErrorModel {
    error_from_parts(code, body, reported_error(body))
}

/// Reads a parsed JSON value as the error body of the remote API. The result
/// is `Some` exactly where the value has the remote error shape.
pub fn read_error_body(value: &serde_json::Value) -> (body: Option<OpenAIAPIErrorBody>)
    ensures
        match body {
            Some(b) => error_shape(crate::json::json_model(*value)) == Some(b.as_error()),
            None => error_shape(crate::json::json_model(*value)) is None,
        },
{
    let details = match member(value, "error") {
        Some(details) => details,
        None => {
            return None;
        },
    };
    let message = match member(details, "message") {
        Some(found) => match as_text(found) {
            Some(text) => text,
            None => {
                return None;
            },
        },
        None => {
            return None;
        },
    };
    let err_type = match member(details, "type") {
        Some(found) => match as_text(found) {
            Some(text) => text,
            None => {
                return None;
            },
        },
        None => {
            return None;
        },
    };
    let code = match member(details, "code") {
        None => None,
        Some(found) => {
            if is_null(found) {
                None
            } else {
                match as_text(found) {
                    Some(text) => Some(String::from_str(text)),
                    None => {
                        return None;
                    },
                }
            }
        },
    };
    Some(
        OpenAIAPIErrorBody {
            error: OpenAIAPIErrorDetails {
                message: String::from_str(message),
                err_type: String::from_str(err_type),
                code,
            },
        },
    )
}

/// The error for a failure response, from its status, its raw body and the
/// error body that the raw body was read as, if it could be: the reported
/// error with its message, category and code, or else an error whose message
/// embeds the status and the raw body.
pub fn api_error_from_body(status: HttpStatus, text_body: &str, body: Option<OpenAIAPIErrorBody>) -> (error:
    OpenAIError)
    ensures
        error@ == error_from_parts(
            status.value(),
            text_body@,
            match body {
                Some(b) => Some(b.as_error()),
                None => None,
            },
        ),
{
    match body {
        Some(b) => OpenAIError::from(b),
        None => {
            let line = status.to_string();
            let mut message = append_text("HTTP ", line.as_str());
            message.append(" returned from OpenAI API; body: ");
            message.append(text_body);
            OpenAIError::APIError { message, err_type: None, code: None }
        },
    }
}

/// Interprets the body of a response with a failure status. The result is
/// always an error: the one that the body reports, where the body is JSON of
/// the remote error shape, and else one whose message embeds the status and
/// the raw body.
pub fn parse_error_response<R>(status: HttpStatus, text_body: &str) -> (result: Result<R, OpenAIError>)
    ensures
        result is Err,
        result->Err_0@ == remote_error(status.value(), text_body@),
{
    let body = match parse_value(text_body) {
        Ok(value) => read_error_body(&value),
        Err(_) => None,
    };
    Err(api_error_from_body(status, text_body, body))
}

/// The result of a call whose response had a success status, from the
/// outcome of decoding its body: the decoded value, or else a decoding error
/// that carries the cause.
pub fn decoded_result<R>(decoded: Result<R, serde_json::Error>) -> (result: Result<R, OpenAIError>)
    ensures
        match decoded {
            Ok(value) => result == Ok::<R, OpenAIError>(value),
            Err(cause) => result is Err && result->Err_0@ == ErrorModel::Decode(cause),
        },
{
    match decoded {
        Ok(value) => Ok(value),
        Err(cause) => Err(OpenAIError::from(cause)),
    }
}

/// Gives the result of a call from the status and the body text of its
/// response. For a success status the body is decoded with `decode`, and the
/// result is the decoded value or a decoding error with the cause. For any
/// other status the result is the error of [`parse_error_response`], and
/// `decode` is not called.
pub fn handle_response<R, F: FnOnce() -> Result<R, serde_json::Error>>(
    status: HttpStatus,
    text: &str,
    decode: F,
) -> (result: Result<R, OpenAIError>)
    requires
        decode.requires(()),
    ensures
        status.success() ==> exists|decoded: Result<R, serde_json::Error>|
            #[trigger] decode.ensures((), decoded) && match decoded {
                Ok(value) => result == Ok::<R, OpenAIError>(value),
                Err(cause) => result is Err && result->Err_0@ == ErrorModel::Decode(cause),
            },
        !status.success() ==> result is Err && result->Err_0@ == remote_error(
            status.value(),
            text@,
        ),
{
    if status.is_success() {
        decoded_result(decode())
    } else {
        parse_error_response(status, text)
    }
}

/// Describes the `POST` request of a streamed call to `endpoint`, with the
/// JSON text `body` as its full body, and gives the decoder of the call,
/// which awaits the status of the response.
pub fn post_json_stream(client: &OpenAIClient, endpoint: &str, body: &str) -> (call: (
    Request,
    StreamDecoder,
))
    ensures
        call.0@ == post_request(client@, endpoint@, body@),
        call.1.spec_state() is AwaitingHeaders,
{
    (post_json(client, endpoint, body), StreamDecoder::new())
}

/// A body of the remote error shape is reported as it stands: the error for
/// the response is a remote error whose message is the body's message, whose
/// category is the body's type and whose code is the body's code, whatever
/// the status.
pub proof fn lemma_reported_error_is_kept(
    code: u16,
    body: Seq<char>,
    json: Json,
    details: Json,
    message: Seq<char>,
    kind: Seq<char>,
)
    requires
        parse_json(body) == Some(json),
        json.member("error"@) == Some(details),
        details.member("message"@) == Some(Json::Text(message)),
        details.member("type"@) == Some(Json::Text(kind)),
        details.member("code"@) is None || details.member("code"@) == Some(Json::Null)
            || details.member("code"@)->Some_0 is Text,
    ensures
        remote_error(code, body) is Remote,
        remote_error(code, body)->message == message,
        remote_error(code, body)->kind == Some(kind),
        remote_error(code, body)->code == (match details.member("code"@) {
            Some(value) => value.text(),
            None => None,
        }),
{
}

/// For a body that is not of the remote error shape, the error for the
/// response has neither category nor code, and its message contains the
/// digits of the status and the whole raw body.
pub proof fn lemma_fallback_embeds_status_and_body(code: u16, body: Seq<char>)
    requires
        reported_error(body) is None,
    ensures
        remote_error(code, body) == (ErrorModel::Remote {
            message: fallback_message(code, body),
            kind: None,
            code: None,
        }),
        contains(fallback_message(code, body), status_digits(code)),
        contains(fallback_message(code, body), body),
{
    let message = fallback_message(code, body);
    let head = "HTTP "@;
    let tail = " returned from OpenAI API; body: "@;
    let line = status_text(code);
    assert(message =~= head + line + tail + body);
    let from = head.len() as int;
    assert(message.subrange(from, from + 3) =~= status_digits(code));
    assert(occurs_at(message, status_digits(code), from));
    let at = message.len() - body.len();
    assert(message.subrange(at, at + body.len()) =~= body);
    assert(occurs_at(message, body, at));
}

/// Whether `result` is the result of a call whose response had the given
/// status and body, and whose body decoded to `decoded`.
pub open spec fn is_response_result<R>(
    status: HttpStatus,
    text: Seq<char>,
    decoded: Result<R, serde_json::Error>,
    result: Result<R, OpenAIError>,
) -> bool {
    if status.success() {
        match decoded {
            Ok(value) => result == Ok::<R, OpenAIError>(value),
            Err(cause) => result is Err && result->Err_0@ == ErrorModel::Decode(cause),
        }
    } else {
        result is Err && result->Err_0@ == remote_error(status.value(), text)
    }
}

/// The model of a result: the value, or the model of the error.
pub open spec fn result_model<R>(result: Result<R, OpenAIError>) -> Result<R, ErrorModel> {
    match result {
        Ok(value) => Ok(value),
        Err(error) => Err(error@),
    }
}

/// A call is repeatable: the same client, endpoint and body give the same
/// request, and the same response, decoded to the same outcome, gives the
/// same result.
pub proof fn lemma_call_is_repeatable<R>(
    first_request: Request,
    second_request: Request,
    client: ClientModel,
    endpoint: Seq<char>,
    body: Seq<char>,
    status: HttpStatus,
    text: Seq<char>,
    decoded: Result<R, serde_json::Error>,
    first: Result<R, OpenAIError>,
    second: Result<R, OpenAIError>,
)
    requires
        (first_request@ == get_request(client, endpoint) && second_request@ == get_request(
            client,
            endpoint,
        )) || (first_request@ == post_request(client, endpoint, body) && second_request@
            == post_request(client, endpoint, body)),
        is_response_result(status, text, decoded, first),
        is_response_result(status, text, decoded, second),
    ensures
        first_request@ == second_request@,
        result_model(first) == result_model(second),
{
}

/// A trailing slash of the base URL does not change the URL of an endpoint.
pub proof fn lemma_trailing_slash_is_ignored(base_url: Seq<char>, endpoint: Seq<char>)
    ensures
        joined_url(base_url.push('/'), endpoint) == joined_url(base_url, endpoint),
{
    let class = CharClass::Exactly('/');
    let longer = base_url.push('/');
    assert(longer.last() == '/');
    assert(longer.drop_last() =~= base_url);
    assert(trailing_run(longer, class) == 1 + trailing_run(base_url, class));
    crate::text::lemma_trailing_run_bound(base_url, class);
    assert(strip_end(longer, class) =~= strip_end(base_url, class));
}

/// A leading slash of the endpoint's path does not change the URL of the
/// endpoint.
pub proof fn lemma_leading_slash_is_ignored(base_url: Seq<char>, endpoint: Seq<char>)
    ensures
        joined_url(base_url, seq!['/'] + endpoint) == joined_url(base_url, endpoint),
{
    let class = CharClass::Exactly('/');
    let longer = seq!['/'] + endpoint;
    assert(longer.first() == '/');
    assert(longer.drop_first() =~= endpoint);
    assert(leading_run(longer, class) == 1 + leading_run(endpoint, class));
    crate::text::lemma_leading_run_bound(endpoint, class);
    assert(strip_start(longer, class) =~= strip_start(endpoint, class));
}

/// The two parts of a joined URL meet at exactly one slash: the part before
/// it does not end with a slash, and the part after it does not start with
/// one.
pub proof fn lemma_one_separating_slash(base_url: Seq<char>, endpoint: Seq<char>)
    ensures
        ({
            let stem = strip_end(base_url, CharClass::Exactly('/'));
            let rest = strip_start(endpoint, CharClass::Exactly('/'));
            &&& joined_url(base_url, endpoint) == stem + seq!['/'] + rest
            &&& stem.len() > 0 ==> stem.last() != '/'
            &&& rest.len() > 0 ==> rest.first() != '/'
        }),
{
    crate::text::lemma_strip_end_stops(base_url, CharClass::Exactly('/'));
    crate::text::lemma_strip_start_stops(endpoint, CharClass::Exactly('/'));
}

} // verus!
