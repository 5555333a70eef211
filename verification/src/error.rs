//! The errors of this library.
//!
//! [`OpenAIError`] covers configuration errors, failures of the HTTP
//! transport, response bodies that do not decode, and errors that the remote
//! API reports in a response body.

use vstd::prelude::*;
use vstd::string::StringExecFns;

use crate::json::json_error_text;

verus! {

/// `reqwest::Error`, the error of the HTTP client: an opaque value that is carried
/// through.
#[verifier::external_type_specification]
#[verifier::external_body]
pub struct ExTransportError(reqwest::Error);

/// The message that a transport error displays.
pub uninterp spec fn transport_error_text(error: reqwest::Error) -> Seq<char>;

/// `Display` of `reqwest::Error`: the error's message, named
/// [`transport_error_text`].
#[verifier::external_body]
pub(crate) fn transport_error_message(error: &reqwest::Error) -> (text: String)
    ensures
        text@ == transport_error_text(*error),
{
    error.to_string()
}

/// The characters of an optional text.
pub open spec fn optional_text(text: Option<String>) -> Option<Seq<char>> {
    match text {
        Some(s) => Some(s@),
        None => None,
    }
}

/// Any error that can occur while using this library.
#[derive(Debug)]
pub enum OpenAIError {
    /// Invalid configuration, such as a missing API key.
    ConfigError(String),
    /// An error of the underlying HTTP client: network-level failures,
    /// timeouts, TLS errors.
    HTTPError(reqwest::Error),
    /// A response body that is not valid JSON or does not match the expected
    /// shape.
    DeserializeError(serde_json::Error),
    /// An error that the remote API reported in its response body.
    APIError {
        /// A short summary of what went wrong, as the API gave it.
        message: String,
        /// The category of the error, such as `invalid_request_error`.
        err_type: Option<String>,
        /// An error code, where the API returned one.
        code: Option<String>,
    },
}

/// The mathematical model of an [`OpenAIError`].
pub enum ErrorModel {
    /// A configuration error with its message.
    Config(Seq<char>),
    /// A transport error with its cause.
    Transport(reqwest::Error),
    /// A decoding error with its cause.
    Decode(serde_json::Error),
    /// An error reported by the remote API.
    Remote { message: Seq<char>, kind: Option<Seq<char>>, code: Option<Seq<char>> },
}

impl ErrorModel {
    /// The text that the error displays.
    pub open spec fn display(self) -> Seq<char> {
        match self {
            ErrorModel::Config(message) => "Configuration Error: "@ + message,
            ErrorModel::Transport(cause) => "HTTP Error: "@ + transport_error_text(cause),
            ErrorModel::Decode(cause) => "Deserialization/Parsing Error: "@ + json_error_text(
                cause,
            ),
            ErrorModel::Remote { message, kind, code } => "OpenAI API Error: "@ + message,
        }
    }
}

impl View for OpenAIError {
    type V = ErrorModel;

    open spec fn view(&self) -> ErrorModel {
        match self {
            OpenAIError::ConfigError(message) => ErrorModel::Config(message@),
            OpenAIError::HTTPError(cause) => ErrorModel::Transport(*cause),
            OpenAIError::DeserializeError(cause) => ErrorModel::Decode(*cause),
            OpenAIError::APIError { message, err_type, code } => ErrorModel::Remote {
                message: message@,
                kind: optional_text(*err_type),
                code: optional_text(*code),
            },
        }
    }
}

/// An owned copy of an optional text.
pub(crate) fn owned_text(text: Option<&str>) -> (owned: Option<String>)
    ensures
        match text {
            Some(s) => owned is Some && owned->Some_0@ == s@,
            None => owned is None,
        },
{
    match text {
        Some(s) => Some(String::from_str(s)),
        None => None,
    }
}

impl OpenAIError {
    /// Creates an [`OpenAIError::APIError`] from the details of the error.
    pub fn api_error(message: &str, err_type: Option<&str>, code: Option<&str>) -> (error: Self)
        ensures
            error@ == (ErrorModel::Remote {
                message: message@,
                kind: match err_type {
                    Some(s) => Some(s@),
                    None => None,
                },
                code: match code {
                    Some(s) => Some(s@),
                    None => None,
                },
            }),
    {
        OpenAIError::APIError {
            message: String::from_str(message),
            err_type: owned_text(err_type),
            code: owned_text(code),
        }
    }

    /// The text that the error displays: a prefix that names the kind of
    /// error, followed by the message or by the text of the cause.
    pub fn to_string(&self) -> (text: String)
        ensures
            text@ == self@.display(),
    {
        match self {
            OpenAIError::ConfigError(message) => {
                String::from_str("Configuration Error: ").concat(message.as_str())
            },
            OpenAIError::HTTPError(cause) => {
                let detail = transport_error_message(cause);
                String::from_str("HTTP Error: ").concat(detail.as_str())
            },
            OpenAIError::DeserializeError(cause) => {
                let detail = crate::json::error_text(cause);
                String::from_str("Deserialization/Parsing Error: ").concat(detail.as_str())
            },
            OpenAIError::APIError { message, err_type, code } => {
                String::from_str("OpenAI API Error: ").concat(message.as_str())
            },
        }
    }
}

/// The standard error response of the remote API, as it arrives in the body
/// of a response with a failure status.
#[derive(Debug)]
pub struct OpenAIAPIErrorBody {
    /// The error details, nested under the key `error`.
    pub error: OpenAIAPIErrorDetails,
}

/// The details of an error that the remote API reported.
#[derive(Debug)]
pub struct OpenAIAPIErrorDetails {
    /// A human-readable error message.
    pub message: String,
    /// The category of the error, under the key `type`.
    pub err_type: String,
    /// An error code, if any.
    pub code: Option<String>,
}

impl OpenAIAPIErrorBody {
    /// The error that a response with this body stands for.
    pub open spec fn as_error(self) -> ErrorModel {
        ErrorModel::Remote {
            message: self.error.message@,
            kind: Some(self.error.err_type@),
            code: optional_text(self.error.code),
        }
    }
}

impl From<OpenAIAPIErrorBody> for OpenAIError {
    fn from(body: OpenAIAPIErrorBody) -> (error: OpenAIError) {
        OpenAIError::APIError {
            message: body.error.message,
            err_type: Some(body.error.err_type),
            code: body.error.code,
        }
    }
}

impl vstd::std_specs::convert::FromSpecImpl<OpenAIAPIErrorBody> for OpenAIError {
    open spec fn obeys_from_spec() -> bool {
        true
    }

    open spec fn from_spec(body: OpenAIAPIErrorBody) -> OpenAIError {
        OpenAIError::APIError {
            message: body.error.message,
            err_type: Some(body.error.err_type),
            code: body.error.code,
        }
    }
}

impl From<reqwest::Error> for OpenAIError {
    fn from(cause: reqwest::Error) -> (error: OpenAIError) {
        OpenAIError::HTTPError(cause)
    }
}

impl vstd::std_specs::convert::FromSpecImpl<reqwest::Error> for OpenAIError {
    open spec fn obeys_from_spec() -> bool {
        true
    }

    open spec fn from_spec(cause: reqwest::Error) -> OpenAIError {
        OpenAIError::HTTPError(cause)
    }
}

impl From<serde_json::Error> for OpenAIError {
    fn from(cause: serde_json::Error) -> (error: OpenAIError) {
        OpenAIError::DeserializeError(cause)
    }
}

impl vstd::std_specs::convert::FromSpecImpl<serde_json::Error> for OpenAIError {
    open spec fn obeys_from_spec() -> bool {
        true
    }

    open spec fn from_spec(cause: serde_json::Error) -> OpenAIError {
        OpenAIError::DeserializeError(cause)
    }
}

/// Converting an error body gives the remote error with the body's message,
/// its category and its code.
pub proof fn lemma_error_body_conversion(body: OpenAIAPIErrorBody)
    ensures
        <OpenAIError as vstd::std_specs::convert::FromSpec<OpenAIAPIErrorBody>>::from_spec(body)@
            == body.as_error(),
{
}

} // verus!
