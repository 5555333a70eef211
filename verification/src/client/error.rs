//! The errors of the first chat client.

use vstd::prelude::*;
use vstd::string::StringExecFns;

use crate::error::{transport_error_message, transport_error_text};

verus! {

/// An error of a chat call.
#[derive(Debug)]
pub enum ChatGPTError {
    /// The response had a status other than 200; the message describes the
    /// response.
    RequestFailed(String),
    /// An error of the HTTP client.
    Reqwest(reqwest::Error),
}

impl ChatGPTError {
    /// The text that the error displays.
    pub open spec fn display(self) -> Seq<char> {
        match self {
            ChatGPTError::RequestFailed(message) => "Request failed with message: "@ + message@,
            ChatGPTError::Reqwest(cause) => "Reqwest error: "@ + transport_error_text(cause),
        }
    }

    /// The text that the error displays: a prefix that names the kind of
    /// error, followed by the message or by the text of the cause.
    pub fn to_string(&self) -> (text: String)
        ensures
            text@ == self.display(),
    {
        match self {
            ChatGPTError::RequestFailed(message) => {
                String::from_str("Request failed with message: ").concat(message.as_str())
            },
            ChatGPTError::Reqwest(cause) => {
                let detail = transport_error_message(cause);
                String::from_str("Reqwest error: ").concat(detail.as_str())
            },
        }
    }
}

impl From<reqwest::Error> for ChatGPTError {
    fn from(cause: reqwest::Error) -> (error: ChatGPTError) {
        ChatGPTError::Reqwest(cause)
    }
}

impl vstd::std_specs::convert::FromSpecImpl<reqwest::Error> for ChatGPTError {
    open spec fn obeys_from_spec() -> bool {
        true
    }

    open spec fn from_spec(cause: reqwest::Error) -> ChatGPTError {
        ChatGPTError::Reqwest(cause)
    }
}

} // verus!
