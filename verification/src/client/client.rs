//! The client of the chat completions endpoint.

use vstd::prelude::*;
use vstd::string::StringExecFns;

use crate::api::{bearer_header, json_content_type};
use crate::client::error::ChatGPTError;
use crate::client::ChatResponse;
use crate::http::{status_text, Header, HttpStatus, Method, Request, RequestModel};
use crate::text::append_text;

verus! {

/// The client of one API key and one base URL.
#[derive(Debug)]
pub struct ChatGPTClient {
    base_url: String,
    api_key: String,
    client: reqwest::Client,
}

/// The message of the error for a response with a status other than 200: the
/// status as it displays, the headers as the caller formatted them, and the
/// body.
pub open spec fn failure_message(code: u16, headers: Seq<char>, body: Seq<char>) -> Seq<char> {
    "Request failed with status code: "@ + status_text(code) + "\nHeaders: "@ + headers
        + "\nBody: "@ + body
}

impl ChatGPTClient {
    /// The base URL of the client.
    pub closed spec fn spec_base_url(&self) -> Seq<char> {
        self.base_url@
    }

    /// The API key of the client.
    pub closed spec fn spec_api_key(&self) -> Seq<char> {
        self.api_key@
    }

    /// The HTTP client of the client.
    pub closed spec fn spec_http_client(&self) -> reqwest::Client {
        self.client
    }

    /// The request of a chat call with the given input.
    pub open spec fn chat_request(&self, input: Seq<char>) -> RequestModel {
        RequestModel {
            method: Method::Post,
            url: self.spec_base_url() + "/v1/chat/completions"@,
            headers: seq![
                ("Authorization"@, "Bearer "@ + self.spec_api_key()),
                json_content_type(),
            ],
            body: Some(input),
        }
    }

    /// The client of the given API key and base URL, which makes its calls
    /// with the HTTP client `client`.
    pub fn new(api_key: &str, base_url: &str, client: reqwest::Client) -> (chat: Self)
        ensures
            chat.spec_api_key() == api_key@,
            chat.spec_base_url() == base_url@,
            chat.spec_http_client() == client,
    {
        ChatGPTClient {
            base_url: String::from_str(base_url),
            api_key: String::from_str(api_key),
            client,
        }
    }

    /// The API key of the client.
    pub fn api_key(&self) -> (key: &str)
        ensures
            key@ == self.spec_api_key(),
    {
        self.api_key.as_str()
    }

    /// The base URL of the client.
    pub fn base_url(&self) -> (url: &str)
        ensures
            url@ == self.spec_base_url(),
    {
        self.base_url.as_str()
    }

    /// The HTTP client that the calls are made with.
    pub fn http_client(&self) -> (client: &reqwest::Client)
        ensures
            *client == self.spec_http_client(),
    {
        &self.client
    }

    /// Describes the request of a chat call: `POST` to the base URL followed
    /// by `/v1/chat/completions`, with the bearer credential and with the
    /// input, as JSON text, as its body.
    pub fn chat(&self, input: &str) -> (request: Request)
        ensures
            request@ == self.chat_request(input@),
    {
        let mut headers: Vec<Header> = Vec::new();
        headers.push(bearer_header(self.api_key.as_str()));
        headers.push(Header::new("Content-Type", "application/json"));
        proof {
            assert(headers@.map_values(|header: Header| header@) =~= self.chat_request(
                input@,
            ).headers);
        }
        Request {
            method: Method::Post,
            url: append_text(self.base_url.as_str(), "/v1/chat/completions"),
            headers,
            body: Some(String::from_str(input)),
        }
    }

    /// Gives the result of a chat call from the status of its response, its
    /// headers as the caller formatted them, and its body. For the status
    /// 200 the result is the body as `decode` decodes it, or the error that
    /// decoding gave. For any other status the result is a failure whose
    /// message holds the status, the headers and the body.
    pub fn chat_result<F: FnOnce() -> Result<ChatResponse, reqwest::Error>>(
        status: HttpStatus,
        headers: &str,
        body: &str,
        decode: F,
    ) -> (result: Result<ChatResponse, ChatGPTError>)
        requires
            decode.requires(()),
        ensures
            status.value() == 200 ==> exists|decoded: Result<ChatResponse, reqwest::Error>|
                #[trigger] decode.ensures((), decoded) && match decoded {
                    Ok(response) => result == Ok::<ChatResponse, ChatGPTError>(response),
                    Err(cause) => result == Err::<ChatResponse, ChatGPTError>(
                        ChatGPTError::Reqwest(cause),
                    ),
                },
            status.value() != 200 ==> (result matches Err(ChatGPTError::RequestFailed(message))
                && message@ == failure_message(status.value(), headers@, body@)),
    {
        if status.as_u16() == 200 {
            match decode() {
                Ok(response) => Ok(response),
                Err(cause) => Err(ChatGPTError::from(cause)),
            }
        } else {
            let line = status.to_string();
            let mut message = append_text("Request failed with status code: ", line.as_str());
            message.append("\nHeaders: ");
            message.append(headers);
            message.append("\nBody: ");
            message.append(body);
            Err(ChatGPTError::RequestFailed(message))
        }
    }
}

} // verus!
