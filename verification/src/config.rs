//! Configuring and creating the [`OpenAIClient`]: API key, organization,
//! base URL and timeout.

use std::time::Duration;
use vstd::prelude::*;
use vstd::string::StringExecFns;

use crate::error::{
    optional_text, transport_error_message, transport_error_text, ErrorModel, OpenAIError,
};

verus! {

/// `reqwest::Client`, the HTTP client: an opaque value that is carried through.
#[verifier::external_type_specification]
#[verifier::external_body]
pub struct ExHttpClient(reqwest::Client);

/// `Clone` of `reqwest::Client`: another handle to the same HTTP client.
/// Nothing is claimed of the result.
pub assume_specification[ <reqwest::Client as Clone>::clone ](
    client: &reqwest::Client,
) -> reqwest::Client
;

/// The default base URL of the API. It can be overridden in the builder, for
/// proxies or mock servers.
pub const DEFAULT_BASE_URL: &'static str = "https://api.openai.com/v1/";

/// `reqwest::ClientBuilder::new` and `build`: an HTTP client with the
/// defaults of `reqwest`. Whether this succeeds depends on the TLS backend of
/// the machine, so nothing is claimed of the result.
#[verifier::external_body]
fn default_http_client() -> Result<reqwest::Client, reqwest::Error> {
    reqwest::ClientBuilder::new().build()
}

/// `reqwest::ClientBuilder::new`, `timeout` and `build`: an HTTP client whose
/// requests time out after `timeout`. Whether this succeeds depends on the
/// TLS backend of the machine, so nothing is claimed of the result.
#[verifier::external_body]
fn http_client_with_timeout(timeout: Duration) -> Result<reqwest::Client, reqwest::Error> {
    reqwest::ClientBuilder::new().timeout(timeout).build()
}

/// A client for the API: the configuration of every call, and the HTTP
/// client that makes them.
#[derive(Clone, Debug)]
pub struct OpenAIClient {
    base_url: String,
    api_key: String,
    organization: Option<String>,
    http_client: reqwest::Client,
}

/// The mathematical model of an [`OpenAIClient`]: what it is configured with.
pub struct ClientModel {
    /// The base URL that endpoints are joined to.
    pub base_url: Seq<char>,
    /// The API key, sent as a bearer credential.
    pub api_key: Seq<char>,
    /// The organization identifier, if any.
    pub organization: Option<Seq<char>>,
}

impl View for OpenAIClient {
    type V = ClientModel;

    closed spec fn view(&self) -> ClientModel {
        ClientModel {
            base_url: self.base_url@,
            api_key: self.api_key@,
            organization: optional_text(self.organization),
        }
    }
}

/// The API key that a client is made with: the explicit one, or else the one
/// from the environment.
pub open spec fn resolved_key(explicit: Option<Seq<char>>, environment: Option<Seq<char>>) -> Option<
    Seq<char>,
> {
    match explicit {
        Some(key) => Some(key),
        None => environment,
    }
}

/// The message of the error for a missing API key.
pub open spec fn missing_key_error() -> ErrorModel {
    ErrorModel::Config("Missing API key"@)
}

/// Whether `result` is a possible outcome of making a client with the given
/// configuration: the missing-key error where no key is given, and else the
/// client with that configuration, or a configuration error that carries the
/// message of the cause for which no HTTP client could be made.
pub open spec fn is_client_outcome(
    result: Result<OpenAIClient, OpenAIError>,
    base_url: Seq<char>,
    key: Option<Seq<char>>,
    organization: Option<Seq<char>>,
) -> bool {
    match key {
        None => result is Err && result->Err_0@ == missing_key_error(),
        Some(api_key) => match result {
            Ok(client) => client@ == (ClientModel { base_url, api_key, organization }),
            Err(error) => exists|cause: reqwest::Error|
                error@ == ErrorModel::Config(#[trigger] transport_error_text(cause)),
        },
    }
}

impl OpenAIClient {
    /// Puts a client together from its configuration and from the outcome of
    /// making the HTTP client: the client where an HTTP client was made, and
    /// else a configuration error with the message of the cause.
    pub fn from_parts(
        base_url: String,
        api_key: String,
        organization: Option<String>,
        http_client: Result<reqwest::Client, reqwest::Error>,
    ) -> (result: Result<Self, OpenAIError>)
        ensures
            match http_client {
                Ok(http) => result is Ok && result->Ok_0@ == (ClientModel {
                    base_url: base_url@,
                    api_key: api_key@,
                    organization: optional_text(organization),
                }) && result->Ok_0.spec_http_client() == http,
                Err(cause) => result is Err && result->Err_0@ == ErrorModel::Config(
                    transport_error_text(cause),
                ),
            },
    {
        match http_client {
            Ok(http) => Ok(OpenAIClient { base_url, api_key, organization, http_client: http }),
            Err(cause) => Err(OpenAIError::ConfigError(transport_error_message(&cause))),
        }
    }

    /// Creates a client with the default base URL and no organization. The
    /// API key is `api_key`, or else `env_api_key`, the value of the
    /// environment variable `OPENAI_API_KEY` as the caller read it. With
    /// neither, the result is the missing-key error.
    pub fn new(api_key: Option<String>, env_api_key: Option<String>) -> (result: Result<
        Self,
        OpenAIError,
    >)
        ensures
            is_client_outcome(
                result,
                DEFAULT_BASE_URL@,
                resolved_key(optional_text(api_key), optional_text(env_api_key)),
                None,
            ),
    {
        let key = match api_key {
            Some(k) => k,
            None => match env_api_key {
                Some(k) => k,
                None => {
                    return Err(OpenAIError::ConfigError(String::from_str("Missing API key")));
                },
            },
        };
        OpenAIClient::from_parts(
            String::from_str(DEFAULT_BASE_URL),
            key,
            None,
            default_http_client(),
        )
    }

    /// A new [`ClientBuilder`], with nothing set.
    pub fn builder() -> (builder: ClientBuilder)
        ensures
            builder@ == BuilderModel::empty(),
    {
        ClientBuilder::default()
    }

    /// The base URL.
    pub fn base_url(&self) -> (url: &str)
        ensures
            url@ == self@.base_url,
    {
        self.base_url.as_str()
    }

    /// The API key.
    pub fn api_key(&self) -> (key: &str)
        ensures
            key@ == self@.api_key,
    {
        self.api_key.as_str()
    }

    /// The organization identifier, if it was set.
    pub fn organization(&self) -> (organization: Option<&str>)
        ensures
            match organization {
                Some(id) => self@.organization == Some(id@),
                None => self@.organization is None,
            },
    {
        match &self.organization {
            Some(id) => Some(id.as_str()),
            None => None,
        }
    }

    /// The HTTP client that the calls of this client are made with.
    pub closed spec fn spec_http_client(&self) -> reqwest::Client {
        self.http_client
    }

    /// The HTTP client that the calls of this client are made with.
    pub fn http_client(&self) -> (http: &reqwest::Client)
        ensures
            *http == self.spec_http_client(),
    {
        &self.http_client
    }
}

/// A builder for [`OpenAIClient`].
#[derive(Debug)]
pub struct ClientBuilder {
    base_url: Option<String>,
    api_key: Option<String>,
    organization: Option<String>,
    timeout: Option<Duration>,
}

/// The mathematical model of a [`ClientBuilder`]: what has been set so far.
pub struct BuilderModel {
    /// The base URL, if set.
    pub base_url: Option<Seq<char>>,
    /// The API key, if set.
    pub api_key: Option<Seq<char>>,
    /// The organization identifier, if set.
    pub organization: Option<Seq<char>>,
    /// The timeout of every request, if set.
    pub timeout: Option<Duration>,
}

impl BuilderModel {
    /// The builder with nothing set.
    pub open spec fn empty() -> BuilderModel {
        BuilderModel { base_url: None, api_key: None, organization: None, timeout: None }
    }

    /// The base URL that the built client has: the one set, or else the
    /// default.
    pub open spec fn effective_base_url(self) -> Seq<char> {
        match self.base_url {
            Some(url) => url,
            None => DEFAULT_BASE_URL@,
        }
    }
}

impl View for ClientBuilder {
    type V = BuilderModel;

    closed spec fn view(&self) -> BuilderModel {
        BuilderModel {
            base_url: optional_text(self.base_url),
            api_key: optional_text(self.api_key),
            organization: optional_text(self.organization),
            timeout: self.timeout,
        }
    }
}

impl Default for ClientBuilder {
    fn default() -> (builder: ClientBuilder)
        ensures
            builder@ == BuilderModel::empty(),
    {
        ClientBuilder { base_url: None, api_key: None, organization: None, timeout: None }
    }
}

impl ClientBuilder {
    /// Sets the base URL of all requests.
    pub fn with_base_url(self, url: &str) -> (builder: Self)
        ensures
            builder@ == (BuilderModel { base_url: Some(url@), ..self@ }),
    {
        let mut builder = self;
        builder.base_url = Some(String::from_str(url));
        builder
    }

    /// Sets the API key.
    pub fn with_api_key(self, key: &str) -> (builder: Self)
        ensures
            builder@ == (BuilderModel { api_key: Some(key@), ..self@ }),
    {
        let mut builder = self;
        builder.api_key = Some(String::from_str(key));
        builder
    }

    /// Sets the organization identifier.
    pub fn with_organization(self, org: &str) -> (builder: Self)
        ensures
            builder@ == (BuilderModel { organization: Some(org@), ..self@ }),
    {
        let mut builder = self;
        builder.organization = Some(String::from_str(org));
        builder
    }

    /// Sets the timeout of all requests.
    pub fn with_timeout(self, duration: Duration) -> (builder: Self)
        ensures
            builder@ == (BuilderModel { timeout: Some(duration), ..self@ }),
    {
        let mut builder = self;
        builder.timeout = Some(duration);
        builder
    }

    /// Builds the client. The base URL is the one set, or else the default.
    /// The API key is the one set, or else `env_api_key`, the value of the
    /// environment variable `OPENAI_API_KEY` as the caller read it. With
    /// neither, the result is the missing-key error.
    pub fn build(self, env_api_key: Option<String>) -> (result: Result<OpenAIClient, OpenAIError>)
        ensures
            is_client_outcome(
                result,
                self@.effective_base_url(),
                resolved_key(self@.api_key, optional_text(env_api_key)),
                self@.organization,
            ),
    {
        let base_url = match self.base_url {
            Some(url) => url,
            None => String::from_str(DEFAULT_BASE_URL),
        };
        let api_key = match self.api_key {
            Some(k) => k,
            None => match env_api_key {
                Some(k) => k,
                None => {
                    return Err(OpenAIError::ConfigError(String::from_str("Missing API key")));
                },
            },
        };
        let http_client = match self.timeout {
            Some(timeout) => http_client_with_timeout(timeout),
            None => default_http_client(),
        };
        OpenAIClient::from_parts(base_url, api_key, self.organization, http_client)
    }
}

} // verus!
