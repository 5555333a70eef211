//! A typed client library for a remote text-generation and embeddings HTTP API.

pub mod api;
pub mod api_resources;
pub mod client;
pub mod config;
pub mod error;
pub mod http;
pub mod json;
pub mod models;
pub mod stream;
pub mod text;
pub mod tokenizer;

pub use config::OpenAIClient;
pub use error::OpenAIError;
