//! The resources of the API, one module for each group of endpoints.

pub mod chat;
pub mod completions;
pub mod embeddings;
pub mod files;
pub mod fine_tunes;
pub mod models;
pub mod moderations;
