//! The logic of a transcription server that stands before Deepgram.
//!
//! - `config`: where the server listens, and its API key.
//! - `session`: the secret, the tokens signed with it, and the check of a request's token.
//! - `upload` and `request`: a transcription request, from its form to its answer.
//! - `params` and `options`: what Deepgram is asked for.
//! - `transcript`: the shape of a transcription as the frontend expects it.
//! - `metadata`: the `[meta]` section of `deepgram.toml`.
//! - `reply`: answers and the error documents that they carry.
//! - `starter`: the first starter, a single form and a single request.
//! - `json`, `value`, `string_map` and `text`: what the others are made of.

pub mod config;
pub mod json;
pub mod metadata;
pub mod options;
pub mod params;
pub mod reply;
pub mod request;
pub mod session;
pub mod starter;
pub mod string_map;
pub mod text;
pub mod transcript;
pub mod upload;
pub mod value;
