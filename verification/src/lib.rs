//! Resolution and dispatch logic of a client for a monitoring service's
//! silence, clear and list operations.
//!
//! The library decides; its caller performs the exchanges with the service.
//! [`client::SensuClient`] makes requests ready and reads responses, and
//! starts the three commands. A command is run step by step: each
//! [`engine::Step`] carries notices for the operator and says what to do
//! next, and the reply to an exchange resumes the [`engine::Run`].
//!
//! Contracts are stated over the mathematical models of the data: a `String`
//! is its sequence of characters, and each type of the library has a view.
//! [`laws`] holds what is proved of whole runs.

pub mod ask;
pub mod client;
pub mod codec;
pub mod endpoint;
pub mod engine;
pub mod err;
pub mod expire;
pub mod json;
pub mod laws;
pub mod listing;
pub mod nodes;
pub mod notice;
pub mod opts;
pub mod pattern;
pub mod payload;
pub mod plan;
pub mod reply;
pub mod resolve;
pub mod resource;
pub mod resources;
pub mod text;
pub mod uri;
pub mod validate;
