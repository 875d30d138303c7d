//! Live-chat polling and normalization: turns the raw JSON of a chat feed
//! into uniform chat messages, drives the continuation-based polling cycle,
//! and renders each message for a downstream sink.

/// JSON documents as plain values, and reading them from text.
pub mod json;
/// The normalized message model and its views.
pub mod model;
/// Message runs: text pieces and emoji.
pub mod runs;
/// Authors, channel identity and badge roles.
pub mod author;
/// Timestamps, purchase amounts and the per-kind message readers.
pub mod message;
/// Item dispatch and the reading of a whole fetch answer.
pub mod response;
/// The polling state machine and the fetch requests it calls for.
pub mod service;
/// Reading a session from the watch page.
pub mod bootstrap;
/// Rendering messages for the log and the game server.
pub mod sink;
