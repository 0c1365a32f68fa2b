//! Verified core of a small local-translation tool.
//!
//! The library resolves language codes to display names, builds the
//! instruction prompt sent to a local inference server, validates model
//! identifiers against a fixed allow-list, and decides how each reply of
//! the server's chat and status endpoints is turned into a result or an
//! error message. All network traffic and JSON transport stays outside;
//! the functions here work on plain values and carry full contracts.

pub mod chat;
pub mod lang;
pub mod model;
pub mod prompt;
pub mod status;
pub mod text;
