//! Content-resolution and rule-matching pipeline for a chat responder.
//!
//! An incoming message is resolved to a block of plain text (directly, via a
//! paste-site fetch, or via text recognition on an attached image) and that
//! text is matched against a per-channel set of configured rules (regular
//! expressions and keyword lists) to decide whether and how to respond.
//!
//! The crate holds the decision logic only: network fetches, the character
//! recognition engine and the chat gateway are collaborators that the caller
//! drives, feeding their results back in as plain values.

pub mod config;
pub mod extract;
pub mod ocr;
pub mod paste;
pub mod pipeline;
pub mod rules;
pub mod text;
