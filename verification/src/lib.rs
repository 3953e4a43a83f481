//! Command handling for running Rust snippets on the Rust playground.
//!
//! The library covers everything a chat front end needs to decide: parsing
//! execution flags, extracting a fenced code block from a command body,
//! building the request for the remote execute or UB-check endpoint, rendering
//! the result, and building the shareable playground URL used when the output
//! is too large to post inline. The HTTP calls themselves are left to the
//! caller, which feeds the responses back in as plain values.

pub mod commands;
pub mod extract;
pub mod flags;
pub mod gist;
pub mod render;
pub mod text;
