//! Verified core of a command-line client for a remote todo-list API.
//!
//! The library builds the one HTTP request that each subcommand stands for
//! (method, request URI, optional JSON body) and decides how a response is
//! rendered (raw text, or pretty-printed JSON when the content type says so).
//! The surrounding binary does the argument parsing and the network round
//! trip and hands plain values in and out.

pub mod command;
pub mod digits;
pub mod json_text;
pub mod laws;
pub mod request;
pub mod response;
pub mod url;
