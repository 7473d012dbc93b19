//! A small command-line HTTP client, split into a verified core.
//!
//! The core covers argument validation (`key=value` pairs and URLs), the
//! plan of the request to send, and the text that is printed for a response.

pub mod body;
pub mod command;
pub mod error;
pub mod header;
pub mod kv;
pub mod render;
pub mod request;
pub mod response;
pub mod text;
pub mod url;
