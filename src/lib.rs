//! Typed client logic for a proxy-rental HTTP API: request building, status
//! handling and the decoding of its loosely shaped JSON replies.
pub mod json;
pub mod models;
pub mod decode;
pub mod records;
pub mod text;
pub mod command;
