//! Talking to a node over JSON-RPC.

pub mod client;
pub mod config;
pub mod json;
pub mod text;
