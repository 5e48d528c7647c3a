//! A command-line chat-completion client: credential provisioning, request
//! construction and response classification, with the platform credential
//! store reached through a few trusted calls.

pub mod credential;
pub mod text;
pub mod cli;
pub mod request;
pub mod json;
pub mod response;
pub mod store;
