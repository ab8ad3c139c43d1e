//! A typed client for the DeepSeek chat completion service: the requests
//! and answers of its three endpoints, a builder for chat requests, and the
//! rules by which an answer becomes text or an error.

pub mod base_types;
pub mod chat;
pub mod frame;
pub mod http;
pub mod json;
pub mod model;
pub mod text;
pub mod user;
