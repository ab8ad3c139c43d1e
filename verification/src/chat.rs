//! Chat completions: the request, its JSON form, and the answer.

pub mod request;
pub mod response;
pub mod wire;
