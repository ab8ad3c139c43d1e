//! The balance of an account.

pub mod response;
