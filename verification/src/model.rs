//! The listing of models.

pub mod response;
