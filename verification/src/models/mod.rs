//! Requests as they arrive and responses as they leave.

pub mod request;
pub mod response;
