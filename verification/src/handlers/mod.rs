//! What the service answers to each request.

pub mod task;
pub mod user;
