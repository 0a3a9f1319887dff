//! The records of the service and the requests that clients send.

pub mod task;
pub mod user;
