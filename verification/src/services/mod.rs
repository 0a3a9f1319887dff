//! The operations of the service on the store.

pub mod auth;
pub mod task;
pub mod user;
