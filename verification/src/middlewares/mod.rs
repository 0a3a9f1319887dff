//! What stands between a request and a protected handler.

pub mod auth;
