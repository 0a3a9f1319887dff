//! Session-authenticated accounts and per-user task lists.
//!
//! The library holds the rules of the service: how credentials are hashed and
//! checked, how sessions are issued, resolved and revoked, how the guard admits
//! or rejects a request, and what every operation answers.
//!
//! - [`hasher`] hashes and verifies passwords.
//! - [`db`] is the relational store, held in memory: the tables of accounts,
//!   sessions and tasks, with the answers of a store's client library.
//! - [`services`] are the operations on the store. Each one prepares what is
//!   written, lets the store answer, and decides what the answer means; the
//!   preparing and the deciding are functions of their own, for a service that
//!   runs its statements on another store.
//! - [`middlewares`] holds the guard of the protected routes.
//! - [`handlers`] answer the requests: they screen the request, call the
//!   services and make the reply.
//! - [`guarantees`] states and proves what holds of all of this.
//!
//! Time is a number of seconds since the Unix epoch that the caller reads
//! from its clock and hands in.

pub mod clock;
pub mod db;
pub mod error;
pub mod guarantees;
pub mod handlers;
pub mod hasher;
pub mod middlewares;
pub mod modules;
pub mod reply;
pub mod services;
pub mod text;
pub mod validation;

