//! Verified core of a periodic upstream-synchronisation and caching service.
//!
//! The crate holds the decisions of the pipeline — request plans and the retry
//! policy, the scheduler's tick protocol, payload normalisation, the merge
//! rules of the stores and the shape of a position trend — as functions on
//! plain values with machine-checked contracts. Network, database and clock
//! stay with the caller.

pub mod clients;
pub mod config;
pub mod domain;
pub mod error;
pub mod instant;
pub mod json;
pub mod repo;
pub mod routes;
pub mod scheduler;
pub mod services;
pub mod text;
