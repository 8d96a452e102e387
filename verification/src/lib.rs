//! Core of a multi-tenant webhook delivery service.
//!
//! Producer applications register HTTP endpoints, subscribe them to named
//! topics and submit events; the service fans each event out to every active
//! subscribing endpoint, with bounded retries, a per-endpoint circuit breaker
//! and an audit record of every delivery attempt.
//!
//! This crate holds the delivery pipeline's logic — identifiers, topics,
//! endpoints, events, messages and attempts, the retry policy, the circuit
//! breaker, the ingestion path and the dispatch rules — each function with a
//! verified contract.  I/O (HTTP, the store, the work queue) stays outside;
//! callers hand the library plain values and carry out the plans it returns.

pub mod circuit_breaker;
pub mod cmd;
pub mod config;
pub mod configuration;
pub mod dispatch;
pub mod error;
pub mod events;
pub mod ids;
pub mod ingest;
pub mod retry;
pub mod sender;
