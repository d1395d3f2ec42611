//! Core of a ledger-telemetry service: a bounded rolling history of
//! throughput samples, a snapshot of live network metrics maintained by a
//! background poller, a credential store keyed by account identifier and
//! API key, and the authorization gate plus request decisions of the HTTP
//! surface. All I/O (the upstream RPC query, the durable account table,
//! the HTTP listener) stays outside; this crate holds the logic those
//! edges feed.

pub mod auth;
pub mod history;
pub mod metrics;
pub mod routes;
pub mod store;
pub mod upstream;
