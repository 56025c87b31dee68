//! Verified core of an HTTP echo server: request routing, the echo and
//! greeting bodies, the server's counters and their Prometheus rendering,
//! and the periodic reporter that turns counter snapshots into deltas.
//! Sockets, the async runtime and logging live in the application around it.

pub mod config;
pub mod echo;
pub mod greeter;
pub mod metrics;
pub mod reporter;
pub mod server;
pub mod text;
