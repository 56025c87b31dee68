//! The server's settings and the address it listens on.

use vstd::prelude::*;
use crate::text::{decimal, push_decimal};

verus! {

/// The HTTP port when none is given.
pub const DEFAULT_HTTP_PORT: u32 = 80;
/// The number of connections served at once when no limit is given.
pub const DEFAULT_MAX_CONCURRENCY: usize = 4096;
/// How long a connection waits for a permit before it gives up, in seconds.
pub const PERMIT_TIMEOUT_SECS: u64 = 30;
/// How often the reporter prints, in seconds.
pub const REPORT_INTERVAL_SECS: u64 = 5;

/// The host part of the listening address: all interfaces.
pub const LISTEN_HOST: &'static str = "0.0.0.0:";

/// The server's settings.
#[derive(Clone, Copy, Debug, PartialEq, Eq, Structural)]
pub struct ServerConfig {
    /// The HTTP port.
    pub http_port: u32,
    /// How many connections are served at once.
    pub max_concurrency: usize,
}

impl Default for ServerConfig {
    fn default() -> (c: ServerConfig)
        ensures
            c == (ServerConfig { http_port: DEFAULT_HTTP_PORT, max_concurrency: DEFAULT_MAX_CONCURRENCY }),
    {
        ServerConfig { http_port: DEFAULT_HTTP_PORT, max_concurrency: DEFAULT_MAX_CONCURRENCY }
    }
}

impl ServerConfig {
    /// The address to listen on: all interfaces, at the configured port.
    pub fn listen_address(&self) -> (addr: String)
        ensures
            addr@ == LISTEN_HOST@ + decimal(self.http_port as nat),
    {
        let mut addr = String::from_str(LISTEN_HOST);
        push_decimal(&mut addr, self.http_port as u64);
        addr
    }
}

} // verus!
