//! The server handle: configuration for the listener loop.
//!
//! Binding the socket, accepting datagrams and spawning one task per
//! datagram are outside work; the handle only carries the configuration
//! they need.
use vstd::prelude::*;

use crate::config::ServerConfig;

verus! {

/// A DNS server bound to one configured port.
pub struct DNSServer {
    config: ServerConfig,
}

impl DNSServer {
    pub fn new(config: ServerConfig) -> (r: Self)
        ensures
            r.spec_port() == config.port,
    {
        Self { config }
    }

    /// The configured listening port.
    pub closed spec fn spec_port(&self) -> u16 {
        self.config.port
    }

    /// The port the listener loop should bind.
    pub fn port(&self) -> (r: u16)
        ensures
            r == self.spec_port(),
    {
        self.config.port
    }
}

} // verus!
