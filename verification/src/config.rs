//! Process configuration for the listener.
use vstd::prelude::*;

verus! {

/// The UDP port the server listens on, across all interfaces.
#[derive(Debug, Clone, Copy, PartialEq, Eq, Structural)]
pub struct ServerConfig {
    pub port: u16,
}

impl Default for ServerConfig {
    /// The default listening port.
    fn default() -> (r: Self)
        ensures
            r.port == 5353,
    {
        Self { port: 5353 }
    }
}

} // verus!
