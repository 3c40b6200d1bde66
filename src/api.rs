//! What the daemon announces about its client-facing endpoint.
use vstd::prelude::*;

verus! {

/// Publishes the port that clients connect to.
#[derive(Debug, Clone, Copy, PartialEq, Eq, Structural)]
pub struct ApiManagerAnnouncer {
    pub port: u16,
}

impl ApiManagerAnnouncer {
    pub fn new(port: u16) -> (r: Self)
        ensures
            r.port == port,
    {
        ApiManagerAnnouncer { port }
    }

    /// The announced port.
    pub fn get_address(&self) -> (r: u16)
        ensures
            r == self.port,
    {
        self.port
    }
}

} // verus!
