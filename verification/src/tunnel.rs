//! The tunnel's single-use discipline: a tunnel pairs one local listener with
//! one forwarding channel and accepts at most one local connection in its
//! whole lifetime. The listener and the channel are I/O and live outside the
//! library; this state type carries the invariant that a second accept is out
//! of contract.

use vstd::prelude::*;

use crate::error::SSHError;

verus! {

/// Whether a tunnel's one local connection has been accepted yet.
pub struct TunnelState {
    accepted: bool,
}

impl TunnelState {
    /// Whether the tunnel's single accept has already happened.
    pub closed spec fn has_accepted(&self) -> bool {
        self.accepted
    }

    /// A fresh tunnel: listening, no peer yet.
    pub fn new() -> (r: TunnelState)
        ensures
            !r.has_accepted(),
    {
        TunnelState { accepted: false }
    }

    /// Claim the tunnel's single accept. The first claim succeeds and marks
    /// the tunnel used; every later claim reports the opaque error, if and
    /// only if the tunnel was already used.
    pub fn claim_accept(&mut self) -> (r: Result<(), SSHError>)
        ensures
            r is Ok <==> !old(self).has_accepted(),
            final(self).has_accepted(),
    {
        if self.accepted {
            Err(SSHError::Whatever)
        } else {
            self.accepted = true;
            Ok(())
        }
    }
}

} // verus!
