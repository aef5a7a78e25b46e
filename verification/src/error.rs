//! The single opaque failure kind: every underlying library or OS failure
//! collapses into one variant, since recovery is identical for all of them.

use vstd::prelude::*;

verus! {

/// The one opaque error of the relay: connection, handshake, authentication
/// and transport failures all collapse into it.
#[derive(Debug, Clone, Copy, PartialEq, Eq, Structural)]
pub enum SSHError {
    Whatever,
}

/// The secure-shell library's error type, opaque here: it is only ever
/// collapsed into [`SSHError`].
#[verifier::external_type_specification]
#[verifier::external_body]
pub struct ExSshError(ssh2::Error);

impl From<ssh2::Error> for SSHError {
    /// Every failure of the secure-shell library collapses into the one
    /// opaque kind: recovery is identical for all of them.
    fn from(_err: ssh2::Error) -> (r: SSHError)
        ensures
            r == SSHError::Whatever,
    {
        SSHError::Whatever
    }
}

impl vstd::std_specs::convert::FromSpecImpl<ssh2::Error> for SSHError {
    open spec fn obeys_from_spec() -> bool {
        true
    }

    open spec fn from_spec(_err: ssh2::Error) -> SSHError {
        SSHError::Whatever
    }
}

} // verus!
