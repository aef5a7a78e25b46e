//! The secure session: who to authenticate as, the session-wide blocking
//! mode, and the teardown rule — a session must be back in blocking mode
//! before it is released, or releasing it is unsafe.

use vstd::prelude::*;

use crate::error::SSHError;
use crate::relay::WOULD_BLOCK_CODE;

verus! {

/// How to authenticate against the secure-shell server: a password, a key
/// file at a path, or the running agent.
#[derive(Debug, PartialEq, Eq)]
pub enum AuthMethod {
    Password(String),
    KeyFile(String),
    Agent,
}

/// The user to authenticate as, and how.
#[derive(Debug)]
pub struct AuthDetails {
    pub user: String,
    pub authentication: AuthMethod,
}

impl AuthDetails {
    /// Bundle a user name with an authentication method.
    pub fn new(user: String, authentication: AuthMethod) -> (r: AuthDetails)
        ensures
            r.user == user,
            r.authentication == authentication,
    {
        AuthDetails { user, authentication }
    }

    /// The user to authenticate as.
    pub fn user(&self) -> (r: &String)
        ensures
            r == self.user,
    {
        &self.user
    }

    /// The authentication method.
    pub fn method(&self) -> (r: &AuthMethod)
        ensures
            r == self.authentication,
    {
        &self.authentication
    }
}

/// The secure-shell library's session object, opaque here: it owns the raw
/// socket and the protocol state.
#[verifier::external_type_specification]
#[verifier::external_body]
pub struct ExSession(ssh2::Session);

/// Relies on ssh2::Session::set_blocking: switches the session-wide blocking
/// mode that every channel of the session shares.
#[verifier::external_body]
fn session_set_blocking(sess: &ssh2::Session, blocking: bool) {
    sess.set_blocking(blocking);
}

/// Relies on ssh2::Error::last_session_error and ssh2::Error::code: the
/// numeric code of the most recent error on the session, if any. The code
/// depends on whatever the session last did, so nothing is promised of it.
#[verifier::external_body]
fn last_session_error_code(sess: &ssh2::Session) -> (r: Option<i32>) {
    match ssh2::Error::last_session_error(sess) {
        Some(err) => match err.code() {
            ssh2::ErrorCode::Session(c) => Some(c),
            ssh2::ErrorCode::SFTP(c) => Some(c),
        },
        None => None,
    }
}

/// Whether a numeric error code of the secure-shell library means "the
/// operation would block; retry later" rather than a real failure.
pub fn is_would_block_code(code: i32) -> (r: bool)
    ensures
        r <==> code == WOULD_BLOCK_CODE,
{
    code == WOULD_BLOCK_CODE
}

/// Whether the outcome of a last-error query is the transient would-block
/// condition: exactly a recorded code equal to the would-block code. No
/// recorded error is not would-block, and neither is any other code.
pub fn would_block_of(code: Option<i32>) -> (r: bool)
    ensures
        r <==> (code matches Some(c) && c == WOULD_BLOCK_CODE),
{
    match code {
        Some(c) => is_would_block_code(c),
        None => false,
    }
}

/// Whether the most recent error on the session was the transient would-block
/// condition. The answer depends on the session's history; the classification
/// of whatever the query returns is pinned down by [`would_block_of`].
pub fn eagain_error(sess: &ssh2::Session) -> bool {
    would_block_of(last_session_error_code(sess))
}

/// An authenticated secure-shell session together with the library's model of
/// its blocking mode. The mode starts blocking; every switch goes through
/// [`SSHSession::set_blocking`], so the flag tracks the real session state,
/// and releasing the session is allowed only once the mode is blocking again.
pub struct SSHSession {
    host: String,
    port: u16,
    user: String,
    session: ssh2::Session,
    blocking: bool,
}

impl SSHSession {
    /// A session is safe to release only in blocking mode: the secure-shell
    /// library's teardown can abort the process otherwise.
    pub closed spec fn safe_to_release(&self) -> bool {
        self.blocking
    }

    /// The remote host this session is connected to.
    pub closed spec fn spec_host(&self) -> String {
        self.host
    }

    /// The remote port this session is connected to.
    pub closed spec fn spec_port(&self) -> u16 {
        self.port
    }

    /// The user this session authenticated as.
    pub closed spec fn spec_user(&self) -> String {
        self.user
    }

    /// Wrap a freshly authenticated session. The session is forced into
    /// blocking mode so that the model flag starts out truthful.
    pub fn new(host: String, port: u16, user: String, session: ssh2::Session) -> (r: SSHSession)
        ensures
            r.spec_host() == host,
            r.spec_port() == port,
            r.spec_user() == user,
            r.safe_to_release(),
    {
        session_set_blocking(&session, true);
        SSHSession { host, port, user, session, blocking: true }
    }

    /// Toggle whether I/O on the session and all its channels may block.
    /// After `set_blocking(false)` the session is no longer safe to release
    /// until blocking mode is restored.
    pub fn set_blocking(&mut self, block: bool)
        ensures
            final(self).safe_to_release() <==> block,
            final(self).spec_host() == old(self).spec_host(),
            final(self).spec_port() == old(self).spec_port(),
            final(self).spec_user() == old(self).spec_user(),
    {
        session_set_blocking(&self.session, block);
        self.blocking = block;
    }

    /// The underlying session object, for readiness multiplexing and for
    /// opening forwarding channels. Discipline: never switch the blocking
    /// mode through this reference — every mode change must go through
    /// [`SSHSession::set_blocking`], or `safe_to_release` no longer tracks
    /// the real session state.
    pub fn raw_session(&self) -> &ssh2::Session {
        &self.session
    }

    /// Whether the most recent error on this session was the transient
    /// would-block condition.
    pub fn last_error_was_would_block(&self) -> bool {
        eagain_error(&self.session)
    }

    /// Release the session. Demands blocking mode: this is the teardown
    /// ordering rule, upheld here as a precondition rather than left to the
    /// caller's discipline.
    pub fn release(self)
        requires
            self.safe_to_release(),
    {
    }

    /// Release the session only if it is safe; otherwise report the defect
    /// and hand the session back untouched, still to be torn down properly.
    pub fn try_release(self) -> (r: Result<(), (SSHError, SSHSession)>)
        ensures
            self.safe_to_release() <==> r is Ok,
            r matches Err(p) ==> p.1 == self,
    {
        if self.blocking {
            Ok(())
        } else {
            Err((SSHError::Whatever, self))
        }
    }

    /// The safe teardown sequence: restore blocking mode, then release. Total
    /// — correct for a session in either mode.
    pub fn shutdown(self) {
        let mut s = self;
        s.set_blocking(true);
        s.release();
    }
}

} // verus!
