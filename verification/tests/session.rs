use ssh_relay::error::SSHError;
use ssh_relay::session::{
    eagain_error, is_would_block_code, would_block_of, AuthDetails, AuthMethod, SSHSession,
};
use ssh_relay::tunnel::TunnelState;

#[test]
fn no_recorded_error_is_not_would_block() {
    assert!(!would_block_of(None));
}

#[test]
fn only_the_eagain_code_is_would_block() {
    assert!(would_block_of(Some(-37)));
    assert!(!would_block_of(Some(0)));
    assert!(!would_block_of(Some(-1)));
    assert!(!would_block_of(Some(37)));
}

#[test]
fn a_tunnel_accepts_exactly_once() {
    let mut state = TunnelState::new();
    assert!(state.claim_accept().is_ok());
    assert_eq!(state.claim_accept(), Err(SSHError::Whatever));
    assert_eq!(state.claim_accept(), Err(SSHError::Whatever));
}

#[test]
fn library_errors_collapse_into_the_opaque_kind() {
    let err = ssh2::Error::new(ssh2::ErrorCode::Session(-5), "handshake failed");
    assert_eq!(SSHError::from(err), SSHError::Whatever);
}

#[test]
fn auth_details_keep_user_and_method() {
    let details = AuthDetails::new(
        "pi".to_string(),
        AuthMethod::KeyFile("/home/pi/.ssh/id_rsa".to_string()),
    );
    assert_eq!(details.user(), "pi");
    assert_eq!(
        details.method(),
        &AuthMethod::KeyFile("/home/pi/.ssh/id_rsa".to_string())
    );
}

#[test]
fn would_block_code_is_exactly_eagain() {
    assert!(is_would_block_code(-37));
    assert!(!is_would_block_code(0));
    assert!(!is_would_block_code(-1));
    assert!(!is_would_block_code(37));
}

#[test]
fn fresh_session_reports_no_would_block_error() {
    let raw = ssh2::Session::new().unwrap();
    assert!(!eagain_error(&raw));
}

#[test]
fn releasing_a_non_blocking_session_is_flagged() {
    let raw = ssh2::Session::new().unwrap();
    let mut session = SSHSession::new("localhost".to_string(), 22, "pi".to_string(), raw);
    session.set_blocking(false);
    let defect = session.try_release();
    assert!(defect.is_err());

    // The session comes back untouched; restoring blocking mode makes the
    // release clean.
    let (_, mut session) = defect.err().unwrap();
    session.set_blocking(true);
    assert!(session.try_release().is_ok());
}

#[test]
fn shutdown_is_safe_from_either_mode() {
    let raw = ssh2::Session::new().unwrap();
    let mut session = SSHSession::new("localhost".to_string(), 22, "pi".to_string(), raw);
    session.set_blocking(false);
    session.shutdown();
}
