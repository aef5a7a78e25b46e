//! A local TCP port-forwarding relay over an authenticated secure-shell
//! session: the verified core of the readiness-driven byte pump, the
//! write-until-complete discipline, would-block classification, and the
//! session teardown invariant.

pub mod error;
pub mod relay;
pub mod session;
pub mod tunnel;
