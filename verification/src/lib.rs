//! Tunnel lifecycle and channel bridging for exposing a local HTTP service
//! through remote port forwarding over a secure-shell session.
//!
//! The decision logic of the tunnel lives here as verified state machines:
//! the backoff schedule for reconnection, the connect/authenticate machine,
//! the forwarding event dispatch, the per-connection channel bridge, and the
//! outer client loop. The surrounding process performs the actual network
//! calls and feeds each observed event into these machines.

pub mod backoff;
pub mod bridge;
pub mod client;
pub mod session;

use vstd::prelude::*;

verus! {

/// Unwraps a `Result` whose error type has no values, such as the one an
/// infallible service call returns. No `Err` value can ever exist, so the
/// precondition excludes nothing a caller could actually hold.
pub fn unwrap_infallible<T>(result: Result<T, std::convert::Infallible>) -> (value: T)
    requires
        result is Ok,
    ensures
        value == result->Ok_0,
{
    match result {
        Ok(value) => value,
        Err(_) => vstd::pervasive::unreached(),
    }
}

} // verus!
