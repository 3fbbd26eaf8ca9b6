//! The session orchestrator's decisions: how a finished session's error, if
//! any, translates into a WebSocket close, and the fixed texts the close
//! paths send. Accepting the upgrade, spawning the task and the closing
//! itself are the host's; it asks these functions what to do.

use crate::{ErrorKind, TunnelError};
use vstd::prelude::*;

verus! {

/// The WebSocket close code for data the server cannot honor.
pub const CLOSE_UNSUPPORTED: u16 = 1003;

/// What the orchestrator does with the WebSocket when the session task ends
/// with the given error: invalid client data and failed dials close with
/// code 1003; any other error lets the peers close naturally, with no
/// explicit code.
pub fn close_code_for(e: &TunnelError) -> (r: Option<u16>)
    ensures
        r == if e.kind_spec() is InvalidData || e.kind_spec() is ConnectionAborted {
            Some(1003u16)
        } else {
            None::<u16>
        },
{
    match e.kind() {
        ErrorKind::InvalidData => Some(CLOSE_UNSUPPORTED),
        ErrorKind::ConnectionAborted => Some(CLOSE_UNSUPPORTED),
        ErrorKind::Other => None,
    }
}

/// The reason sent together with close code 1003.
pub fn close_reason() -> (r: &'static str)
    ensures
        r@ == "Unsupported data"@,
{
    "Unsupported data"
}

/// The reason the adapter's shutdown path sends with its unnumbered close.
pub fn shutdown_reason() -> (r: &'static str)
    ensures
        r@ == "Normal close"@,
{
    "Normal close"
}

} // verus!
