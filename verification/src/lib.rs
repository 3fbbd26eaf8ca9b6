//! Verified core of a VLESS-over-WebSocket inbound proxy.
//!
//! The library models the protocol logic over plain byte vectors: decoding
//! early data from a `Sec-WebSocket-Protocol` header, parsing the binary
//! VLESS request, turning target addresses into dial strings, the state of
//! the WebSocket byte-stream adapter, and the close decisions a session
//! makes. The host runtime (WebSocket transport, outbound sockets) lives
//! outside the library and hands it plain values.

use vstd::prelude::*;

pub mod adapter;
pub mod early_data;
pub mod hex;
pub mod request;
pub mod session;
pub mod text;

verus! {

/// The error taxonomy of the proxy core, mirroring the I/O error kinds the
/// session decisions are made on.
#[derive(Clone, Copy, Debug, PartialEq, Eq, Structural)]
pub enum ErrorKind {
    /// The client sent bytes the server cannot honor.
    InvalidData,
    /// The outbound dialer could not reach the target.
    ConnectionAborted,
    /// Transport-level failures and peer closes.
    Other,
}

/// Every terminal outcome a session can produce, with the wire byte that
/// triggered it where one exists.
#[derive(Clone, Copy, Debug, PartialEq, Eq, Structural)]
pub enum TunnelError {
    /// The first request byte was not the protocol version 0.
    InvalidVersion(u8),
    /// The 16 user-id bytes did not match the configured user id.
    UnknownUserId,
    /// The command byte asked for UDP.
    UdpRequested,
    /// The command byte was neither TCP nor UDP.
    UnknownProtocol(u8),
    /// The address-type byte named no known address family.
    InvalidAddressType(u8),
    /// The domain-name bytes were not valid UTF-8.
    InvalidDomain,
    /// The early-data header was not decodable base64.
    UnsupportedEarlyData,
    /// The WebSocket ended while the session still ran.
    ConnectionClosed,
    /// The WebSocket transport reported an error.
    Transport,
    /// The outbound dialer failed.
    DialFailed,
}

impl TunnelError {
    /// The kind a session inspects when it decides how to close.
    pub fn kind(&self) -> (k: ErrorKind)
        ensures
            k == self.kind_spec(),
    {
        match self {
            TunnelError::InvalidVersion(_) => ErrorKind::InvalidData,
            TunnelError::UnknownUserId => ErrorKind::InvalidData,
            TunnelError::UdpRequested => ErrorKind::InvalidData,
            TunnelError::UnknownProtocol(_) => ErrorKind::InvalidData,
            TunnelError::InvalidAddressType(_) => ErrorKind::InvalidData,
            TunnelError::InvalidDomain => ErrorKind::InvalidData,
            TunnelError::UnsupportedEarlyData => ErrorKind::InvalidData,
            TunnelError::ConnectionClosed => ErrorKind::Other,
            TunnelError::Transport => ErrorKind::Other,
            TunnelError::DialFailed => ErrorKind::ConnectionAborted,
        }
    }

    /// Which kind each error carries: everything the client sent wrong is
    /// `InvalidData`, a failed dial is `ConnectionAborted`, transport
    /// failures and peer closes are `Other`.
    pub open spec fn kind_spec(&self) -> ErrorKind {
        match self {
            TunnelError::ConnectionClosed => ErrorKind::Other,
            TunnelError::Transport => ErrorKind::Other,
            TunnelError::DialFailed => ErrorKind::ConnectionAborted,
            _ => ErrorKind::InvalidData,
        }
    }
}

} // verus!
