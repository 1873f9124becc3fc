//! The error taxonomy of the bootstrap handshake.

use vstd::prelude::*;

verus! {

/// Every way the bootstrap handshake can fail.  Each stage failure is fatal
/// at this layer; only `StreamDisconnected` is recoverable, and only inside
/// the live-sync channel's own reconnect loop.
#[derive(Clone, Copy, Debug, PartialEq, Eq, Structural)]
pub enum BootstrapError {
    /// A network request failed at the transport level (including non-success
    /// HTTP statuses).
    TransportFailure,
    /// A response body could not be decoded into the expected document.
    DecodeFailure,
    /// The software statement lacks the required issuer claim.
    MalformedCredential,
    /// The authority advertises no registration endpoint, so dynamic client
    /// registration is impossible.
    UnsupportedAuthority,
    /// The compressed policy-bundle payload is corrupt.
    DecompressionError,
    /// The live-sync stream dropped; recovered internally by reconnecting.
    StreamDisconnected,
}

impl BootstrapError {
    /// A short human-readable description of the error.
    pub fn describe(&self) -> (r: &'static str)
        ensures
            self is TransportFailure ==> r@ == "transport failure"@,
            self is DecodeFailure ==> r@ == "response body could not be decoded"@,
            self is MalformedCredential ==> r@ == "software statement lacks an issuer claim"@,
            self is UnsupportedAuthority ==> r@ == "authority does not support dynamic client registration"@,
            self is DecompressionError ==> r@ == "compressed policy bundle is corrupt"@,
            self is StreamDisconnected ==> r@ == "live-sync stream disconnected"@,
    {
        match self {
            BootstrapError::TransportFailure => "transport failure",
            BootstrapError::DecodeFailure => "response body could not be decoded",
            BootstrapError::MalformedCredential => "software statement lacks an issuer claim",
            BootstrapError::UnsupportedAuthority => "authority does not support dynamic client registration",
            BootstrapError::DecompressionError => "compressed policy bundle is corrupt",
            BootstrapError::StreamDisconnected => "live-sync stream disconnected",
        }
    }
}

} // verus!
