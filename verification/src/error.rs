//! Terminal failure kinds of a connection attempt.
//!
//! Every kind is terminal: the pipeline performs exactly one attempt and
//! surfaces the first failure; nothing is retried or recovered.

use vstd::prelude::*;

verus! {

/// The reason a connection attempt ended without a report.
#[derive(Clone, Copy, Debug, PartialEq, Eq, Structural)]
pub enum ErrorKind {
    /// The hostname has no resolvable address.
    ResolutionFailure,
    /// The TCP connection was refused or the host was unreachable, or the
    /// established connection failed during a later write or read.
    ConnectionFailure,
    /// TLS negotiation failed, or no requested protocol version was
    /// acceptable to the peer.
    HandshakeFailure,
    /// A certificate of the peer's chain could not be parsed.
    CertificateDecodeFailure,
    /// The stream closed before the header/body separator appeared.
    MalformedResponse,
    /// An unrecognized protocol-version token was supplied, before any
    /// network activity.
    InvalidConfiguration,
}

impl ErrorKind {
    /// A short label for the failure, for the operator's diagnosis.
    pub fn label(&self) -> (r: &'static str)
        ensures
            self is ResolutionFailure ==> r@ == "resolution failure"@,
            self is ConnectionFailure ==> r@ == "connection failure"@,
            self is HandshakeFailure ==> r@ == "handshake failure"@,
            self is CertificateDecodeFailure ==> r@ == "certificate decode failure"@,
            self is MalformedResponse ==> r@ == "malformed response"@,
            self is InvalidConfiguration ==> r@ == "invalid configuration"@,
    {
        match self {
            ErrorKind::ResolutionFailure => "resolution failure",
            ErrorKind::ConnectionFailure => "connection failure",
            ErrorKind::HandshakeFailure => "handshake failure",
            ErrorKind::CertificateDecodeFailure => "certificate decode failure",
            ErrorKind::MalformedResponse => "malformed response",
            ErrorKind::InvalidConfiguration => "invalid configuration",
        }
    }
}

} // verus!
