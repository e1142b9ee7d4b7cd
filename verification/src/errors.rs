//! The classified failures of a connection attempt.

use vstd::prelude::*;

verus! {

/// Why a connection attempt failed. Each stage of the establishment sequence
/// maps its failure to exactly one of these; the "no encryption requested"
/// outcome is deliberately *not* here — it is an expected branch, carried by
/// [`crate::Connector::NoEncryption`], never an error.
#[derive(Clone, Copy, Debug, PartialEq, Eq, Structural)]
pub enum ConnectError {
    /// A certificate-authority or client-identity file was unreadable or
    /// unparsable.
    ConfigurationInvalid,
    /// Name resolution yielded no IPv4 address for the host.
    AddressUnresolved,
    /// The socket-level connect failed (refused, timeout, unreachable).
    ConnectFailed,
    /// The encrypted handshake or identity verification failed.
    HandshakeFailed,
}

} // verus!
