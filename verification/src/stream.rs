//! The polymorphic transport stream.
//!
//! A tagged union over exactly two variants — a plain socket connection and
//! a certificate-secured connection — so that higher layers treat both
//! identically. The variant is fixed at construction and never changes for
//! the lifetime of the value. The byte-level operations (read, write,
//! flush, shutdown) are pure pass-through to the held connection and are
//! asynchronous; they are performed by the host process, which dispatches
//! on the variant and forwards each call verbatim.

use vstd::prelude::*;

use tokio::net::TcpStream;
use tokio_rustls::client::TlsStream;

use crate::config::NetworkStreamBuilder;

verus! {

/// Declares `tokio`'s plain socket connection; opaque to verified code.
#[verifier::external_type_specification]
#[verifier::external_body]
pub struct ExTcpStream(TcpStream);

/// Declares `tokio-rustls`'s client-side secured connection over an inner
/// stream; opaque to verified code.
#[verifier::external_type_specification]
#[verifier::external_body]
#[verifier::reject_recursive_types(IO)]
pub struct ExTlsStream<IO>(TlsStream<IO>);

/// The byte stream handed to the frame codec: either a plain socket
/// connection or a certificate-secured one. Exclusively owned by the caller
/// that received it; dropping it closes the underlying socket.
pub enum NetworkStream {
    Tcp(TcpStream),
    Tls(TlsStream<TcpStream>),
}

impl NetworkStream {
    /// An empty configuration builder: the entry point of the fluent
    /// configuration surface.
    pub fn builder() -> (r: NetworkStreamBuilder)
        ensures
            r@.ca is None,
            r@.cert is None,
            r@.key is None,
            r.wf(),
    {
        NetworkStreamBuilder::new()
    }

    /// Wraps a successfully opened plain socket connection; the variant is
    /// fixed here for the lifetime of the value.
    pub fn wrap_plain(connection: TcpStream) -> (r: NetworkStream)
        ensures
            r is Tcp,
    {
        NetworkStream::Tcp(connection)
    }

    /// Wraps a connection whose encrypted handshake completed; the variant
    /// is fixed here for the lifetime of the value.
    pub fn wrap_secured(connection: TlsStream<TcpStream>) -> (r: NetworkStream)
        ensures
            r is Tls,
    {
        NetworkStream::Tls(connection)
    }

    /// Which variant this stream holds; fixed at construction.
    pub fn is_secured(&self) -> (r: bool)
        ensures
            r == (self is Tls),
    {
        match self {
            NetworkStream::Tcp(_) => false,
            NetworkStream::Tls(_) => true,
        }
    }
}

} // verus!
