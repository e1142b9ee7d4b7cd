//! The trusted boundary to the TLS stack.
//!
//! Certificate parsing, trust-root handling and connector construction are
//! delegated to `rustls-pemfile` and to the `rustls` re-exported by
//! `tokio-rustls`; each item here either declares one of their types so that
//! verified code can carry its values, or wraps exactly one of their calls.
//! Nothing about certificate contents is claimed: the values stay opaque,
//! and the verified configuration logic decides only on what the calls
//! return (success, failure, and how many items were parsed).

use vstd::prelude::*;

use std::sync::Arc;
use tokio_rustls::TlsConnector;
use tokio_rustls::rustls::ClientConfig;
use tokio_rustls::rustls::RootCertStore;
use tokio_rustls::rustls::pki_types::CertificateDer;
use tokio_rustls::rustls::pki_types::PrivateKeyDer;

verus! {

/// Declares `rustls`'s client configuration so its values can flow through
/// verified code; it stays opaque.
#[verifier::external_type_specification]
#[verifier::external_body]
pub struct ExClientConfig(ClientConfig);

/// Declares `rustls`'s set of trust roots; opaque to verified code.
#[verifier::external_type_specification]
#[verifier::external_body]
pub struct ExRootCertStore(RootCertStore);

/// Declares `tokio-rustls`'s handshake factory; opaque to verified code.
#[verifier::external_type_specification]
#[verifier::external_body]
pub struct ExTlsConnector(TlsConnector);

/// Declares a DER-encoded certificate as parsed out of a PEM file; opaque.
#[verifier::external_type_specification]
#[verifier::external_body]
pub struct ExCertificateDer<'a>(CertificateDer<'a>);

/// Declares a DER-encoded private key as parsed out of a PEM file; opaque.
#[verifier::external_type_specification]
#[verifier::external_body]
pub struct ExPrivateKeyDer<'a>(PrivateKeyDer<'a>);

/// Declares `rustls`'s error type, so a failed call can be told apart from a
/// successful one and mapped to this crate's error.
#[verifier::external_type_specification]
#[verifier::external_body]
pub struct ExRustlsError(tokio_rustls::rustls::Error);

/// Declares `std::io::Error`, the error type of the PEM parsers.
#[verifier::external_type_specification]
#[verifier::external_body]
pub struct ExIoError(std::io::Error);

/// Relies on `rustls_pemfile::certs`: reads every PEM `CERTIFICATE` section
/// out of the given bytes, in order, and fails on a malformed section.
#[verifier::external_body]
pub(crate) fn pemfile_certs(pem: &Vec<u8>) -> (r: Result<
    Vec<CertificateDer<'static>>,
    std::io::Error,
>) {
    let mut rd: &[u8] = pem.as_slice();
    rustls_pemfile::certs(&mut rd).collect()
}

/// Relies on `rustls_pemfile::rsa_private_keys`: reads every PEM
/// `RSA PRIVATE KEY` section out of the given bytes, in order, and fails on
/// a malformed section. Each PKCS#1 key is converted one-for-one into the
/// general key type that the configuration call takes.
#[verifier::external_body]
pub(crate) fn pemfile_rsa_keys(pem: &Vec<u8>) -> (r: Result<
    Vec<PrivateKeyDer<'static>>,
    std::io::Error,
>) {
    let mut rd: &[u8] = pem.as_slice();
    rustls_pemfile::rsa_private_keys(&mut rd)
        .map(|key| key.map(PrivateKeyDer::from))
        .collect()
}

/// Relies on `rustls::RootCertStore::empty`: a store holding no trust roots.
pub assume_specification[ RootCertStore::empty ]() -> RootCertStore;

/// Relies on `rustls::RootCertStore::add`: parses one DER certificate into a
/// trust root, failing on a certificate that cannot stand as one.
pub assume_specification[ RootCertStore::add ](
    store: &mut RootCertStore,
    der: CertificateDer<'_>,
) -> Result<(), tokio_rustls::rustls::Error>;

/// Relies on `rustls::ClientConfig::builder` followed by
/// `with_root_certificates` and `with_no_client_auth`: a client
/// configuration that verifies the server against the given trust roots and
/// presents no client identity. The builder chain is one type-state
/// construction; it uses the single compiled-in cryptography provider.
#[verifier::external_body]
pub(crate) fn config_server_auth(roots: RootCertStore) -> (r: ClientConfig) {
    ClientConfig::builder().with_root_certificates(roots).with_no_client_auth()
}

/// Relies on `rustls::ClientConfig::builder` followed by
/// `with_root_certificates` and `with_client_auth_cert`: a client
/// configuration for mutual authentication; fails if the certificate chain
/// and private key do not form a usable identity.
#[verifier::external_body]
pub(crate) fn config_mutual_auth(
    roots: RootCertStore,
    chain: Vec<CertificateDer<'static>>,
    key: PrivateKeyDer<'static>,
) -> (r: Result<ClientConfig, tokio_rustls::rustls::Error>) {
    ClientConfig::builder().with_root_certificates(roots).with_client_auth_cert(chain, key)
}

/// Relies on `tokio_rustls::TlsConnector::from`: a reusable handshake
/// factory over the finished configuration; each handshake it performs is
/// independent.
#[verifier::external_body]
pub(crate) fn connector_from_config(config: ClientConfig) -> (r: TlsConnector) {
    TlsConnector::from(Arc::new(config))
}

} // verus!
