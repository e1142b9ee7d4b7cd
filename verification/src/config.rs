//! The TLS configuration builder and its three-way outcome.
//!
//! Certificate material is accumulated fluently as filesystem paths; the
//! single `build_connector` call classifies the configuration into an
//! explicit outcome: no encryption requested (an expected branch, not an
//! error), server authentication only, or mutual authentication. The host
//! process reads the configured files and hands each one in as a
//! [`PemFile`]; every unreadable or unparsable file is the fatal
//! `ConfigurationInvalid` error.

use vstd::prelude::*;

use tokio_rustls::TlsConnector;
use tokio_rustls::rustls::RootCertStore;

use crate::errors::ConnectError;
use crate::tls;

verus! {

/// What the host process found at one configured path: the path was never
/// configured, the file could not be read, or its bytes.
#[derive(Debug, Clone)]
pub enum PemFile {
    NotConfigured,
    Unreadable,
    Contents(Vec<u8>),
}

/// The mathematical content of a builder: which of the three paths are
/// configured, each as a sequence of characters.
pub struct BuilderConfig {
    pub ca: Option<Seq<char>>,
    pub cert: Option<Seq<char>>,
    pub key: Option<Seq<char>>,
}

/// Accumulates the optional certificate-authority path and the optional
/// client-identity pair. Validation is deferred entirely to
/// [`NetworkStreamBuilder::build_connector`]; the setters only record.
#[derive(Debug, Clone)]
pub struct NetworkStreamBuilder {
    certificate_authority: Option<String>,
    client_cert: Option<String>,
    client_private_key: Option<String>,
}

impl View for NetworkStreamBuilder {
    type V = BuilderConfig;

    closed spec fn view(&self) -> BuilderConfig {
        BuilderConfig {
            ca: match self.certificate_authority {
                Option::Some(p) => Option::Some(p@),
                Option::None => Option::None,
            },
            cert: match self.client_cert {
                Option::Some(p) => Option::Some(p@),
                Option::None => Option::None,
            },
            key: match self.client_private_key {
                Option::Some(p) => Option::Some(p@),
                Option::None => Option::None,
            },
        }
    }
}

/// The outcome of building: either the designed "no encryption requested"
/// branch, or a handshake factory, which remembers whether a client
/// identity was configured alongside the trust roots.
pub enum Connector {
    NoEncryption,
    ServerAuthOnly(TlsConnector),
    MutualAuth(TlsConnector),
}

impl Connector {
    /// Whether the established connection must go through a handshake:
    /// exactly the non-sentinel outcomes.
    pub fn is_encrypted(&self) -> (r: bool)
        ensures
            r == !(self is NoEncryption),
    {
        match self {
            Connector::NoEncryption => false,
            Connector::ServerAuthOnly(_) => true,
            Connector::MutualAuth(_) => true,
        }
    }
}

impl NetworkStreamBuilder {
    /// A client certificate is only meaningful paired with its private key:
    /// the two paths are configured together or not at all.
    pub open spec fn wf(&self) -> bool {
        self@.cert is Some <==> self@.key is Some
    }

    /// An empty configuration: no certificate authority, no client identity.
    pub fn new() -> (r: NetworkStreamBuilder)
        ensures
            r@.ca is None,
            r@.cert is None,
            r@.key is None,
            r.wf(),
    {
        NetworkStreamBuilder {
            certificate_authority: Option::None,
            client_cert: Option::None,
            client_private_key: Option::None,
        }
    }

    /// Records the certificate-authority path; the file is not touched
    /// until `build_connector`.
    pub fn add_certificate_authority(self, ca: String) -> (r: NetworkStreamBuilder)
        ensures
            r@.ca matches Some(p) && p == ca@,
            r@.cert == self@.cert,
            r@.key == self@.key,
            self.wf() ==> r.wf(),
    {
        NetworkStreamBuilder { certificate_authority: Option::Some(ca), ..self }
    }

    /// Records the mutual-authentication identity: certificate chain path
    /// and private-key path, always supplied together.
    pub fn add_client_auth(self, cert: String, private_key: String) -> (r: NetworkStreamBuilder)
        ensures
            r@.ca == self@.ca,
            r@.cert matches Some(p) && p == cert@,
            r@.key matches Some(p) && p == private_key@,
            r.wf(),
    {
        NetworkStreamBuilder {
            client_cert: Option::Some(cert),
            client_private_key: Option::Some(private_key),
            ..self
        }
    }

    /// The configured certificate-authority path, for the host process to
    /// read.
    pub fn certificate_authority_path(&self) -> (r: &Option<String>)
        ensures
            r matches Some(p) ==> self@.ca == Some(p@),
            r is None ==> self@.ca is None,
    {
        &self.certificate_authority
    }

    /// The configured client-certificate path, for the host process to read.
    pub fn client_cert_path(&self) -> (r: &Option<String>)
        ensures
            r matches Some(p) ==> self@.cert == Some(p@),
            r is None ==> self@.cert is None,
    {
        &self.client_cert
    }

    /// The configured private-key path, for the host process to read.
    pub fn client_private_key_path(&self) -> (r: &Option<String>)
        ensures
            r matches Some(p) ==> self@.key == Some(p@),
            r is None ==> self@.key is None,
    {
        &self.client_private_key
    }

    /// Classifies the configuration and produces the connector.
    ///
    /// Each argument is what the host process found at the corresponding
    /// configured path, and must be `NotConfigured` exactly where no path
    /// was recorded. With no certificate authority the outcome is the
    /// sentinel `NoEncryption` — never an error. With one, the certificate
    /// file must parse into at least one usable trust root, and a
    /// configured identity pair must parse into a chain and an RSA key;
    /// any unreadable or unparsable file is `ConfigurationInvalid`.
    pub fn build_connector(&self, ca: PemFile, client_cert: PemFile, client_key: PemFile) -> (r:
        Result<Connector, ConnectError>)
        requires
            self.wf(),
            (ca is NotConfigured) <==> (self@.ca is None),
            (client_cert is NotConfigured) <==> (self@.cert is None),
            (client_key is NotConfigured) <==> (self@.key is None),
        ensures
            self@.ca is None ==> r == Ok::<Connector, ConnectError>(Connector::NoEncryption),
            r matches Ok(c) ==> ((c is NoEncryption) <==> (self@.ca is None)),
            r matches Ok(c) && c is ServerAuthOnly ==> self@.cert is None,
            r matches Ok(c) && c is MutualAuth ==> self@.cert is Some,
            r matches Err(e) ==> e == ConnectError::ConfigurationInvalid && self@.ca is Some,
            ca is Unreadable ==> r == Err::<Connector, ConnectError>(
                ConnectError::ConfigurationInvalid,
            ),
            self@.ca is Some && (client_cert is Unreadable || client_key is Unreadable) ==> r
                == Err::<Connector, ConnectError>(ConnectError::ConfigurationInvalid),
    {
        let pem = match ca {
            PemFile::NotConfigured => {
                return Ok(Connector::NoEncryption);
            },
            PemFile::Unreadable => {
                return Err(ConnectError::ConfigurationInvalid);
            },
            PemFile::Contents(pem) => pem,
        };
        let mut certs = match tls::pemfile_certs(&pem) {
            Ok(certs) => certs,
            Err(_) => {
                return Err(ConnectError::ConfigurationInvalid);
            },
        };
        if certs.len() == 0 {
            return Err(ConnectError::ConfigurationInvalid);
        }
        let mut roots = RootCertStore::empty();
        while certs.len() > 0
            invariant
                self.wf(),
                self@.ca is Some,
                (client_cert is NotConfigured) <==> (self@.cert is None),
                (client_key is NotConfigured) <==> (self@.key is None),
            decreases certs.len(),
        {
            let cert = certs.remove(0);
            match roots.add(cert) {
                Ok(_) => {},
                Err(_) => {
                    return Err(ConnectError::ConfigurationInvalid);
                },
            }
        }
        match (client_cert, client_key) {
            (PemFile::NotConfigured, PemFile::NotConfigured) => {
                let config = tls::config_server_auth(roots);
                Ok(Connector::ServerAuthOnly(tls::connector_from_config(config)))
            },
            (PemFile::Contents(cert_pem), PemFile::Contents(key_pem)) => {
                let chain = match tls::pemfile_certs(&cert_pem) {
                    Ok(chain) => chain,
                    Err(_) => {
                        return Err(ConnectError::ConfigurationInvalid);
                    },
                };
                if chain.len() == 0 {
                    return Err(ConnectError::ConfigurationInvalid);
                }
                let mut keys = match tls::pemfile_rsa_keys(&key_pem) {
                    Ok(keys) => keys,
                    Err(_) => {
                        return Err(ConnectError::ConfigurationInvalid);
                    },
                };
                if keys.len() == 0 {
                    return Err(ConnectError::ConfigurationInvalid);
                }
                let key = keys.remove(0);
                let config = match tls::config_mutual_auth(roots, chain, key) {
                    Ok(config) => config,
                    Err(_) => {
                        return Err(ConnectError::ConfigurationInvalid);
                    },
                };
                Ok(Connector::MutualAuth(tls::connector_from_config(config)))
            },
            (PemFile::Unreadable, _) | (_, PemFile::Unreadable) => Err(
                ConnectError::ConfigurationInvalid,
            ),
            _ => {
                proof {
                    assert(false);
                }
                Err(ConnectError::ConfigurationInvalid)
            },
        }
    }
}

} // verus!
