//! Building the connector out of certificate material: classification into
//! the three-way outcome, and every misconfiguration that must be the fatal
//! `ConfigurationInvalid`, never the sentinel.

use mqtt_transport::ConnectError;
use mqtt_transport::Connector;
use mqtt_transport::EstablishAction;
use mqtt_transport::EstablishEvent;
use mqtt_transport::Establisher;
use mqtt_transport::IpAddress;
use mqtt_transport::NetworkStream;
use mqtt_transport::PemFile;
use mqtt_transport::Stage;

/// A self-signed certificate authority, used as test material.
const CA_CERT_PEM: &str = "\
-----BEGIN CERTIFICATE-----\n\
MIIDBTCCAe2gAwIBAgIUEtFRf06AkcpesLUoSxGC9imAlFwwDQYJKoZIhvcNAQEL\n\
BQAwEjEQMA4GA1UEAwwHdGVzdC1jYTAeFw0yNjEwMTIwNTM0MjNaFw0yNzEwMTIw\n\
NTM0MjNaMBIxEDAOBgNVBAMMB3Rlc3QtY2EwggEiMA0GCSqGSIb3DQEBAQUAA4IB\n\
DwAwggEKAoIBAQC/XMC2kfijRYjAFZ62uwxFZqwqvMyd3/q/JOi7QMRjmoluKtMK\n\
4G74LcROxLRYPqDu+d2y/ppZAH8cQpdzPgqKYgdqI2kdr0m3/VsYxuoFbjaM2Af3\n\
qTvM/In2XSPhehvv6jrrVqvTjrAvmAbEOCYm3wgkDiu0ZBtWUPHa7vOQhU0V9F1p\n\
Cjobt2DfwL8c+dJ+gqyBprY0X0miVN8ojDDZ/kDu8Dt9Mw3zM63Duh42jy6zdbWQ\n\
dyV95/OIw9Yog0Q1Gx4tFDtIsBhAg1k5ryC80SxSOcEvdYiKtfz2vI3MoicZtehN\n\
IVJGQMLxTKBo7HBxT+HH/lQ8qtcyRWzrG6tdAgMBAAGjUzBRMB0GA1UdDgQWBBRP\n\
GjTlGnsvZ7jPjm/i8sgetmh6gzAfBgNVHSMEGDAWgBRPGjTlGnsvZ7jPjm/i8sge\n\
tmh6gzAPBgNVHRMBAf8EBTADAQH/MA0GCSqGSIb3DQEBCwUAA4IBAQC5pjEGxNlg\n\
siIGcqBg8StiMgeuyEQ9AmTISyniJsP249OM+DypD6J9vAprWhld99eD2rC26IT7\n\
I96F0b9gCxHTYFuPD89mKO2VD98GVA9o5C3fe4RMvwDSIZGxgJ9hS/1mVUHm/d5O\n\
b+guc2vHs5jJs4c48qiR9hXs+unhXUhMFNXeRZd8VJ88VPhufyaCsZupHoWX9Lr8\n\
u7U1yZSl7/ePKPbgnmJ+Qdwl3LYYgYs1GtT+fzvRuyWGpwnVGuIhemsBy1a6bu3J\n\
rcST9Z4y0Zn8zQENRCOPXzigkmKXcVgwT+E8O26ZxssYfwEhftk6lzg0TWt1P9CF\n\
ro/f4cTX6wfM\n\
-----END CERTIFICATE-----\n\
";

/// A client certificate signed by the test authority.
const CLIENT_CERT_PEM: &str = "\
-----BEGIN CERTIFICATE-----\n\
MIIC+DCCAeCgAwIBAgIUe1+Y34Ikl1gNo3sSHq1+KacDlGkwDQYJKoZIhvcNAQEL\n\
BQAwEjEQMA4GA1UEAwwHdGVzdC1jYTAeFw0yNjEwMTIwNTM0MjNaFw0yNzEwMTIw\n\
NTM0MjNaMBYxFDASBgNVBAMMC3Rlc3QtY2xpZW50MIIBIjANBgkqhkiG9w0BAQEF\n\
AAOCAQ8AMIIBCgKCAQEAqBK2kTqxq+rPAZMxBGpMrldB0VWO75cgr/iX8qDwS5ml\n\
d5xQpMxbTcH7F/p/lbL78HcrxfeCWaqhWnHQ/Rxx6i9DEcK9OAMjaHkUqsNwm5vr\n\
9HkTq3MiGDVtiYdaJFCKmtw2KnfPWFVpsbtNgUY/sncNkLaPTqH3ahcYaG7mUU8M\n\
jvLcrT7cwCvNG+kFpi6wGYfySH7yVHtlfkS7luL1NGBO5E/o/CLdgjxnnbdXowH3\n\
maaGYgPspWVv4cO+r4NhQsn9F+8YKyHjAuQexghBn/1POdCX4FniAbntbzuYSFFK\n\
D5Jfu8mDT02G/F90YVaoXLpW3qj7Tqm7eKcDNmhy4QIDAQABo0IwQDAdBgNVHQ4E\n\
FgQURdYHe1pfwB2JTzN4GwLLXIcFiMAwHwYDVR0jBBgwFoAUTxo05Rp7L2e4z45v\n\
4vLIHrZoeoMwDQYJKoZIhvcNAQELBQADggEBAIyHKWO2j0434AML5HAOJ/GfA+hS\n\
/izIGWBetmg6mG3t6JsEJFDJkfQd2z+zaRgLbFiH1HVRgIPAyHtbsHrMBQWqOcT9\n\
aP3Ryc6kNaJ6sTFPcV+g5M03/wnY7v/KUKCaLQrKLglmV9nqSlsOs7MJzTb1v53u\n\
+rAMtEw9mIS1xvcIracVobyzEelmkO6iJKL9IfU3dP7DZXu/WHhbfDPAJ+k/wHbn\n\
aclMO0t+g/F197Yg9bP4GhD3RdOpdkeLlQZD7yPWfnSJf6T7oOOX9v+MN+QAn2BQ\n\
fbpy3KUWkGM2QQ5g7qsW3uxjkqiTCgX8H5dYFCW2CxZvYMSNg1q/BXMM8fU=\n\
-----END CERTIFICATE-----\n\
";

/// The PKCS#1 RSA private key belonging to the client certificate.
const CLIENT_KEY_PEM: &str = "\
SECRET-REDACTED\n\
";

fn pem(s: &str) -> PemFile {
    PemFile::Contents(s.as_bytes().to_vec())
}

#[test]
fn unconfigured_builder_yields_sentinel() {
    let b = NetworkStream::builder();
    let r = b.build_connector(
        PemFile::NotConfigured,
        PemFile::NotConfigured,
        PemFile::NotConfigured,
    );
    assert!(matches!(r, Ok(Connector::NoEncryption)));
}

#[test]
fn sentinel_is_not_encrypted() {
    assert!(!Connector::NoEncryption.is_encrypted());
}

#[test]
fn ca_only_yields_server_auth_factory() {
    let b = NetworkStream::builder().add_certificate_authority("ca.pem".to_string());
    let r = b.build_connector(pem(CA_CERT_PEM), PemFile::NotConfigured, PemFile::NotConfigured);
    let c = r.expect("a valid CA file must yield a factory");
    assert!(matches!(c, Connector::ServerAuthOnly(_)));
    assert!(c.is_encrypted());
}

#[test]
fn ca_with_client_identity_yields_mutual_auth_factory() {
    let b = NetworkStream::builder()
        .add_certificate_authority("ca.pem".to_string())
        .add_client_auth("client.pem".to_string(), "client.key".to_string());
    let r = b.build_connector(pem(CA_CERT_PEM), pem(CLIENT_CERT_PEM), pem(CLIENT_KEY_PEM));
    // With a CA and an identity pair configured, the classification is
    // pinned: a factory is mutual-auth — never the sentinel, never
    // server-auth-only — and the only error is the fatal configuration one.
    // Whether the TLS stack's cryptography provider accepts this particular
    // RSA key on this machine is its own decision, which the contract
    // leaves open.
    match r {
        Ok(c) => {
            assert!(matches!(c, Connector::MutualAuth(_)));
            assert!(c.is_encrypted());
        }
        Err(e) => assert_eq!(e, ConnectError::ConfigurationInvalid),
    }
}

#[test]
fn unreadable_ca_is_configuration_invalid_not_sentinel() {
    let b = NetworkStream::builder().add_certificate_authority("missing.pem".to_string());
    let r = b.build_connector(PemFile::Unreadable, PemFile::NotConfigured, PemFile::NotConfigured);
    assert!(matches!(r, Err(ConnectError::ConfigurationInvalid)));
}

#[test]
fn malformed_ca_is_configuration_invalid() {
    let b = NetworkStream::builder().add_certificate_authority("ca.pem".to_string());
    let r = b.build_connector(pem("not pem at all"), PemFile::NotConfigured, PemFile::NotConfigured);
    assert!(matches!(r, Err(ConnectError::ConfigurationInvalid)));
}

#[test]
fn ca_without_certificates_is_configuration_invalid() {
    // A well-formed PEM file that holds no CERTIFICATE section at all.
    let b = NetworkStream::builder().add_certificate_authority("ca.pem".to_string());
    let r = b.build_connector(pem(CLIENT_KEY_PEM), PemFile::NotConfigured, PemFile::NotConfigured);
    assert!(matches!(r, Err(ConnectError::ConfigurationInvalid)));
}

#[test]
fn ca_rejected_as_trust_root_is_configuration_invalid() {
    // Parses as a PEM certificate section, but the bytes inside are not a
    // certificate, so adding it as a trust root must fail.
    let fake = "-----BEGIN CERTIFICATE-----\nAAAA\n-----END CERTIFICATE-----\n";
    let b = NetworkStream::builder().add_certificate_authority("ca.pem".to_string());
    let r = b.build_connector(pem(fake), PemFile::NotConfigured, PemFile::NotConfigured);
    assert!(matches!(r, Err(ConnectError::ConfigurationInvalid)));
}

#[test]
fn unreadable_client_key_is_configuration_invalid() {
    let b = NetworkStream::builder()
        .add_certificate_authority("ca.pem".to_string())
        .add_client_auth("client.pem".to_string(), "client.key".to_string());
    let r = b.build_connector(pem(CA_CERT_PEM), pem(CLIENT_CERT_PEM), PemFile::Unreadable);
    assert!(matches!(r, Err(ConnectError::ConfigurationInvalid)));
}

#[test]
fn key_file_without_rsa_key_is_configuration_invalid() {
    // The key file holds a certificate instead of an RSA private key.
    let b = NetworkStream::builder()
        .add_certificate_authority("ca.pem".to_string())
        .add_client_auth("client.pem".to_string(), "client.key".to_string());
    let r = b.build_connector(pem(CA_CERT_PEM), pem(CLIENT_CERT_PEM), pem(CA_CERT_PEM));
    assert!(matches!(r, Err(ConnectError::ConfigurationInvalid)));
}

#[test]
fn configured_paths_are_readable_back() {
    let b = NetworkStream::builder()
        .add_certificate_authority("ca.pem".to_string())
        .add_client_auth("client.pem".to_string(), "client.key".to_string());
    assert_eq!(b.certificate_authority_path().as_deref(), Some("ca.pem"));
    assert_eq!(b.client_cert_path().as_deref(), Some("client.pem"));
    assert_eq!(b.client_private_key_path().as_deref(), Some("client.key"));
}

#[test]
fn secured_scenario_reaches_ready_secured() {
    // Scenario: a valid CA, a listener presenting a certificate signed by
    // it on the TLS port; the handshake succeeds.
    let b = NetworkStream::builder().add_certificate_authority("ca.pem".to_string());
    let c = b
        .build_connector(pem(CA_CERT_PEM), PemFile::NotConfigured, PemFile::NotConfigured)
        .expect("factory");
    let mut m = Establisher::new(&c, 8883);
    assert_eq!(m.next_action(), EstablishAction::Resolve);
    m.step(EstablishEvent::Resolved {
        addresses: vec![IpAddress::V4 { a: 127, b: 0, c: 0, d: 1 }],
    });
    assert!(matches!(m.next_action(), EstablishAction::Connect { .. }));
    m.step(EstablishEvent::Connected);
    assert_eq!(m.next_action(), EstablishAction::Handshake);
    m.step(EstablishEvent::HandshakeCompleted);
    assert!(matches!(m.stage(), Stage::Ready { secured: true, .. }));
    assert_eq!(m.next_action(), EstablishAction::AttachCodec { secured: true });
}

#[test]
fn failed_handshake_fails_with_handshake_failed() {
    // Scenario: the listener requires mutual authentication and the client
    // presents no identity; the handshake is refused.
    let b = NetworkStream::builder().add_certificate_authority("ca.pem".to_string());
    let c = b
        .build_connector(pem(CA_CERT_PEM), PemFile::NotConfigured, PemFile::NotConfigured)
        .expect("factory");
    let mut m = Establisher::new(&c, 8883);
    m.step(EstablishEvent::Resolved {
        addresses: vec![IpAddress::V4 { a: 127, b: 0, c: 0, d: 1 }],
    });
    m.step(EstablishEvent::Connected);
    m.step(EstablishEvent::HandshakeFailed);
    assert_eq!(m.stage(), Stage::Failed { error: ConnectError::HandshakeFailed });
    assert!(m.is_terminal());
}

#[test]
fn mutual_auth_scenario_reaches_ready_secured() {
    // Scenario: a valid CA plus a client identity pair, against a listener
    // requiring mutual authentication; the handshake completes.
    let b = NetworkStream::builder()
        .add_certificate_authority("ca.pem".to_string())
        .add_client_auth("client.pem".to_string(), "client.key".to_string());
    let r = b.build_connector(pem(CA_CERT_PEM), pem(CLIENT_CERT_PEM), pem(CLIENT_KEY_PEM));
    let c = match r {
        Ok(c) => c,
        // The provider refused the key material on this machine: by the
        // contract that can only surface as the fatal configuration error,
        // and no factory exists to drive the scenario with.
        Err(e) => {
            assert_eq!(e, ConnectError::ConfigurationInvalid);
            return;
        }
    };
    assert!(matches!(c, Connector::MutualAuth(_)));
    let mut m = Establisher::new(&c, 8883);
    m.step(EstablishEvent::Resolved {
        addresses: vec![IpAddress::V4 { a: 10, b: 0, c: 0, d: 5 }],
    });
    m.step(EstablishEvent::Connected);
    m.step(EstablishEvent::HandshakeCompleted);
    assert!(matches!(m.stage(), Stage::Ready { secured: true, .. }));
}
