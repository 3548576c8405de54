//! Selection of certificate chains and private keys from decoded PEM buffers.
//!
//! A loader decodes a named source buffer, keeps the credential entries it is
//! after, and fails with a descriptive error when the expected credential is
//! absent — a chain must be non-empty, and the first private key found wins.

use vstd::prelude::*;

use crate::error::{CredentialKind, TlsSetupError};
use crate::pem::{cert_payloads, key_payloads, pem_scan};
use crate::pem::{certificates_of, keys_of, parse_pem_blocks};

verus! {

/// The format of a decoded private key.
#[derive(Clone, Copy, Debug, PartialEq, Eq, Structural)]
pub enum KeyFormat {
    Pkcs1,
}

/// A single DER-encoded private key, tagged with its format.
#[derive(Clone, Debug)]
pub struct PrivateKey {
    pub format: KeyFormat,
    pub der: Vec<u8>,
}

/// Loads the certificate chain of the source named `source` from its PEM
/// buffer: every certificate section, as DER bytes, in source order. Fails
/// when the buffer cannot be decoded, or when it holds no certificate at all.
pub fn load_certificate_chain(source: &str, pem: &[u8]) -> (r: Result<
    Vec<Vec<u8>>,
    TlsSetupError,
>)
    ensures
        match pem_scan(pem@) {
            None => r matches Err(e) && e.is_malformed(source@),
            Some(items) => {
                if cert_payloads(items).len() == 0 {
                    r matches Err(e) && e.is_missing(source@, CredentialKind::Certificate)
                } else {
                    r matches Ok(v) && v.deep_view() == cert_payloads(items)
                }
            },
        },
{
    match parse_pem_blocks(pem) {
        None => Err(TlsSetupError::MalformedPem { source: source.to_owned() }),
        Some(blocks) => {
            let certs = certificates_of(&blocks);
            if certs.len() == 0 {
                Err(
                    TlsSetupError::MissingCredential {
                        source: source.to_owned(),
                        kind: CredentialKind::Certificate,
                    },
                )
            } else {
                Ok(certs)
            }
        },
    }
}

/// Loads the private key of the source named `source` from its PEM buffer:
/// the first PKCS#1 key section, as DER bytes; later keys are ignored. Fails
/// when the buffer cannot be decoded, or when it holds no recognised key.
pub fn load_private_key(source: &str, pem: &[u8]) -> (r: Result<PrivateKey, TlsSetupError>)
    ensures
        match pem_scan(pem@) {
            None => r matches Err(e) && e.is_malformed(source@),
            Some(items) => {
                if key_payloads(items).len() == 0 {
                    r matches Err(e) && e.is_missing(source@, CredentialKind::PrivateKey)
                } else {
                    r matches Ok(k) && k.format == KeyFormat::Pkcs1 && k.der@ == key_payloads(
                        items,
                    )[0]
                }
            },
        },
{
    match parse_pem_blocks(pem) {
        None => Err(TlsSetupError::MalformedPem { source: source.to_owned() }),
        Some(blocks) => {
            let mut keys = keys_of(&blocks);
            if keys.len() == 0 {
                Err(
                    TlsSetupError::MissingCredential {
                        source: source.to_owned(),
                        kind: CredentialKind::PrivateKey,
                    },
                )
            } else {
                let der = keys.remove(0);
                proof {
                    assert(der.deep_view() =~= der@);
                }
                Ok(PrivateKey { format: KeyFormat::Pkcs1, der })
            }
        },
    }
}

/// Loads the server's certificate chain from the server certificate source.
pub fn server_load_server_cert_chain(pem: &[u8]) -> (r: Result<Vec<Vec<u8>>, TlsSetupError>)
    ensures
        match pem_scan(pem@) {
            None => r matches Err(e) && e.is_malformed("server.pem"@),
            Some(items) => {
                if cert_payloads(items).len() == 0 {
                    r matches Err(e) && e.is_missing("server.pem"@, CredentialKind::Certificate)
                } else {
                    r matches Ok(v) && v.deep_view() == cert_payloads(items)
                }
            },
        },
{
    load_certificate_chain("server.pem", pem)
}

/// Loads the client's trusted CA certificate chain from the CA source.
pub fn client_load_ca_cert_chain(pem: &[u8]) -> (r: Result<Vec<Vec<u8>>, TlsSetupError>)
    ensures
        match pem_scan(pem@) {
            None => r matches Err(e) && e.is_malformed("ca.pem"@),
            Some(items) => {
                if cert_payloads(items).len() == 0 {
                    r matches Err(e) && e.is_missing("ca.pem"@, CredentialKind::Certificate)
                } else {
                    r matches Ok(v) && v.deep_view() == cert_payloads(items)
                }
            },
        },
{
    load_certificate_chain("ca.pem", pem)
}

/// Loads the server's single private key from the server key source.
pub fn server_load_single_key(pem: &[u8]) -> (r: Result<PrivateKey, TlsSetupError>)
    ensures
        match pem_scan(pem@) {
            None => r matches Err(e) && e.is_malformed("server-key.pem"@),
            Some(items) => {
                if key_payloads(items).len() == 0 {
                    r matches Err(e) && e.is_missing("server-key.pem"@, CredentialKind::PrivateKey)
                } else {
                    r matches Ok(k) && k.format == KeyFormat::Pkcs1 && k.der@ == key_payloads(
                        items,
                    )[0]
                }
            },
        },
{
    load_private_key("server-key.pem", pem)
}

} // verus!
