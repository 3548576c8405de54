//! Assembly of TLS configurations from loaded credentials.
//!
//! The client side turns a CA certificate chain into a trust store and a
//! client configuration that presents no client certificate; the server side
//! pairs the server's certificate chain with its private key. The TLS engine
//! (`rustls`, with `tokio_rustls` wrapping its configurations) does the
//! cryptographic work; each call into it stands behind a trusted wrapper
//! whose contract records which credentials went in.

use vstd::prelude::*;

use crate::error::{CredentialKind, TlsSetupError};
use crate::loader::{client_load_ca_cert_chain, load_certificate_chain, load_private_key};
use crate::loader::{KeyFormat, PrivateKey};
use crate::pem::{cert_payloads, key_payloads, pem_scan};

verus! {

#[verifier::external_type_specification]
#[verifier::external_body]
pub struct ExRootCertStore(rustls::RootCertStore);

#[verifier::external_type_specification]
#[verifier::external_body]
pub struct ExClientConfig(rustls::ClientConfig);

#[verifier::external_type_specification]
#[verifier::external_body]
pub struct ExServerConfig(rustls::ServerConfig);

#[verifier::external_type_specification]
#[verifier::external_body]
pub struct ExRustlsError(rustls::Error);

#[verifier::external_type_specification]
#[verifier::external_body]
pub struct ExTlsConnector(tokio_rustls::TlsConnector);

#[verifier::external_type_specification]
#[verifier::external_body]
pub struct ExTlsAcceptor(tokio_rustls::TlsAcceptor);

/// Whether the TLS engine can derive a trust anchor from these DER bytes;
/// this is what `rustls::RootCertStore::add` requires of a certificate, and
/// it depends on the bytes alone.
pub uninterp spec fn anchor_accepted(der: Seq<u8>) -> bool;

/// The DER certificates a trust store was built from, in insertion order.
pub uninterp spec fn store_roots(store: rustls::RootCertStore) -> Seq<Seq<u8>>;

/// The DER certificates a client configuration trusts as roots.
pub uninterp spec fn config_roots(config: rustls::ClientConfig) -> Seq<Seq<u8>>;

/// The DER certificates a TLS connector trusts as roots.
pub uninterp spec fn connector_roots(connector: tokio_rustls::TlsConnector) -> Seq<Seq<u8>>;

/// Whether the TLS engine accepts this certificate chain and PKCS#1 key DER
/// as a matching server identity; this is what `with_single_cert` checks, and
/// with a fixed cryptographic provider it depends on the bytes alone.
pub uninterp spec fn single_cert_accepted(chain: Seq<Seq<u8>>, key_der: Seq<u8>) -> bool;

/// The DER certificate chain a server configuration presents.
pub uninterp spec fn server_config_chain(config: rustls::ServerConfig) -> Seq<Seq<u8>>;

/// The PKCS#1 key DER a server configuration signs with.
pub uninterp spec fn server_config_key(config: rustls::ServerConfig) -> Seq<u8>;

/// The DER certificate chain a TLS acceptor presents.
pub uninterp spec fn acceptor_chain(acceptor: tokio_rustls::TlsAcceptor) -> Seq<Seq<u8>>;

/// The PKCS#1 key DER a TLS acceptor signs with.
pub uninterp spec fn acceptor_key(acceptor: tokio_rustls::TlsAcceptor) -> Seq<u8>;

/// Relies on `rustls::RootCertStore::empty`: it returns a store with no
/// roots.
#[verifier::external_body]
fn empty_root_store() -> (store: rustls::RootCertStore)
    ensures
        store_roots(store) == Seq::<Seq<u8>>::empty(),
{
    rustls::RootCertStore::empty()
}

/// Relies on `rustls::RootCertStore::add`: it derives a trust anchor from the
/// DER bytes and appends it, and on failure returns the error without having
/// changed the store.
#[verifier::external_body]
fn add_root(store: &mut rustls::RootCertStore, der: &Vec<u8>) -> (r: Result<(), rustls::Error>)
    ensures
        r is Ok <==> anchor_accepted(der@),
        r is Ok ==> store_roots(*final(store)) == store_roots(*old(store)).push(der@),
        r is Err ==> store_roots(*final(store)) == store_roots(*old(store)),
{
    store.add(rustls::pki_types::CertificateDer::from(der.clone()))
}

/// Relies on `rustls::ClientConfig::builder` with `with_root_certificates`
/// and `with_no_client_auth`: the configuration trusts exactly the roots of
/// the given store and presents no client certificate. The builder returns
/// normally because exactly one cryptographic provider is compiled in.
#[verifier::external_body]
fn client_config_with_roots(store: rustls::RootCertStore) -> (config: rustls::ClientConfig)
    ensures
        config_roots(config) == store_roots(store),
{
    rustls::ClientConfig::builder().with_root_certificates(store).with_no_client_auth()
}

/// Relies on `tokio_rustls::TlsConnector::from`: the connector carries the
/// given configuration unchanged.
#[verifier::external_body]
fn connector_from_config(config: rustls::ClientConfig) -> (connector: tokio_rustls::TlsConnector)
    ensures
        connector_roots(connector) == config_roots(config),
{
    tokio_rustls::TlsConnector::from(std::sync::Arc::new(config))
}

/// Relies on `rustls::ServerConfig::builder` with `with_no_client_auth` and
/// `with_single_cert`: the configuration presents exactly this chain and
/// signs with this key, and building fails exactly when the engine rejects
/// the key or its mismatch with the chain's end-entity certificate. The
/// builder returns normally because exactly one cryptographic provider is
/// compiled in.
#[verifier::external_body]
fn server_config_with_single_cert(chain: &Vec<Vec<u8>>, key: &PrivateKey) -> (r: Result<
    rustls::ServerConfig,
    rustls::Error,
>)
    ensures
        r is Ok <==> single_cert_accepted(chain.deep_view(), key.der@),
        r matches Ok(config) ==> server_config_chain(config) == chain.deep_view()
            && server_config_key(config) == key.der@,
{
    let certs: Vec<rustls::pki_types::CertificateDer<'static>> =
        chain.iter().map(|c| rustls::pki_types::CertificateDer::from(c.clone())).collect();
    let key_der = match key.format {
        KeyFormat::Pkcs1 => rustls::pki_types::PrivateKeyDer::Pkcs1(
            rustls::pki_types::PrivatePkcs1KeyDer::from(key.der.clone()),
        ),
    };
    rustls::ServerConfig::builder().with_no_client_auth().with_single_cert(certs, key_der)
}

/// Relies on `tokio_rustls::TlsAcceptor::from`: the acceptor carries the
/// given configuration unchanged.
#[verifier::external_body]
fn acceptor_from_config(config: rustls::ServerConfig) -> (acceptor: tokio_rustls::TlsAcceptor)
    ensures
        acceptor_chain(acceptor) == server_config_chain(config),
        acceptor_key(acceptor) == server_config_key(config),
{
    tokio_rustls::TlsAcceptor::from(std::sync::Arc::new(config))
}

/// What a client-side build owes for a CA buffer: a value built from exactly
/// the buffer's certificates when every one of them yields a trust anchor,
/// and the error naming the first obstacle otherwise.
pub open spec fn client_build_obligation<T>(
    ca_data: Seq<u8>,
    r: Result<T, TlsSetupError>,
    built_roots: spec_fn(T) -> Seq<Seq<u8>>,
) -> bool {
    match pem_scan(ca_data) {
        None => r matches Err(e) && e.is_malformed("ca.pem"@),
        Some(items) => {
            let certs = cert_payloads(items);
            if certs.len() == 0 {
                r matches Err(e) && e.is_missing("ca.pem"@, CredentialKind::Certificate)
            } else if forall|i: int| 0 <= i < certs.len() ==> anchor_accepted(#[trigger] certs[i]) {
                r matches Ok(v) && built_roots(v) == certs
            } else {
                r matches Err(e) && e is TlsEngineRejected
            }
        },
    }
}

/// Builds the client's trust store from the CA source's PEM buffer: every
/// certificate of the buffer, inserted in source order. Fails when the buffer
/// cannot be decoded, holds no certificate, or holds a certificate the engine
/// cannot derive a trust anchor from.
pub fn create_client_root_cert_store(ca_pem: &[u8]) -> (r: Result<
    rustls::RootCertStore,
    TlsSetupError,
>)
    ensures
        client_build_obligation(ca_pem@, r, |s: rustls::RootCertStore| store_roots(s)),
{
    let chain = match client_load_ca_cert_chain(ca_pem) {
        Ok(chain) => chain,
        Err(e) => {
            return Err(e);
        },
    };
    let ghost certs = chain.deep_view();
    let mut store = empty_root_store();
    let mut i: usize = 0;
    while i < chain.len()
        invariant
            i <= chain.len(),
            certs == chain.deep_view(),
            pem_scan(ca_pem@) matches Some(items) && cert_payloads(items) == certs
                && certs.len() > 0,
            store_roots(store) == certs.take(i as int),
            forall|j: int| 0 <= j < i ==> anchor_accepted(#[trigger] certs[j]),
        decreases chain.len() - i,
    {
        proof {
            assert(certs[i as int] =~= chain@[i as int]@);
        }
        match add_root(&mut store, &chain[i]) {
            Ok(_) => {},
            Err(_) => {
                proof {
                    assert(!anchor_accepted(certs[i as int]));
                    match pem_scan(ca_pem@) {
                        Some(items) => {
                            assert(cert_payloads(items) == certs);
                            assert(!anchor_accepted(cert_payloads(items)[i as int]));
                        },
                        None => {
                            assert(false);
                        },
                    }
                }
                return Err(TlsSetupError::TlsEngineRejected);
            },
        }
        proof {
            assert(certs.take(i + 1) =~= certs.take(i as int).push(certs[i as int]));
        }
        i += 1;
    }
    proof {
        assert(certs.take(chain@.len() as int) =~= certs);
    }
    Ok(store)
}

/// Builds the client's TLS configuration: the CA buffer's certificates as
/// trust roots, and no client certificate presented.
pub fn build_client_config(ca_pem: &[u8]) -> (r: Result<rustls::ClientConfig, TlsSetupError>)
    ensures
        client_build_obligation(ca_pem@, r, |c: rustls::ClientConfig| config_roots(c)),
{
    match create_client_root_cert_store(ca_pem) {
        Ok(store) => Ok(client_config_with_roots(store)),
        Err(e) => Err(e),
    }
}

/// Builds the TLS connector a client uses to upgrade an outbound stream: its
/// configuration trusts exactly the CA buffer's certificates.
pub fn create_client_tls_connector(ca_pem: &[u8]) -> (r: Result<
    tokio_rustls::TlsConnector,
    TlsSetupError,
>)
    ensures
        client_build_obligation(ca_pem@, r, |t: tokio_rustls::TlsConnector| connector_roots(t)),
{
    match build_client_config(ca_pem) {
        Ok(config) => Ok(connector_from_config(config)),
        Err(e) => Err(e),
    }
}

/// What a server-side build owes for the certificate and key buffers: a value
/// built from exactly the buffer's certificate chain and first private key
/// when the engine accepts them as a matching identity, and the error naming
/// the first obstacle otherwise.
pub open spec fn server_build_obligation<T>(
    cert_data: Seq<u8>,
    key_data: Seq<u8>,
    r: Result<T, TlsSetupError>,
    built_chain: spec_fn(T) -> Seq<Seq<u8>>,
    built_key: spec_fn(T) -> Seq<u8>,
) -> bool {
    match pem_scan(cert_data) {
        None => r matches Err(e) && e.is_malformed("server.pem"@),
        Some(cert_items) => {
            let chain = cert_payloads(cert_items);
            if chain.len() == 0 {
                r matches Err(e) && e.is_missing("server.pem"@, CredentialKind::Certificate)
            } else {
                match pem_scan(key_data) {
                    None => r matches Err(e) && e.is_malformed("server-key.pem"@),
                    Some(key_items) => {
                        let keys = key_payloads(key_items);
                        if keys.len() == 0 {
                            r matches Err(e) && e.is_missing(
                                "server-key.pem"@,
                                CredentialKind::PrivateKey,
                            )
                        } else if single_cert_accepted(chain, keys[0]) {
                            r matches Ok(v) && built_chain(v) == chain && built_key(v) == keys[0]
                        } else {
                            r matches Err(e) && e is TlsEngineRejected
                        }
                    },
                }
            }
        },
    }
}

/// Builds the server's TLS configuration: the certificate buffer's chain
/// paired with the key buffer's first private key, and no client certificate
/// required. Fails when either buffer cannot be decoded, the expected
/// credential is absent, or the engine rejects the key/certificate pairing —
/// a mismatched pair never yields a usable configuration.
pub fn build_server_config(cert_pem: &[u8], key_pem: &[u8]) -> (r: Result<
    rustls::ServerConfig,
    TlsSetupError,
>)
    ensures
        server_build_obligation(
            cert_pem@,
            key_pem@,
            r,
            |c: rustls::ServerConfig| server_config_chain(c),
            |c: rustls::ServerConfig| server_config_key(c),
        ),
{
    let chain = match load_certificate_chain("server.pem", cert_pem) {
        Ok(chain) => chain,
        Err(e) => {
            return Err(e);
        },
    };
    let key = match load_private_key("server-key.pem", key_pem) {
        Ok(key) => key,
        Err(e) => {
            return Err(e);
        },
    };
    match server_config_with_single_cert(&chain, &key) {
        Ok(config) => Ok(config),
        Err(_) => Err(TlsSetupError::TlsEngineRejected),
    }
}

/// Builds the TLS acceptor a server uses to upgrade inbound streams: its
/// configuration presents exactly the certificate buffer's chain and signs
/// with the key buffer's first private key.
pub fn create_server_tls_acceptor(cert_pem: &[u8], key_pem: &[u8]) -> (r: Result<
    tokio_rustls::TlsAcceptor,
    TlsSetupError,
>)
    ensures
        server_build_obligation(
            cert_pem@,
            key_pem@,
            r,
            |a: tokio_rustls::TlsAcceptor| acceptor_chain(a),
            |a: tokio_rustls::TlsAcceptor| acceptor_key(a),
        ),
{
    match build_server_config(cert_pem, key_pem) {
        Ok(config) => Ok(acceptor_from_config(config)),
        Err(e) => Err(e),
    }
}

} // verus!
