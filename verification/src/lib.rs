//! Loading of PEM-encoded TLS credentials and assembly of TLS configurations.
//!
//! The crate decodes PEM buffers into DER-encoded certificates and private
//! keys, selects the credentials a TLS endpoint needs, and assembles them
//! into the trust store, client configuration and server configuration that
//! the `rustls` engine consumes. The decoding, selection and error semantics
//! are verified; the PEM framing and the TLS engine itself are relied upon
//! through narrow trusted wrappers.

pub mod assemble;
pub mod error;
pub mod loader;
pub mod pem;

pub use assemble::{build_client_config, build_server_config};
pub use assemble::{create_client_root_cert_store, create_client_tls_connector};
pub use assemble::create_server_tls_acceptor;
pub use error::{CredentialKind, TlsSetupError};
pub use loader::{KeyFormat, PrivateKey};
pub use loader::{client_load_ca_cert_chain, server_load_server_cert_chain};
pub use loader::{load_certificate_chain, load_private_key, server_load_single_key};
