//! Failures of credential loading and configuration assembly.
//!
//! Every failure is fatal to the operation that raised it: re-reading the
//! same bytes cannot change the outcome, so nothing here is retried.

use vstd::prelude::*;

verus! {

/// Which credential a loading operation was looking for.
#[derive(Clone, Copy, Debug, PartialEq, Eq, Structural)]
pub enum CredentialKind {
    Certificate,
    PrivateKey,
}

/// Why credential loading or configuration assembly failed.
#[derive(Clone, Debug)]
pub enum TlsSetupError {
    /// The expected certificate or key was absent from the decoded PEM
    /// content of the named source.
    MissingCredential { source: String, kind: CredentialKind },
    /// The PEM framing or base64 content of the named source could not be
    /// parsed.
    MalformedPem { source: String },
    /// The TLS engine refused to build a configuration from otherwise
    /// well-formed credentials.
    TlsEngineRejected,
}

impl TlsSetupError {
    /// True of a missing-credential failure over the given source label and
    /// credential kind.
    pub open spec fn is_missing(self, source: Seq<char>, kind: CredentialKind) -> bool {
        &&& self matches TlsSetupError::MissingCredential { source: s, kind: k }
        &&& s@ == source
        &&& k == kind
    }

    /// True of a malformed-content failure over the given source label.
    pub open spec fn is_malformed(self, source: Seq<char>) -> bool {
        &&& self matches TlsSetupError::MalformedPem { source: s }
        &&& s@ == source
    }

    /// A short phrase naming the failure; the `source` field carries the
    /// label of the credential source it concerns.
    pub fn phrase(&self) -> (r: &'static str)
        ensures
            self is MissingCredential && self->kind is Certificate ==> r@
                == "no certificates found"@,
            self is MissingCredential && self->kind is PrivateKey ==> r@
                == "no private key found"@,
            self is MalformedPem ==> r@ == "malformed PEM content"@,
            self is TlsEngineRejected ==> r@ == "rejected by the TLS engine"@,
    {
        match self {
            TlsSetupError::MissingCredential { kind: CredentialKind::Certificate, .. } => {
                "no certificates found"
            }
            TlsSetupError::MissingCredential { kind: CredentialKind::PrivateKey, .. } => {
                "no private key found"
            }
            TlsSetupError::MalformedPem { .. } => "malformed PEM content",
            TlsSetupError::TlsEngineRejected => "rejected by the TLS engine",
        }
    }
}

} // verus!
