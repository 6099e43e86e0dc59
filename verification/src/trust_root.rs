//! Trust-root material: how certificates and transparency-log entries are to
//! be validated.

use vstd::prelude::*;

verus! {

/// Immutable description of the certificate-authority and transparency-log
/// material a client validates against.
#[derive(Debug)]
pub enum TrustRoot {
    /// Sourced from a fetched, versioned trust-root repository snapshot.
    FromRepository { fulcio_certs: Vec<Vec<u8>>, rekor_public_key: String },
    /// Caller-supplied raw material; each part is independently optional.
    FromCustomData { rekor_public_key: Option<String>, fulcio_certs: Vec<Vec<u8>> },
    /// No trust material at all (degraded mode).
    Absent,
}

impl TrustRoot {
    /// Fulcio certificate authority material is installed, so certificate
    /// ("keyless") identities can be validated.
    pub open spec fn keyless_capable(self) -> bool {
        match self {
            TrustRoot::FromRepository { fulcio_certs, .. } => fulcio_certs@.len() > 0,
            TrustRoot::FromCustomData { fulcio_certs, .. } => fulcio_certs@.len() > 0,
            TrustRoot::Absent => false,
        }
    }

    /// A Rekor public key is installed, so transparency-log bundles can be
    /// validated.
    pub open spec fn rekor_available(self) -> bool {
        match self {
            TrustRoot::FromRepository { .. } => true,
            TrustRoot::FromCustomData { rekor_public_key, .. } => rekor_public_key is Some,
            TrustRoot::Absent => false,
        }
    }

    /// Whether Fulcio certificate authority material is installed.
    pub fn has_fulcio_certs(&self) -> (r: bool)
        ensures
            r == self.keyless_capable(),
    {
        match self {
            TrustRoot::FromRepository { fulcio_certs, .. } => fulcio_certs.len() > 0,
            TrustRoot::FromCustomData { fulcio_certs, .. } => fulcio_certs.len() > 0,
            TrustRoot::Absent => false,
        }
    }

    /// Whether a Rekor public key is installed.
    pub fn has_rekor_key(&self) -> (r: bool)
        ensures
            r == self.rekor_available(),
    {
        match self {
            TrustRoot::FromRepository { .. } => true,
            TrustRoot::FromCustomData { rekor_public_key, .. } => rekor_public_key.is_some(),
            TrustRoot::Absent => false,
        }
    }
}

} // verus!
