//! Container-image signature trust verification.
//!
//! Given an image's fetched signature material and a declared identity/trust
//! policy, this crate decides whether the signatures satisfy the policy, and
//! hands back the resolved content digest only when trust is established.
//! Network fetching and the cryptographic validation of certificates and
//! signatures are performed by outside collaborators; this crate models their
//! results as plain values and verifies every decision taken on them.

pub mod certificate;
pub mod client;
pub mod constraint;
pub mod errors;
pub mod layers;
pub mod model;
pub mod policy;
pub mod text;
pub mod trust_root;
pub mod url_check;

pub use client::{
    github_actions_policy, keyless_policy, keyless_prefix_policy, public_key_policy, Client,
    ConstructionWarning,
};
pub use constraint::{IdentityConstraint, KeylessInfo, KeylessPrefixInfo, SubjectMatch};
pub use errors::{InputFault, VerificationError, VerificationFailureDetail};
pub use layers::{
    Annotation, CertificateIdentity, FetchedMaterial, TrustedLayer, VerificationResponse,
};
pub use policy::VerificationPolicy;
pub use trust_root::TrustRoot;
