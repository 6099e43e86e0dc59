//! Error kinds surfaced by the verification operations.
//!
//! Every operation either returns a trusted response or one of these errors;
//! absence of trust is never reported through a degraded success value.

use vstd::prelude::*;

verus! {

/// Why an operation's input was rejected before any fetch was attempted.
#[derive(Clone, Copy, Debug, PartialEq, Eq, Structural)]
pub enum InputFault {
    /// The identity list handed to the operation was empty.
    EmptyIdentityList,
    /// The GitHub Actions owner string was empty.
    EmptyOwner,
    /// A keyless URL prefix did not parse as a URL.
    MalformedUrlPrefix,
}

/// What kept fetched signature material from satisfying the constraints.
#[derive(Clone, Copy, Debug, PartialEq, Eq, Structural)]
pub enum VerificationFailureDetail {
    /// Some constraint was matched by no trusted layer.
    NoMatchingConstraint,
    /// The certificate matched a layer, but the layer carried no usable
    /// transparency-log bundle although one was required.
    MissingRekorBundle,
}

/// The error channel of every verification operation.
#[derive(Debug)]
pub enum VerificationError {
    /// The input was rejected before any network access.
    InvalidInput(InputFault),
    /// The registry fetch of the image's signature material failed.
    FetchFailure(String),
    /// Signature material was fetched, but no combination of trusted layers
    /// satisfies the policy or constraint set.
    VerificationFailure(VerificationFailureDetail),
}

} // verus!
