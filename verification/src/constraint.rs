//! Identity constraints and their matching against fetched trusted layers.

use vstd::prelude::*;

use crate::layers::{required_annotations_carried, Annotation, TrustedLayer};
use crate::model::{constraint_matches, ConstraintModel, SubjectMatchModel};
use crate::text::{str_eq, str_starts_with};

verus! {

/// Issuer and exact subject of one keyless identity.
#[derive(Debug)]
pub struct KeylessInfo {
    pub issuer: String,
    pub subject: String,
}

/// Issuer and URL prefix of one keyless identity.
#[derive(Debug)]
pub struct KeylessPrefixInfo {
    pub issuer: String,
    pub url_prefix: String,
}

/// How a keyless constraint compares the certificate's subject claim.
#[derive(Debug)]
pub enum SubjectMatch {
    /// The subject must equal this value.
    Exact(String),
    /// The subject must begin with this normalized URL.
    UrlPrefix(String),
}

impl DeepView for SubjectMatch {
    type V = SubjectMatchModel;

    open spec fn deep_view(&self) -> SubjectMatchModel {
        match self {
            SubjectMatch::Exact(s) => SubjectMatchModel::Exact(s@),
            SubjectMatch::UrlPrefix(p) => SubjectMatchModel::UrlPrefix(p@),
        }
    }
}

/// One identity requirement that a trusted layer must satisfy.
#[derive(Debug)]
pub enum IdentityConstraint {
    /// A signature verifiable under the given key material.
    PublicKey { key: String, annotations: Option<Vec<Annotation>> },
    /// A certificate issued under the Fulcio trust root with this OIDC issuer
    /// and an accepted subject.
    KeylessIdentity { issuer: String, subject: SubjectMatch, annotations: Option<Vec<Annotation>> },
    /// A certificate naming the GitHub Actions OIDC provider whose workflow
    /// identity lies under `owner` (and under `repo` when one is given).
    GithubActionsIdentity { owner: String, repo: Option<String>, annotations: Option<Vec<Annotation>> },
}

impl DeepView for IdentityConstraint {
    type V = ConstraintModel;

    open spec fn deep_view(&self) -> ConstraintModel {
        match self {
            IdentityConstraint::PublicKey { key, annotations } => ConstraintModel::PublicKey {
                key: key@,
                annotations: annotations.deep_view(),
            },
            IdentityConstraint::KeylessIdentity {
                issuer,
                subject,
                annotations,
            } => ConstraintModel::Keyless {
                issuer: issuer@,
                subject: subject.deep_view(),
                annotations: annotations.deep_view(),
            },
            IdentityConstraint::GithubActionsIdentity {
                owner,
                repo,
                annotations,
            } => ConstraintModel::GithubActions {
                owner: owner@,
                repo: repo.deep_view(),
                annotations: annotations.deep_view(),
            },
        }
    }
}

impl IdentityConstraint {
    /// Whether one fetched trusted layer satisfies this constraint.
    ///
    /// `keyless_capable` says whether the client's trust root holds Fulcio
    /// certificate authority material; without it no certificate-based
    /// constraint can match.
    pub fn matches_layer(&self, layer: &TrustedLayer, keyless_capable: bool) -> (r: bool)
        ensures
            r == constraint_matches(self.deep_view(), layer.deep_view(), keyless_capable),
    {
        match self {
            IdentityConstraint::PublicKey { key, annotations } => {
                let key_ok = match &layer.signing_key {
                    Option::Some(k) => *k == *key,
                    Option::None => false,
                };
                key_ok && required_annotations_carried(&layer.annotations, annotations)
            },
            IdentityConstraint::KeylessIdentity { issuer, subject, annotations } => {
                if !keyless_capable {
                    false
                } else {
                    let id_ok = match &layer.certificate_identity {
                        Option::Some(ci) => {
                            let issuer_ok = ci.issuer == *issuer;
                            let subject_ok = match subject {
                                SubjectMatch::Exact(s) => ci.subject == *s,
                                SubjectMatch::UrlPrefix(p) => str_starts_with(
                                    ci.subject.as_str(),
                                    p.as_str(),
                                ),
                            };
                            issuer_ok && subject_ok
                        },
                        Option::None => false,
                    };
                    id_ok && required_annotations_carried(&layer.annotations, annotations)
                }
            },
            IdentityConstraint::GithubActionsIdentity { owner, repo, annotations } => {
                if !keyless_capable {
                    false
                } else {
                    let id_ok = match &layer.certificate_identity {
                        Option::Some(ci) => {
                            let issuer_ok = str_eq(
                                ci.issuer.as_str(),
                                "https://token.actions.githubusercontent.com",
                            );
                            let owner_ok = match &ci.github_workflow_owner {
                                Option::Some(o) => *o == *owner,
                                Option::None => false,
                            };
                            let repo_ok = match repo {
                                Option::None => true,
                                Option::Some(r) => match &ci.github_workflow_repository {
                                    Option::Some(cr) => *cr == *r,
                                    Option::None => false,
                                },
                            };
                            issuer_ok && owner_ok && repo_ok
                        },
                        Option::None => false,
                    };
                    id_ok && required_annotations_carried(&layer.annotations, annotations)
                }
            },
        }
    }
}

} // verus!
