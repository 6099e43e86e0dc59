//! The verification client and the five verification operations.
//!
//! Each identity-based operation runs in two stages. The pre-fetch stage
//! (`*_policy`) validates the input and builds the policy: on its error no
//! fetch is to be performed. The post-fetch stage (`evaluate_policy`)
//! evaluates the policy against the fetched material. The `verify_*`
//! operations compose both stages around the outcome of the single registry
//! fetch, which the host performs: fetching is network work and stays with
//! the outside registry collaborator.

use vstd::prelude::*;

use crate::certificate::{annotations_matched_by, certificate_matched_by};
use crate::constraint::{IdentityConstraint, KeylessInfo, KeylessPrefixInfo, SubjectMatch};
use crate::errors::{InputFault, VerificationError, VerificationFailureDetail};
use crate::layers::{clone_annotations, Annotation, FetchedMaterial, VerificationResponse};
use crate::model::{
    annotations_matched_somewhere, certificate_matched_somewhere, policy_satisfied,
    ConstraintModel, PolicyModel, SubjectMatchModel,
};
use crate::policy::VerificationPolicy;
use crate::text::clone_opt_string;
use crate::trust_root::TrustRoot;
use crate::url_check::{parse_url, parse_url_spec};

verus! {

/// Advisory diagnostics returned when a client is built without trust
/// material, so that degraded mode is detectable instead of silent.
#[derive(Clone, Copy, Debug, PartialEq, Eq, Structural)]
pub enum ConstructionWarning {
    /// Keyless signatures will be discarded: they cannot be verified.
    KeylessSignaturesUnverifiable,
    /// Transparency-log data will not be used.
    TransparencyLogUnused,
    /// Verification capabilities are limited.
    CapabilitiesLimited,
}

/// The policy built by `verify_public_key`: one `PublicKey` constraint per
/// supplied key, all conjoined in the `all_of` group.
pub open spec fn public_key_policy_model(
    keys: Seq<String>,
    ann: Option<Seq<(Seq<char>, Seq<char>)>>,
) -> PolicyModel {
    PolicyModel {
        all_of: Option::Some(
            Seq::new(keys.len(), |i: int| ConstraintModel::PublicKey { key: keys[i]@, annotations: ann }),
        ),
        any_of: Option::None,
    }
}

/// The policy built by `verify_keyless`: one exact-subject keyless constraint
/// per supplied identity, all conjoined in the `all_of` group.
pub open spec fn keyless_policy_model(
    infos: Seq<KeylessInfo>,
    ann: Option<Seq<(Seq<char>, Seq<char>)>>,
) -> PolicyModel {
    PolicyModel {
        all_of: Option::Some(
            Seq::new(
                infos.len(),
                |i: int| ConstraintModel::Keyless {
                    issuer: infos[i].issuer@,
                    subject: SubjectMatchModel::Exact(infos[i].subject@),
                    annotations: ann,
                },
            ),
        ),
        any_of: Option::None,
    }
}

/// Every supplied URL prefix parses as a URL.
pub open spec fn all_prefixes_parse(infos: Seq<KeylessPrefixInfo>) -> bool {
    forall|i: int|
        0 <= i < infos.len() ==> (#[trigger] parse_url_spec(infos[i].url_prefix@)) is Some
}

/// The policy built by `verify_keyless_prefix`: one prefix-subject keyless
/// constraint per supplied identity, over the normalized URL, all conjoined
/// in the `all_of` group.
pub open spec fn keyless_prefix_policy_model(
    infos: Seq<KeylessPrefixInfo>,
    ann: Option<Seq<(Seq<char>, Seq<char>)>>,
) -> PolicyModel {
    PolicyModel {
        all_of: Option::Some(
            Seq::new(
                infos.len(),
                |i: int| ConstraintModel::Keyless {
                    issuer: infos[i].issuer@,
                    subject: SubjectMatchModel::UrlPrefix(
                        parse_url_spec(infos[i].url_prefix@)->Some_0,
                    ),
                    annotations: ann,
                },
            ),
        ),
        any_of: Option::None,
    }
}

/// The policy built by `verify_github_actions`: a single workflow-identity
/// constraint.
pub open spec fn github_actions_policy_model(
    owner: Seq<char>,
    repo: Option<Seq<char>>,
    ann: Option<Seq<(Seq<char>, Seq<char>)>>,
) -> PolicyModel {
    PolicyModel {
        all_of: Option::Some(
            seq![ConstraintModel::GithubActions { owner, repo, annotations: ann }],
        ),
        any_of: Option::None,
    }
}

/// Pre-fetch stage of `verify_public_key`: reject an empty key list, else
/// build the policy. On `Err` no fetch is to be performed.
pub fn public_key_policy(
    pub_keys: &Vec<String>,
    annotations: &Option<Vec<Annotation>>,
) -> (r: Result<VerificationPolicy, VerificationError>)
    ensures
        r is Ok <==> pub_keys@.len() > 0,
        pub_keys@.len() == 0 ==> r == Err::<VerificationPolicy, VerificationError>(
            VerificationError::InvalidInput(InputFault::EmptyIdentityList),
        ),
        r matches Ok(p) ==> p.deep_view() == public_key_policy_model(
            pub_keys@,
            annotations.deep_view(),
        ),
{
    if pub_keys.len() == 0 {
        return Err(VerificationError::InvalidInput(InputFault::EmptyIdentityList));
    }
    let ghost ann_model = annotations.deep_view();
    let mut constraints: Vec<IdentityConstraint> = Vec::new();
    let mut i: usize = 0;
    while i < pub_keys.len()
        invariant
            0 <= i <= pub_keys@.len(),
            constraints@.len() == i,
            ann_model == annotations.deep_view(),
            forall|k: int| 0 <= k < i ==> #[trigger] constraints.deep_view()[k] == (
            ConstraintModel::PublicKey { key: pub_keys@[k]@, annotations: ann_model }),
        decreases pub_keys@.len() - i,
    {
        let c = IdentityConstraint::PublicKey {
            key: pub_keys[i].clone(),
            annotations: clone_annotations(annotations),
        };
        let ghost prior_view = constraints@;
        let ghost prior_deep = constraints.deep_view();
        constraints.push(c);
        proof {
            assert forall|k: int| 0 <= k < i + 1 implies #[trigger] constraints.deep_view()[k]
                == (ConstraintModel::PublicKey {
                key: pub_keys@[k]@,
                annotations: ann_model,
            }) by {
                assert(constraints.deep_view()[k] == constraints@[k].deep_view());
                if k < i {
                    assert(constraints@[k] == prior_view[k]);
                    assert(prior_deep[k] == prior_view[k].deep_view());
                } else {
                    assert(constraints@[k] == c);
                }
            }
        }
        i = i + 1;
    }
    proof {
        assert(constraints.deep_view() =~= public_key_policy_model(
            pub_keys@,
            ann_model,
        ).all_of->Some_0);
    }
    Ok(VerificationPolicy { all_of: Option::Some(constraints), any_of: Option::None })
}

/// Pre-fetch stage of `verify_keyless`: reject an empty identity list, else
/// build the policy. On `Err` no fetch is to be performed.
pub fn keyless_policy(
    keyless: &Vec<KeylessInfo>,
    annotations: &Option<Vec<Annotation>>,
) -> (r: Result<VerificationPolicy, VerificationError>)
    ensures
        r is Ok <==> keyless@.len() > 0,
        keyless@.len() == 0 ==> r == Err::<VerificationPolicy, VerificationError>(
            VerificationError::InvalidInput(InputFault::EmptyIdentityList),
        ),
        r matches Ok(p) ==> p.deep_view() == keyless_policy_model(
            keyless@,
            annotations.deep_view(),
        ),
{
    if keyless.len() == 0 {
        return Err(VerificationError::InvalidInput(InputFault::EmptyIdentityList));
    }
    let ghost ann_model = annotations.deep_view();
    let mut constraints: Vec<IdentityConstraint> = Vec::new();
    let mut i: usize = 0;
    while i < keyless.len()
        invariant
            0 <= i <= keyless@.len(),
            constraints@.len() == i,
            ann_model == annotations.deep_view(),
            forall|k: int| 0 <= k < i ==> #[trigger] constraints.deep_view()[k] == (
            ConstraintModel::Keyless {
                issuer: keyless@[k].issuer@,
                subject: SubjectMatchModel::Exact(keyless@[k].subject@),
                annotations: ann_model,
            }),
        decreases keyless@.len() - i,
    {
        let c = IdentityConstraint::KeylessIdentity {
            issuer: keyless[i].issuer.clone(),
            subject: SubjectMatch::Exact(keyless[i].subject.clone()),
            annotations: clone_annotations(annotations),
        };
        let ghost prior_view = constraints@;
        let ghost prior_deep = constraints.deep_view();
        constraints.push(c);
        proof {
            assert forall|k: int| 0 <= k < i + 1 implies #[trigger] constraints.deep_view()[k]
                == (ConstraintModel::Keyless {
                issuer: keyless@[k].issuer@,
                subject: SubjectMatchModel::Exact(keyless@[k].subject@),
                annotations: ann_model,
            }) by {
                assert(constraints.deep_view()[k] == constraints@[k].deep_view());
                if k < i {
                    assert(constraints@[k] == prior_view[k]);
                    assert(prior_deep[k] == prior_view[k].deep_view());
                } else {
                    assert(constraints@[k] == c);
                }
            }
        }
        i = i + 1;
    }
    proof {
        assert(constraints.deep_view() =~= keyless_policy_model(
            keyless@,
            ann_model,
        ).all_of->Some_0);
    }
    Ok(VerificationPolicy { all_of: Option::Some(constraints), any_of: Option::None })
}

/// Pre-fetch stage of `verify_keyless_prefix`: reject an empty identity list
/// or a URL prefix that does not parse, else build the policy over the
/// normalized URLs. On `Err` no fetch is to be performed.
pub fn keyless_prefix_policy(
    keyless_prefix: &Vec<KeylessPrefixInfo>,
    annotations: &Option<Vec<Annotation>>,
) -> (r: Result<VerificationPolicy, VerificationError>)
    ensures
        r is Ok <==> keyless_prefix@.len() > 0 && all_prefixes_parse(keyless_prefix@),
        keyless_prefix@.len() == 0 ==> r == Err::<VerificationPolicy, VerificationError>(
            VerificationError::InvalidInput(InputFault::EmptyIdentityList),
        ),
        keyless_prefix@.len() > 0 && !all_prefixes_parse(keyless_prefix@) ==> r == Err::<
            VerificationPolicy,
            VerificationError,
        >(VerificationError::InvalidInput(InputFault::MalformedUrlPrefix)),
        r matches Ok(p) ==> p.deep_view() == keyless_prefix_policy_model(
            keyless_prefix@,
            annotations.deep_view(),
        ),
{
    if keyless_prefix.len() == 0 {
        return Err(VerificationError::InvalidInput(InputFault::EmptyIdentityList));
    }
    let ghost ann_model = annotations.deep_view();
    let mut constraints: Vec<IdentityConstraint> = Vec::new();
    let mut i: usize = 0;
    while i < keyless_prefix.len()
        invariant
            0 <= i <= keyless_prefix@.len(),
            constraints@.len() == i,
            ann_model == annotations.deep_view(),
            forall|k: int|
                0 <= k < i ==> (#[trigger] parse_url_spec(keyless_prefix@[k].url_prefix@)) is Some,
            forall|k: int| 0 <= k < i ==> #[trigger] constraints.deep_view()[k] == (
            ConstraintModel::Keyless {
                issuer: keyless_prefix@[k].issuer@,
                subject: SubjectMatchModel::UrlPrefix(
                    parse_url_spec(keyless_prefix@[k].url_prefix@)->Some_0,
                ),
                annotations: ann_model,
            }),
        decreases keyless_prefix@.len() - i,
    {
        let normalized = match parse_url(keyless_prefix[i].url_prefix.as_str()) {
            Option::Some(u) => u,
            Option::None => {
                return Err(VerificationError::InvalidInput(InputFault::MalformedUrlPrefix));
            },
        };
        let c = IdentityConstraint::KeylessIdentity {
            issuer: keyless_prefix[i].issuer.clone(),
            subject: SubjectMatch::UrlPrefix(normalized),
            annotations: clone_annotations(annotations),
        };
        let ghost prior_view = constraints@;
        let ghost prior_deep = constraints.deep_view();
        constraints.push(c);
        proof {
            assert forall|k: int| 0 <= k < i + 1 implies #[trigger] constraints.deep_view()[k]
                == (ConstraintModel::Keyless {
                issuer: keyless_prefix@[k].issuer@,
                subject: SubjectMatchModel::UrlPrefix(
                    parse_url_spec(keyless_prefix@[k].url_prefix@)->Some_0,
                ),
                annotations: ann_model,
            }) by {
                assert(constraints.deep_view()[k] == constraints@[k].deep_view());
                if k < i {
                    assert(constraints@[k] == prior_view[k]);
                    assert(prior_deep[k] == prior_view[k].deep_view());
                } else {
                    assert(constraints@[k] == c);
                }
            }
        }
        i = i + 1;
    }
    proof {
        assert(constraints.deep_view() =~= keyless_prefix_policy_model(
            keyless_prefix@,
            ann_model,
        ).all_of->Some_0);
    }
    Ok(VerificationPolicy { all_of: Option::Some(constraints), any_of: Option::None })
}

/// Pre-fetch stage of `verify_github_actions`: reject an empty owner, else
/// build the single-constraint policy. On `Err` no fetch is to be performed.
pub fn github_actions_policy(
    owner: &String,
    repo: &Option<String>,
    annotations: &Option<Vec<Annotation>>,
) -> (r: Result<VerificationPolicy, VerificationError>)
    ensures
        r is Ok <==> owner@.len() > 0,
        owner@.len() == 0 ==> r == Err::<VerificationPolicy, VerificationError>(
            VerificationError::InvalidInput(InputFault::EmptyOwner),
        ),
        r matches Ok(p) ==> p.deep_view() == github_actions_policy_model(
            owner@,
            repo.deep_view(),
            annotations.deep_view(),
        ),
{
    if owner.as_str().is_empty() {
        return Err(VerificationError::InvalidInput(InputFault::EmptyOwner));
    }
    let c = IdentityConstraint::GithubActionsIdentity {
        owner: owner.clone(),
        repo: clone_opt_string(repo),
        annotations: clone_annotations(annotations),
    };
    let mut constraints: Vec<IdentityConstraint> = Vec::new();
    constraints.push(c);
    proof {
        assert(constraints.deep_view() =~= github_actions_policy_model(
            owner@,
            repo.deep_view(),
            annotations.deep_view(),
        ).all_of->Some_0);
    }
    Ok(VerificationPolicy { all_of: Option::Some(constraints), any_of: Option::None })
}

/// Long-lived verification client bound to one trust root.
///
/// Registry access configuration, response caching and the fetch itself
/// belong to the outside registry collaborator; the host hands each
/// operation the outcome of the single fetch it performed.
#[derive(Debug)]
pub struct Client {
    trust_root: TrustRoot,
}

impl Client {
    /// The trust root this client was built with.
    pub closed spec fn trust_root(self) -> TrustRoot {
        self.trust_root
    }

    /// Fulcio certificate authority material is installed.
    pub open spec fn keyless_capable(self) -> bool {
        self.trust_root().keyless_capable()
    }

    /// A Rekor public key is installed.
    pub open spec fn rekor_available(self) -> bool {
        self.trust_root().rekor_available()
    }

    /// Build a client bound to one trust root. Construction without any
    /// trust material succeeds in degraded mode and says so through explicit
    /// warnings rather than silently.
    pub fn new(trust_root: TrustRoot) -> (r: (Client, Vec<ConstructionWarning>))
        ensures
            r.0.trust_root() == trust_root,
            trust_root is Absent ==> r.1@ =~= seq![
                ConstructionWarning::KeylessSignaturesUnverifiable,
                ConstructionWarning::TransparencyLogUnused,
                ConstructionWarning::CapabilitiesLimited,
            ],
            !(trust_root is Absent) ==> r.1@.len() == 0,
    {
        let mut warnings: Vec<ConstructionWarning> = Vec::new();
        let absent = match &trust_root {
            TrustRoot::Absent => true,
            _ => false,
        };
        if absent {
            warnings.push(ConstructionWarning::KeylessSignaturesUnverifiable);
            warnings.push(ConstructionWarning::TransparencyLogUnused);
            warnings.push(ConstructionWarning::CapabilitiesLimited);
        }
        (Client { trust_root }, warnings)
    }

    /// Post-fetch stage shared by the identity-based operations: evaluate the
    /// policy against the fetched material, returning the resolved digest
    /// exactly when the policy is satisfied.
    pub fn evaluate_policy(
        &self,
        policy: &VerificationPolicy,
        fetched: &FetchedMaterial,
    ) -> (r: Result<VerificationResponse, VerificationError>)
        ensures
            policy_satisfied(
                policy.deep_view(),
                fetched.layers.deep_view(),
                self.keyless_capable(),
            ) ==> (r matches Ok(resp) && resp.digest@ == fetched.digest@ && resp.is_trusted),
            !policy_satisfied(
                policy.deep_view(),
                fetched.layers.deep_view(),
                self.keyless_capable(),
            ) ==> r == Err::<VerificationResponse, VerificationError>(
                VerificationError::VerificationFailure(
                    VerificationFailureDetail::NoMatchingConstraint,
                ),
            ),
    {
        let keyless_capable = self.trust_root.has_fulcio_certs();
        if policy.satisfied_by(&fetched.layers, keyless_capable) {
            Ok(VerificationResponse { digest: fetched.digest.clone(), is_trusted: true })
        } else {
            Err(VerificationError::VerificationFailure(
                VerificationFailureDetail::NoMatchingConstraint,
            ))
        }
    }

    /// Identity-based verification with long-lived public keys: every
    /// supplied key must independently match some fetched layer.
    pub fn verify_public_key(
        &self,
        pub_keys: &Vec<String>,
        annotations: &Option<Vec<Annotation>>,
        fetched: &Result<FetchedMaterial, String>,
    ) -> (r: Result<VerificationResponse, VerificationError>)
        ensures
            pub_keys@.len() == 0 ==> r == Err::<VerificationResponse, VerificationError>(
                VerificationError::InvalidInput(InputFault::EmptyIdentityList),
            ),
            pub_keys@.len() > 0 ==> (fetched matches Err(m) ==> (r matches Err(
                VerificationError::FetchFailure(mm),
            ) && mm@ == m@)),
            pub_keys@.len() > 0 ==> (fetched matches Ok(f) ==> ({
                let sat = policy_satisfied(
                    public_key_policy_model(pub_keys@, annotations.deep_view()),
                    f.layers.deep_view(),
                    self.keyless_capable(),
                );
                &&& sat ==> (r matches Ok(resp) && resp.digest@ == f.digest@ && resp.is_trusted)
                &&& !sat ==> r == Err::<VerificationResponse, VerificationError>(
                    VerificationError::VerificationFailure(
                        VerificationFailureDetail::NoMatchingConstraint,
                    ),
                )
            })),
            r matches Ok(resp) ==> resp.is_trusted,
    {
        let policy = match public_key_policy(pub_keys, annotations) {
            Ok(p) => p,
            Err(e) => {
                return Err(e);
            },
        };
        match fetched {
            Ok(f) => self.evaluate_policy(&policy, f),
            Err(m) => Err(VerificationError::FetchFailure(m.clone())),
        }
    }

    /// Keyless verification with exact subjects: every supplied
    /// issuer/subject identity must independently match some fetched layer.
    pub fn verify_keyless(
        &self,
        keyless: &Vec<KeylessInfo>,
        annotations: &Option<Vec<Annotation>>,
        fetched: &Result<FetchedMaterial, String>,
    ) -> (r: Result<VerificationResponse, VerificationError>)
        ensures
            keyless@.len() == 0 ==> r == Err::<VerificationResponse, VerificationError>(
                VerificationError::InvalidInput(InputFault::EmptyIdentityList),
            ),
            keyless@.len() > 0 ==> (fetched matches Err(m) ==> (r matches Err(
                VerificationError::FetchFailure(mm),
            ) && mm@ == m@)),
            keyless@.len() > 0 ==> (fetched matches Ok(f) ==> ({
                let sat = policy_satisfied(
                    keyless_policy_model(keyless@, annotations.deep_view()),
                    f.layers.deep_view(),
                    self.keyless_capable(),
                );
                &&& sat ==> (r matches Ok(resp) && resp.digest@ == f.digest@ && resp.is_trusted)
                &&& !sat ==> r == Err::<VerificationResponse, VerificationError>(
                    VerificationError::VerificationFailure(
                        VerificationFailureDetail::NoMatchingConstraint,
                    ),
                )
            })),
            r matches Ok(resp) ==> resp.is_trusted,
    {
        let policy = match keyless_policy(keyless, annotations) {
            Ok(p) => p,
            Err(e) => {
                return Err(e);
            },
        };
        match fetched {
            Ok(f) => self.evaluate_policy(&policy, f),
            Err(m) => Err(VerificationError::FetchFailure(m.clone())),
        }
    }

    /// Keyless verification with URL-prefix subjects: every supplied
    /// issuer/prefix identity must independently match some fetched layer. A
    /// prefix that does not parse as a URL is an input fault, rejected before
    /// any fetch.
    pub fn verify_keyless_prefix(
        &self,
        keyless_prefix: &Vec<KeylessPrefixInfo>,
        annotations: &Option<Vec<Annotation>>,
        fetched: &Result<FetchedMaterial, String>,
    ) -> (r: Result<VerificationResponse, VerificationError>)
        ensures
            keyless_prefix@.len() == 0 ==> r == Err::<VerificationResponse, VerificationError>(
                VerificationError::InvalidInput(InputFault::EmptyIdentityList),
            ),
            keyless_prefix@.len() > 0 && !all_prefixes_parse(keyless_prefix@) ==> r == Err::<
                VerificationResponse,
                VerificationError,
            >(VerificationError::InvalidInput(InputFault::MalformedUrlPrefix)),
            keyless_prefix@.len() > 0 && all_prefixes_parse(keyless_prefix@) ==> (fetched matches Err(
                m,
            ) ==> (r matches Err(VerificationError::FetchFailure(mm)) && mm@ == m@)),
            keyless_prefix@.len() > 0 && all_prefixes_parse(keyless_prefix@) ==> (fetched matches Ok(
                f,
            ) ==> ({
                let sat = policy_satisfied(
                    keyless_prefix_policy_model(keyless_prefix@, annotations.deep_view()),
                    f.layers.deep_view(),
                    self.keyless_capable(),
                );
                &&& sat ==> (r matches Ok(resp) && resp.digest@ == f.digest@ && resp.is_trusted)
                &&& !sat ==> r == Err::<VerificationResponse, VerificationError>(
                    VerificationError::VerificationFailure(
                        VerificationFailureDetail::NoMatchingConstraint,
                    ),
                )
            })),
            r matches Ok(resp) ==> resp.is_trusted,
    {
        let policy = match keyless_prefix_policy(keyless_prefix, annotations) {
            Ok(p) => p,
            Err(e) => {
                return Err(e);
            },
        };
        match fetched {
            Ok(f) => self.evaluate_policy(&policy, f),
            Err(m) => Err(VerificationError::FetchFailure(m.clone())),
        }
    }

    /// GitHub Actions workflow-identity verification: the certificate must
    /// name the GitHub Actions OIDC provider with a workflow identity under
    /// `owner`, and under `repo` when one is given (any repository of the
    /// owner matches when it is not).
    pub fn verify_github_actions(
        &self,
        owner: &String,
        repo: &Option<String>,
        annotations: &Option<Vec<Annotation>>,
        fetched: &Result<FetchedMaterial, String>,
    ) -> (r: Result<VerificationResponse, VerificationError>)
        ensures
            owner@.len() == 0 ==> r == Err::<VerificationResponse, VerificationError>(
                VerificationError::InvalidInput(InputFault::EmptyOwner),
            ),
            owner@.len() > 0 ==> (fetched matches Err(m) ==> (r matches Err(
                VerificationError::FetchFailure(mm),
            ) && mm@ == m@)),
            owner@.len() > 0 ==> (fetched matches Ok(f) ==> ({
                let sat = policy_satisfied(
                    github_actions_policy_model(
                        owner@,
                        repo.deep_view(),
                        annotations.deep_view(),
                    ),
                    f.layers.deep_view(),
                    self.keyless_capable(),
                );
                &&& sat ==> (r matches Ok(resp) && resp.digest@ == f.digest@ && resp.is_trusted)
                &&& !sat ==> r == Err::<VerificationResponse, VerificationError>(
                    VerificationError::VerificationFailure(
                        VerificationFailureDetail::NoMatchingConstraint,
                    ),
                )
            })),
            r matches Ok(resp) ==> resp.is_trusted,
    {
        let policy = match github_actions_policy(owner, repo, annotations) {
            Ok(p) => p,
            Err(e) => {
                return Err(e);
            },
        };
        match fetched {
            Ok(f) => self.evaluate_policy(&policy, f),
            Err(m) => Err(VerificationError::FetchFailure(m.clone())),
        }
    }

    /// Certificate-path verification, independent of `VerificationPolicy`:
    /// the supplied certificate must have signed some fetched layer (with a
    /// validated transparency-log bundle when `require_rekor_bundle` is set),
    /// and, when annotations are required, some fetched layer must carry all
    /// of them. The certificate chain is material for the outside
    /// cryptographic validator; the layer model already reflects its outcome.
    #[allow(unused_variables)]
    pub fn verify_certificate(
        &self,
        certificate: &Vec<u8>,
        certificate_chain: &Option<Vec<Vec<u8>>>,
        require_rekor_bundle: bool,
        annotations: &Option<Vec<Annotation>>,
        fetched: &Result<FetchedMaterial, String>,
    ) -> (r: Result<VerificationResponse, VerificationError>)
        ensures
            fetched matches Err(m) ==> (r matches Err(VerificationError::FetchFailure(mm))
                && mm@ == m@),
            fetched matches Ok(f) ==> ({
                let cert_ok = certificate_matched_somewhere(
                    certificate@,
                    require_rekor_bundle,
                    f.layers.deep_view(),
                    self.rekor_available(),
                );
                let ann_ok = match annotations.deep_view() {
                    Option::None => true,
                    Option::Some(req) => annotations_matched_somewhere(f.layers.deep_view(), req),
                };
                let bundle_blocked = !cert_ok && require_rekor_bundle
                    && certificate_matched_somewhere(
                    certificate@,
                    false,
                    f.layers.deep_view(),
                    self.rekor_available(),
                );
                &&& cert_ok && ann_ok ==> (r matches Ok(resp) && resp.digest@ == f.digest@
                    && resp.is_trusted)
                &&& bundle_blocked ==> r == Err::<VerificationResponse, VerificationError>(
                    VerificationError::VerificationFailure(
                        VerificationFailureDetail::MissingRekorBundle,
                    ),
                )
                &&& !(cert_ok && ann_ok) && !bundle_blocked ==> r == Err::<
                    VerificationResponse,
                    VerificationError,
                >(
                    VerificationError::VerificationFailure(
                        VerificationFailureDetail::NoMatchingConstraint,
                    ),
                )
            }),
            r matches Ok(resp) ==> resp.is_trusted,
    {
        let f = match fetched {
            Ok(f) => f,
            Err(m) => {
                return Err(VerificationError::FetchFailure(m.clone()));
            },
        };
        let rekor_available = self.trust_root.has_rekor_key();
        let cert_ok = certificate_matched_by(
            certificate,
            require_rekor_bundle,
            &f.layers,
            rekor_available,
        );
        let ann_ok = match annotations {
            Option::None => true,
            Option::Some(req) => annotations_matched_by(&f.layers, req),
        };
        if cert_ok && ann_ok {
            return Ok(VerificationResponse { digest: f.digest.clone(), is_trusted: true });
        }
        if !cert_ok && require_rekor_bundle && certificate_matched_by(
            certificate,
            false,
            &f.layers,
            rekor_available,
        ) {
            return Err(VerificationError::VerificationFailure(
                VerificationFailureDetail::MissingRekorBundle,
            ));
        }
        Err(VerificationError::VerificationFailure(
            VerificationFailureDetail::NoMatchingConstraint,
        ))
    }
}

} // verus!
