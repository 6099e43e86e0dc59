//! Mathematical model of trusted layers, identity constraints and policies.
//!
//! Every executable type of the crate has a view into one of these model
//! types; the contracts of the verification operations are stated over them.

use vstd::prelude::*;

verus! {

/// Identity claims carried by a layer's signing certificate, present only
/// when the cryptographic collaborator validated the certificate against the
/// client's Fulcio trust root during the fetch.
pub struct CertificateIdentityModel {
    /// OIDC issuer claim of the certificate.
    pub issuer: Seq<char>,
    /// Subject claim (the signing identity) of the certificate.
    pub subject: Seq<char>,
    /// Owner part of the GitHub Actions workflow identity, when present.
    pub github_workflow_owner: Option<Seq<char>>,
    /// Repository part of the GitHub Actions workflow identity, when present.
    pub github_workflow_repository: Option<Seq<char>>,
}

/// One signature/certificate/bundle record attached to an image.
pub struct LayerModel {
    /// The public key material under which the layer's signature verifies,
    /// when the signature was made with a long-lived key pair.
    pub signing_key: Option<Seq<char>>,
    /// The PEM certificate whose key produced the layer's signature, for the
    /// certificate verification path.
    pub signing_certificate: Option<Seq<u8>>,
    /// Validated certificate identity claims, for the keyless paths.
    pub certificate_identity: Option<CertificateIdentityModel>,
    /// Whether the layer carries a transparency-log inclusion bundle that was
    /// validated under the client's Rekor public key.
    pub rekor_bundle: bool,
    /// Annotation key/value pairs signed along with the layer.
    pub annotations: Seq<(Seq<char>, Seq<char>)>,
}

/// How a keyless constraint compares the certificate's subject claim.
pub enum SubjectMatchModel {
    /// The subject must equal this value.
    Exact(Seq<char>),
    /// The subject must begin with this (already normalized) URL.
    UrlPrefix(Seq<char>),
}

/// One identity requirement that a trusted layer must satisfy.
pub enum ConstraintModel {
    /// A signature verifiable under the given key material.
    PublicKey { key: Seq<char>, annotations: Option<Seq<(Seq<char>, Seq<char>)>> },
    /// A certificate issued under the Fulcio trust root whose OIDC issuer
    /// equals `issuer` and whose subject is accepted by `subject`.
    Keyless {
        issuer: Seq<char>,
        subject: SubjectMatchModel,
        annotations: Option<Seq<(Seq<char>, Seq<char>)>>,
    },
    /// A certificate naming the GitHub Actions OIDC provider whose workflow
    /// identity lies under `owner`, and under `repo` when one is given.
    GithubActions {
        owner: Seq<char>,
        repo: Option<Seq<char>>,
        annotations: Option<Seq<(Seq<char>, Seq<char>)>>,
    },
}

/// Two constraint groups combined by policy semantics.
pub struct PolicyModel {
    pub all_of: Option<Seq<ConstraintModel>>,
    pub any_of: Option<Seq<ConstraintModel>>,
}

/// The OIDC issuer under which GitHub Actions workflow certificates are
/// issued.
pub open spec fn github_actions_issuer() -> Seq<char> {
    "https://token.actions.githubusercontent.com"@
}

/// The layer carries every required annotation key/value pair.
pub open spec fn annotations_include(
    carried: Seq<(Seq<char>, Seq<char>)>,
    required: Seq<(Seq<char>, Seq<char>)>,
) -> bool {
    forall|i: int| 0 <= i < required.len() ==> carried.contains(required[i])
}

/// Annotation requirement of a constraint: absent means no requirement;
/// present means the carried annotations must be a superset.
pub open spec fn required_annotations_ok(
    carried: Seq<(Seq<char>, Seq<char>)>,
    required: Option<Seq<(Seq<char>, Seq<char>)>>,
) -> bool {
    match required {
        Option::None => true,
        Option::Some(req) => annotations_include(carried, req),
    }
}

/// Whether a subject-match rule accepts a certificate subject claim.
pub open spec fn subject_accepts(m: SubjectMatchModel, subject: Seq<char>) -> bool {
    match m {
        SubjectMatchModel::Exact(s) => subject == s,
        SubjectMatchModel::UrlPrefix(p) => p.is_prefix_of(subject),
    }
}

/// The annotation requirement a constraint carries, whatever its kind.
pub open spec fn required_annotations(c: ConstraintModel) -> Option<Seq<(Seq<char>, Seq<char>)>> {
    match c {
        ConstraintModel::PublicKey { annotations, .. } => annotations,
        ConstraintModel::Keyless { annotations, .. } => annotations,
        ConstraintModel::GithubActions { annotations, .. } => annotations,
    }
}

/// Whether one trusted layer satisfies one identity constraint.
///
/// `keyless_capable` says whether the client's trust root holds Fulcio
/// certificate authority material: without it no certificate identity can
/// have been validated, so certificate-based constraints never match.
pub open spec fn constraint_matches(c: ConstraintModel, l: LayerModel, keyless_capable: bool) -> bool {
    match c {
        ConstraintModel::PublicKey { key, annotations } => {
            &&& l.signing_key == Option::Some(key)
            &&& required_annotations_ok(l.annotations, annotations)
        },
        ConstraintModel::Keyless { issuer, subject, annotations } => {
            &&& keyless_capable
            &&& l.certificate_identity matches Option::Some(ci) && ci.issuer == issuer
                && subject_accepts(subject, ci.subject)
            &&& required_annotations_ok(l.annotations, annotations)
        },
        ConstraintModel::GithubActions { owner, repo, annotations } => {
            &&& keyless_capable
            &&& l.certificate_identity matches Option::Some(ci) && ci.issuer
                == github_actions_issuer() && ci.github_workflow_owner == Option::Some(owner) && (
            repo matches Option::Some(r) ==> ci.github_workflow_repository == Option::Some(r))
            &&& required_annotations_ok(l.annotations, annotations)
        },
    }
}

/// Some fetched layer satisfies the constraint.
pub open spec fn constraint_satisfied(
    c: ConstraintModel,
    layers: Seq<LayerModel>,
    keyless_capable: bool,
) -> bool {
    exists|j: int| 0 <= j < layers.len() && constraint_matches(c, layers[j], keyless_capable)
}

/// Every constraint of the group is satisfied by some layer.
pub open spec fn group_all_satisfied(
    cs: Seq<ConstraintModel>,
    layers: Seq<LayerModel>,
    keyless_capable: bool,
) -> bool {
    forall|i: int| 0 <= i < cs.len() ==> constraint_satisfied(#[trigger] cs[i], layers, keyless_capable)
}

/// At least one constraint of the group is satisfied by some layer.
pub open spec fn group_any_satisfied(
    cs: Seq<ConstraintModel>,
    layers: Seq<LayerModel>,
    keyless_capable: bool,
) -> bool {
    exists|i: int| 0 <= i < cs.len() && constraint_satisfied(#[trigger] cs[i], layers, keyless_capable)
}

/// Policy semantics: every `all_of` constraint (when that group is present)
/// must be matched by some layer, and at least one `any_of` constraint (when
/// that group is present) must be matched. An absent group imposes nothing.
pub open spec fn policy_satisfied(p: PolicyModel, layers: Seq<LayerModel>, keyless_capable: bool) -> bool {
    &&& match p.all_of {
        Option::None => true,
        Option::Some(cs) => group_all_satisfied(cs, layers, keyless_capable),
    }
    &&& match p.any_of {
        Option::None => true,
        Option::Some(cs) => group_any_satisfied(cs, layers, keyless_capable),
    }
}

/// Whether one layer satisfies the certificate-path constraint: its signature
/// was produced by the supplied certificate and, when a transparency-log
/// bundle is required, the layer carries one that was validated under an
/// installed Rekor key.
pub open spec fn certificate_matches(
    cert: Seq<u8>,
    require_rekor_bundle: bool,
    l: LayerModel,
    rekor_available: bool,
) -> bool {
    &&& l.signing_certificate == Option::Some(cert)
    &&& require_rekor_bundle ==> (l.rekor_bundle && rekor_available)
}

/// Some fetched layer satisfies the certificate-path constraint.
pub open spec fn certificate_matched_somewhere(
    cert: Seq<u8>,
    require_rekor_bundle: bool,
    layers: Seq<LayerModel>,
    rekor_available: bool,
) -> bool {
    exists|j: int|
        0 <= j < layers.len() && certificate_matches(
            cert,
            require_rekor_bundle,
            layers[j],
            rekor_available,
        )
}

/// Some fetched layer carries every required annotation pair.
pub open spec fn annotations_matched_somewhere(
    layers: Seq<LayerModel>,
    required: Seq<(Seq<char>, Seq<char>)>,
) -> bool {
    exists|j: int| 0 <= j < layers.len() && annotations_include(layers[j].annotations, required)
}

/// A policy whose `all_of` group holds exactly the constraints `[a, b]` is
/// satisfied iff each of the two is independently matched by some layer.
pub proof fn lemma_all_of_pair(
    a: ConstraintModel,
    b: ConstraintModel,
    layers: Seq<LayerModel>,
    keyless_capable: bool,
)
    ensures
        policy_satisfied(
            PolicyModel { all_of: Option::Some(seq![a, b]), any_of: Option::None },
            layers,
            keyless_capable,
        ) <==> (constraint_satisfied(a, layers, keyless_capable) && constraint_satisfied(
            b,
            layers,
            keyless_capable,
        )),
{
    let cs = seq![a, b];
    assert(cs[0] == a);
    assert(cs[1] == b);
    if constraint_satisfied(a, layers, keyless_capable) && constraint_satisfied(
        b,
        layers,
        keyless_capable,
    ) {
        assert forall|i: int| 0 <= i < cs.len() implies constraint_satisfied(
            #[trigger] cs[i],
            layers,
            keyless_capable,
        ) by {
            if i == 0 {
                assert(cs[i] == a);
            } else {
                assert(cs[i] == b);
            }
        }
    }
}

/// A policy whose `any_of` group holds exactly the constraints `[a, b]` is
/// satisfied iff at least one of the two is matched by some layer.
pub proof fn lemma_any_of_pair(
    a: ConstraintModel,
    b: ConstraintModel,
    layers: Seq<LayerModel>,
    keyless_capable: bool,
)
    ensures
        policy_satisfied(
            PolicyModel { all_of: Option::None, any_of: Option::Some(seq![a, b]) },
            layers,
            keyless_capable,
        ) <==> (constraint_satisfied(a, layers, keyless_capable) || constraint_satisfied(
            b,
            layers,
            keyless_capable,
        )),
{
    let cs = seq![a, b];
    assert(cs[0] == a);
    assert(cs[1] == b);
    if constraint_satisfied(a, layers, keyless_capable) {
        assert(constraint_satisfied(cs[0], layers, keyless_capable));
    } else if constraint_satisfied(b, layers, keyless_capable) {
        assert(constraint_satisfied(cs[1], layers, keyless_capable));
    }
    if group_any_satisfied(cs, layers, keyless_capable) {
        let i = choose|i: int| 0 <= i < cs.len() && constraint_satisfied(
            #[trigger] cs[i],
            layers,
            keyless_capable,
        );
        if i == 0 {
            assert(constraint_satisfied(a, layers, keyless_capable));
        } else {
            assert(constraint_satisfied(b, layers, keyless_capable));
        }
    }
}

/// A policy `{all_of: [a], any_of: [b, c]}` is satisfied iff `a` is matched
/// and at least one of `b`, `c` is matched.
pub proof fn lemma_all_of_with_any_of(
    a: ConstraintModel,
    b: ConstraintModel,
    c: ConstraintModel,
    layers: Seq<LayerModel>,
    keyless_capable: bool,
)
    ensures
        policy_satisfied(
            PolicyModel { all_of: Option::Some(seq![a]), any_of: Option::Some(seq![b, c]) },
            layers,
            keyless_capable,
        ) <==> (constraint_satisfied(a, layers, keyless_capable) && (constraint_satisfied(
            b,
            layers,
            keyless_capable,
        ) || constraint_satisfied(c, layers, keyless_capable))),
{
    let alls = seq![a];
    let anys = seq![b, c];
    assert(alls[0] == a);
    assert(anys[0] == b);
    assert(anys[1] == c);
    if constraint_satisfied(a, layers, keyless_capable) {
        assert forall|i: int| 0 <= i < alls.len() implies constraint_satisfied(
            #[trigger] alls[i],
            layers,
            keyless_capable,
        ) by {
            assert(alls[i] == a);
        }
    }
    if constraint_satisfied(b, layers, keyless_capable) {
        assert(constraint_satisfied(anys[0], layers, keyless_capable));
    } else if constraint_satisfied(c, layers, keyless_capable) {
        assert(constraint_satisfied(anys[1], layers, keyless_capable));
    }
    if group_any_satisfied(anys, layers, keyless_capable) {
        let i = choose|i: int| 0 <= i < anys.len() && constraint_satisfied(
            #[trigger] anys[i],
            layers,
            keyless_capable,
        );
        if i == 0 {
            assert(constraint_satisfied(b, layers, keyless_capable));
        } else {
            assert(constraint_satisfied(c, layers, keyless_capable));
        }
    }
}

/// Without Fulcio trust material, keyless and GitHub Actions constraints are
/// never satisfied, whatever layers were fetched.
pub proof fn lemma_certificate_constraints_need_trust_root(
    c: ConstraintModel,
    layers: Seq<LayerModel>,
)
    requires
        c is Keyless || c is GithubActions,
    ensures
        !constraint_satisfied(c, layers, false),
{
}

/// A constraint that requires annotations is matched only by a layer that
/// carries every required key/value pair.
pub proof fn lemma_annotation_superset_necessary(
    c: ConstraintModel,
    l: LayerModel,
    keyless_capable: bool,
)
    requires
        constraint_matches(c, l, keyless_capable),
    ensures
        required_annotations_ok(l.annotations, required_annotations(c)),
{
}

} // verus!
