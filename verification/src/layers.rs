//! Executable counterparts of the layer model: fetched signature material
//! and the response returned when trust is established.

use vstd::prelude::*;

use crate::model::{
    annotations_include, required_annotations_ok, CertificateIdentityModel, LayerModel,
};

verus! {

/// One annotation key/value pair.
#[derive(Debug)]
pub struct Annotation {
    pub key: String,
    pub value: String,
}

impl View for Annotation {
    type V = (Seq<char>, Seq<char>);

    open spec fn view(&self) -> (Seq<char>, Seq<char>) {
        (self.key@, self.value@)
    }
}

impl DeepView for Annotation {
    type V = (Seq<char>, Seq<char>);

    open spec fn deep_view(&self) -> (Seq<char>, Seq<char>) {
        self@
    }
}

impl Clone for Annotation {
    fn clone(&self) -> (r: Self)
        ensures
            r == *self,
    {
        Annotation { key: self.key.clone(), value: self.value.clone() }
    }
}

/// Identity claims of a layer's signing certificate, as validated by the
/// cryptographic collaborator against the client's Fulcio trust root.
#[derive(Debug)]
pub struct CertificateIdentity {
    pub issuer: String,
    pub subject: String,
    pub github_workflow_owner: Option<String>,
    pub github_workflow_repository: Option<String>,
}

impl DeepView for CertificateIdentity {
    type V = CertificateIdentityModel;

    open spec fn deep_view(&self) -> CertificateIdentityModel {
        CertificateIdentityModel {
            issuer: self.issuer@,
            subject: self.subject@,
            github_workflow_owner: self.github_workflow_owner.deep_view(),
            github_workflow_repository: self.github_workflow_repository.deep_view(),
        }
    }
}

/// One signature/certificate/bundle record attached to an image, as handed
/// over by the registry collaborator after cryptographic validation.
#[derive(Debug)]
pub struct TrustedLayer {
    /// Public key material under which the layer's signature verifies, when
    /// the signature was made with a long-lived key pair.
    pub signing_key: Option<String>,
    /// PEM certificate whose key produced the layer's signature.
    pub signing_certificate: Option<Vec<u8>>,
    /// Validated certificate identity claims, for the keyless paths.
    pub certificate_identity: Option<CertificateIdentity>,
    /// Whether the layer carries a transparency-log inclusion bundle that was
    /// validated under the client's Rekor public key.
    pub rekor_bundle: bool,
    /// Annotation key/value pairs signed along with the layer.
    pub annotations: Vec<Annotation>,
}

impl DeepView for TrustedLayer {
    type V = LayerModel;

    open spec fn deep_view(&self) -> LayerModel {
        LayerModel {
            signing_key: self.signing_key.deep_view(),
            signing_certificate: self.signing_certificate.deep_view(),
            certificate_identity: self.certificate_identity.deep_view(),
            rekor_bundle: self.rekor_bundle,
            annotations: self.annotations.deep_view(),
        }
    }
}

/// What one registry fetch hands back: the resolved content digest of the
/// image and its attached signature material.
#[derive(Debug)]
pub struct FetchedMaterial {
    pub digest: String,
    pub layers: Vec<TrustedLayer>,
}

/// Returned only when trust is established; `is_trusted` is always true in a
/// returned response, absence of trust is reported through the error channel.
#[derive(Debug)]
pub struct VerificationResponse {
    pub digest: String,
    pub is_trusted: bool,
}

/// Copy of an optional annotation requirement, pair for pair.
pub fn clone_annotations(a: &Option<Vec<Annotation>>) -> (r: Option<Vec<Annotation>>)
    ensures
        r.deep_view() == a.deep_view(),
{
    match a {
        Option::None => Option::None,
        Option::Some(v) => {
            let mut out: Vec<Annotation> = Vec::new();
            let mut i: usize = 0;
            while i < v.len()
                invariant
                    0 <= i <= v@.len(),
                    out@.len() == i,
                    forall|k: int| 0 <= k < i ==> out.deep_view()[k] == v.deep_view()[k],
                decreases v@.len() - i,
            {
                out.push(v[i].clone());
                i = i + 1;
            }
            proof {
                assert(out.deep_view() =~= v.deep_view());
            }
            Option::Some(out)
        },
    }
}

/// The carried annotations contain the pair `required` (equal key and value).
fn carries_annotation(carried: &Vec<Annotation>, required: &Annotation) -> (r: bool)
    ensures
        r == carried.deep_view().contains(required@),
{
    let mut j: usize = 0;
    while j < carried.len()
        invariant
            0 <= j <= carried@.len(),
            forall|k: int| 0 <= k < j ==> carried.deep_view()[k] != required@,
        decreases carried@.len() - j,
    {
        let entry = &carried[j];
        proof {
            assert(carried.deep_view()[j as int] == carried@[j as int].deep_view());
        }
        if entry.key == required.key && entry.value == required.value {
            proof {
                assert(carried.deep_view()[j as int] == required@);
            }
            return true;
        }
        proof {
            assert(carried.deep_view()[j as int] != required@);
        }
        j = j + 1;
    }
    proof {
        if carried.deep_view().contains(required@) {
            let k = choose|k: int|
                0 <= k < carried.deep_view().len() && carried.deep_view()[k] == required@;
            assert(carried.deep_view()[k] != required@);
        }
    }
    false
}

/// Every required pair is carried: the superset rule for annotations.
pub fn annotations_carried(carried: &Vec<Annotation>, required: &Vec<Annotation>) -> (r: bool)
    ensures
        r == annotations_include(carried.deep_view(), required.deep_view()),
{
    let mut i: usize = 0;
    while i < required.len()
        invariant
            0 <= i <= required@.len(),
            forall|k: int| 0 <= k < i ==> carried.deep_view().contains(
                #[trigger] required.deep_view()[k],
            ),
        decreases required@.len() - i,
    {
        if !carries_annotation(carried, &required[i]) {
            proof {
                assert(required.deep_view()[i as int] == required[i as int]@);
            }
            return false;
        }
        i = i + 1;
    }
    true
}

/// The optional annotation requirement holds of the carried annotations.
pub fn required_annotations_carried(
    carried: &Vec<Annotation>,
    required: &Option<Vec<Annotation>>,
) -> (r: bool)
    ensures
        r == required_annotations_ok(carried.deep_view(), required.deep_view()),
{
    match required {
        Option::None => true,
        Option::Some(req) => annotations_carried(carried, req),
    }
}

} // verus!
