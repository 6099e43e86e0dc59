//! The certificate verification path: matching a single supplied certificate
//! (and an optional annotation requirement) against fetched trusted layers.

use vstd::prelude::*;

use crate::layers::{annotations_carried, Annotation, TrustedLayer};
use crate::model::{
    annotations_include, annotations_matched_somewhere, certificate_matched_somewhere,
    certificate_matches,
};
use crate::text::bytes_eq;

verus! {

/// Whether one layer satisfies the certificate-path constraint.
fn certificate_layer_matches(
    cert: &Vec<u8>,
    require_rekor_bundle: bool,
    layer: &TrustedLayer,
    rekor_available: bool,
) -> (r: bool)
    ensures
        r == certificate_matches(cert@, require_rekor_bundle, layer.deep_view(), rekor_available),
{
    let cert_ok = match &layer.signing_certificate {
        Option::Some(c) => {
            let eq = bytes_eq(c, cert);
            proof {
                assert(c.deep_view() =~= c@);
                assert(cert.deep_view() =~= cert@);
            }
            eq
        },
        Option::None => false,
    };
    cert_ok && (!require_rekor_bundle || (layer.rekor_bundle && rekor_available))
}

/// Some fetched layer satisfies the certificate-path constraint.
pub fn certificate_matched_by(
    cert: &Vec<u8>,
    require_rekor_bundle: bool,
    layers: &Vec<TrustedLayer>,
    rekor_available: bool,
) -> (r: bool)
    ensures
        r == certificate_matched_somewhere(
            cert@,
            require_rekor_bundle,
            layers.deep_view(),
            rekor_available,
        ),
{
    let mut j: usize = 0;
    while j < layers.len()
        invariant
            0 <= j <= layers@.len(),
            forall|k: int| 0 <= k < j ==> !certificate_matches(
                cert@,
                require_rekor_bundle,
                #[trigger] layers.deep_view()[k],
                rekor_available,
            ),
        decreases layers@.len() - j,
    {
        let matched = certificate_layer_matches(cert, require_rekor_bundle, &layers[j], rekor_available);
        proof {
            assert(layers.deep_view()[j as int] == layers@[j as int].deep_view());
        }
        if matched {
            return true;
        }
        j = j + 1;
    }
    proof {
        if certificate_matched_somewhere(cert@, require_rekor_bundle, layers.deep_view(), rekor_available) {
            let k = choose|k: int|
                0 <= k < layers.deep_view().len() && certificate_matches(
                    cert@,
                    require_rekor_bundle,
                    layers.deep_view()[k],
                    rekor_available,
                );
            assert(!certificate_matches(
                cert@,
                require_rekor_bundle,
                layers.deep_view()[k],
                rekor_available,
            ));
        }
    }
    false
}

/// Some fetched layer carries every required annotation pair.
pub fn annotations_matched_by(layers: &Vec<TrustedLayer>, required: &Vec<Annotation>) -> (r: bool)
    ensures
        r == annotations_matched_somewhere(layers.deep_view(), required.deep_view()),
{
    let mut j: usize = 0;
    while j < layers.len()
        invariant
            0 <= j <= layers@.len(),
            forall|k: int| 0 <= k < j ==> !annotations_include(
                (#[trigger] layers.deep_view()[k]).annotations,
                required.deep_view(),
            ),
        decreases layers@.len() - j,
    {
        let matched = annotations_carried(&layers[j].annotations, required);
        proof {
            assert(layers.deep_view()[j as int] == layers@[j as int].deep_view());
        }
        if matched {
            return true;
        }
        j = j + 1;
    }
    proof {
        if annotations_matched_somewhere(layers.deep_view(), required.deep_view()) {
            let k = choose|k: int|
                0 <= k < layers.deep_view().len() && annotations_include(
                    layers.deep_view()[k].annotations,
                    required.deep_view(),
                );
            assert(!annotations_include(layers.deep_view()[k].annotations, required.deep_view()));
        }
    }
    false
}

} // verus!
