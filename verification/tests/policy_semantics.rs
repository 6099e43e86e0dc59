//! Tests of the policy combination semantics and of the certificate path on
//! synthetic layer sets.

use image_trust::{
    Annotation, Client, FetchedMaterial, IdentityConstraint, TrustRoot, TrustedLayer,
    VerificationError, VerificationFailureDetail, VerificationPolicy,
};

fn key_layer(key: &str) -> TrustedLayer {
    TrustedLayer {
        signing_key: Some(key.to_string()),
        signing_certificate: None,
        certificate_identity: None,
        rekor_bundle: false,
        annotations: Vec::new(),
    }
}

fn key_constraint(key: &str) -> IdentityConstraint {
    IdentityConstraint::PublicKey { key: key.to_string(), annotations: None }
}

fn cert_layer(cert: &[u8], bundle: bool) -> TrustedLayer {
    TrustedLayer {
        signing_key: None,
        signing_certificate: Some(cert.to_vec()),
        certificate_identity: None,
        rekor_bundle: bundle,
        annotations: Vec::new(),
    }
}

fn fetched(layers: Vec<TrustedLayer>) -> Result<FetchedMaterial, String> {
    Ok(FetchedMaterial { digest: "sha256:2222222222222222".to_string(), layers })
}

fn client() -> Client {
    let (client, _) = Client::new(TrustRoot::FromCustomData {
        rekor_public_key: Some("rekor-public-key-pem".to_string()),
        fulcio_certs: vec![b"fulcio-cert-pem".to_vec()],
    });
    client
}

fn satisfied(policy: &VerificationPolicy, layers: Vec<TrustedLayer>) -> bool {
    policy.satisfied_by(&layers, true)
}

#[test]
fn all_of_requires_both_constraints() {
    let policy = VerificationPolicy {
        all_of: Some(vec![key_constraint("a"), key_constraint("b")]),
        any_of: None,
    };
    assert!(satisfied(&policy, vec![key_layer("a"), key_layer("b")]));
    assert!(!satisfied(&policy, vec![key_layer("a")]));
    assert!(!satisfied(&policy, vec![key_layer("b")]));
    assert!(!satisfied(&policy, vec![]));
}

#[test]
fn any_of_requires_at_least_one_constraint() {
    let policy = VerificationPolicy {
        all_of: None,
        any_of: Some(vec![key_constraint("a"), key_constraint("b")]),
    };
    assert!(satisfied(&policy, vec![key_layer("a")]));
    assert!(satisfied(&policy, vec![key_layer("b")]));
    assert!(satisfied(&policy, vec![key_layer("a"), key_layer("b")]));
    assert!(!satisfied(&policy, vec![key_layer("c")]));
}

#[test]
fn combined_groups_require_all_of_and_one_of_any_of() {
    let policy = VerificationPolicy {
        all_of: Some(vec![key_constraint("a")]),
        any_of: Some(vec![key_constraint("b"), key_constraint("c")]),
    };
    assert!(satisfied(&policy, vec![key_layer("a"), key_layer("b")]));
    assert!(satisfied(&policy, vec![key_layer("a"), key_layer("c")]));
    assert!(!satisfied(&policy, vec![key_layer("a")]));
    assert!(!satisfied(&policy, vec![key_layer("b"), key_layer("c")]));
}

#[test]
fn evaluate_policy_returns_digest_exactly_on_satisfaction() {
    let c = client();
    let policy = VerificationPolicy { all_of: Some(vec![key_constraint("a")]), any_of: None };
    let good = FetchedMaterial {
        digest: "sha256:2222222222222222".to_string(),
        layers: vec![key_layer("a")],
    };
    let resp = c.evaluate_policy(&policy, &good).expect("satisfied policy must be trusted");
    assert_eq!(resp.digest, "sha256:2222222222222222");
    assert!(resp.is_trusted);

    let bad = FetchedMaterial { digest: "sha256:2222222222222222".to_string(), layers: vec![] };
    assert!(matches!(
        c.evaluate_policy(&policy, &bad),
        Err(VerificationError::VerificationFailure(
            VerificationFailureDetail::NoMatchingConstraint
        ))
    ));
}

#[test]
fn certificate_path_trusts_matching_certificate() {
    let c = client();
    let cert = b"-----BEGIN CERTIFICATE-----demo".to_vec();
    let r = c.verify_certificate(
        &cert,
        &None,
        false,
        &None,
        &fetched(vec![cert_layer(b"-----BEGIN CERTIFICATE-----demo", false)]),
    );
    let resp = r.expect("the matching certificate must be trusted");
    assert_eq!(resp.digest, "sha256:2222222222222222");
    assert!(resp.is_trusted);
}

#[test]
fn certificate_without_required_rekor_bundle_is_not_trusted() {
    let c = client();
    let cert = b"-----BEGIN CERTIFICATE-----demo".to_vec();
    // The certificate validates against a layer, but the layer carries no
    // transparency-log bundle: with the bundle required this is a
    // verification failure that names the missing bundle.
    let r = c.verify_certificate(
        &cert,
        &None,
        true,
        &None,
        &fetched(vec![cert_layer(b"-----BEGIN CERTIFICATE-----demo", false)]),
    );
    assert!(matches!(
        r,
        Err(VerificationError::VerificationFailure(
            VerificationFailureDetail::MissingRekorBundle
        ))
    ));
    // With a validated bundle on the layer the same call is trusted.
    let ok = c.verify_certificate(
        &cert,
        &None,
        true,
        &None,
        &fetched(vec![cert_layer(b"-----BEGIN CERTIFICATE-----demo", true)]),
    );
    assert!(ok.is_ok());
}

#[test]
fn certificate_path_unknown_certificate_is_not_trusted() {
    let c = client();
    let cert = b"-----BEGIN CERTIFICATE-----other".to_vec();
    let r = c.verify_certificate(
        &cert,
        &None,
        false,
        &None,
        &fetched(vec![cert_layer(b"-----BEGIN CERTIFICATE-----demo", true)]),
    );
    assert!(matches!(
        r,
        Err(VerificationError::VerificationFailure(
            VerificationFailureDetail::NoMatchingConstraint
        ))
    ));
}

#[test]
fn certificate_path_annotations_are_a_second_constraint() {
    let c = client();
    let cert = b"-----BEGIN CERTIFICATE-----demo".to_vec();
    let required = Some(vec![Annotation { key: "env".to_string(), value: "prod".to_string() }]);
    let plain = fetched(vec![cert_layer(b"-----BEGIN CERTIFICATE-----demo", false)]);
    assert!(c.verify_certificate(&cert, &None, false, &required, &plain).is_err());

    let mut annotated = cert_layer(b"-----BEGIN CERTIFICATE-----demo", false);
    annotated.annotations =
        vec![Annotation { key: "env".to_string(), value: "prod".to_string() }];
    let good = fetched(vec![annotated]);
    assert!(c.verify_certificate(&cert, &None, false, &required, &good).is_ok());
}

#[test]
fn certificate_path_propagates_fetch_failure() {
    let c = client();
    let cert = b"-----BEGIN CERTIFICATE-----demo".to_vec();
    let r = c.verify_certificate(&cert, &None, false, &None, &Err("registry down".to_string()));
    match r {
        Err(VerificationError::FetchFailure(m)) => assert_eq!(m, "registry down"),
        other => panic!("expected a fetch failure, got {:?}", other),
    }
}
