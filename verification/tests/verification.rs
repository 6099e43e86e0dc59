//! End-to-end tests of the five verification operations on synthetic layer
//! sets.

use image_trust::{
    Annotation, CertificateIdentity, Client, ConstructionWarning, FetchedMaterial, InputFault,
    KeylessInfo, KeylessPrefixInfo, TrustRoot, TrustedLayer, VerificationError,
    VerificationFailureDetail,
};

fn plain_layer() -> TrustedLayer {
    TrustedLayer {
        signing_key: None,
        signing_certificate: None,
        certificate_identity: None,
        rekor_bundle: false,
        annotations: Vec::new(),
    }
}

fn key_layer(key: &str) -> TrustedLayer {
    TrustedLayer { signing_key: Some(key.to_string()), ..plain_layer() }
}

fn keyless_layer(issuer: &str, subject: &str) -> TrustedLayer {
    TrustedLayer {
        certificate_identity: Some(CertificateIdentity {
            issuer: issuer.to_string(),
            subject: subject.to_string(),
            github_workflow_owner: None,
            github_workflow_repository: None,
        }),
        ..plain_layer()
    }
}

fn github_layer(owner: &str, repo: &str) -> TrustedLayer {
    TrustedLayer {
        certificate_identity: Some(CertificateIdentity {
            issuer: "https://token.actions.githubusercontent.com".to_string(),
            subject: format!("https://github.com/{}/{}", owner, repo),
            github_workflow_owner: Some(owner.to_string()),
            github_workflow_repository: Some(repo.to_string()),
        }),
        ..plain_layer()
    }
}

fn fetched(layers: Vec<TrustedLayer>) -> Result<FetchedMaterial, String> {
    Ok(FetchedMaterial { digest: "sha256:1111111111111111".to_string(), layers })
}

fn custom_trust_root() -> TrustRoot {
    TrustRoot::FromCustomData {
        rekor_public_key: Some("rekor-public-key-pem".to_string()),
        fulcio_certs: vec![b"fulcio-cert-pem".to_vec()],
    }
}

fn annotations(pairs: &[(&str, &str)]) -> Option<Vec<Annotation>> {
    Some(
        pairs
            .iter()
            .map(|(k, v)| Annotation { key: k.to_string(), value: v.to_string() })
            .collect(),
    )
}

#[test]
fn empty_public_key_list_is_invalid_input_without_any_fetch() {
    let (client, _) = Client::new(custom_trust_root());
    // The outcome must not depend on the fetch outcome at all: an operation
    // on an empty identity list decides before fetching.
    for f in [fetched(vec![key_layer("k1")]), Err("registry down".to_string())] {
        let r = client.verify_public_key(&Vec::new(), &None, &f);
        assert!(matches!(
            r,
            Err(VerificationError::InvalidInput(InputFault::EmptyIdentityList))
        ));
    }
    // The pre-fetch stage alone already rejects, so a host never fetches.
    let staged = image_trust::public_key_policy(&Vec::new(), &None);
    assert!(matches!(
        staged,
        Err(VerificationError::InvalidInput(InputFault::EmptyIdentityList))
    ));
}

#[test]
fn empty_keyless_list_is_invalid_input() {
    let (client, _) = Client::new(custom_trust_root());
    let r = client.verify_keyless(&Vec::new(), &None, &fetched(vec![plain_layer()]));
    assert!(matches!(
        r,
        Err(VerificationError::InvalidInput(InputFault::EmptyIdentityList))
    ));
}

#[test]
fn empty_keyless_prefix_list_is_invalid_input() {
    let (client, _) = Client::new(custom_trust_root());
    let r = client.verify_keyless_prefix(&Vec::new(), &None, &fetched(vec![plain_layer()]));
    assert!(matches!(
        r,
        Err(VerificationError::InvalidInput(InputFault::EmptyIdentityList))
    ));
}

#[test]
fn empty_owner_is_invalid_input() {
    let (client, _) = Client::new(custom_trust_root());
    let r = client.verify_github_actions(
        &String::new(),
        &None,
        &None,
        &fetched(vec![github_layer("acme", "app")]),
    );
    assert!(matches!(
        r,
        Err(VerificationError::InvalidInput(InputFault::EmptyOwner))
    ));
}

#[test]
fn malformed_url_prefix_fails_before_any_fetch() {
    let (client, _) = Client::new(custom_trust_root());
    let infos = vec![KeylessPrefixInfo {
        issuer: "https://issuer.example".to_string(),
        url_prefix: "not a url".to_string(),
    }];
    // Even a fetch outcome that failed cannot be the reported error: the
    // malformed prefix is rejected first.
    let r = client.verify_keyless_prefix(&infos, &None, &Err("registry down".to_string()));
    assert!(matches!(
        r,
        Err(VerificationError::InvalidInput(InputFault::MalformedUrlPrefix))
    ));
    let staged = image_trust::keyless_prefix_policy(&infos, &None);
    assert!(matches!(
        staged,
        Err(VerificationError::InvalidInput(InputFault::MalformedUrlPrefix))
    ));
}

#[test]
fn fetch_failure_is_propagated() {
    let (client, _) = Client::new(custom_trust_root());
    let keys = vec!["k1".to_string()];
    let r = client.verify_public_key(&keys, &None, &Err("registry down".to_string()));
    match r {
        Err(VerificationError::FetchFailure(m)) => assert_eq!(m, "registry down"),
        other => panic!("expected a fetch failure, got {:?}", other),
    }
}

#[test]
fn matching_public_key_returns_trusted_digest() {
    let (client, _) = Client::new(custom_trust_root());
    let keys = vec!["<valid-pem-key>".to_string()];
    let r = client.verify_public_key(
        &keys,
        &None,
        &fetched(vec![plain_layer(), key_layer("<valid-pem-key>")]),
    );
    let resp = r.expect("a matching signature must be trusted");
    assert_eq!(resp.digest, "sha256:1111111111111111");
    assert!(resp.is_trusted);
}

#[test]
fn every_supplied_public_key_must_match() {
    let (client, _) = Client::new(custom_trust_root());
    let keys = vec!["k1".to_string(), "k2".to_string()];
    let only_one = fetched(vec![key_layer("k1")]);
    let r = client.verify_public_key(&keys, &None, &only_one);
    assert!(matches!(
        r,
        Err(VerificationError::VerificationFailure(
            VerificationFailureDetail::NoMatchingConstraint
        ))
    ));
    let both = fetched(vec![key_layer("k1"), key_layer("k2")]);
    assert!(client.verify_public_key(&keys, &None, &both).is_ok());
}

#[test]
fn absent_trust_root_fails_keyless_and_warns() {
    let (client, warnings) = Client::new(TrustRoot::Absent);
    assert_eq!(
        warnings,
        vec![
            ConstructionWarning::KeylessSignaturesUnverifiable,
            ConstructionWarning::TransparencyLogUnused,
            ConstructionWarning::CapabilitiesLimited,
        ]
    );
    let keyless = vec![KeylessInfo {
        issuer: "https://issuer.example".to_string(),
        subject: "signer@example.com".to_string(),
    }];
    // Even a layer whose claims would match cannot establish trust without a
    // Fulcio trust root.
    let r = client.verify_keyless(
        &keyless,
        &None,
        &fetched(vec![keyless_layer("https://issuer.example", "signer@example.com")]),
    );
    assert!(matches!(
        r,
        Err(VerificationError::VerificationFailure(
            VerificationFailureDetail::NoMatchingConstraint
        ))
    ));
}

#[test]
fn keyless_exact_subject_matches() {
    let (client, warnings) = Client::new(custom_trust_root());
    assert!(warnings.is_empty());
    let keyless = vec![KeylessInfo {
        issuer: "https://issuer.example".to_string(),
        subject: "signer@example.com".to_string(),
    }];
    let layers = fetched(vec![keyless_layer("https://issuer.example", "signer@example.com")]);
    assert!(client.verify_keyless(&keyless, &None, &layers).is_ok());

    let wrong_subject = fetched(vec![keyless_layer("https://issuer.example", "other@example.com")]);
    assert!(client.verify_keyless(&keyless, &None, &wrong_subject).is_err());
}

#[test]
fn keyless_prefix_uses_normalized_url() {
    let (client, _) = Client::new(custom_trust_root());
    let infos = vec![KeylessPrefixInfo {
        issuer: "https://issuer.example".to_string(),
        // Parsing normalizes this to "https://example.com/" (trailing slash).
        url_prefix: "https://example.com".to_string(),
    }];
    let matching = fetched(vec![keyless_layer(
        "https://issuer.example",
        "https://example.com/signer",
    )]);
    assert!(client.verify_keyless_prefix(&infos, &None, &matching).is_ok());

    // Without normalization the raw string "https://example.com" would be a
    // prefix of this unrelated host's subject; the normalized prefix is not.
    let lookalike = fetched(vec![keyless_layer(
        "https://issuer.example",
        "https://example.community/signer",
    )]);
    assert!(client.verify_keyless_prefix(&infos, &None, &lookalike).is_err());
}

#[test]
fn github_actions_owner_matches_any_repository() {
    let (client, _) = Client::new(custom_trust_root());
    let owner = "acme".to_string();
    let r = client.verify_github_actions(
        &owner,
        &None,
        &None,
        &fetched(vec![github_layer("acme", "whatever")]),
    );
    assert!(r.is_ok());
    let other_owner = client.verify_github_actions(
        &owner,
        &None,
        &None,
        &fetched(vec![github_layer("umbrella", "whatever")]),
    );
    assert!(other_owner.is_err());
}

#[test]
fn github_actions_repo_must_match_when_given() {
    let (client, _) = Client::new(custom_trust_root());
    let owner = "acme".to_string();
    let repo = Some("app".to_string());
    assert!(client
        .verify_github_actions(&owner, &repo, &None, &fetched(vec![github_layer("acme", "app")]))
        .is_ok());
    assert!(client
        .verify_github_actions(&owner, &repo, &None, &fetched(vec![github_layer("acme", "other")]))
        .is_err());
}

#[test]
fn annotation_superset_rule() {
    let (client, _) = Client::new(custom_trust_root());
    let keys = vec!["k1".to_string()];
    let required = annotations(&[("env", "prod")]);

    let bare = fetched(vec![key_layer("k1")]);
    assert!(client.verify_public_key(&keys, &required, &bare).is_err());

    let mut staging = key_layer("k1");
    staging.annotations =
        vec![Annotation { key: "env".to_string(), value: "staging".to_string() }];
    assert!(client
        .verify_public_key(&keys, &required, &fetched(vec![staging]))
        .is_err());

    let mut prod = key_layer("k1");
    prod.annotations = vec![
        Annotation { key: "env".to_string(), value: "prod".to_string() },
        Annotation { key: "team".to_string(), value: "x".to_string() },
    ];
    assert!(client
        .verify_public_key(&keys, &required, &fetched(vec![prod]))
        .is_ok());
}
