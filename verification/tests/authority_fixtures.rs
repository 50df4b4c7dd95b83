//! Tests for the authority fixtures and the mint-request builder.

use zamburak::authority::test_helpers::{
    capability, delegation_request_with_scope, issuer, mint_token, scope, subject, token_id,
    DelegationTiming, MintRequestBuilder, TEST_CAPABILITY, TEST_DELEGATED_BY, TEST_ISSUER,
    TEST_SUBJECT, TOKEN_NAME_CHILD, TOKEN_NAME_MINT_INVALID, TOKEN_NAME_MINT_UNTRUSTED,
    TOKEN_NAME_PARENT,
};
use zamburak::authority::{
    AuthorityLifecycleError, AuthorityToken, IssuerTrust, RevocationIndex, TokenTimestamp,
};

#[test]
fn fixture_constructors_validate_their_text() {
    assert_eq!(token_id("tok-1").expect("valid id").as_str(), "tok-1");
    assert_eq!(issuer(TEST_ISSUER).expect("valid issuer").as_str(), "policy-host");
    assert_eq!(subject(TEST_SUBJECT).expect("valid subject").as_str(), "assistant");
    assert_eq!(
        capability(TEST_CAPABILITY).expect("valid capability").as_str(),
        "EmailSendCap"
    );
    assert_eq!(
        token_id(" "),
        Err(AuthorityLifecycleError::EmptyField { field: "token_id" })
    );
    assert_eq!(
        issuer(""),
        Err(AuthorityLifecycleError::EmptyField { field: "issuer" })
    );
    assert_eq!(
        subject("\n"),
        Err(AuthorityLifecycleError::EmptyField { field: "subject" })
    );
    assert_eq!(
        capability("\t"),
        Err(AuthorityLifecycleError::EmptyField {
            field: "capability"
        })
    );
}

#[test]
fn scope_fixture_rejects_blank_names_before_empty_lists() {
    let parsed = scope(&["send_email", "send_email_draft"]).expect("valid scope");
    assert!(parsed.contains(&"send_email".try_into().expect("valid resource")));
    assert_eq!(
        scope(&["send_email", " "]),
        Err(AuthorityLifecycleError::EmptyField {
            field: "scope_resource"
        })
    );
    assert_eq!(
        scope(&[]),
        Err(AuthorityLifecycleError::EmptyField { field: "scope" })
    );
}

#[test]
fn mint_token_uses_the_fixture_identities() {
    let token = mint_token(
        token_id(TOKEN_NAME_PARENT).expect("valid id"),
        scope(&["send_email"]).expect("valid scope"),
        10,
        200,
    )
    .expect("fixture token should mint");
    assert_eq!(token.issuer().as_str(), TEST_ISSUER);
    assert_eq!(token.subject().as_str(), TEST_SUBJECT);
    assert_eq!(token.capability().as_str(), TEST_CAPABILITY);
    assert_eq!(token.issued_at(), TokenTimestamp::new(10));
    assert_eq!(token.expires_at(), TokenTimestamp::new(200));
    assert_eq!(token.parent_token_id(), None);

    let refused = mint_token(
        token_id(TOKEN_NAME_PARENT).expect("valid id"),
        scope(&["send_email"]).expect("valid scope"),
        200,
        200,
    );
    assert_eq!(
        refused,
        Err(AuthorityLifecycleError::InvalidTokenLifetime {
            issued_at: 200,
            expires_at: 200,
        })
    );
}

#[test]
fn builder_defaults_are_host_trusted() {
    let request = MintRequestBuilder::new("tok-1")
        .expect("builder should start")
        .build()
        .expect("default request should build");
    assert_eq!(request.token_id.as_str(), "tok-1");
    assert_eq!(request.issuer.as_str(), TEST_ISSUER);
    assert_eq!(request.issuer_trust, IssuerTrust::HostTrusted);
    assert_eq!(request.subject.as_str(), TEST_SUBJECT);
    assert_eq!(request.capability.as_str(), TEST_CAPABILITY);
    assert_eq!(request.scope, scope(&["send_email"]).expect("valid scope"));
    assert_eq!(request.issued_at.as_u64(), 0);
    assert_eq!(request.expires_at.as_u64(), 100);
    assert!(AuthorityToken::mint(request).is_ok());
}

#[test]
fn builder_overrides_issuer_and_lifetime() {
    let request = MintRequestBuilder::new(TOKEN_NAME_MINT_UNTRUSTED)
        .expect("builder should start")
        .issuer("remote-agent", IssuerTrust::Untrusted)
        .expect("issuer should be accepted")
        .lifetime(10, 20)
        .build()
        .expect("request should build");
    assert_eq!(request.issuer.as_str(), "remote-agent");
    assert_eq!(request.issuer_trust, IssuerTrust::Untrusted);
    assert_eq!(request.issued_at.as_u64(), 10);
    assert_eq!(request.expires_at.as_u64(), 20);
    assert_eq!(
        AuthorityToken::mint(request),
        Err(AuthorityLifecycleError::UntrustedMinter {
            issuer: "remote-agent".to_owned(),
        })
    );

    let invalid = MintRequestBuilder::new(TOKEN_NAME_MINT_INVALID)
        .expect("builder should start")
        .lifetime(15, 15)
        .build()
        .expect("request should build");
    assert_eq!(
        AuthorityToken::mint(invalid),
        Err(AuthorityLifecycleError::InvalidTokenLifetime {
            issued_at: 15,
            expires_at: 15,
        })
    );
}

#[test]
fn builder_rejects_blank_issuer_and_blank_token_name() {
    let blank_issuer = MintRequestBuilder::new("tok-1")
        .expect("builder should start")
        .issuer("  ", IssuerTrust::HostTrusted);
    assert!(matches!(
        blank_issuer,
        Err(AuthorityLifecycleError::EmptyField { field: "issuer" })
    ));
    let blank_name = MintRequestBuilder::new(" ")
        .expect("builder should start")
        .build();
    assert_eq!(
        blank_name,
        Err(AuthorityLifecycleError::EmptyField { field: "token_id" })
    );
}

#[test]
fn delegation_request_fixture_mints_a_child_of_the_parent() {
    let parent = mint_token(
        token_id(TOKEN_NAME_PARENT).expect("valid id"),
        scope(&["send_email", "send_email_draft"]).expect("valid scope"),
        10,
        200,
    )
    .expect("parent should mint");
    let request = delegation_request_with_scope(
        &token_id(TOKEN_NAME_CHILD).expect("valid id"),
        &scope(&["send_email"]).expect("valid scope"),
        &DelegationTiming {
            delegated_at: 20,
            expires_at: 120,
        },
    )
    .expect("request should build");
    assert_eq!(request.delegated_by.as_str(), TEST_DELEGATED_BY);
    assert_eq!(request.subject.as_str(), TEST_SUBJECT);
    assert_eq!(request.delegated_at.as_u64(), 20);
    assert_eq!(request.expires_at.as_u64(), 120);

    let child = AuthorityToken::delegate(&parent, request, &RevocationIndex::default())
        .expect("strictly narrowed delegations should succeed");
    assert_eq!(child.parent_token_id(), Some(parent.token_id()));
    assert_eq!(child.capability(), parent.capability());
    assert_eq!(child.issuer().as_str(), TEST_DELEGATED_BY);
}
