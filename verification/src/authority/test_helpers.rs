//! Shared constants, fixtures, and builders for exercising the authority
//! lifecycle.

use vstd::prelude::*;

use super::errors::{AuthorityLifecycleError, LifecycleErrorView};
use super::types::{
    resource_texts, AuthorityCapability, AuthorityIssuer, AuthorityScope, AuthoritySubject,
    AuthorityTokenId, DelegationRequest, DelegationRequestView, IssuerTrust, MintRequest,
    MintRequestView, ScopeResource, TokenTimestamp,
};
use super::{mint_outcome, outcome_of, AuthorityToken};
use crate::text::{is_blank, is_white_space, str_texts};

verus! {

/// The host-side issuer of the fixture tokens.
pub const TEST_ISSUER: &'static str = "policy-host";

/// The subject of the fixture tokens.
pub const TEST_SUBJECT: &'static str = "assistant";

/// The capability of the fixture tokens.
pub const TEST_CAPABILITY: &'static str = "EmailSendCap";

/// The issuer of the fixture delegations.
pub const TEST_DELEGATED_BY: &'static str = "policy-host";

/// The name of the token that fixtures delegate from.
pub const TOKEN_NAME_PARENT: &'static str = "parent";

/// The name of a delegated token.
pub const TOKEN_NAME_CHILD: &'static str = "child";

/// The name of a token that is honoured.
pub const TOKEN_NAME_VALID: &'static str = "valid";

/// The name of a token that the host revokes.
pub const TOKEN_NAME_REVOKED: &'static str = "revoked";

/// The name of a token that has expired.
pub const TOKEN_NAME_EXPIRED: &'static str = "expired";

/// The name of a token that is restored from a snapshot.
pub const TOKEN_NAME_TOKEN: &'static str = "token";

/// The name of a token that is issued in the future.
pub const TOKEN_NAME_FUTURE: &'static str = "future";

/// The name of a token that an untrusted issuer asks for.
pub const TOKEN_NAME_MINT_UNTRUSTED: &'static str = "mint-untrusted";

/// The name of a token that is asked for with a lifetime that stands still.
pub const TOKEN_NAME_MINT_INVALID: &'static str = "mint-invalid-lifetime";

/// The rejection of a blank text for the field `field`.
pub open spec fn empty_field(field: Seq<char>) -> LifecycleErrorView {
    LifecycleErrorView::EmptyField { field }
}

/// A text that begins with a character other than white space is not blank.
proof fn lemma_text_is_not_blank(text: Seq<char>)
    requires
        text.len() > 0,
        !is_white_space(text[0]),
    ensures
        !is_blank(text),
{
}

/// The fixture texts hold more than white space.
proof fn lemma_fixture_texts_are_not_blank()
    ensures
        !is_blank("policy-host"@),
        !is_blank("assistant"@),
        !is_blank("EmailSendCap"@),
        !is_blank("send_email"@),
{
    reveal_strlit("policy-host");
    reveal_strlit("assistant");
    reveal_strlit("EmailSendCap");
    reveal_strlit("send_email");
    lemma_text_is_not_blank("policy-host"@);
    lemma_text_is_not_blank("assistant"@);
    lemma_text_is_not_blank("EmailSendCap"@);
    lemma_text_is_not_blank("send_email"@);
}

/// Build a token identifier, or say why the text is refused.
pub fn token_id(value: &str) -> (result: Result<AuthorityTokenId, AuthorityLifecycleError>)
    ensures
        match result {
            Ok(id) => !is_blank(value@) && id@ == value@,
            Err(error) => is_blank(value@) && error@ == empty_field("token_id"@),
        },
{
    AuthorityTokenId::try_from(value)
}

/// Build an issuer identity, or say why the text is refused.
pub fn issuer(value: &str) -> (result: Result<AuthorityIssuer, AuthorityLifecycleError>)
    ensures
        match result {
            Ok(issuer) => !is_blank(value@) && issuer@ == value@,
            Err(error) => is_blank(value@) && error@ == empty_field("issuer"@),
        },
{
    AuthorityIssuer::try_from(value)
}

/// Build a subject, or say why the text is refused.
pub fn subject(value: &str) -> (result: Result<AuthoritySubject, AuthorityLifecycleError>)
    ensures
        match result {
            Ok(subject) => !is_blank(value@) && subject@ == value@,
            Err(error) => is_blank(value@) && error@ == empty_field("subject"@),
        },
{
    AuthoritySubject::try_from(value)
}

/// Build a capability, or say why the text is refused.
pub fn capability(value: &str) -> (result: Result<AuthorityCapability, AuthorityLifecycleError>)
    ensures
        match result {
            Ok(capability) => !is_blank(value@) && capability@ == value@,
            Err(error) => is_blank(value@) && error@ == empty_field("capability"@),
        },
{
    AuthorityCapability::try_from(value)
}

/// Whether one of `names` is blank.
pub open spec fn holds_blank(names: Seq<Seq<char>>) -> bool {
    exists|i: int| 0 <= i < names.len() && is_blank(#[trigger] names[i])
}

/// Build a scope from resource names. A blank name is refused before an
/// empty list is.
pub fn scope(resources: &[&str]) -> (result: Result<AuthorityScope, AuthorityLifecycleError>)
    ensures
        match result {
            Ok(scope) => {
                &&& !holds_blank(str_texts(resources@))
                &&& resources@.len() > 0
                &&& scope@ == str_texts(resources@).to_set()
            },
            Err(error) => if holds_blank(str_texts(resources@)) {
                error@ == empty_field("scope_resource"@)
            } else {
                resources@.len() == 0 && error@ == empty_field("scope"@)
            },
        },
{
    let mut parsed: Vec<ScopeResource> = Vec::with_capacity(resources.len());
    for i in 0..resources.len()
        invariant
            parsed@.len() == i,
            forall|k: int| 0 <= k < i ==> !is_blank(#[trigger] str_texts(resources@)[k]),
            resource_texts(parsed@) == str_texts(resources@).take(i as int),
    {
        let ghost before = resource_texts(parsed@);
        assert(str_texts(resources@)[i as int] == resources@[i as int]@);
        match ScopeResource::try_from(resources[i]) {
            Ok(resource) => {
                parsed.push(resource);
                assert(resource_texts(parsed@) =~= before.push(resources@[i as int]@));
                assert(str_texts(resources@).take(i + 1) =~= before.push(resources@[i as int]@));
            },
            Err(error) => {
                return Err(error);
            },
        }
    }
    assert(str_texts(resources@).take(resources@.len() as int) =~= str_texts(resources@));
    AuthorityScope::new(parsed)
}

/// Mint a token for the fixture issuer, subject and capability.
pub fn mint_token(
    id: AuthorityTokenId,
    scope: AuthorityScope,
    issued_at: u64,
    expires_at: u64,
) -> (result: Result<AuthorityToken, AuthorityLifecycleError>)
    ensures
        outcome_of(result) == mint_outcome(
            MintRequestView {
                token_id: id@,
                issuer: TEST_ISSUER@,
                issuer_trust: IssuerTrust::HostTrusted,
                subject: TEST_SUBJECT@,
                capability: TEST_CAPABILITY@,
                scope: scope@,
                issued_at: issued_at as nat,
                expires_at: expires_at as nat,
            },
        ),
{
    proof {
        lemma_fixture_texts_are_not_blank();
    }
    let issuer = match issuer(TEST_ISSUER) {
        Ok(issuer) => issuer,
        Err(error) => {
            return Err(error);
        },
    };
    let subject = match subject(TEST_SUBJECT) {
        Ok(subject) => subject,
        Err(error) => {
            return Err(error);
        },
    };
    let capability = match capability(TEST_CAPABILITY) {
        Ok(capability) => capability,
        Err(error) => {
            return Err(error);
        },
    };
    AuthorityToken::mint(
        MintRequest {
            token_id: id,
            issuer,
            issuer_trust: IssuerTrust::HostTrusted,
            subject,
            capability,
            scope,
            issued_at: TokenTimestamp::new(issued_at),
            expires_at: TokenTimestamp::new(expires_at),
        },
    )
}

/// Bundled delegation timing parameters.
pub struct DelegationTiming {
    /// Delegation start time.
    pub delegated_at: u64,
    /// Delegated token expiry time.
    pub expires_at: u64,
}

/// Builder for `MintRequest` with sensible defaults for test scenarios: the
/// host-trusted fixture issuer, the fixture subject and capability, the
/// scope `send_email` and the lifetime from 0 to 100.
pub struct MintRequestBuilder {
    token_name: String,
    issuer: AuthorityIssuer,
    issuer_trust: IssuerTrust,
    subject_name: String,
    capability_name: String,
    scope_resources: Vec<String>,
    issued_at: u64,
    expires_at: u64,
}

impl MintRequestBuilder {
    #[verifier::type_invariant]
    spec fn holds_fixture_texts(&self) -> bool {
        &&& self.subject_name@ == TEST_SUBJECT@
        &&& self.capability_name@ == TEST_CAPABILITY@
        &&& self.scope_resources@.len() == 1
        &&& self.scope_resources@[0]@ == "send_email"@
    }

    /// The request that the builder stands for. Its token identifier is the
    /// token name as given, which may still turn out to be blank.
    pub closed spec fn request(&self) -> MintRequestView {
        MintRequestView {
            token_id: self.token_name@,
            issuer: self.issuer@,
            issuer_trust: self.issuer_trust,
            subject: TEST_SUBJECT@,
            capability: TEST_CAPABILITY@,
            scope: set!["send_email"@],
            issued_at: self.issued_at as nat,
            expires_at: self.expires_at as nat,
        }
    }

    /// The request that a fresh builder for `token_name` stands for.
    pub open spec fn default_request(token_name: Seq<char>) -> MintRequestView {
        MintRequestView {
            token_id: token_name,
            issuer: TEST_ISSUER@,
            issuer_trust: IssuerTrust::HostTrusted,
            subject: TEST_SUBJECT@,
            capability: TEST_CAPABILITY@,
            scope: set!["send_email"@],
            issued_at: 0,
            expires_at: 100,
        }
    }

    /// Create a builder with host-trusted defaults for the given token name.
    pub fn new(token_name: &str) -> (result: Result<Self, AuthorityLifecycleError>)
        ensures
            result is Ok,
            result->Ok_0.request() == Self::default_request(token_name@),
    {
        proof {
            lemma_fixture_texts_are_not_blank();
        }
        let issuer = match issuer(TEST_ISSUER) {
            Ok(issuer) => issuer,
            Err(error) => {
                return Err(error);
            },
        };
        Ok(
            Self {
                token_name: token_name.to_owned(),
                issuer,
                issuer_trust: IssuerTrust::HostTrusted,
                subject_name: TEST_SUBJECT.to_owned(),
                capability_name: TEST_CAPABILITY.to_owned(),
                scope_resources: vec!["send_email".to_owned()],
                issued_at: 0,
                expires_at: 100,
            },
        )
    }

    /// Override the issuer identity and trust level.
    pub fn issuer(self, issuer_name: &str, trust: IssuerTrust) -> (result: Result<
        Self,
        AuthorityLifecycleError,
    >)
        ensures
            match result {
                Ok(builder) => !is_blank(issuer_name@) && builder.request() == (MintRequestView {
                    issuer: issuer_name@,
                    issuer_trust: trust,
                    ..self.request()
                }),
                Err(error) => is_blank(issuer_name@) && error@ == empty_field("issuer"@),
            },
    {
        proof {
            use_type_invariant(&self);
        }
        match issuer(issuer_name) {
            Ok(issuer) => Ok(
                Self {
                    token_name: self.token_name,
                    issuer,
                    issuer_trust: trust,
                    subject_name: self.subject_name,
                    capability_name: self.capability_name,
                    scope_resources: self.scope_resources,
                    issued_at: self.issued_at,
                    expires_at: self.expires_at,
                },
            ),
            Err(error) => Err(error),
        }
    }

    /// Override the token lifetime.
    pub fn lifetime(self, issued_at: u64, expires_at: u64) -> (builder: Self)
        ensures
            builder.request() == (MintRequestView {
                issued_at: issued_at as nat,
                expires_at: expires_at as nat,
                ..self.request()
            }),
    {
        proof {
            use_type_invariant(&self);
        }
        Self {
            token_name: self.token_name,
            issuer: self.issuer,
            issuer_trust: self.issuer_trust,
            subject_name: self.subject_name,
            capability_name: self.capability_name,
            scope_resources: self.scope_resources,
            issued_at,
            expires_at,
        }
    }

    /// Consume the builder and produce a `MintRequest`. Only a blank token
    /// name can be refused.
    pub fn build(self) -> (result: Result<MintRequest, AuthorityLifecycleError>)
        ensures
            match result {
                Ok(request) => !is_blank(self.request().token_id) && request@ == self.request(),
                Err(error) => is_blank(self.request().token_id) && error@ == empty_field(
                    "token_id"@,
                ),
            },
    {
        proof {
            use_type_invariant(&self);
            lemma_fixture_texts_are_not_blank();
        }
        let token_id = match token_id(self.token_name.as_str()) {
            Ok(token_id) => token_id,
            Err(error) => {
                return Err(error);
            },
        };
        let subject = match subject(self.subject_name.as_str()) {
            Ok(subject) => subject,
            Err(error) => {
                return Err(error);
            },
        };
        let capability = match capability(self.capability_name.as_str()) {
            Ok(capability) => capability,
            Err(error) => {
                return Err(error);
            },
        };
        let scope_refs: [&str; 1] = [self.scope_resources[0].as_str()];
        let ghost names = str_texts(scope_refs@);
        proof {
            assert(names =~= seq!["send_email"@]);
            assert(!holds_blank(names));
            assert(names.to_set() =~= set!["send_email"@]) by {
                assert(names[0] == "send_email"@);
            }
        }
        let scope = match scope(scope_refs.as_slice()) {
            Ok(scope) => scope,
            Err(error) => {
                return Err(error);
            },
        };
        Ok(
            MintRequest {
                token_id,
                issuer: self.issuer,
                issuer_trust: self.issuer_trust,
                subject,
                capability,
                scope,
                issued_at: TokenTimestamp::new(self.issued_at),
                expires_at: TokenTimestamp::new(self.expires_at),
            },
        )
    }
}

/// Build a delegation request by the fixture issuer for the fixture subject.
pub fn delegation_request_with_scope(
    child_id: &AuthorityTokenId,
    scope: &AuthorityScope,
    timing: &DelegationTiming,
) -> (result: Result<DelegationRequest, AuthorityLifecycleError>)
    ensures
        result is Ok,
        result->Ok_0@ == (DelegationRequestView {
            token_id: child_id@,
            delegated_by: TEST_DELEGATED_BY@,
            subject: TEST_SUBJECT@,
            scope: scope@,
            delegated_at: timing.delegated_at as nat,
            expires_at: timing.expires_at as nat,
        }),
{
    proof {
        lemma_fixture_texts_are_not_blank();
    }
    let delegated_by = match issuer(TEST_DELEGATED_BY) {
        Ok(issuer) => issuer,
        Err(error) => {
            return Err(error);
        },
    };
    let subject = match subject(TEST_SUBJECT) {
        Ok(subject) => subject,
        Err(error) => {
            return Err(error);
        },
    };
    Ok(
        DelegationRequest {
            token_id: child_id.clone(),
            delegated_by,
            subject,
            scope: scope.clone(),
            delegated_at: TokenTimestamp::new(timing.delegated_at),
            expires_at: TokenTimestamp::new(timing.expires_at),
        },
    )
}

} // verus!
