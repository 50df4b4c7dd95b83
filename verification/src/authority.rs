//! Authority token lifecycle domain model and validation utilities.

use vstd::hash_set::StringHashSet;
use vstd::prelude::*;

pub mod errors;
pub mod laws;
pub mod test_helpers;
pub mod types;
pub mod validation;

pub use errors::{AuthorityLifecycleError, LifecycleErrorView};
pub use types::{
    AuthorityCapability, AuthorityIssuer, AuthorityScope, AuthoritySubject, AuthorityTokenId,
    DelegationRequest, DelegationRequestView, InvalidAuthorityReason, IssuerTrust, MintRequest,
    MintRequestView, ScopeResource, TokenTimestamp,
};

pub use validation::{
    revalidate_tokens_on_restore, validate_tokens_at_policy_boundary, AuthorityBoundaryValidation,
    InvalidAuthorityToken,
};

use errors::validate_lifetime;

verus! {

/// Host-minted authority token with lineage and lifecycle fields.
#[derive(Debug, PartialEq, Eq)]
pub struct AuthorityToken {
    token_id: AuthorityTokenId,
    issuer: AuthorityIssuer,
    subject: AuthoritySubject,
    capability: AuthorityCapability,
    scope: AuthorityScope,
    issued_at: TokenTimestamp,
    expires_at: TokenTimestamp,
    parent_token_id: Option<AuthorityTokenId>,
}

/// Mathematical model of an [`AuthorityToken`].
pub ghost struct AuthorityTokenView {
    pub token_id: Seq<char>,
    pub issuer: Seq<char>,
    pub subject: Seq<char>,
    pub capability: Seq<char>,
    pub scope: Set<Seq<char>>,
    pub issued_at: nat,
    pub expires_at: nat,
    pub parent_token_id: Option<Seq<char>>,
}

impl AuthorityTokenView {
    /// A token lives for a non-empty span of time.
    pub open spec fn well_formed(self) -> bool {
        self.issued_at < self.expires_at
    }

    /// Whether the token is expired at `evaluation_time`; the expiry instant
    /// itself counts as expired.
    pub open spec fn is_expired_at(self, evaluation_time: nat) -> bool {
        evaluation_time >= self.expires_at
    }

    /// Whether `evaluation_time` lies before the token was issued.
    pub open spec fn is_pre_issuance_at(self, evaluation_time: nat) -> bool {
        evaluation_time < self.issued_at
    }

    /// Whether the token grants `capability` to `subject` over `resource`.
    pub open spec fn grants(
        self,
        subject: Seq<char>,
        capability: Seq<char>,
        resource: Seq<char>,
    ) -> bool {
        &&& self.subject == subject
        &&& self.capability == capability
        &&& self.scope.contains(resource)
    }
}

/// What minting `request` yields: the lifetime is checked first, then the
/// issuer's trust class; a minted token is a root token.
pub open spec fn mint_outcome(request: MintRequestView) -> Result<
    AuthorityTokenView,
    LifecycleErrorView,
> {
    if request.expires_at <= request.issued_at {
        Err(
            LifecycleErrorView::InvalidTokenLifetime {
                issued_at: request.issued_at,
                expires_at: request.expires_at,
            },
        )
    } else if request.issuer_trust != IssuerTrust::HostTrusted {
        Err(LifecycleErrorView::UntrustedMinter { issuer: request.issuer })
    } else {
        Ok(
            AuthorityTokenView {
                token_id: request.token_id,
                issuer: request.issuer,
                subject: request.subject,
                capability: request.capability,
                scope: request.scope,
                issued_at: request.issued_at,
                expires_at: request.expires_at,
                parent_token_id: None,
            },
        )
    }
}

/// What delegating from `parent` on `request` yields when `revoked` holds the
/// revoked token identifiers. The checks run in this order and the first
/// that fails decides the error: parent revoked, parent expired at the
/// delegation time, delegation before the parent was issued, request
/// lifetime, strict scope narrowing, strict lifetime narrowing.
pub open spec fn delegation_outcome(
    parent: AuthorityTokenView,
    request: DelegationRequestView,
    revoked: Set<Seq<char>>,
) -> Result<AuthorityTokenView, LifecycleErrorView> {
    if revoked.contains(parent.token_id) {
        Err(
            LifecycleErrorView::InvalidParentToken {
                token_id: parent.token_id,
                reason: InvalidAuthorityReason::Revoked,
            },
        )
    } else if parent.is_expired_at(request.delegated_at) {
        Err(
            LifecycleErrorView::InvalidParentToken {
                token_id: parent.token_id,
                reason: InvalidAuthorityReason::Expired,
            },
        )
    } else if request.delegated_at < parent.issued_at {
        Err(
            LifecycleErrorView::DelegationBeforeParentIssuance {
                delegated_at: request.delegated_at,
                parent_issued_at: parent.issued_at,
            },
        )
    } else if request.expires_at <= request.delegated_at {
        Err(
            LifecycleErrorView::InvalidTokenLifetime {
                issued_at: request.delegated_at,
                expires_at: request.expires_at,
            },
        )
    } else if !(request.scope.subset_of(parent.scope) && request.scope != parent.scope) {
        Err(LifecycleErrorView::DelegationScopeNotStrictSubset)
    } else if request.expires_at >= parent.expires_at {
        Err(
            LifecycleErrorView::DelegationLifetimeNotStrictSubset {
                delegated_expires_at: request.expires_at,
                parent_expires_at: parent.expires_at,
            },
        )
    } else {
        Ok(
            AuthorityTokenView {
                token_id: request.token_id,
                issuer: request.delegated_by,
                subject: request.subject,
                capability: parent.capability,
                scope: request.scope,
                issued_at: request.delegated_at,
                expires_at: request.expires_at,
                parent_token_id: Some(parent.token_id),
            },
        )
    }
}

/// The model of a lifecycle result.
pub open spec fn outcome_of(result: Result<AuthorityToken, AuthorityLifecycleError>) -> Result<
    AuthorityTokenView,
    LifecycleErrorView,
> {
    match result {
        Ok(token) => Ok(token@),
        Err(error) => Err(error@),
    }
}

impl View for AuthorityToken {
    type V = AuthorityTokenView;

    closed spec fn view(&self) -> AuthorityTokenView {
        AuthorityTokenView {
            token_id: self.token_id@,
            issuer: self.issuer@,
            subject: self.subject@,
            capability: self.capability@,
            scope: self.scope@,
            issued_at: self.issued_at@,
            expires_at: self.expires_at@,
            parent_token_id: match self.parent_token_id {
                Some(parent) => Some(parent@),
                None => None,
            },
        }
    }
}

impl Clone for AuthorityToken {
    fn clone(&self) -> (copy: Self)
        ensures
            copy@ == self@,
    {
        proof {
            use_type_invariant(self);
        }
        let parent_token_id = match &self.parent_token_id {
            Some(parent) => Some(parent.clone()),
            None => None,
        };
        Self {
            token_id: self.token_id.clone(),
            issuer: self.issuer.clone(),
            subject: self.subject.clone(),
            capability: self.capability.clone(),
            scope: self.scope.clone(),
            issued_at: self.issued_at,
            expires_at: self.expires_at,
            parent_token_id,
        }
    }
}

impl AuthorityToken {
    /// A token is issued strictly before it expires.
    #[verifier::type_invariant]
    spec fn lives_forward(&self) -> bool {
        self.issued_at@ < self.expires_at@
    }

    /// Mint a new authority token.
    ///
    /// A request whose lifetime does not move forward is rejected whatever
    /// its issuer; an issuer that is not host-trusted never obtains a token.
    pub fn mint(request: MintRequest) -> (result: Result<Self, AuthorityLifecycleError>)
        ensures
            outcome_of(result) == mint_outcome(request@),
            request.issued_at@ >= request.expires_at@ ==> result is Err && result->Err_0@
                == (LifecycleErrorView::InvalidTokenLifetime {
                issued_at: request.issued_at@,
                expires_at: request.expires_at@,
            }),
            request.issuer_trust == IssuerTrust::Untrusted ==> result is Err,
            request.issuer_trust == IssuerTrust::Untrusted && request.issued_at@
                < request.expires_at@ ==> result->Err_0@ == (LifecycleErrorView::UntrustedMinter {
                issuer: request.issuer@,
            }),
            result is Ok ==> result->Ok_0@.well_formed(),
    {
        match validate_lifetime(request.issued_at, request.expires_at) {
            Ok(_) => {},
            Err(error) => {
                return Err(error);
            },
        }
        match request.issuer_trust {
            IssuerTrust::HostTrusted => {},
            IssuerTrust::Untrusted => {
                return Err(
                    AuthorityLifecycleError::UntrustedMinter {
                        issuer: request.issuer.as_str().to_owned(),
                    },
                );
            },
        }
        Ok(
            Self {
                token_id: request.token_id,
                issuer: request.issuer,
                subject: request.subject,
                capability: request.capability,
                scope: request.scope,
                issued_at: request.issued_at,
                expires_at: request.expires_at,
                parent_token_id: None,
            },
        )
    }

    /// Delegate an authority token with strict scope and lifetime narrowing.
    ///
    /// The delegated token keeps the parent's capability and records the
    /// parent's identifier as its lineage pointer.
    pub fn delegate(
        parent: &Self,
        request: DelegationRequest,
        revocation_index: &RevocationIndex,
    ) -> (result: Result<Self, AuthorityLifecycleError>)
        ensures
            outcome_of(result) == delegation_outcome(parent@, request@, revocation_index@),
            revocation_index@.contains(parent@.token_id) ==> result is Err && result->Err_0@
                == (LifecycleErrorView::InvalidParentToken {
                token_id: parent@.token_id,
                reason: InvalidAuthorityReason::Revoked,
            }),
            result is Ok ==> result->Ok_0@.well_formed(),
    {
        proof {
            use_type_invariant(parent);
        }
        if revocation_index.is_revoked(parent.token_id()) {
            return Err(
                AuthorityLifecycleError::InvalidParentToken {
                    token_id: parent.token_id().clone(),
                    reason: InvalidAuthorityReason::Revoked,
                },
            );
        }
        if parent.is_expired_at(request.delegated_at) {
            return Err(
                AuthorityLifecycleError::InvalidParentToken {
                    token_id: parent.token_id().clone(),
                    reason: InvalidAuthorityReason::Expired,
                },
            );
        }
        if parent.is_pre_issuance_at(request.delegated_at) {
            return Err(
                AuthorityLifecycleError::DelegationBeforeParentIssuance {
                    delegated_at: request.delegated_at.as_u64(),
                    parent_issued_at: parent.issued_at().as_u64(),
                },
            );
        }
        match validate_lifetime(request.delegated_at, request.expires_at) {
            Ok(_) => {},
            Err(error) => {
                return Err(error);
            },
        }
        if !request.scope.is_strict_subset_of(parent.scope()) {
            return Err(AuthorityLifecycleError::DelegationScopeNotStrictSubset);
        }
        if request.expires_at.as_u64() >= parent.expires_at().as_u64() {
            return Err(
                AuthorityLifecycleError::DelegationLifetimeNotStrictSubset {
                    delegated_expires_at: request.expires_at.as_u64(),
                    parent_expires_at: parent.expires_at().as_u64(),
                },
            );
        }
        Ok(
            Self {
                token_id: request.token_id,
                issuer: request.delegated_by,
                subject: request.subject,
                capability: parent.capability().clone(),
                scope: request.scope,
                issued_at: request.delegated_at,
                expires_at: request.expires_at,
                parent_token_id: Some(parent.token_id().clone()),
            },
        )
    }

    /// Return whether this token grants authority for a tool resource.
    ///
    /// Neither expiry nor revocation is looked at here.
    pub fn grants(
        &self,
        subject: &AuthoritySubject,
        capability: &AuthorityCapability,
        tool_resource: &ScopeResource,
    ) -> (granted: bool)
        ensures
            granted == self@.grants(subject@, capability@, tool_resource@),
    {
        self.subject == *subject && self.capability == *capability && self.scope.contains(
            tool_resource,
        )
    }

    /// Return whether the token is expired at an evaluation time.
    pub fn is_expired_at(&self, evaluation_time: TokenTimestamp) -> (expired: bool)
        ensures
            expired == self@.is_expired_at(evaluation_time@),
    {
        evaluation_time.as_u64() >= self.expires_at.as_u64()
    }

    /// Return whether an evaluation time lies before the token was issued.
    pub fn is_pre_issuance_at(&self, evaluation_time: TokenTimestamp) -> (early: bool)
        ensures
            early == self@.is_pre_issuance_at(evaluation_time@),
    {
        evaluation_time.as_u64() < self.issued_at.as_u64()
    }

    /// Return the token identifier.
    pub fn token_id(&self) -> (token_id: &AuthorityTokenId)
        ensures
            token_id@ == self@.token_id,
    {
        &self.token_id
    }

    /// Return the token issuer.
    pub fn issuer(&self) -> (issuer: &AuthorityIssuer)
        ensures
            issuer@ == self@.issuer,
    {
        &self.issuer
    }

    /// Return the token subject.
    pub fn subject(&self) -> (subject: &AuthoritySubject)
        ensures
            subject@ == self@.subject,
    {
        &self.subject
    }

    /// Return the token capability.
    pub fn capability(&self) -> (capability: &AuthorityCapability)
        ensures
            capability@ == self@.capability,
    {
        &self.capability
    }

    /// Return the token scope.
    pub fn scope(&self) -> (scope: &AuthorityScope)
        ensures
            scope@ == self@.scope,
    {
        &self.scope
    }

    /// Return token issuance time.
    pub fn issued_at(&self) -> (issued_at: TokenTimestamp)
        ensures
            issued_at@ == self@.issued_at,
            self@.well_formed(),
    {
        proof {
            use_type_invariant(self);
        }
        self.issued_at
    }

    /// Return token expiry time.
    pub fn expires_at(&self) -> (expires_at: TokenTimestamp)
        ensures
            expires_at@ == self@.expires_at,
            self@.well_formed(),
    {
        proof {
            use_type_invariant(self);
        }
        self.expires_at
    }

    /// Return parent token identifier when this token was delegated.
    pub fn parent_token_id(&self) -> (parent: Option<&AuthorityTokenId>)
        ensures
            match parent {
                Some(id) => self@.parent_token_id == Some(id@),
                None => self@.parent_token_id is None,
            },
    {
        self.parent_token_id.as_ref()
    }
}

/// Host-managed revocation index for authority tokens.
///
/// The index is the set of the identifiers that the host has revoked; the
/// lifecycle functions only ever read it.
pub struct RevocationIndex {
    revoked_tokens: StringHashSet,
}

impl View for RevocationIndex {
    type V = Set<Seq<char>>;

    closed spec fn view(&self) -> Set<Seq<char>> {
        self.revoked_tokens@
    }
}

impl Default for RevocationIndex {
    fn default() -> (index: Self)
        ensures
            index@ == Set::<Seq<char>>::empty(),
    {
        Self { revoked_tokens: StringHashSet::new() }
    }
}

impl RevocationIndex {
    /// Revoke a token identifier. Revoking an identifier twice changes nothing.
    pub fn revoke(&mut self, token_id: AuthorityTokenId)
        ensures
            final(self)@ == old(self)@.insert(token_id@),
    {
        let _ = self.revoked_tokens.insert(token_id.as_str().to_owned());
    }

    /// Return whether a token identifier is revoked.
    pub fn is_revoked(&self, token_id: &AuthorityTokenId) -> (revoked: bool)
        ensures
            revoked == self@.contains(token_id@),
    {
        self.revoked_tokens.contains(token_id.as_str())
    }
}

} // verus!
