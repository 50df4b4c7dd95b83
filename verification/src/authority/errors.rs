//! Authority lifecycle error types and validation helpers.

use vstd::prelude::*;

use crate::text::{is_blank, is_blank_text};
use super::types::{AuthorityTokenId, InvalidAuthorityReason, TokenTimestamp};

verus! {

/// Authority lifecycle validation errors.
#[derive(Clone, Debug, PartialEq, Eq)]
pub enum AuthorityLifecycleError {
    /// Required text field is empty.
    EmptyField {
        /// Empty field name.
        field: &'static str,
    },
    /// Token lifetime does not progress forward in time.
    InvalidTokenLifetime {
        /// Token issuance timestamp.
        issued_at: u64,
        /// Token expiry timestamp.
        expires_at: u64,
    },
    /// Issuer is not trusted for minting.
    UntrustedMinter {
        /// Untrusted issuer name.
        issuer: String,
    },
    /// Delegated scope does not narrow the parent scope.
    DelegationScopeNotStrictSubset,
    /// Delegated lifetime does not narrow the parent lifetime.
    DelegationLifetimeNotStrictSubset {
        /// Delegated token expiry timestamp.
        delegated_expires_at: u64,
        /// Parent token expiry timestamp.
        parent_expires_at: u64,
    },
    /// Parent token cannot be delegated due to lifecycle invalidity.
    InvalidParentToken {
        /// Parent token identifier.
        token_id: AuthorityTokenId,
        /// Parent invalidity reason.
        reason: InvalidAuthorityReason,
    },
    /// Delegation starts before the parent token was issued.
    DelegationBeforeParentIssuance {
        /// Delegation start timestamp.
        delegated_at: u64,
        /// Parent issuance timestamp.
        parent_issued_at: u64,
    },
}

/// Mathematical model of an [`AuthorityLifecycleError`]: text fields are
/// character sequences and timestamps are natural numbers.
pub ghost enum LifecycleErrorView {
    EmptyField { field: Seq<char> },
    InvalidTokenLifetime { issued_at: nat, expires_at: nat },
    UntrustedMinter { issuer: Seq<char> },
    DelegationScopeNotStrictSubset,
    DelegationLifetimeNotStrictSubset { delegated_expires_at: nat, parent_expires_at: nat },
    InvalidParentToken { token_id: Seq<char>, reason: InvalidAuthorityReason },
    DelegationBeforeParentIssuance { delegated_at: nat, parent_issued_at: nat },
}

impl View for AuthorityLifecycleError {
    type V = LifecycleErrorView;

    open spec fn view(&self) -> LifecycleErrorView {
        match *self {
            AuthorityLifecycleError::EmptyField { field } => LifecycleErrorView::EmptyField {
                field: field@,
            },
            AuthorityLifecycleError::InvalidTokenLifetime { issued_at, expires_at } => {
                LifecycleErrorView::InvalidTokenLifetime {
                    issued_at: issued_at as nat,
                    expires_at: expires_at as nat,
                }
            },
            AuthorityLifecycleError::UntrustedMinter { issuer } => {
                LifecycleErrorView::UntrustedMinter { issuer: issuer@ }
            },
            AuthorityLifecycleError::DelegationScopeNotStrictSubset => {
                LifecycleErrorView::DelegationScopeNotStrictSubset
            },
            AuthorityLifecycleError::DelegationLifetimeNotStrictSubset {
                delegated_expires_at,
                parent_expires_at,
            } => LifecycleErrorView::DelegationLifetimeNotStrictSubset {
                delegated_expires_at: delegated_expires_at as nat,
                parent_expires_at: parent_expires_at as nat,
            },
            AuthorityLifecycleError::InvalidParentToken { token_id, reason } => {
                LifecycleErrorView::InvalidParentToken { token_id: token_id@, reason }
            },
            AuthorityLifecycleError::DelegationBeforeParentIssuance {
                delegated_at,
                parent_issued_at,
            } => LifecycleErrorView::DelegationBeforeParentIssuance {
                delegated_at: delegated_at as nat,
                parent_issued_at: parent_issued_at as nat,
            },
        }
    }
}

/// The rejection, if any, of `value` as the content of the text field `field`.
pub open spec fn blank_field_rejection(value: Seq<char>, field: Seq<char>) -> Option<
    LifecycleErrorView,
> {
    if is_blank(value) {
        Some(LifecycleErrorView::EmptyField { field })
    } else {
        None
    }
}

/// The rejection, if any, of a lifetime that starts at `issued_at` and ends at
/// `expires_at`: a lifetime must move strictly forward in time.
pub open spec fn lifetime_rejection(issued_at: nat, expires_at: nat) -> Option<
    LifecycleErrorView,
> {
    if expires_at <= issued_at {
        Some(LifecycleErrorView::InvalidTokenLifetime { issued_at, expires_at })
    } else {
        None
    }
}

/// The model of a validation result that carries no value on success.
pub open spec fn rejection_of(result: Result<(), AuthorityLifecycleError>) -> Option<
    LifecycleErrorView,
> {
    match result {
        Ok(_) => None,
        Err(error) => Some(error@),
    }
}

/// Reject text that is empty or white space only.
pub fn non_empty(value: &str, field: &'static str) -> (result: Result<
    (),
    AuthorityLifecycleError,
>)
    ensures
        rejection_of(result) == blank_field_rejection(value@, field@),
{
    if is_blank_text(value) {
        return Err(AuthorityLifecycleError::EmptyField { field });
    }
    Ok(())
}

/// Reject a lifetime that does not move strictly forward in time.
pub fn validate_lifetime(issued_at: TokenTimestamp, expires_at: TokenTimestamp) -> (result: Result<
    (),
    AuthorityLifecycleError,
>)
    ensures
        rejection_of(result) == lifetime_rejection(issued_at@, expires_at@),
{
    if expires_at.as_u64() <= issued_at.as_u64() {
        return Err(
            AuthorityLifecycleError::InvalidTokenLifetime {
                issued_at: issued_at.as_u64(),
                expires_at: expires_at.as_u64(),
            },
        );
    }
    Ok(())
}

} // verus!
