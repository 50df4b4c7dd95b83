//! Policy-boundary and snapshot-restore authority validation.

use vstd::prelude::*;

use super::types::{AuthorityTokenId, InvalidAuthorityReason, TokenTimestamp};
use super::{AuthorityToken, AuthorityTokenView, RevocationIndex};

verus! {

/// Record describing a token stripped during lifecycle validation.
#[derive(Clone, Debug, PartialEq, Eq)]
pub struct InvalidAuthorityToken {
    token_id: AuthorityTokenId,
    reason: InvalidAuthorityReason,
}

/// Mathematical model of an [`InvalidAuthorityToken`].
pub ghost struct InvalidAuthorityTokenView {
    pub token_id: Seq<char>,
    pub reason: InvalidAuthorityReason,
}

impl View for InvalidAuthorityToken {
    type V = InvalidAuthorityTokenView;

    closed spec fn view(&self) -> InvalidAuthorityTokenView {
        InvalidAuthorityTokenView { token_id: self.token_id@, reason: self.reason }
    }
}

impl InvalidAuthorityToken {
    /// Return the stripped token identifier.
    pub fn token_id(&self) -> (token_id: &AuthorityTokenId)
        ensures
            token_id@ == self@.token_id,
    {
        &self.token_id
    }

    /// Return the invalidation reason.
    pub fn reason(&self) -> (reason: InvalidAuthorityReason)
        ensures
            reason == self@.reason,
    {
        self.reason
    }
}

/// Result of authority lifecycle validation at a policy boundary.
#[derive(Clone, Debug, PartialEq, Eq)]
pub struct AuthorityBoundaryValidation {
    effective_tokens: Vec<AuthorityToken>,
    invalid_tokens: Vec<InvalidAuthorityToken>,
}

/// Mathematical model of an [`AuthorityBoundaryValidation`].
pub ghost struct BoundaryValidationView {
    pub effective_tokens: Seq<AuthorityTokenView>,
    pub invalid_tokens: Seq<InvalidAuthorityTokenView>,
}

/// The models of a sequence of tokens, in order.
pub open spec fn token_views(tokens: Seq<AuthorityToken>) -> Seq<AuthorityTokenView> {
    tokens.map_values(|token: AuthorityToken| token@)
}

/// The models of a sequence of stripped-token records, in order.
pub open spec fn invalid_token_views(records: Seq<InvalidAuthorityToken>) -> Seq<
    InvalidAuthorityTokenView,
> {
    records.map_values(|record: InvalidAuthorityToken| record@)
}

impl View for AuthorityBoundaryValidation {
    type V = BoundaryValidationView;

    closed spec fn view(&self) -> BoundaryValidationView {
        BoundaryValidationView {
            effective_tokens: token_views(self.effective_tokens@),
            invalid_tokens: invalid_token_views(self.invalid_tokens@),
        }
    }
}

impl AuthorityBoundaryValidation {
    /// Return tokens that remain valid after lifecycle checks.
    pub fn effective_tokens(&self) -> (tokens: &[AuthorityToken])
        ensures
            token_views(tokens@) == self@.effective_tokens,
    {
        self.effective_tokens.as_slice()
    }

    /// Return tokens stripped during lifecycle checks.
    pub fn invalid_tokens(&self) -> (records: &[InvalidAuthorityToken])
        ensures
            invalid_token_views(records@) == self@.invalid_tokens,
    {
        self.invalid_tokens.as_slice()
    }
}

/// Why `token` is not honoured at `evaluation_time`, if it is not: revocation
/// is looked at first, then expiry (the expiry instant counts as expired),
/// then issuance in the future.
pub open spec fn invalidity_at(
    token: AuthorityTokenView,
    revoked: Set<Seq<char>>,
    evaluation_time: nat,
) -> Option<InvalidAuthorityReason> {
    if revoked.contains(token.token_id) {
        Some(InvalidAuthorityReason::Revoked)
    } else if token.is_expired_at(evaluation_time) {
        Some(InvalidAuthorityReason::Expired)
    } else if token.is_pre_issuance_at(evaluation_time) {
        Some(InvalidAuthorityReason::PreIssuance)
    } else {
        None
    }
}

/// The record that boundary validation keeps of a stripped token.
pub open spec fn stripped_record(
    token: AuthorityTokenView,
    revoked: Set<Seq<char>>,
    evaluation_time: nat,
) -> InvalidAuthorityTokenView {
    InvalidAuthorityTokenView {
        token_id: token.token_id,
        reason: invalidity_at(token, revoked, evaluation_time).unwrap(),
    }
}

/// The tokens of `tokens` that are honoured at `evaluation_time`, in order.
pub open spec fn effective_at(
    tokens: Seq<AuthorityTokenView>,
    revoked: Set<Seq<char>>,
    evaluation_time: nat,
) -> Seq<AuthorityTokenView> {
    tokens.filter(
        |token: AuthorityTokenView| invalidity_at(token, revoked, evaluation_time) is None,
    )
}

/// The records of the tokens of `tokens` that are stripped at
/// `evaluation_time`, in order.
pub open spec fn invalid_at(
    tokens: Seq<AuthorityTokenView>,
    revoked: Set<Seq<char>>,
    evaluation_time: nat,
) -> Seq<InvalidAuthorityTokenView> {
    tokens.filter(
        |token: AuthorityTokenView| invalidity_at(token, revoked, evaluation_time) is Some,
    ).map_values(|token: AuthorityTokenView| stripped_record(token, revoked, evaluation_time))
}

/// What validating `tokens` at `evaluation_time` yields.
pub open spec fn boundary_validation(
    tokens: Seq<AuthorityTokenView>,
    revoked: Set<Seq<char>>,
    evaluation_time: nat,
) -> BoundaryValidationView {
    BoundaryValidationView {
        effective_tokens: effective_at(tokens, revoked, evaluation_time),
        invalid_tokens: invalid_at(tokens, revoked, evaluation_time),
    }
}

/// What revalidating `tokens` on a snapshot restore at `restore_time` yields:
/// what was valid when the snapshot was taken counts for nothing.
pub open spec fn restore_revalidation(
    tokens: Seq<AuthorityTokenView>,
    revoked: Set<Seq<char>>,
    restore_time: nat,
) -> BoundaryValidationView {
    boundary_validation(tokens, revoked, restore_time)
}

/// Validating one token more either keeps it or records why it is stripped.
pub proof fn lemma_boundary_validation_push(
    tokens: Seq<AuthorityTokenView>,
    token: AuthorityTokenView,
    revoked: Set<Seq<char>>,
    evaluation_time: nat,
)
    ensures
        invalidity_at(token, revoked, evaluation_time) is None ==> {
            &&& effective_at(tokens.push(token), revoked, evaluation_time) == effective_at(
                tokens,
                revoked,
                evaluation_time,
            ).push(token)
            &&& invalid_at(tokens.push(token), revoked, evaluation_time) == invalid_at(
                tokens,
                revoked,
                evaluation_time,
            )
        },
        invalidity_at(token, revoked, evaluation_time) is Some ==> {
            &&& effective_at(tokens.push(token), revoked, evaluation_time) == effective_at(
                tokens,
                revoked,
                evaluation_time,
            )
            &&& invalid_at(tokens.push(token), revoked, evaluation_time) == invalid_at(
                tokens,
                revoked,
                evaluation_time,
            ).push(stripped_record(token, revoked, evaluation_time))
        },
{
    reveal(Seq::filter);
    let pushed = tokens.push(token);
    assert(pushed.drop_last() =~= tokens);
    assert(pushed.last() == token);
    let kept = |t: AuthorityTokenView| invalidity_at(t, revoked, evaluation_time) is None;
    let stripped = |t: AuthorityTokenView| invalidity_at(t, revoked, evaluation_time) is Some;
    let record = |t: AuthorityTokenView| stripped_record(t, revoked, evaluation_time);
    if invalidity_at(token, revoked, evaluation_time) is Some {
        assert(pushed.filter(stripped) == tokens.filter(stripped).push(token));
        assert(pushed.filter(stripped).map_values(record) =~= tokens.filter(stripped).map_values(
            record,
        ).push(record(token)));
        assert(pushed.filter(kept) == tokens.filter(kept));
    } else {
        assert(pushed.filter(kept) == tokens.filter(kept).push(token));
        assert(pushed.filter(stripped) == tokens.filter(stripped));
    }
}

/// Validate authority tokens at a policy-evaluation boundary.
///
/// Every token is classified on its own and in input order; a stripped token
/// never aborts the batch.
pub fn validate_tokens_at_policy_boundary(
    tokens: &[AuthorityToken],
    revocation_index: &RevocationIndex,
    evaluation_time: TokenTimestamp,
) -> (validation: AuthorityBoundaryValidation)
    ensures
        validation@ == boundary_validation(
            token_views(tokens@),
            revocation_index@,
            evaluation_time@,
        ),
        validation@.effective_tokens.len() + validation@.invalid_tokens.len() == tokens@.len(),
{
    let mut effective_tokens: Vec<AuthorityToken> = Vec::new();
    let mut invalid_tokens: Vec<InvalidAuthorityToken> = Vec::new();
    let ghost revoked = revocation_index@;
    let ghost at = evaluation_time@;

    for i in 0..tokens.len()
        invariant
            revoked == revocation_index@,
            at == evaluation_time@,
            token_views(effective_tokens@) == effective_at(
                token_views(tokens@.take(i as int)),
                revoked,
                at,
            ),
            invalid_token_views(invalid_tokens@) == invalid_at(
                token_views(tokens@.take(i as int)),
                revoked,
                at,
            ),
            effective_tokens.len() + invalid_tokens.len() == i,
    {
        let token = &tokens[i];
        let ghost seen = token_views(tokens@.take(i as int));
        let ghost kept = token_views(effective_tokens@);
        let ghost stripped = invalid_token_views(invalid_tokens@);
        proof {
            assert(token_views(tokens@.take(i + 1)) =~= seen.push(token@));
            lemma_boundary_validation_push(seen, token@, revoked, at);
        }
        if revocation_index.is_revoked(token.token_id()) {
            invalid_tokens.push(
                InvalidAuthorityToken {
                    token_id: token.token_id().clone(),
                    reason: InvalidAuthorityReason::Revoked,
                },
            );
            assert(invalid_token_views(invalid_tokens@) =~= stripped.push(
                stripped_record(token@, revoked, at),
            ));
        } else if token.is_expired_at(evaluation_time) {
            invalid_tokens.push(
                InvalidAuthorityToken {
                    token_id: token.token_id().clone(),
                    reason: InvalidAuthorityReason::Expired,
                },
            );
            assert(invalid_token_views(invalid_tokens@) =~= stripped.push(
                stripped_record(token@, revoked, at),
            ));
        } else if token.is_pre_issuance_at(evaluation_time) {
            invalid_tokens.push(
                InvalidAuthorityToken {
                    token_id: token.token_id().clone(),
                    reason: InvalidAuthorityReason::PreIssuance,
                },
            );
            assert(invalid_token_views(invalid_tokens@) =~= stripped.push(
                stripped_record(token@, revoked, at),
            ));
        } else {
            effective_tokens.push(token.clone());
            assert(token_views(effective_tokens@) =~= kept.push(token@));
        }
    }
    assert(tokens@.take(tokens.len() as int) =~= tokens@);
    AuthorityBoundaryValidation { effective_tokens, invalid_tokens }
}

/// Revalidate authority tokens on snapshot restore.
///
/// A restored token is never trusted for what it once was: restoring is
/// validating at the restore time, and nothing else.
pub fn revalidate_tokens_on_restore(
    tokens: &[AuthorityToken],
    revocation_index: &RevocationIndex,
    restore_time: TokenTimestamp,
) -> (validation: AuthorityBoundaryValidation)
    ensures
        validation@ == restore_revalidation(
            token_views(tokens@),
            revocation_index@,
            restore_time@,
        ),
        validation@.effective_tokens.len() + validation@.invalid_tokens.len() == tokens@.len(),
{
    validate_tokens_at_policy_boundary(tokens, revocation_index, restore_time)
}

} // verus!
