//! Laws of the lifecycle engine that relate several of its operations.

use vstd::prelude::*;

use super::errors::LifecycleErrorView;
use super::types::{DelegationRequestView, InvalidAuthorityReason, IssuerTrust, MintRequestView};
use super::validation::{
    boundary_validation, effective_at, invalid_at, invalidity_at, restore_revalidation,
    stripped_record, InvalidAuthorityTokenView,
};
use super::{delegation_outcome, mint_outcome, AuthorityTokenView};

verus! {

/// Mint lifetime monotonicity: a request whose lifetime does not move
/// strictly forward is refused for that reason, whoever the issuer is.
pub proof fn lemma_mint_requires_forward_lifetime(request: MintRequestView)
    requires
        request.issued_at >= request.expires_at,
    ensures
        mint_outcome(request) == Err::<AuthorityTokenView, LifecycleErrorView>(
            LifecycleErrorView::InvalidTokenLifetime {
                issued_at: request.issued_at,
                expires_at: request.expires_at,
            },
        ),
{
}

/// An untrusted issuer never mints: its request is always refused, and
/// where the lifetime is in order it is refused because of the issuer.
pub proof fn lemma_untrusted_issuer_never_mints(request: MintRequestView)
    requires
        request.issuer_trust == IssuerTrust::Untrusted,
    ensures
        mint_outcome(request) is Err,
        request.issued_at < request.expires_at ==> mint_outcome(request) == Err::<
            AuthorityTokenView,
            LifecycleErrorView,
        >(LifecycleErrorView::UntrustedMinter { issuer: request.issuer }),
{
}

/// Whether `request` asks for a delegation from `parent` that is in order in
/// everything but, possibly, how far it narrows the parent: the parent is
/// neither revoked nor expired, the delegation does not predate it, and the
/// requested lifetime moves forward.
pub open spec fn delegation_is_timely(
    parent: AuthorityTokenView,
    request: DelegationRequestView,
    revoked: Set<Seq<char>>,
) -> bool {
    &&& !revoked.contains(parent.token_id)
    &&& parent.issued_at <= request.delegated_at < parent.expires_at
    &&& request.delegated_at < request.expires_at
}

/// Strict narrowing is exactly strict: a timely delegation succeeds if and
/// only if its scope is a proper subset of the parent's and it expires
/// strictly before the parent does. A scope that is not a proper subset
/// (the parent's own scope among them) is refused as such, and so is an
/// expiry that does not precede the parent's (the parent's own among them).
pub proof fn lemma_strict_narrowing_is_exactly_strict(
    parent: AuthorityTokenView,
    request: DelegationRequestView,
    revoked: Set<Seq<char>>,
)
    requires
        delegation_is_timely(parent, request, revoked),
    ensures
        delegation_outcome(parent, request, revoked) is Ok <==> {
            &&& request.scope.subset_of(parent.scope)
            &&& request.scope != parent.scope
            &&& request.expires_at < parent.expires_at
        },
        request.scope == parent.scope ==> delegation_outcome(parent, request, revoked) == Err::<
            AuthorityTokenView,
            LifecycleErrorView,
        >(LifecycleErrorView::DelegationScopeNotStrictSubset),
        !request.scope.subset_of(parent.scope) ==> delegation_outcome(parent, request, revoked)
            == Err::<AuthorityTokenView, LifecycleErrorView>(
            LifecycleErrorView::DelegationScopeNotStrictSubset,
        ),
        request.scope.subset_of(parent.scope) && request.scope != parent.scope
            && request.expires_at >= parent.expires_at ==> delegation_outcome(
            parent,
            request,
            revoked,
        ) == Err::<AuthorityTokenView, LifecycleErrorView>(
            LifecycleErrorView::DelegationLifetimeNotStrictSubset {
                delegated_expires_at: request.expires_at,
                parent_expires_at: parent.expires_at,
            },
        ),
{
}

/// A delegated token keeps the parent's capability, points back at the
/// parent, lives strictly inside the parent's lifetime and is permitted
/// strictly less than the parent.
pub proof fn lemma_delegation_narrows(
    parent: AuthorityTokenView,
    request: DelegationRequestView,
    revoked: Set<Seq<char>>,
)
    requires
        delegation_outcome(parent, request, revoked) is Ok,
    ensures
        ({
            let child = delegation_outcome(parent, request, revoked)->Ok_0;
            &&& child.capability == parent.capability
            &&& child.parent_token_id == Some(parent.token_id)
            &&& parent.issued_at <= child.issued_at < child.expires_at < parent.expires_at
            &&& child.scope.subset_of(parent.scope)
            &&& child.scope != parent.scope
        }),
{
}

/// Revocation precedes well-formedness in delegation: whatever the request
/// holds, delegating from a revoked parent is refused because of the
/// revocation.
pub proof fn lemma_revocation_precedes_well_formedness(
    parent: AuthorityTokenView,
    request: DelegationRequestView,
    revoked: Set<Seq<char>>,
)
    requires
        revoked.contains(parent.token_id),
    ensures
        delegation_outcome(parent, request, revoked) == Err::<
            AuthorityTokenView,
            LifecycleErrorView,
        >(
            LifecycleErrorView::InvalidParentToken {
                token_id: parent.token_id,
                reason: InvalidAuthorityReason::Revoked,
            },
        ),
{
}

/// Boundary validation partitions without loss: the two buckets together
/// are as long as the input, every honoured input token is among the
/// effective tokens, every other input token has its record among the
/// stripped ones, and nothing is in a bucket that did not come from the
/// input with that classification.
pub proof fn lemma_boundary_validation_partitions(
    tokens: Seq<AuthorityTokenView>,
    revoked: Set<Seq<char>>,
    evaluation_time: nat,
)
    ensures
        effective_at(tokens, revoked, evaluation_time).len() + invalid_at(
            tokens,
            revoked,
            evaluation_time,
        ).len() == tokens.len(),
        forall|i: int|
            0 <= i < tokens.len() && invalidity_at(#[trigger] tokens[i], revoked, evaluation_time)
                is None ==> effective_at(tokens, revoked, evaluation_time).contains(tokens[i]),
        forall|i: int|
            0 <= i < tokens.len() && invalidity_at(#[trigger] tokens[i], revoked, evaluation_time)
                is Some ==> invalid_at(tokens, revoked, evaluation_time).contains(
                stripped_record(tokens[i], revoked, evaluation_time),
            ),
        forall|token: AuthorityTokenView| #[trigger]
            effective_at(tokens, revoked, evaluation_time).contains(token) ==> tokens.contains(
                token,
            ) && invalidity_at(token, revoked, evaluation_time) is None,
        forall|record: InvalidAuthorityTokenView| #[trigger]
            invalid_at(tokens, revoked, evaluation_time).contains(record) ==> exists|i: int|
                0 <= i < tokens.len() && invalidity_at(
                    #[trigger] tokens[i],
                    revoked,
                    evaluation_time,
                ) is Some && record == stripped_record(tokens[i], revoked, evaluation_time),
    decreases tokens.len(),
{
    reveal(Seq::filter);
    let kept = |t: AuthorityTokenView| invalidity_at(t, revoked, evaluation_time) is None;
    let stripped = |t: AuthorityTokenView| invalidity_at(t, revoked, evaluation_time) is Some;
    let record_of = |t: AuthorityTokenView| stripped_record(t, revoked, evaluation_time);
    let effective = effective_at(tokens, revoked, evaluation_time);
    let invalid = invalid_at(tokens, revoked, evaluation_time);
    if tokens.len() > 0 {
        let rest = tokens.drop_last();
        let last = tokens.last();
        lemma_boundary_validation_partitions(rest, revoked, evaluation_time);
        let rest_effective = effective_at(rest, revoked, evaluation_time);
        let rest_invalid = invalid_at(rest, revoked, evaluation_time);
        assert(tokens =~= rest.push(last));
        super::validation::lemma_boundary_validation_push(rest, last, revoked, evaluation_time);
        assert forall|i: int|
            0 <= i < tokens.len() && invalidity_at(#[trigger] tokens[i], revoked, evaluation_time)
                is None implies effective.contains(tokens[i]) by {
            if i < rest.len() {
                assert(rest[i] == tokens[i]);
                let k = choose|k: int|
                    0 <= k < rest_effective.len() && rest_effective[k] == tokens[i];
                assert(effective[k] == tokens[i]);
            } else {
                assert(effective[effective.len() - 1] == last);
            }
        }
        assert forall|i: int|
            0 <= i < tokens.len() && invalidity_at(#[trigger] tokens[i], revoked, evaluation_time)
                is Some implies invalid.contains(
            stripped_record(tokens[i], revoked, evaluation_time),
        ) by {
            if i < rest.len() {
                assert(rest[i] == tokens[i]);
                let k = choose|k: int|
                    0 <= k < rest_invalid.len() && rest_invalid[k] == stripped_record(
                        tokens[i],
                        revoked,
                        evaluation_time,
                    );
                assert(invalid[k] == rest_invalid[k]);
            } else {
                assert(invalid[invalid.len() - 1] == stripped_record(
                    last,
                    revoked,
                    evaluation_time,
                ));
            }
        }
        assert forall|token: AuthorityTokenView| #[trigger]
            effective.contains(token) implies tokens.contains(token) && invalidity_at(
            token,
            revoked,
            evaluation_time,
        ) is None by {
            let k = choose|k: int| 0 <= k < effective.len() && effective[k] == token;
            if k < rest_effective.len() {
                assert(rest_effective[k] == token);
                assert(rest_effective.contains(token));
                let j = choose|j: int| 0 <= j < rest.len() && rest[j] == token;
                assert(tokens[j] == token);
            } else {
                assert(tokens[tokens.len() - 1] == token);
            }
        }
        assert forall|record: InvalidAuthorityTokenView| #[trigger]
            invalid.contains(record) implies exists|i: int|
            0 <= i < tokens.len() && invalidity_at(
                #[trigger] tokens[i],
                revoked,
                evaluation_time,
            ) is Some && record == stripped_record(tokens[i], revoked, evaluation_time) by {
            let k = choose|k: int| 0 <= k < invalid.len() && invalid[k] == record;
            if k < rest_invalid.len() {
                assert(rest_invalid[k] == record);
                assert(rest_invalid.contains(record));
                let j = choose|j: int|
                    0 <= j < rest.len() && invalidity_at(
                        #[trigger] rest[j],
                        revoked,
                        evaluation_time,
                    ) is Some && record == stripped_record(rest[j], revoked, evaluation_time);
                assert(tokens[j] == rest[j]);
            } else {
                assert(tokens[tokens.len() - 1] == last);
            }
        }
    } else {
        assert(invalid =~= Seq::<InvalidAuthorityTokenView>::empty());
    }
}

/// Restoring is validating: revalidation on restore yields what validation
/// at the policy boundary yields for the same tokens, the same revocations
/// and the same instant.
pub proof fn lemma_restore_revalidation_is_boundary_validation(
    tokens: Seq<AuthorityTokenView>,
    revoked: Set<Seq<char>>,
    time: nat,
)
    ensures
        restore_revalidation(tokens, revoked, time) == boundary_validation(tokens, revoked, time),
{
}

/// Whether the identifier `token_id` is found among `tokens`.
pub open spec fn holds_token_id(tokens: Seq<AuthorityTokenView>, token_id: Seq<char>) -> bool {
    exists|i: int| 0 <= i < tokens.len() && (#[trigger] tokens[i]).token_id == token_id
}

/// Whether the identifier `token_id` is found among `records`.
pub open spec fn records_token_id(
    records: Seq<InvalidAuthorityTokenView>,
    token_id: Seq<char>,
) -> bool {
    exists|i: int| 0 <= i < records.len() && (#[trigger] records[i]).token_id == token_id
}

/// Whether no two tokens of `tokens` share an identifier.
pub open spec fn token_ids_are_distinct(tokens: Seq<AuthorityTokenView>) -> bool {
    forall|i: int, j: int|
        0 <= i < j < tokens.len() ==> (#[trigger] tokens[i]).token_id != (
        #[trigger] tokens[j]).token_id
}

/// Where no two input tokens share an identifier, every input identifier is
/// found in exactly one of the two buckets.
pub proof fn lemma_token_id_in_exactly_one_bucket(
    tokens: Seq<AuthorityTokenView>,
    revoked: Set<Seq<char>>,
    evaluation_time: nat,
    index: int,
)
    requires
        token_ids_are_distinct(tokens),
        0 <= index < tokens.len(),
    ensures
        ({
            let validation = boundary_validation(tokens, revoked, evaluation_time);
            holds_token_id(validation.effective_tokens, tokens[index].token_id)
                != records_token_id(validation.invalid_tokens, tokens[index].token_id)
        }),
{
    let token = tokens[index];
    let effective = effective_at(tokens, revoked, evaluation_time);
    let invalid = invalid_at(tokens, revoked, evaluation_time);
    lemma_boundary_validation_partitions(tokens, revoked, evaluation_time);
    if invalidity_at(token, revoked, evaluation_time) is None {
        assert(effective.contains(token));
        let k = choose|k: int| 0 <= k < effective.len() && effective[k] == token;
        assert(effective[k].token_id == token.token_id);
        if records_token_id(invalid, token.token_id) {
            let r = choose|r: int|
                0 <= r < invalid.len() && (#[trigger] invalid[r]).token_id == token.token_id;
            assert(invalid.contains(invalid[r]));
            let j = choose|j: int|
                0 <= j < tokens.len() && invalidity_at(
                    #[trigger] tokens[j],
                    revoked,
                    evaluation_time,
                ) is Some && invalid[r] == stripped_record(tokens[j], revoked, evaluation_time);
            assert(tokens[j].token_id == tokens[index].token_id);
            assert(j != index);
            assert(false);
        }
    } else {
        let record = stripped_record(token, revoked, evaluation_time);
        assert(invalid.contains(record));
        let k = choose|k: int| 0 <= k < invalid.len() && invalid[k] == record;
        assert(invalid[k].token_id == token.token_id);
        if holds_token_id(effective, token.token_id) {
            let e = choose|e: int|
                0 <= e < effective.len() && (#[trigger] effective[e]).token_id == token.token_id;
            assert(effective.contains(effective[e]));
            let j = choose|j: int| 0 <= j < tokens.len() && tokens[j] == effective[e];
            assert(tokens[j].token_id == tokens[index].token_id);
            assert(j != index);
            assert(false);
        }
    }
}

} // verus!
