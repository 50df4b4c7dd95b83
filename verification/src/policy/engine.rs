//! Runtime policy-engine construction from validated policy definitions.

use vstd::prelude::*;

use super::load_outcome::LoadOutcome;
use super::migration::MigrationAuditRecord;
use super::policy_def::{PolicyDefinition, PolicyLoadOutcome};
use crate::authority::validation::{boundary_validation, token_views};
use crate::authority::{
    validate_tokens_at_policy_boundary, AuthorityBoundaryValidation, AuthorityToken,
    RevocationIndex, TokenTimestamp,
};

verus! {

/// Runtime policy engine backed by a validated policy definition.
#[derive(Clone, Debug, PartialEq, Eq)]
pub struct PolicyEngine {
    policy_definition: PolicyDefinition,
}

/// Outcome of constructing a policy engine with migration evidence.
#[derive(Clone, Debug, PartialEq, Eq)]
pub struct PolicyEngineLoadOutcome {
    load_outcome: LoadOutcome<PolicyEngine>,
}

impl PolicyEngineLoadOutcome {
    /// The engine that the outcome holds.
    pub closed spec fn engine(&self) -> PolicyEngine {
        self.load_outcome.loaded()
    }

    /// The migration audit evidence that the outcome holds.
    pub closed spec fn audit(&self) -> MigrationAuditRecord {
        self.load_outcome.audit()
    }

    /// Return the built policy engine.
    pub fn policy_engine(&self) -> (policy_engine: &PolicyEngine)
        ensures
            *policy_engine == self.engine(),
    {
        self.load_outcome.value()
    }

    /// Return migration audit evidence for this load operation.
    pub fn migration_audit(&self) -> (migration_audit: &MigrationAuditRecord)
        ensures
            *migration_audit == self.audit(),
    {
        self.load_outcome.migration_audit()
    }

    /// Consume this outcome and return both engine and audit evidence.
    pub fn into_parts(self) -> (parts: (PolicyEngine, MigrationAuditRecord))
        ensures
            parts.0 == self.engine(),
            parts.1 == self.audit(),
    {
        self.load_outcome.into_parts()
    }
}

impl PolicyEngine {
    /// The policy definition that the engine enforces.
    pub closed spec fn definition(&self) -> PolicyDefinition {
        self.policy_definition
    }

    /// Return the validated policy definition in use by this engine.
    pub fn policy_definition(&self) -> (policy_definition: &PolicyDefinition)
        ensures
            *policy_definition == self.definition(),
    {
        &self.policy_definition
    }

    /// Validate authority tokens at a policy-evaluation boundary.
    ///
    /// Tokens that are revoked, expired, or pre-issuance at
    /// `evaluation_time` are stripped from the effective authority set and
    /// recorded as invalid. The engine consumes the lifecycle verdicts of
    /// the authority module and adds nothing of its own.
    pub fn validate_authority_tokens(
        &self,
        tokens: &[AuthorityToken],
        revocation_index: &RevocationIndex,
        evaluation_time: TokenTimestamp,
    ) -> (validation: AuthorityBoundaryValidation)
        ensures
            validation@ == boundary_validation(
                token_views(tokens@),
                revocation_index@,
                evaluation_time@,
            ),
    {
        validate_tokens_at_policy_boundary(tokens, revocation_index, evaluation_time)
    }
}

/// Build the engine for a loaded policy, keeping the audit evidence of the
/// load.
pub fn build_engine_load_outcome(policy_load_outcome: PolicyLoadOutcome) -> (outcome:
    PolicyEngineLoadOutcome)
    ensures
        outcome.engine().definition() == policy_load_outcome.definition(),
        outcome.audit() == policy_load_outcome.audit(),
{
    let (policy_definition, migration_audit) = policy_load_outcome.into_parts();
    let policy_engine = PolicyEngine { policy_definition };
    PolicyEngineLoadOutcome { load_outcome: LoadOutcome::new(policy_engine, migration_audit) }
}

} // verus!
