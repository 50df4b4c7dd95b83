//! Explicit policy-schema migration transforms and migration audit metadata.

use sha2::{Digest, Sha256};
use vstd::prelude::*;

use super::policy_def::{
    canonical_policy_schema_version, canonical_schema_version, optional_context_rules,
    optional_text, ArgRule, ArgRuleView, ContextRules, ContextRulesView, PolicyAction,
    PolicyBudgets, PolicyDefinition, PolicyDefinitionView, SchemaVersion, SideEffectClass,
    ToolPolicy, ToolPolicyView,
};
use crate::text::{string_texts, text_of};

verus! {

/// The number of the legacy schema version that can be migrated.
pub const LEGACY_POLICY_SCHEMA_VERSION_NUMBER: u64 = 0;

/// The legacy schema version that can be migrated.
pub open spec fn legacy_schema_version() -> SchemaVersion {
    SchemaVersion::of(LEGACY_POLICY_SCHEMA_VERSION_NUMBER)
}

/// The legacy schema version that can be migrated.
pub fn legacy_policy_schema_version() -> (version: SchemaVersion)
    ensures
        version == legacy_schema_version(),
{
    SchemaVersion::new(LEGACY_POLICY_SCHEMA_VERSION_NUMBER)
}

/// The stable name of the transform from schema version 0 to 1.
pub open spec fn schema_migration_v0_to_v1_name() -> Seq<char> {
    "policy_schema_v0_to_v1"@
}

/// The error that `serde_json` reports; nothing of its content is read here.
#[verifier::external_type_specification]
#[verifier::external_body]
pub struct ExJsonError(serde_json::Error);

/// Auditable evidence for one explicit schema migration transform.
#[derive(Clone, Debug, PartialEq, Eq)]
pub struct MigrationStepRecord {
    /// Source schema version before this step.
    pub from_schema_version: SchemaVersion,
    /// Target schema version after this step.
    pub to_schema_version: SchemaVersion,
    /// Stable transform identifier.
    pub transform_name: String,
    /// Deterministic hash of canonicalized step input.
    pub input_hash: String,
    /// Deterministic hash of canonicalized step output.
    pub output_hash: String,
}

/// Mathematical model of a [`MigrationStepRecord`].
pub ghost struct MigrationStepRecordView {
    pub from_schema_version: SchemaVersion,
    pub to_schema_version: SchemaVersion,
    pub transform_name: Seq<char>,
    pub input_hash: Seq<char>,
    pub output_hash: Seq<char>,
}

impl View for MigrationStepRecord {
    type V = MigrationStepRecordView;

    open spec fn view(&self) -> MigrationStepRecordView {
        MigrationStepRecordView {
            from_schema_version: self.from_schema_version,
            to_schema_version: self.to_schema_version,
            transform_name: self.transform_name@,
            input_hash: self.input_hash@,
            output_hash: self.output_hash@,
        }
    }
}

/// Auditable migration evidence for a loaded policy document.
#[derive(Clone, Debug, PartialEq, Eq)]
pub struct MigrationAuditRecord {
    /// Source schema version observed in the input policy document.
    pub source_schema_version: SchemaVersion,
    /// Canonical schema version produced for runtime enforcement.
    pub target_schema_version: SchemaVersion,
    /// Deterministic hash of canonicalized source policy content.
    pub source_document_hash: String,
    /// Deterministic hash of canonicalized canonical-policy content.
    pub target_document_hash: String,
    /// Ordered migration steps that were applied.
    pub migration_steps: Vec<MigrationStepRecord>,
}

/// Mathematical model of a [`MigrationAuditRecord`].
pub ghost struct MigrationAuditRecordView {
    pub source_schema_version: SchemaVersion,
    pub target_schema_version: SchemaVersion,
    pub source_document_hash: Seq<char>,
    pub target_document_hash: Seq<char>,
    pub migration_steps: Seq<MigrationStepRecordView>,
}

impl View for MigrationAuditRecord {
    type V = MigrationAuditRecordView;

    open spec fn view(&self) -> MigrationAuditRecordView {
        MigrationAuditRecordView {
            source_schema_version: self.source_schema_version,
            target_schema_version: self.target_schema_version,
            source_document_hash: self.source_document_hash@,
            target_document_hash: self.target_document_hash@,
            migration_steps: self.migration_steps@.map_values(|step: MigrationStepRecord| step@),
        }
    }
}

impl MigrationAuditRecord {
    /// Return `true` when at least one migration transform was executed.
    pub fn was_migrated(&self) -> (migrated: bool)
        ensures
            migrated == (self@.migration_steps.len() > 0),
    {
        self.migration_steps.len() > 0
    }
}

/// Errors encountered while building migration evidence.
#[derive(Debug)]
pub enum MigrationError {
    /// Migration-evidence hashing could not serialize the policy payload.
    HashSerializationFailed(serde_json::Error),
}

/// Legacy schema v0 argument-rule format.
#[derive(Clone, Debug, PartialEq, Eq)]
pub struct ArgRuleV0 {
    /// Argument identifier.
    pub name: String,
    /// Optional integrity requirement.
    pub requires_integrity: Option<String>,
    /// Optional confidentiality deny-list.
    pub forbid_confidentiality: Vec<String>,
}

/// Mathematical model of an [`ArgRuleV0`].
pub ghost struct ArgRuleV0View {
    pub name: Seq<char>,
    pub requires_integrity: Option<Seq<char>>,
    pub forbid_confidentiality: Seq<Seq<char>>,
}

impl View for ArgRuleV0 {
    type V = ArgRuleV0View;

    open spec fn view(&self) -> ArgRuleV0View {
        ArgRuleV0View {
            name: self.name@,
            requires_integrity: optional_text(self.requires_integrity),
            forbid_confidentiality: string_texts(self.forbid_confidentiality@),
        }
    }
}

/// Legacy schema v0 per-tool policy format.
#[derive(Clone, Debug, PartialEq, Eq)]
pub struct ToolPolicyV0 {
    /// Tool identifier.
    pub name: String,
    /// Side-effect class used by policy evaluation.
    pub side_effect: SideEffectClass,
    /// Required authority tokens.
    pub authority: Vec<String>,
    /// Argument rules applied to tool call arguments.
    pub args: Vec<ArgRuleV0>,
    /// Context rules applied to execution control context.
    pub context: Option<ContextRules>,
    /// Default decision for the tool.
    pub default_decision: PolicyAction,
}

/// Mathematical model of a [`ToolPolicyV0`].
pub ghost struct ToolPolicyV0View {
    pub name: Seq<char>,
    pub side_effect: SideEffectClass,
    pub authority: Seq<Seq<char>>,
    pub args: Seq<ArgRuleV0View>,
    pub context: Option<ContextRulesView>,
    pub default_decision: PolicyAction,
}

impl View for ToolPolicyV0 {
    type V = ToolPolicyV0View;

    open spec fn view(&self) -> ToolPolicyV0View {
        ToolPolicyV0View {
            name: self.name@,
            side_effect: self.side_effect,
            authority: string_texts(self.authority@),
            args: self.args@.map_values(|rule: ArgRuleV0| rule@),
            context: optional_context_rules(self.context),
            default_decision: self.default_decision,
        }
    }
}

/// Legacy schema v0 policy format supported for explicit migration.
#[derive(Clone, Debug, PartialEq, Eq)]
pub struct PolicyDefinitionV0 {
    /// Policy schema contract version.
    pub schema_version: SchemaVersion,
    /// Stable policy profile identifier.
    pub policy_name: String,
    /// Baseline action for non-matching tool rules.
    pub default_action: PolicyAction,
    /// Strict-mode policy switch.
    pub strict_mode: bool,
    /// Resource limits for provenance analysis.
    pub budgets: PolicyBudgets,
    /// Per-tool policy definitions.
    pub tools: Vec<ToolPolicyV0>,
}

/// Mathematical model of a [`PolicyDefinitionV0`].
pub ghost struct PolicyDefinitionV0View {
    pub schema_version: SchemaVersion,
    pub policy_name: Seq<char>,
    pub default_action: PolicyAction,
    pub strict_mode: bool,
    pub budgets: PolicyBudgets,
    pub tools: Seq<ToolPolicyV0View>,
}

impl View for PolicyDefinitionV0 {
    type V = PolicyDefinitionV0View;

    open spec fn view(&self) -> PolicyDefinitionV0View {
        PolicyDefinitionV0View {
            schema_version: self.schema_version,
            policy_name: self.policy_name@,
            default_action: self.default_action,
            strict_mode: self.strict_mode,
            budgets: self.budgets,
            tools: self.tools@.map_values(|tool: ToolPolicyV0| tool@),
        }
    }
}

/// The canonical form of a legacy argument rule: the same content under the
/// canonical field names.
pub open spec fn migrated_arg_rule(rule: ArgRuleV0View) -> ArgRuleView {
    ArgRuleView {
        arg: rule.name,
        requires_integrity: rule.requires_integrity,
        forbids_confidentiality: rule.forbid_confidentiality,
    }
}

/// The canonical form of a legacy tool policy: the same content under the
/// canonical field names.
pub open spec fn migrated_tool_policy(tool: ToolPolicyV0View) -> ToolPolicyView {
    ToolPolicyView {
        tool: tool.name,
        side_effect_class: tool.side_effect,
        required_authority: tool.authority,
        arg_rules: tool.args.map_values(|rule: ArgRuleV0View| migrated_arg_rule(rule)),
        context_rules: tool.context,
        default_decision: tool.default_decision,
    }
}

/// The canonical form of a legacy policy: the canonical schema version, and
/// otherwise the same content, tool by tool and rule by rule, in order.
pub open spec fn migrated_policy(source: PolicyDefinitionV0View) -> PolicyDefinitionView {
    PolicyDefinitionView {
        schema_version: canonical_schema_version(),
        policy_name: source.policy_name,
        default_action: source.default_action,
        strict_mode: source.strict_mode,
        budgets: source.budgets,
        tools: source.tools.map_values(|tool: ToolPolicyV0View| migrated_tool_policy(tool)),
    }
}

/// Execute the explicit v0-to-v1 schema migration transform.
pub fn migrate_schema_v0_to_v1(source_policy: PolicyDefinitionV0) -> (migrated: PolicyDefinition)
    ensures
        migrated@ == migrated_policy(source_policy@),
{
    let ghost source_tools = source_policy.tools@;
    let mut tools: Vec<ToolPolicy> = Vec::with_capacity(source_policy.tools.len());
    for tool in iter: source_policy.tools.into_iter()
        invariant
            iter.seq() == source_tools,
            tools@.len() == iter.index(),
            forall|k: int|
                0 <= k < iter.index() ==> (#[trigger] tools@[k])@ == migrated_tool_policy(
                    source_tools[k]@,
                ),
    {
        tools.push(map_tool_policy_v0_to_v1(tool));
    }
    let migrated = PolicyDefinition {
        schema_version: canonical_policy_schema_version(),
        policy_name: source_policy.policy_name,
        default_action: source_policy.default_action,
        strict_mode: source_policy.strict_mode,
        budgets: source_policy.budgets,
        tools,
    };
    assert(migrated@.tools =~= migrated_policy(source_policy@).tools);
    migrated
}

/// Bring one legacy tool policy into its canonical form.
pub fn map_tool_policy_v0_to_v1(tool_policy_v0: ToolPolicyV0) -> (tool_policy: ToolPolicy)
    ensures
        tool_policy@ == migrated_tool_policy(tool_policy_v0@),
{
    let ghost source_rules = tool_policy_v0.args@;
    let mut arg_rules: Vec<ArgRule> = Vec::with_capacity(tool_policy_v0.args.len());
    for arg_rule in iter: tool_policy_v0.args.into_iter()
        invariant
            iter.seq() == source_rules,
            arg_rules@.len() == iter.index(),
            forall|k: int|
                0 <= k < iter.index() ==> (#[trigger] arg_rules@[k])@ == migrated_arg_rule(
                    source_rules[k]@,
                ),
    {
        arg_rules.push(
            ArgRule {
                arg: arg_rule.name,
                requires_integrity: arg_rule.requires_integrity,
                forbids_confidentiality: arg_rule.forbid_confidentiality,
            },
        );
    }
    let tool_policy = ToolPolicy {
        tool: tool_policy_v0.name,
        side_effect_class: tool_policy_v0.side_effect,
        required_authority: tool_policy_v0.authority,
        arg_rules,
        context_rules: tool_policy_v0.context,
        default_decision: tool_policy_v0.default_decision,
    };
    assert(tool_policy@.arg_rules =~= migrated_tool_policy(tool_policy_v0@).arg_rules);
    tool_policy
}

/// The SHA-256 digest of `bytes`.
pub uninterp spec fn sha256_digest(bytes: Seq<u8>) -> Seq<u8>;

/// `Sha256::digest` hashes the whole input at once; the digest depends on
/// the input bytes alone.
#[verifier::external_body]
fn sha256(bytes: &[u8]) -> (digest: Vec<u8>)
    ensures
        digest@ == sha256_digest(bytes@),
{
    Sha256::digest(bytes).to_vec()
}

/// The lower-case hexadecimal digit of a value below sixteen.
pub open spec fn hex_digit(nibble: u8) -> char {
    if nibble < 10 {
        ((0x30 + nibble) as u8) as char
    } else {
        ((0x57 + nibble) as u8) as char
    }
}

/// The lower-case hexadecimal text of `bytes`, two digits for each byte.
pub open spec fn lower_hex(bytes: Seq<u8>) -> Seq<char>
    decreases bytes.len(),
{
    if bytes.len() == 0 {
        Seq::empty()
    } else {
        lower_hex(bytes.drop_last()).push(hex_digit(bytes.last() / 16)).push(
            hex_digit(bytes.last() % 16),
        )
    }
}

/// The hash that stands for a policy document in audit evidence: the
/// lower-case hexadecimal SHA-256 digest of its canonical JSON encoding.
pub open spec fn document_hash(canonical_json: Seq<u8>) -> Seq<char> {
    lower_hex(sha256_digest(canonical_json))
}

/// The lower-case hexadecimal digit of a value below sixteen.
fn hex_digit_of(nibble: u8) -> (digit: char)
    requires
        nibble < 16,
    ensures
        digit == hex_digit(nibble),
{
    if nibble < 10 {
        (0x30 + nibble) as char
    } else {
        (0x57 + nibble) as char
    }
}

/// Hash the canonical JSON encoding of a policy document.
pub fn stable_policy_hash(canonical_json: &[u8]) -> (hash: String)
    ensures
        hash@ == document_hash(canonical_json@),
{
    let digest = sha256(canonical_json);
    let mut digits: Vec<char> = Vec::new();
    for i in 0..digest.len()
        invariant
            digits@ == lower_hex(digest@.take(i as int)),
    {
        let byte = digest[i];
        proof {
            let next = digest@.take(i + 1);
            assert(next.drop_last() =~= digest@.take(i as int));
            assert(next.last() == byte);
        }
        digits.push(hex_digit_of(byte / 16));
        digits.push(hex_digit_of(byte % 16));
    }
    assert(digest@.take(digest.len() as int) =~= digest@);
    text_of(digits.as_slice())
}

/// The audit evidence of a document that was loaded in the canonical schema:
/// nothing was migrated, so source and target are one document.
pub open spec fn canonical_audit(canonical_json: Seq<u8>) -> MigrationAuditRecordView {
    MigrationAuditRecordView {
        source_schema_version: canonical_schema_version(),
        target_schema_version: canonical_schema_version(),
        source_document_hash: document_hash(canonical_json),
        target_document_hash: document_hash(canonical_json),
        migration_steps: Seq::empty(),
    }
}

/// The audit evidence of a document that was migrated from the legacy
/// schema: one step, whose input and output hashes are those of the source
/// and of the target document.
pub open spec fn migration_audit(source_json: Seq<u8>, target_json: Seq<u8>) ->
    MigrationAuditRecordView {
    MigrationAuditRecordView {
        source_schema_version: legacy_schema_version(),
        target_schema_version: canonical_schema_version(),
        source_document_hash: document_hash(source_json),
        target_document_hash: document_hash(target_json),
        migration_steps: seq![
            MigrationStepRecordView {
                from_schema_version: legacy_schema_version(),
                to_schema_version: canonical_schema_version(),
                transform_name: schema_migration_v0_to_v1_name(),
                input_hash: document_hash(source_json),
                output_hash: document_hash(target_json),
            },
        ],
    }
}

/// Build an audit record for canonical input that required no migration
/// steps, from the canonical JSON encoding of the policy.
pub fn audit_for_canonical_policy(canonical_json: &[u8]) -> (audit: MigrationAuditRecord)
    ensures
        audit@ == canonical_audit(canonical_json@),
{
    let canonical_hash = stable_policy_hash(canonical_json);
    let audit = MigrationAuditRecord {
        source_schema_version: canonical_policy_schema_version(),
        target_schema_version: canonical_policy_schema_version(),
        source_document_hash: canonical_hash.clone(),
        target_document_hash: canonical_hash,
        migration_steps: Vec::new(),
    };
    assert(audit@.migration_steps =~= Seq::empty());
    audit
}

/// Build the audit record of a v0-to-v1 migration from the canonical JSON
/// encodings of the legacy source and of the migrated policy.
pub fn audit_for_migrated_policy(source_json: &[u8], target_json: &[u8]) -> (audit:
    MigrationAuditRecord)
    ensures
        audit@ == migration_audit(source_json@, target_json@),
{
    let source_hash = stable_policy_hash(source_json);
    let target_hash = stable_policy_hash(target_json);
    let migration_step = MigrationStepRecord {
        from_schema_version: legacy_policy_schema_version(),
        to_schema_version: canonical_policy_schema_version(),
        transform_name: "policy_schema_v0_to_v1".to_owned(),
        input_hash: source_hash.clone(),
        output_hash: target_hash.clone(),
    };
    let audit = MigrationAuditRecord {
        source_schema_version: legacy_policy_schema_version(),
        target_schema_version: canonical_policy_schema_version(),
        source_document_hash: source_hash,
        target_document_hash: target_hash,
        migration_steps: vec![migration_step],
    };
    assert(audit@.migration_steps =~= migration_audit(source_json@, target_json@).migration_steps);
    audit
}

} // verus!
