//! Canonical policy schema models and schema-version validation.

use vstd::prelude::*;

use super::load_outcome::LoadOutcome;
use super::migration::{
    audit_for_canonical_policy, audit_for_migrated_policy, canonical_audit,
    legacy_policy_schema_version, legacy_schema_version, migration_audit, MigrationAuditRecord,
    MigrationError,
};
use crate::text::string_texts;

verus! {

/// Canonical policy schema version wrapper to avoid integer soup in APIs.
#[derive(Clone, Copy, Debug, PartialEq, Eq, PartialOrd, Ord, Structural)]
pub struct SchemaVersion(u64);

impl View for SchemaVersion {
    type V = nat;

    closed spec fn view(&self) -> nat {
        self.0 as nat
    }
}

impl SchemaVersion {
    /// Build a schema version from a primitive value.
    pub fn new(version: u64) -> (schema_version: Self)
        ensures
            schema_version@ == version,
            schema_version == Self::of(version),
    {
        Self(version)
    }

    /// The schema version `version`.
    pub closed spec fn of(version: u64) -> Self {
        Self(version)
    }

    /// Return the wrapped primitive schema version.
    pub fn as_u64(&self) -> (version: u64)
        ensures
            version == self@,
            *self == Self::of(version),
    {
        self.0
    }
}

/// The number of the canonical schema version.
pub const CANONICAL_POLICY_SCHEMA_VERSION_NUMBER: u64 = 1;

/// Canonical schema version accepted by runtime policy loaders.
pub open spec fn canonical_schema_version() -> SchemaVersion {
    SchemaVersion::of(CANONICAL_POLICY_SCHEMA_VERSION_NUMBER)
}

/// Canonical schema version accepted by runtime policy loaders.
pub fn canonical_policy_schema_version() -> (version: SchemaVersion)
    ensures
        version == canonical_schema_version(),
{
    SchemaVersion::new(CANONICAL_POLICY_SCHEMA_VERSION_NUMBER)
}

/// Resource-budget limit wrapper used across policy definitions.
#[derive(Clone, Copy, Debug, PartialEq, Eq, PartialOrd, Ord, Structural)]
pub struct BudgetLimit(u64);

impl View for BudgetLimit {
    type V = nat;

    closed spec fn view(&self) -> nat {
        self.0 as nat
    }
}

impl BudgetLimit {
    /// Build a budget limit from a primitive value.
    pub fn new(value: u64) -> (limit: Self)
        ensures
            limit@ == value,
    {
        Self(value)
    }

    /// Return the wrapped primitive budget value.
    pub fn as_u64(&self) -> (value: u64)
        ensures
            value == self@,
    {
        self.0
    }
}

/// The text of an optional string.
pub open spec fn optional_text(string: Option<String>) -> Option<Seq<char>> {
    match string {
        Some(string) => Some(string@),
        None => None,
    }
}

/// Policy fallback and per-rule action types.
#[derive(Clone, Copy, Debug, PartialEq, Eq, Structural)]
pub enum PolicyAction {
    /// Allow without requiring confirmation.
    Allow,
    /// Deny the action.
    Deny,
    /// Require explicit user confirmation.
    RequireConfirmation,
    /// Require draft generation instead of direct execution.
    RequireDraft,
}

/// Supported side-effect classes for policy tool entries.
#[derive(Clone, Copy, Debug, PartialEq, Eq, Structural)]
pub enum SideEffectClass {
    /// Non-mutating external read.
    ExternalRead,
    /// Mutating external write.
    ExternalWrite,
}

/// Budget limits used by dependency summarization and traversal.
#[derive(Clone, Copy, Debug, PartialEq, Eq, Structural)]
pub struct PolicyBudgets {
    /// Maximum number of tracked values.
    pub max_values: BudgetLimit,
    /// Maximum number of parents per value.
    pub max_parents_per_value: BudgetLimit,
    /// Maximum number of closure traversal steps.
    pub max_closure_steps: BudgetLimit,
    /// Maximum witness depth in explanations.
    pub max_witness_depth: BudgetLimit,
}

/// Context constraints for a tool policy.
#[derive(Clone, Debug, PartialEq, Eq)]
pub struct ContextRules {
    /// Deny when program-counter integrity contains any listed labels.
    pub deny_if_pc_integrity_contains: Vec<String>,
}

/// Mathematical model of [`ContextRules`].
pub ghost struct ContextRulesView {
    pub deny_if_pc_integrity_contains: Seq<Seq<char>>,
}

impl View for ContextRules {
    type V = ContextRulesView;

    open spec fn view(&self) -> ContextRulesView {
        ContextRulesView {
            deny_if_pc_integrity_contains: string_texts(self.deny_if_pc_integrity_contains@),
        }
    }
}

/// The model of optional context rules.
pub open spec fn optional_context_rules(rules: Option<ContextRules>) -> Option<ContextRulesView> {
    match rules {
        Some(rules) => Some(rules@),
        None => None,
    }
}

/// Per-argument policy constraints.
#[derive(Clone, Debug, PartialEq, Eq)]
pub struct ArgRule {
    /// Argument identifier.
    pub arg: String,
    /// Optional integrity requirement.
    pub requires_integrity: Option<String>,
    /// Optional confidentiality deny-list.
    pub forbids_confidentiality: Vec<String>,
}

/// Mathematical model of an [`ArgRule`].
pub ghost struct ArgRuleView {
    pub arg: Seq<char>,
    pub requires_integrity: Option<Seq<char>>,
    pub forbids_confidentiality: Seq<Seq<char>>,
}

impl View for ArgRule {
    type V = ArgRuleView;

    open spec fn view(&self) -> ArgRuleView {
        ArgRuleView {
            arg: self.arg@,
            requires_integrity: optional_text(self.requires_integrity),
            forbids_confidentiality: string_texts(self.forbids_confidentiality@),
        }
    }
}

/// Per-tool policy definition.
#[derive(Clone, Debug, PartialEq, Eq)]
pub struct ToolPolicy {
    /// Tool identifier.
    pub tool: String,
    /// Side-effect class used by policy evaluation.
    pub side_effect_class: SideEffectClass,
    /// Required authority tokens.
    pub required_authority: Vec<String>,
    /// Argument rules applied to tool call arguments.
    pub arg_rules: Vec<ArgRule>,
    /// Context rules applied to execution control context.
    pub context_rules: Option<ContextRules>,
    /// Default decision for the tool.
    pub default_decision: PolicyAction,
}

/// Mathematical model of a [`ToolPolicy`].
pub ghost struct ToolPolicyView {
    pub tool: Seq<char>,
    pub side_effect_class: SideEffectClass,
    pub required_authority: Seq<Seq<char>>,
    pub arg_rules: Seq<ArgRuleView>,
    pub context_rules: Option<ContextRulesView>,
    pub default_decision: PolicyAction,
}

impl View for ToolPolicy {
    type V = ToolPolicyView;

    open spec fn view(&self) -> ToolPolicyView {
        ToolPolicyView {
            tool: self.tool@,
            side_effect_class: self.side_effect_class,
            required_authority: string_texts(self.required_authority@),
            arg_rules: self.arg_rules@.map_values(|rule: ArgRule| rule@),
            context_rules: optional_context_rules(self.context_rules),
            default_decision: self.default_decision,
        }
    }
}

/// A validated policy definition that can be used by runtime loaders.
#[derive(Clone, Debug, PartialEq, Eq)]
pub struct PolicyDefinition {
    /// Policy schema contract version.
    pub schema_version: SchemaVersion,
    /// Stable policy profile identifier.
    pub policy_name: String,
    /// Baseline action for non-matching tool rules.
    pub default_action: PolicyAction,
    /// Strict-mode policy switch.
    pub strict_mode: bool,
    /// Resource limits for provenance analysis.
    pub budgets: PolicyBudgets,
    /// Per-tool policy definitions.
    pub tools: Vec<ToolPolicy>,
}

/// Mathematical model of a [`PolicyDefinition`].
pub ghost struct PolicyDefinitionView {
    pub schema_version: SchemaVersion,
    pub policy_name: Seq<char>,
    pub default_action: PolicyAction,
    pub strict_mode: bool,
    pub budgets: PolicyBudgets,
    pub tools: Seq<ToolPolicyView>,
}

impl View for PolicyDefinition {
    type V = PolicyDefinitionView;

    open spec fn view(&self) -> PolicyDefinitionView {
        PolicyDefinitionView {
            schema_version: self.schema_version,
            policy_name: self.policy_name@,
            default_action: self.default_action,
            strict_mode: self.strict_mode,
            budgets: self.budgets,
            tools: self.tools@.map_values(|tool: ToolPolicy| tool@),
        }
    }
}

/// The error that `serde_yaml` reports; nothing of its content is read here.
#[verifier::external_type_specification]
#[verifier::external_body]
pub struct ExYamlError(serde_yaml::Error);

/// Loader failure contract for policy definitions.
#[derive(Debug)]
pub enum PolicyLoadError {
    /// YAML parser rejected the policy document.
    InvalidYaml(serde_yaml::Error),
    /// JSON parser rejected the policy document.
    InvalidJson(serde_json::Error),
    /// Runtime rejects policies that do not match the canonical schema version.
    UnsupportedSchemaVersion {
        /// Parsed schema version in the input document.
        found: SchemaVersion,
        /// Canonical schema version accepted by the runtime.
        expected: SchemaVersion,
    },
    /// Migration-audit evidence generation failed during policy loading.
    MigrationAuditFailed(MigrationError),
}

/// Whether `error` reports that the schema version `found` is not accepted.
pub open spec fn is_unsupported_schema_version(
    error: PolicyLoadError,
    found: SchemaVersion,
) -> bool {
    match error {
        PolicyLoadError::UnsupportedSchemaVersion { found: reported, expected } => reported
            == found && expected == canonical_schema_version(),
        _ => false,
    }
}

impl PolicyDefinition {
    /// Accept the policy only if it declares the canonical schema version.
    pub fn ensure_canonical_schema_version(self) -> (result: Result<Self, PolicyLoadError>)
        ensures
            match result {
                Ok(policy) => self.schema_version == canonical_schema_version() && policy == self,
                Err(error) => self.schema_version != canonical_schema_version()
                    && is_unsupported_schema_version(error, self.schema_version),
            },
    {
        if self.schema_version == canonical_policy_schema_version() {
            Ok(self)
        } else {
            Err(
                PolicyLoadError::UnsupportedSchemaVersion {
                    found: self.schema_version,
                    expected: canonical_policy_schema_version(),
                },
            )
        }
    }
}

/// Outcome of loading a policy document with migration evidence.
#[derive(Clone, Debug, PartialEq, Eq)]
pub struct PolicyLoadOutcome {
    load_outcome: LoadOutcome<PolicyDefinition>,
}

impl PolicyLoadOutcome {
    /// The policy definition that the outcome holds.
    pub closed spec fn definition(&self) -> PolicyDefinition {
        self.load_outcome.loaded()
    }

    /// The migration audit evidence that the outcome holds.
    pub closed spec fn audit(&self) -> MigrationAuditRecord {
        self.load_outcome.audit()
    }

    /// Pair a canonical policy definition with its migration audit evidence.
    fn new(policy_definition: PolicyDefinition, migration_audit: MigrationAuditRecord) -> (outcome:
        Self)
        ensures
            outcome.definition() == policy_definition,
            outcome.audit() == migration_audit,
    {
        Self { load_outcome: LoadOutcome::new(policy_definition, migration_audit) }
    }

    /// Return the validated canonical policy definition.
    pub fn policy_definition(&self) -> (policy_definition: &PolicyDefinition)
        ensures
            *policy_definition == self.definition(),
    {
        self.load_outcome.value()
    }

    /// Return migration audit evidence for this load operation.
    pub fn migration_audit(&self) -> (migration_audit: &MigrationAuditRecord)
        ensures
            *migration_audit == self.audit(),
    {
        self.load_outcome.migration_audit()
    }

    /// Consume this outcome and return both the policy and migration audit.
    pub fn into_parts(self) -> (parts: (PolicyDefinition, MigrationAuditRecord))
        ensures
            parts.0 == self.definition(),
            parts.1 == self.audit(),
    {
        self.load_outcome.into_parts()
    }
}

/// How a policy document is to be read, by the schema version it declares.
#[derive(Clone, Copy, Debug, PartialEq, Eq, Structural)]
pub enum PolicySchemaPath {
    /// The document is in the canonical schema.
    Canonical,
    /// The document is in the legacy schema and has to be migrated.
    Legacy,
}

/// How a document that declares `schema_version` is to be read, if it can
/// be: a document without a version is read as canonical, and no version
/// other than the canonical and the legacy one is accepted.
pub open spec fn schema_path(schema_version: Option<SchemaVersion>) -> Option<PolicySchemaPath> {
    match schema_version {
        None => Some(PolicySchemaPath::Canonical),
        Some(version) => if version == canonical_schema_version() {
            Some(PolicySchemaPath::Canonical)
        } else if version == legacy_schema_version() {
            Some(PolicySchemaPath::Legacy)
        } else {
            None
        },
    }
}

/// Decide how to read a policy document from the schema version that was
/// probed in it.
pub fn select_schema_path(schema_version: Option<SchemaVersion>) -> (result: Result<
    PolicySchemaPath,
    PolicyLoadError,
>)
    ensures
        match result {
            Ok(path) => schema_path(schema_version) == Some(path),
            Err(error) => schema_path(schema_version) is None && schema_version is Some
                && is_unsupported_schema_version(error, schema_version->Some_0),
        },
{
    match schema_version {
        None => Ok(PolicySchemaPath::Canonical),
        Some(version) => {
            if version == canonical_policy_schema_version() {
                Ok(PolicySchemaPath::Canonical)
            } else if version == legacy_policy_schema_version() {
                Ok(PolicySchemaPath::Legacy)
            } else {
                Err(
                    PolicyLoadError::UnsupportedSchemaVersion {
                        found: version,
                        expected: canonical_policy_schema_version(),
                    },
                )
            }
        },
    }
}

/// Accept a policy that was read in the canonical schema, with the audit
/// evidence of its canonical JSON encoding.
pub fn canonical_load_outcome(
    policy_definition: PolicyDefinition,
    canonical_json: &[u8],
) -> (result: Result<PolicyLoadOutcome, PolicyLoadError>)
    ensures
        match result {
            Ok(outcome) => {
                &&& policy_definition.schema_version == canonical_schema_version()
                &&& outcome.definition() == policy_definition
                &&& outcome.audit()@ == canonical_audit(canonical_json@)
            },
            Err(error) => policy_definition.schema_version != canonical_schema_version()
                && is_unsupported_schema_version(error, policy_definition.schema_version),
        },
{
    match policy_definition.ensure_canonical_schema_version() {
        Ok(policy_definition) => {
            let migration_audit = audit_for_canonical_policy(canonical_json);
            Ok(PolicyLoadOutcome::new(policy_definition, migration_audit))
        },
        Err(error) => Err(error),
    }
}

/// Accept a policy that was migrated from the legacy schema, with the audit
/// evidence of the canonical JSON encodings of its source and of itself.
pub fn migrated_load_outcome(
    policy_definition: PolicyDefinition,
    source_json: &[u8],
    target_json: &[u8],
) -> (result: Result<PolicyLoadOutcome, PolicyLoadError>)
    ensures
        match result {
            Ok(outcome) => {
                &&& policy_definition.schema_version == canonical_schema_version()
                &&& outcome.definition() == policy_definition
                &&& outcome.audit()@ == migration_audit(source_json@, target_json@)
            },
            Err(error) => policy_definition.schema_version != canonical_schema_version()
                && is_unsupported_schema_version(error, policy_definition.schema_version),
        },
{
    match policy_definition.ensure_canonical_schema_version() {
        Ok(policy_definition) => {
            let migration_audit = audit_for_migrated_policy(source_json, target_json);
            Ok(PolicyLoadOutcome::new(policy_definition, migration_audit))
        },
        Err(error) => Err(error),
    }
}

} // verus!
