//! Policy schema models, explicit migrations, and runtime policy-engine
//! entrypoints.

pub mod engine;
pub mod load_outcome;
pub mod migration;
pub mod policy_def;

pub use engine::{build_engine_load_outcome, PolicyEngine, PolicyEngineLoadOutcome};
pub use migration::{
    audit_for_canonical_policy, audit_for_migrated_policy, legacy_policy_schema_version,
    migrate_schema_v0_to_v1, stable_policy_hash, ArgRuleV0, MigrationAuditRecord, MigrationError,
    MigrationStepRecord, PolicyDefinitionV0, ToolPolicyV0,
};
pub use policy_def::{
    canonical_load_outcome, canonical_policy_schema_version, migrated_load_outcome,
    select_schema_path, ArgRule, BudgetLimit, ContextRules, PolicyAction, PolicyBudgets,
    PolicyDefinition, PolicyLoadError, PolicyLoadOutcome, PolicySchemaPath, SchemaVersion,
    SideEffectClass, ToolPolicy, CANONICAL_POLICY_SCHEMA_VERSION_NUMBER,
};
