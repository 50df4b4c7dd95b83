//! Tests for policy schema models, migration and audit evidence.

use zamburak::authority::{RevocationIndex, TokenTimestamp};
use zamburak::policy::{
    audit_for_canonical_policy, audit_for_migrated_policy, build_engine_load_outcome,
    canonical_load_outcome, canonical_policy_schema_version, legacy_policy_schema_version,
    migrate_schema_v0_to_v1, migrated_load_outcome, select_schema_path, stable_policy_hash,
    ArgRule, ArgRuleV0, BudgetLimit, ContextRules, MigrationAuditRecord, MigrationStepRecord,
    PolicyAction, PolicyBudgets, PolicyDefinition, PolicyDefinitionV0, PolicyLoadError,
    PolicySchemaPath, SchemaVersion, SideEffectClass, ToolPolicy, ToolPolicyV0,
    CANONICAL_POLICY_SCHEMA_VERSION_NUMBER,
};

const SCHEMA_MIGRATION_V0_TO_V1: &str = "policy_schema_v0_to_v1";

fn budgets(limit: u64) -> PolicyBudgets {
    PolicyBudgets {
        max_values: BudgetLimit::new(limit),
        max_parents_per_value: BudgetLimit::new(limit + 1),
        max_closure_steps: BudgetLimit::new(limit + 2),
        max_witness_depth: BudgetLimit::new(limit + 3),
    }
}

fn minimal_policy(schema_version: u64) -> PolicyDefinition {
    PolicyDefinition {
        schema_version: SchemaVersion::new(schema_version),
        policy_name: "minimal_policy".to_owned(),
        default_action: PolicyAction::Deny,
        strict_mode: true,
        budgets: budgets(1),
        tools: Vec::new(),
    }
}

fn legacy_policy() -> PolicyDefinitionV0 {
    PolicyDefinitionV0 {
        schema_version: SchemaVersion::new(0),
        policy_name: "personal_assistant_default".to_owned(),
        default_action: PolicyAction::Deny,
        strict_mode: true,
        budgets: budgets(100),
        tools: vec![
            ToolPolicyV0 {
                name: "send_email".to_owned(),
                side_effect: SideEffectClass::ExternalWrite,
                authority: vec!["EmailSendCap".to_owned()],
                args: vec![
                    ArgRuleV0 {
                        name: "to".to_owned(),
                        requires_integrity: Some("Verified".to_owned()),
                        forbid_confidentiality: Vec::new(),
                    },
                    ArgRuleV0 {
                        name: "body".to_owned(),
                        requires_integrity: None,
                        forbid_confidentiality: vec!["AUTH_SECRET".to_owned(), "PII".to_owned()],
                    },
                ],
                context: Some(ContextRules {
                    deny_if_pc_integrity_contains: vec!["Untrusted".to_owned()],
                }),
                default_decision: PolicyAction::RequireConfirmation,
            },
            ToolPolicyV0 {
                name: "get_weather".to_owned(),
                side_effect: SideEffectClass::ExternalRead,
                authority: Vec::new(),
                args: Vec::new(),
                context: None,
                default_decision: PolicyAction::Allow,
            },
        ],
    }
}

fn canonical_json(document: &str) -> Vec<u8> {
    let value: serde_json::Value =
        serde_json::from_str(document).expect("fixture should parse as JSON");
    serde_json::to_vec(&value).expect("fixture should serialize")
}

const ORDERED_DOCUMENT: &str = r#"{
    "schema_version": 1,
    "policy_name": "ordered",
    "default_action": "Deny",
    "strict_mode": true,
    "budgets": {
      "max_values": 1,
      "max_parents_per_value": 1,
      "max_closure_steps": 1,
      "max_witness_depth": 1
    },
    "tools": []
}"#;

const REORDERED_DOCUMENT: &str = r#"{
    "tools": [],
    "budgets": {
      "max_witness_depth": 1,
      "max_closure_steps": 1,
      "max_parents_per_value": 1,
      "max_values": 1
    },
    "strict_mode": true,
    "default_action": "Deny",
    "policy_name": "ordered",
    "schema_version": 1
}"#;

#[test]
fn schema_version_and_budget_limit_wrap_their_values() {
    assert_eq!(SchemaVersion::new(7).as_u64(), 7);
    assert_eq!(BudgetLimit::new(u64::MAX).as_u64(), u64::MAX);
    assert_eq!(canonical_policy_schema_version(), SchemaVersion::new(1));
    assert_eq!(CANONICAL_POLICY_SCHEMA_VERSION_NUMBER, 1);
    assert_eq!(legacy_policy_schema_version(), SchemaVersion::new(0));
    assert!(SchemaVersion::new(0) < SchemaVersion::new(1));
}

#[test]
fn stable_policy_hash_is_the_lower_hex_sha256_digest() {
    assert_eq!(
        stable_policy_hash(b""),
        "e3b0c44298fc1c149afbf4c8996fb92427ae41e4649b934ca495991b7852b855"
    );
    assert_eq!(
        stable_policy_hash(b"abc"),
        "ba7816bf8f01cfea414140de5dae2223b00361a396177a9cb410ff61f20015ad"
    );
}

#[test]
fn migrates_schema_v0_to_v1_with_auditable_step_record() {
    let source_json = canonical_json(r#"{"schema_version": 0, "policy_name": "legacy"}"#);
    let target_json = canonical_json(r#"{"schema_version": 1, "policy_name": "legacy"}"#);
    let policy_definition = migrate_schema_v0_to_v1(legacy_policy());
    let migration_audit = audit_for_migrated_policy(&source_json, &target_json);

    assert_eq!(policy_definition.schema_version, SchemaVersion::new(1));
    assert_eq!(migration_audit.source_schema_version, SchemaVersion::new(0));
    assert_eq!(migration_audit.target_schema_version, SchemaVersion::new(1));
    assert_eq!(migration_audit.migration_steps.len(), 1);

    let step = &migration_audit.migration_steps[0];
    assert_eq!(step.from_schema_version, SchemaVersion::new(0));
    assert_eq!(step.to_schema_version, SchemaVersion::new(1));
    assert_eq!(step.transform_name, SCHEMA_MIGRATION_V0_TO_V1);
    assert_eq!(step.input_hash, migration_audit.source_document_hash);
    assert_eq!(step.output_hash, migration_audit.target_document_hash);
    assert_eq!(step.input_hash, stable_policy_hash(&source_json));
    assert_eq!(step.output_hash, stable_policy_hash(&target_json));
    assert!(migration_audit.was_migrated());
}

#[test]
fn migration_renames_fields_and_keeps_content_in_order() {
    let migrated = migrate_schema_v0_to_v1(legacy_policy());
    let expected = PolicyDefinition {
        schema_version: SchemaVersion::new(1),
        policy_name: "personal_assistant_default".to_owned(),
        default_action: PolicyAction::Deny,
        strict_mode: true,
        budgets: budgets(100),
        tools: vec![
            ToolPolicy {
                tool: "send_email".to_owned(),
                side_effect_class: SideEffectClass::ExternalWrite,
                required_authority: vec!["EmailSendCap".to_owned()],
                arg_rules: vec![
                    ArgRule {
                        arg: "to".to_owned(),
                        requires_integrity: Some("Verified".to_owned()),
                        forbids_confidentiality: Vec::new(),
                    },
                    ArgRule {
                        arg: "body".to_owned(),
                        requires_integrity: None,
                        forbids_confidentiality: vec!["AUTH_SECRET".to_owned(), "PII".to_owned()],
                    },
                ],
                context_rules: Some(ContextRules {
                    deny_if_pc_integrity_contains: vec!["Untrusted".to_owned()],
                }),
                default_decision: PolicyAction::RequireConfirmation,
            },
            ToolPolicy {
                tool: "get_weather".to_owned(),
                side_effect_class: SideEffectClass::ExternalRead,
                required_authority: Vec::new(),
                arg_rules: Vec::new(),
                context_rules: None,
                default_decision: PolicyAction::Allow,
            },
        ],
    };
    assert_eq!(migrated, expected);
}

#[test]
fn canonical_policy_audit_has_no_migration_steps() {
    let migration_audit = audit_for_canonical_policy(&canonical_json(ORDERED_DOCUMENT));

    assert!(!migration_audit.was_migrated());
    assert_eq!(migration_audit.source_schema_version, SchemaVersion::new(1));
    assert_eq!(migration_audit.target_schema_version, SchemaVersion::new(1));
    assert_eq!(
        migration_audit.source_document_hash,
        migration_audit.target_document_hash
    );
    assert_eq!(migration_audit.source_document_hash.len(), 64);
}

#[test]
fn canonical_audit_hashes_are_stable_for_equivalent_json_orderings() {
    let first_audit = audit_for_canonical_policy(&canonical_json(ORDERED_DOCUMENT));
    let second_audit = audit_for_canonical_policy(&canonical_json(REORDERED_DOCUMENT));

    assert_eq!(
        first_audit.source_document_hash,
        second_audit.source_document_hash
    );
    assert_eq!(
        first_audit.target_document_hash,
        second_audit.target_document_hash
    );
}

#[test]
fn migration_hashes_change_when_policy_input_changes() {
    let baseline_source = canonical_json(r#"{"policy_name": "personal_assistant_default"}"#);
    let changed_source = canonical_json(r#"{"policy_name": "different_policy_name"}"#);
    let baseline_target = canonical_json(r#"{"name": "personal_assistant_default", "v": 1}"#);
    let changed_target = canonical_json(r#"{"name": "different_policy_name", "v": 1}"#);

    let baseline = audit_for_migrated_policy(&baseline_source, &baseline_target);
    let changed = audit_for_migrated_policy(&changed_source, &changed_target);

    assert_ne!(baseline.source_document_hash, changed.source_document_hash);
    assert_ne!(baseline.target_document_hash, changed.target_document_hash);
}

#[test]
fn migration_audit_record_reports_unmigrated_when_steps_are_absent() {
    let migration_audit = MigrationAuditRecord {
        source_schema_version: SchemaVersion::new(0),
        target_schema_version: SchemaVersion::new(1),
        source_document_hash: String::from("a"),
        target_document_hash: String::from("b"),
        migration_steps: vec![],
    };

    assert!(!migration_audit.was_migrated());
}

#[test]
fn migration_audit_record_reports_migrated_when_a_step_is_present() {
    let migration_audit = MigrationAuditRecord {
        source_schema_version: SchemaVersion::new(0),
        target_schema_version: SchemaVersion::new(1),
        source_document_hash: String::from("a"),
        target_document_hash: String::from("b"),
        migration_steps: vec![MigrationStepRecord {
            from_schema_version: SchemaVersion::new(0),
            to_schema_version: SchemaVersion::new(1),
            transform_name: SCHEMA_MIGRATION_V0_TO_V1.to_owned(),
            input_hash: String::from("a"),
            output_hash: String::from("b"),
        }],
    };

    assert!(migration_audit.was_migrated());
}

#[test]
fn schema_path_follows_the_declared_version() {
    assert_eq!(
        select_schema_path(None).expect("a document without a version is canonical"),
        PolicySchemaPath::Canonical
    );
    assert_eq!(
        select_schema_path(Some(SchemaVersion::new(1))).expect("version one is canonical"),
        PolicySchemaPath::Canonical
    );
    assert_eq!(
        select_schema_path(Some(SchemaVersion::new(0))).expect("version zero is legacy"),
        PolicySchemaPath::Legacy
    );
}

#[test]
fn unsupported_schema_version_remains_fail_closed() {
    let Err(load_error) = select_schema_path(Some(SchemaVersion::new(9))) else {
        panic!("unsupported schema should not load");
    };

    assert!(matches!(
        load_error,
        PolicyLoadError::UnsupportedSchemaVersion { found, .. } if found.as_u64() == 9
    ));
}

#[test]
fn rejects_unknown_schema_versions() {
    for schema_version in [2_u64, u64::MAX] {
        let error =
            select_schema_path(Some(SchemaVersion::new(schema_version))).expect_err("must fail closed");

        assert!(matches!(
            error,
            PolicyLoadError::UnsupportedSchemaVersion {
                found,
                expected
            } if found.as_u64() == schema_version
                && expected == canonical_policy_schema_version()
        ));
    }
}

const LEGACY_DOCUMENT: &str = r#"{
    "schema_version": 0,
    "policy_name": "personal_assistant_default",
    "default_action": "Deny",
    "strict_mode": true,
    "budgets": {
      "max_values": 100000,
      "max_parents_per_value": 64,
      "max_closure_steps": 10000,
      "max_witness_depth": 32
    },
    "tools": [
      {
        "name": "send_email",
        "side_effect": "ExternalWrite",
        "authority": ["EmailSendCap"],
        "args": [
          {
            "name": "body",
            "forbid_confidentiality": ["AUTH_SECRET"]
          }
        ],
        "context": { "deny_if_pc_integrity_contains": ["Untrusted"] },
        "default_decision": "RequireConfirmation"
      }
    ]
}"#;

const MIGRATED_DOCUMENT: &str = r#"{
    "schema_version": 1,
    "policy_name": "personal_assistant_default",
    "default_action": "Deny",
    "strict_mode": true,
    "budgets": {
      "max_values": 100000,
      "max_parents_per_value": 64,
      "max_closure_steps": 10000,
      "max_witness_depth": 32
    },
    "tools": [
      {
        "tool": "send_email",
        "side_effect_class": "ExternalWrite",
        "required_authority": ["EmailSendCap"],
        "arg_rules": [
          {
            "arg": "body",
            "requires_integrity": null,
            "forbids_confidentiality": ["AUTH_SECRET"]
          }
        ],
        "context_rules": { "deny_if_pc_integrity_contains": ["Untrusted"] },
        "default_decision": "RequireConfirmation"
      }
    ]
}"#;

#[test]
fn migration_hashes_are_stable_for_equivalent_legacy_json_orderings() {
    let second_legacy_json = r#"{
        "tools": [
          {
            "default_decision": "RequireConfirmation",
            "context": { "deny_if_pc_integrity_contains": ["Untrusted"] },
            "args": [
              {
                "forbid_confidentiality": ["AUTH_SECRET"],
                "name": "body"
              }
            ],
            "authority": ["EmailSendCap"],
            "side_effect": "ExternalWrite",
            "name": "send_email"
          }
        ],
        "budgets": {
          "max_witness_depth": 32,
          "max_closure_steps": 10000,
          "max_parents_per_value": 64,
          "max_values": 100000
        },
        "strict_mode": true,
        "default_action": "Deny",
        "policy_name": "personal_assistant_default",
        "schema_version": 0
    }"#;
    let target_json = canonical_json(MIGRATED_DOCUMENT);

    let first_audit = audit_for_migrated_policy(&canonical_json(LEGACY_DOCUMENT), &target_json);
    let second_audit = audit_for_migrated_policy(&canonical_json(second_legacy_json), &target_json);

    assert_eq!(
        first_audit.source_document_hash, second_audit.source_document_hash,
        "source hashes should be stable for equivalent JSON content"
    );
    assert_eq!(
        first_audit.target_document_hash, second_audit.target_document_hash,
        "target hashes should be stable for equivalent JSON content"
    );
    assert_eq!(
        first_audit.migration_steps, second_audit.migration_steps,
        "step-level migration audit must be deterministic"
    );
}

#[test]
fn migration_hashes_change_when_legacy_input_changes() {
    let changed_legacy =
        LEGACY_DOCUMENT.replace("personal_assistant_default", "personal_assistant_changed");
    let changed_migrated =
        MIGRATED_DOCUMENT.replace("personal_assistant_default", "personal_assistant_changed");

    let baseline = audit_for_migrated_policy(
        &canonical_json(LEGACY_DOCUMENT),
        &canonical_json(MIGRATED_DOCUMENT),
    );
    let changed = audit_for_migrated_policy(
        &canonical_json(&changed_legacy),
        &canonical_json(&changed_migrated),
    );

    assert_ne!(
        baseline.source_document_hash, changed.source_document_hash,
        "source hash should change when legacy policy content changes"
    );
    assert_ne!(
        baseline.target_document_hash, changed.target_document_hash,
        "target hash should change when migrated policy content changes"
    );
}

#[test]
fn canonical_load_with_migration_audit_reports_no_migration_steps() {
    let bytes = canonical_json(ORDERED_DOCUMENT);
    let load_outcome = canonical_load_outcome(minimal_policy(1), &bytes)
        .expect("canonical schema v1 should load");

    assert_eq!(load_outcome.policy_definition(), &minimal_policy(1));
    assert!(!load_outcome.migration_audit().was_migrated());
    let (policy_definition, migration_audit) = load_outcome.into_parts();
    assert_eq!(policy_definition.schema_version.as_u64(), 1);
    assert_eq!(migration_audit.target_schema_version.as_u64(), 1);
    assert_eq!(migration_audit, audit_for_canonical_policy(&bytes));
}

#[test]
fn canonical_load_rejects_another_schema_version() {
    let error = canonical_load_outcome(minimal_policy(3), b"{}")
        .expect_err("a policy of another schema version must not load");
    assert!(matches!(
        error,
        PolicyLoadError::UnsupportedSchemaVersion { found, expected }
            if found.as_u64() == 3 && expected.as_u64() == 1
    ));
    assert!(matches!(
        minimal_policy(0).ensure_canonical_schema_version(),
        Err(PolicyLoadError::UnsupportedSchemaVersion { .. })
    ));
    assert_eq!(
        minimal_policy(1)
            .ensure_canonical_schema_version()
            .expect("the canonical version is accepted"),
        minimal_policy(1)
    );
}

#[test]
fn migrated_load_keeps_the_migration_step() {
    let migrated = migrate_schema_v0_to_v1(legacy_policy());
    let load_outcome = migrated_load_outcome(migrated.clone(), b"source", b"target")
        .expect("legacy schema v0 should migrate");

    assert_eq!(load_outcome.policy_definition(), &migrated);
    assert!(load_outcome.migration_audit().was_migrated());
    assert_eq!(
        load_outcome.migration_audit(),
        &audit_for_migrated_policy(b"source", b"target")
    );
    assert_eq!(
        load_outcome.migration_audit().source_schema_version.as_u64(),
        0
    );
}

#[test]
fn engine_keeps_the_loaded_policy_and_its_audit() {
    let bytes = canonical_json(ORDERED_DOCUMENT);
    let policy_load_outcome =
        canonical_load_outcome(minimal_policy(1), &bytes).expect("canonical policy should load");
    let engine_load_outcome = build_engine_load_outcome(policy_load_outcome);

    assert_eq!(
        engine_load_outcome.policy_engine().policy_definition(),
        &minimal_policy(1)
    );
    assert_eq!(
        engine_load_outcome.migration_audit(),
        &audit_for_canonical_policy(&bytes)
    );
    let (policy_engine, migration_audit) = engine_load_outcome.into_parts();
    assert_eq!(migration_audit.source_schema_version.as_u64(), 1);

    let validation = policy_engine.validate_authority_tokens(
        &[],
        &RevocationIndex::default(),
        TokenTimestamp::new(100),
    );
    assert!(validation.effective_tokens().is_empty());
    assert!(validation.invalid_tokens().is_empty());
}

fn required_text(value: &serde_json::Value, field: &str) -> String {
    value[field]
        .as_str()
        .unwrap_or_else(|| panic!("field {field} should be text"))
        .to_owned()
}

fn required_limit(value: &serde_json::Value, field: &str) -> BudgetLimit {
    BudgetLimit::new(
        value[field]
            .as_u64()
            .unwrap_or_else(|| panic!("field {field} should be a number")),
    )
}

fn action(name: &str) -> PolicyAction {
    match name {
        "Allow" => PolicyAction::Allow,
        "Deny" => PolicyAction::Deny,
        "RequireConfirmation" => PolicyAction::RequireConfirmation,
        "RequireDraft" => PolicyAction::RequireDraft,
        other => panic!("unknown policy action {other}"),
    }
}

fn side_effect_class(name: &str) -> SideEffectClass {
    match name {
        "ExternalRead" => SideEffectClass::ExternalRead,
        "ExternalWrite" => SideEffectClass::ExternalWrite,
        other => panic!("unknown side-effect class {other}"),
    }
}

/// Reads the fields that the fixtures of these tests carry.
fn policy_from_json(document: &serde_json::Value) -> PolicyDefinition {
    let tools = document["tools"]
        .as_array()
        .expect("tools should be a list")
        .iter()
        .map(|tool| ToolPolicy {
            tool: required_text(tool, "tool"),
            side_effect_class: side_effect_class(&required_text(tool, "side_effect_class")),
            required_authority: Vec::new(),
            arg_rules: Vec::new(),
            context_rules: None,
            default_decision: action(&required_text(tool, "default_decision")),
        })
        .collect();
    let budgets = &document["budgets"];
    PolicyDefinition {
        schema_version: SchemaVersion::new(
            document["schema_version"]
                .as_u64()
                .expect("schema_version should be a number"),
        ),
        policy_name: required_text(document, "policy_name"),
        default_action: action(&required_text(document, "default_action")),
        strict_mode: document["strict_mode"]
            .as_bool()
            .expect("strict_mode should be a flag"),
        budgets: PolicyBudgets {
            max_values: required_limit(budgets, "max_values"),
            max_parents_per_value: required_limit(budgets, "max_parents_per_value"),
            max_closure_steps: required_limit(budgets, "max_closure_steps"),
            max_witness_depth: required_limit(budgets, "max_witness_depth"),
        },
        tools,
    }
}

#[test]
fn accepts_schema_version_one_json() {
    let canonical_policy_json = r#"
        {
          "schema_version": 1,
          "policy_name": "personal_assistant_default",
          "default_action": "Deny",
          "strict_mode": true,
          "budgets": {
            "max_values": 100000,
            "max_parents_per_value": 64,
            "max_closure_steps": 10000,
            "max_witness_depth": 32
          },
          "tools": [
            {
              "tool": "send_email",
              "side_effect_class": "ExternalWrite",
              "default_decision": "RequireConfirmation"
            }
          ]
        }
    "#;

    let document: serde_json::Value =
        serde_json::from_str(canonical_policy_json).expect("fixture should parse as JSON");
    let probed = document["schema_version"].as_u64().map(SchemaVersion::new);
    assert_eq!(
        select_schema_path(probed).expect("valid schema v1"),
        PolicySchemaPath::Canonical
    );
    let encoded = serde_json::to_vec(&document).expect("fixture should serialize");
    let (policy, migration_audit) = canonical_load_outcome(policy_from_json(&document), &encoded)
        .expect("valid schema v1")
        .into_parts();

    assert_eq!(
        policy.schema_version,
        SchemaVersion::new(canonical_policy_schema_version().as_u64())
    );
    assert_eq!(policy.tools.len(), 1);
    assert_eq!(policy.budgets.max_parents_per_value.as_u64(), 64);
    assert!(!migration_audit.was_migrated());
}
