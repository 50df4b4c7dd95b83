//! Tests for the fork genericity guardrails.

use zamburak::monty_fork_policy_contract::{
    allowed_change_categories, evaluate_added_lines, evaluate_patch_text, plan_submodule_range,
    pointer_not_present_in_revision, MontyForkChangeCategory, MontyForkViolation,
    MontyForkViolationCode, SubmoduleRangePlan,
};

#[test]
fn allowed_categories_are_stable_and_complete() {
    let categories = allowed_change_categories();
    assert_eq!(categories.len(), 4);
    assert_eq!(
        categories,
        [
            MontyForkChangeCategory::StableRuntimeIds,
            MontyForkChangeCategory::GenericObserverHooks,
            MontyForkChangeCategory::GenericSnapshotExtension,
            MontyForkChangeCategory::EnablingRefactor,
        ]
    );
}

#[test]
fn generic_observer_api_addition_passes() {
    let patch = "diff --git a/src/run.rs b/src/run.rs\n+++ b/src/run.rs\n+pub enum RuntimeEvent { ValueCreated }\n";

    assert!(evaluate_patch_text(patch).is_empty());
}

#[test]
fn non_api_addition_with_forbidden_term_is_ignored() {
    let patch = "diff --git a/src/run.rs b/src/run.rs\n+++ b/src/run.rs\n+let zamburak_marker = 1_u8;\n";

    assert!(evaluate_patch_text(patch).is_empty());
}

#[test]
fn public_api_addition_with_zamburak_term_is_rejected() {
    let patch = "diff --git a/src/run.rs b/src/run.rs\n+++ b/src/run.rs\n+pub struct ZamburakObserver;\n";

    let violations = evaluate_patch_text(patch);
    assert_eq!(violations.len(), 1);
    let Some(first_violation) = violations.first() else {
        panic!("expected one violation for zamburak term");
    };
    assert_eq!(
        first_violation.code,
        MontyForkViolationCode::ForbiddenSemanticTokenInApi
    );
    assert_eq!(first_violation.matched_token, "zamburak");
}

#[test]
fn check_is_case_insensitive_for_policy_token() {
    let added_lines = ["pub fn ApplyPolicy() {}"];
    let violations = evaluate_added_lines(&added_lines);
    assert_eq!(violations.len(), 1);
    let Some(first_violation) = violations.first() else {
        panic!("expected one violation for policy token");
    };
    assert_eq!(first_violation.matched_token, "policy");
}

#[test]
fn api_doc_comment_with_capability_term_is_rejected() {
    let patch = "diff --git a/src/run.rs b/src/run.rs\n+++ b/src/run.rs\n+/// Capability mapping for host integration.\n";

    let violations = evaluate_patch_text(patch);
    assert_eq!(violations.len(), 1);
    let Some(first_violation) = violations.first() else {
        panic!("expected one violation for capability token");
    };
    assert_eq!(first_violation.matched_token, "capabilit");
}

#[test]
fn mixed_patch_reports_only_api_surface_violations() {
    let patch = "diff --git a/src/run.rs b/src/run.rs\n+++ b/src/run.rs\n+let zamburak_marker = 1_u8;\n+pub enum PolicyEvent { Started }\n";

    let violations = evaluate_patch_text(patch);
    assert_eq!(violations.len(), 1);
    let Some(first_violation) = violations.first() else {
        panic!("expected one violation for mixed patch");
    };
    assert_eq!(first_violation.matched_token, "policy");
    assert_eq!(first_violation.path.as_str(), "src/run.rs");
}

#[test]
fn patch_violation_carries_path_line_number_and_line() {
    let patch = "diff --git a/src/a.rs b/src/a.rs\n--- a/src/a.rs\n+++ b/src/a.rs\n@@ -1 +1,2 @@\n+    pub(crate) fn taint_value() {}\r\n context line with policy\n-pub fn removed_policy() {}\n+++ b/src/b.rs\n+trait TaintSource {}";

    let violations = evaluate_patch_text(patch);
    assert_eq!(
        violations,
        vec![
            MontyForkViolation {
                code: MontyForkViolationCode::ForbiddenSemanticTokenInApi,
                path: "src/a.rs".to_owned(),
                line_number: 5,
                line: "    pub(crate) fn taint_value() {}".to_owned(),
                matched_token: "taint",
            },
            MontyForkViolation {
                code: MontyForkViolationCode::ForbiddenSemanticTokenInApi,
                path: "src/b.rs".to_owned(),
                line_number: 9,
                line: "trait TaintSource {}".to_owned(),
                matched_token: "taint",
            },
        ]
    );
}

#[test]
fn added_line_before_any_file_header_has_unknown_path() {
    let violations = evaluate_patch_text("+pub struct PolicyHook;\n");
    assert_eq!(violations.len(), 1);
    assert_eq!(violations[0].path, "<unknown>");
    assert_eq!(violations[0].line_number, 1);
    assert_eq!(violations[0].line, "pub struct PolicyHook;");
}

#[test]
fn header_like_added_lines_are_not_evaluated() {
    let patch = "+++ b/src/policy.rs\n+++ pub struct PolicyHook;\n++pub struct TaintHook;\n";
    let violations = evaluate_patch_text(patch);
    assert!(violations.is_empty());
}

#[test]
fn first_forbidden_token_in_fixed_order_is_reported() {
    let violations = evaluate_added_lines(&[
        "pub fn policy_for_zamburak_capability() {}",
        "pub fn capability_then_taint() {}",
        "let ignored = policy;",
        "/// TAINT",
    ]);
    let found: Vec<(usize, &str, &str)> = violations
        .iter()
        .map(|violation| {
            (
                violation.line_number,
                violation.matched_token,
                violation.path.as_str(),
            )
        })
        .collect();
    assert_eq!(
        found,
        vec![
            (1, "zamburak", "<unknown>"),
            (2, "taint", "<unknown>"),
            (4, "taint", "<unknown>"),
        ]
    );
}

#[test]
fn added_lines_text_agrees_with_patch_text() {
    let lines = ["pub trait Policy {}", "fn private_policy() {}", "pub( crate) fn x() {}"];
    let patch: String = lines.iter().map(|line| format!("+{line}\n")).collect();
    let from_lines = evaluate_added_lines(&lines);
    let from_patch = evaluate_patch_text(&patch);
    assert_eq!(from_lines.len(), 1);
    assert_eq!(from_lines, from_patch);
}

#[test]
fn empty_inputs_have_no_violations() {
    assert!(evaluate_patch_text("").is_empty());
    assert!(evaluate_added_lines(&[]).is_empty());
}

#[test]
fn submodule_range_plan_follows_the_two_pointers() {
    assert_eq!(
        plan_submodule_range(Some("abc123"), Some("def456")),
        SubmoduleRangePlan::ReviewDifference
    );
    assert_eq!(
        plan_submodule_range(Some("abc123"), Some("abc123")),
        SubmoduleRangePlan::NothingToReview
    );
    assert_eq!(
        plan_submodule_range(None, None),
        SubmoduleRangePlan::NothingToReview
    );
    assert_eq!(
        plan_submodule_range(Some("abc123"), None),
        SubmoduleRangePlan::PointerStateChanged
    );
    assert_eq!(
        plan_submodule_range(None, Some("abc123")),
        SubmoduleRangePlan::PointerStateChanged
    );
}

#[test]
fn absent_pointer_is_told_from_other_failures() {
    assert!(pointer_not_present_in_revision(
        "fatal: path 'third_party/full-monty' exists on disk, but not in 'HEAD~1'"
    ));
    assert!(pointer_not_present_in_revision(
        "fatal: path 'third_party/full-monty' does not exist in 'HEAD~1'"
    ));
    assert!(!pointer_not_present_in_revision(
        "fatal: ambiguous argument 'nope': unknown revision"
    ));
    assert!(!pointer_not_present_in_revision(""));
}
