//! Tests for the LLM sink enforcement contracts.

use zamburak::sink_enforcement::{
    emit_audit_record, evaluate_pre_dispatch, evaluate_transport_guard, CallId, ExecutionId,
    LlmCallPath, SinkPreDispatchDecision, SinkPreDispatchRequest, TransportGuardCheck,
    TransportGuardOutcome,
};

fn planner_request() -> SinkPreDispatchRequest {
    SinkPreDispatchRequest {
        execution_id: ExecutionId::new("exec_test"),
        call_id: CallId::new("call_test"),
        call_path: LlmCallPath::Planner,
        redaction_applied: true,
    }
}

fn transport_guard_check() -> TransportGuardCheck {
    TransportGuardCheck {
        execution_id: ExecutionId::new("exec_test"),
        call_id: CallId::new("call_test"),
        redaction_applied: true,
    }
}

#[test]
fn pre_dispatch_allows_with_redaction() {
    let decision = evaluate_pre_dispatch(&planner_request());
    assert_eq!(decision, SinkPreDispatchDecision::Allow);
}

#[test]
fn pre_dispatch_denies_without_redaction() {
    let mut request = planner_request();
    request.redaction_applied = false;
    let decision = evaluate_pre_dispatch(&request);
    assert_eq!(decision, SinkPreDispatchDecision::Deny);
}

#[test]
fn pre_dispatch_denies_quarantined_call_without_redaction() {
    let request = SinkPreDispatchRequest {
        call_path: LlmCallPath::Quarantined,
        redaction_applied: false,
        ..planner_request()
    };
    assert_eq!(evaluate_pre_dispatch(&request), SinkPreDispatchDecision::Deny);
}

#[test]
fn transport_guard_passes_with_redaction() {
    assert_eq!(
        evaluate_transport_guard(&transport_guard_check()),
        TransportGuardOutcome::Passed
    );
}

#[test]
fn transport_guard_blocks_without_redaction() {
    let mut check = transport_guard_check();
    check.redaction_applied = false;
    assert_eq!(
        evaluate_transport_guard(&check),
        TransportGuardOutcome::Blocked
    );
}

#[test]
fn audit_record_preserves_linkage_fields() {
    let request = SinkPreDispatchRequest {
        execution_id: ExecutionId::new("exec_7f2c"),
        call_id: CallId::new("call_0192"),
        call_path: LlmCallPath::Planner,
        redaction_applied: true,
    };
    let decision = evaluate_pre_dispatch(&request);
    let audit = emit_audit_record(&request, decision);

    assert_eq!(audit.execution_id, ExecutionId::new("exec_7f2c"));
    assert_eq!(audit.call_id, CallId::new("call_0192"));
    assert_eq!(audit.decision, SinkPreDispatchDecision::Allow);
    assert_eq!(audit.call_path, LlmCallPath::Planner);
    assert!(audit.redaction_applied);
}

#[test]
fn audit_record_keeps_a_denial() {
    let request = SinkPreDispatchRequest {
        execution_id: ExecutionId::new("exec_d"),
        call_id: CallId::new("call_d"),
        call_path: LlmCallPath::Quarantined,
        redaction_applied: false,
    };
    let audit = emit_audit_record(&request, evaluate_pre_dispatch(&request));

    assert_eq!(audit.decision, SinkPreDispatchDecision::Deny);
    assert!(!audit.redaction_applied);
    assert_eq!(audit.execution_id.as_str(), "exec_d");
    assert_eq!(audit.call_id.as_str(), "call_d");
}

#[test]
fn quarantined_path_discrimination() {
    let request = SinkPreDispatchRequest {
        execution_id: ExecutionId::new("exec_q"),
        call_id: CallId::new("call_q"),
        call_path: LlmCallPath::Quarantined,
        redaction_applied: true,
    };
    let decision = evaluate_pre_dispatch(&request);
    let audit = emit_audit_record(&request, decision);

    assert_eq!(audit.call_path, LlmCallPath::Quarantined);
}

#[test]
fn identifiers_convert_from_text() {
    let execution_id = ExecutionId::from("exec_01");
    assert_eq!(execution_id.as_str(), "exec_01");
    assert_eq!(execution_id, ExecutionId::new("exec_01"));
    assert_ne!(execution_id, ExecutionId::new("exec_02"));
    let call_id = CallId::from("call_01");
    assert_eq!(call_id.as_str(), "call_01");
    assert_eq!(call_id.clone(), call_id);
}
