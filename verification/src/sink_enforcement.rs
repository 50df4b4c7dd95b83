//! Contract types for LLM sink enforcement architecture.
//!
//! LLM sink checks run at three explicit points:
//!
//! 1. pre-dispatch policy check in the runtime effect gateway,
//! 2. adapter-level transport guard in the LLM tool adapter,
//! 3. post-dispatch audit emission in the audit pipeline.
//!
//! The contract functions encode the design-contract minimum: calls without
//! redaction are denied.

use vstd::prelude::*;
use vstd::std_specs::cmp::PartialEqSpecImpl;
use vstd::std_specs::convert::FromSpecImpl;

verus! {

/// Execution identifier linking calls to the audit chain.
///
/// A type of its own, so that an execution identifier is never taken for a
/// call identifier.
#[derive(Debug, Eq)]
pub struct ExecutionId(String);

impl View for ExecutionId {
    type V = Seq<char>;

    closed spec fn view(&self) -> Seq<char> {
        self.0@
    }
}

impl Clone for ExecutionId {
    fn clone(&self) -> (copy: Self)
        ensures
            copy@ == self@,
    {
        Self(self.0.clone())
    }
}

impl PartialEqSpecImpl for ExecutionId {
    open spec fn obeys_eq_spec() -> bool {
        true
    }

    open spec fn eq_spec(&self, other: &Self) -> bool {
        self@ == other@
    }
}

impl PartialEq for ExecutionId {
    /// Two identifiers are equal when they hold the same text.
    fn eq(&self, other: &Self) -> (equal: bool) {
        self.0 == other.0
    }
}

impl FromSpecImpl<&str> for ExecutionId {
    /// What the conversion yields is stated on `from` itself, over the text
    /// of its result; no value is named here.
    open spec fn obeys_from_spec() -> bool {
        false
    }

    open spec fn from_spec(id: &str) -> Self {
        arbitrary()
    }
}

impl From<&str> for ExecutionId {
    fn from(id: &str) -> (execution_id: Self)
        ensures
            execution_id@ == id@,
    {
        Self::new(id)
    }
}

impl ExecutionId {
    /// Create a new execution identifier.
    pub fn new(id: &str) -> (execution_id: Self)
        ensures
            execution_id@ == id@,
    {
        Self(id.to_owned())
    }

    /// View the identifier as a string slice.
    pub fn as_str(&self) -> (text: &str)
        ensures
            text@ == self@,
    {
        self.0.as_str()
    }
}

/// Per-call identifier linking pre-dispatch to post-dispatch audit records.
///
/// A type of its own, so that a call identifier is never taken for an
/// execution identifier.
#[derive(Debug, Eq)]
pub struct CallId(String);

impl View for CallId {
    type V = Seq<char>;

    closed spec fn view(&self) -> Seq<char> {
        self.0@
    }
}

impl Clone for CallId {
    fn clone(&self) -> (copy: Self)
        ensures
            copy@ == self@,
    {
        Self(self.0.clone())
    }
}

impl PartialEqSpecImpl for CallId {
    open spec fn obeys_eq_spec() -> bool {
        true
    }

    open spec fn eq_spec(&self, other: &Self) -> bool {
        self@ == other@
    }
}

impl PartialEq for CallId {
    /// Two identifiers are equal when they hold the same text.
    fn eq(&self, other: &Self) -> (equal: bool) {
        self.0 == other.0
    }
}

impl FromSpecImpl<&str> for CallId {
    /// What the conversion yields is stated on `from` itself, over the text
    /// of its result; no value is named here.
    open spec fn obeys_from_spec() -> bool {
        false
    }

    open spec fn from_spec(id: &str) -> Self {
        arbitrary()
    }
}

impl From<&str> for CallId {
    fn from(id: &str) -> (call_id: Self)
        ensures
            call_id@ == id@,
    {
        Self::new(id)
    }
}

impl CallId {
    /// Create a new call identifier.
    pub fn new(id: &str) -> (call_id: Self)
        ensures
            call_id@ == id@,
    {
        Self(id.to_owned())
    }

    /// View the identifier as a string slice.
    pub fn as_str(&self) -> (text: &str)
        ensures
            text@ == self@,
    {
        self.0.as_str()
    }
}

/// Discriminant for LLM call path classification.
///
/// P-LLM calls are trusted planner queries; Q-LLM calls are quarantined
/// transformations of untrusted tool outputs.
#[derive(Clone, Copy, Debug, PartialEq, Eq, Structural)]
#[non_exhaustive]
pub enum LlmCallPath {
    /// Planner LLM path: trusted query decomposition and plan synthesis.
    Planner,
    /// Quarantined LLM path: transformation of untrusted tool outputs.
    Quarantined,
}

/// Pre-dispatch policy check request for an LLM sink call.
///
/// Carries the argument and execution-context summaries that the runtime
/// effect gateway evaluates before any remote prompt emission. Both P-LLM
/// and Q-LLM calls must pass pre-dispatch checks.
#[derive(Clone, Debug, PartialEq, Eq)]
pub struct SinkPreDispatchRequest {
    /// Execution identifier linking this call to the audit chain.
    pub execution_id: ExecutionId,
    /// Per-call identifier for audit linkage.
    pub call_id: CallId,
    /// LLM call path classification.
    pub call_path: LlmCallPath,
    /// Whether required minimization and redaction transforms have been
    /// applied before dispatch.
    pub redaction_applied: bool,
}

/// Decision from the pre-dispatch policy check.
#[derive(Clone, Copy, Debug, PartialEq, Eq, Structural)]
#[non_exhaustive]
pub enum SinkPreDispatchDecision {
    /// Call is permitted to proceed.
    Allow,
    /// Call is denied by policy.
    Deny,
}

/// Transport guard check at the adapter level.
///
/// Ensures required redaction and minimization transforms were applied
/// before payload leaves the process boundary.
#[derive(Clone, Debug, PartialEq, Eq)]
pub struct TransportGuardCheck {
    /// Execution identifier for audit linkage.
    pub execution_id: ExecutionId,
    /// Per-call identifier for audit linkage.
    pub call_id: CallId,
    /// Whether required redaction transforms were applied.
    pub redaction_applied: bool,
}

/// Outcome of the transport guard check.
#[derive(Clone, Copy, Debug, PartialEq, Eq, Structural)]
#[non_exhaustive]
pub enum TransportGuardOutcome {
    /// Payload passes the transport guard.
    Passed,
    /// Payload blocked: required transforms were not applied.
    Blocked,
}

/// Post-dispatch audit record for an LLM sink call.
///
/// Emitted after the call completes (or after denial), carrying the decision
/// code, and linked by `execution_id` and `call_id`.
#[derive(Clone, Debug, PartialEq, Eq)]
pub struct SinkAuditRecord {
    /// Execution identifier linking to the broader execution context.
    pub execution_id: ExecutionId,
    /// Per-call identifier linking pre-dispatch to post-dispatch.
    pub call_id: CallId,
    /// Pre-dispatch decision code.
    pub decision: SinkPreDispatchDecision,
    /// Whether redaction was applied before transport.
    pub redaction_applied: bool,
    /// LLM call path classification.
    pub call_path: LlmCallPath,
}

/// Mathematical model of a [`SinkAuditRecord`].
pub ghost struct SinkAuditRecordView {
    pub execution_id: Seq<char>,
    pub call_id: Seq<char>,
    pub decision: SinkPreDispatchDecision,
    pub redaction_applied: bool,
    pub call_path: LlmCallPath,
}

impl View for SinkAuditRecord {
    type V = SinkAuditRecordView;

    open spec fn view(&self) -> SinkAuditRecordView {
        SinkAuditRecordView {
            execution_id: self.execution_id@,
            call_id: self.call_id@,
            decision: self.decision,
            redaction_applied: self.redaction_applied,
            call_path: self.call_path,
        }
    }
}

/// The pre-dispatch decision for a call: allowed exactly when the required
/// redaction was applied.
pub open spec fn pre_dispatch_decision(redaction_applied: bool) -> SinkPreDispatchDecision {
    if redaction_applied {
        SinkPreDispatchDecision::Allow
    } else {
        SinkPreDispatchDecision::Deny
    }
}

/// The transport-guard outcome for a payload: passed exactly when the
/// required redaction was applied.
pub open spec fn transport_guard_outcome(redaction_applied: bool) -> TransportGuardOutcome {
    if redaction_applied {
        TransportGuardOutcome::Passed
    } else {
        TransportGuardOutcome::Blocked
    }
}

/// Evaluate pre-dispatch policy check for an LLM sink call.
///
/// Calls without required redaction transforms are denied, on either path.
pub fn evaluate_pre_dispatch(request: &SinkPreDispatchRequest) -> (decision:
    SinkPreDispatchDecision)
    ensures
        decision == pre_dispatch_decision(request.redaction_applied),
{
    if request.redaction_applied {
        SinkPreDispatchDecision::Allow
    } else {
        SinkPreDispatchDecision::Deny
    }
}

/// Evaluate transport guard at the adapter level.
///
/// Blocks payload transmission when required redaction transforms have not
/// been applied.
pub fn evaluate_transport_guard(check: &TransportGuardCheck) -> (outcome: TransportGuardOutcome)
    ensures
        outcome == transport_guard_outcome(check.redaction_applied),
{
    if check.redaction_applied {
        TransportGuardOutcome::Passed
    } else {
        TransportGuardOutcome::Blocked
    }
}

/// Emit a post-dispatch audit record linking pre-dispatch decision to
/// execution and call identifiers.
pub fn emit_audit_record(
    request: &SinkPreDispatchRequest,
    decision: SinkPreDispatchDecision,
) -> (record: SinkAuditRecord)
    ensures
        record@ == (SinkAuditRecordView {
            execution_id: request.execution_id@,
            call_id: request.call_id@,
            decision,
            redaction_applied: request.redaction_applied,
            call_path: request.call_path,
        }),
{
    SinkAuditRecord {
        execution_id: request.execution_id.clone(),
        call_id: request.call_id.clone(),
        decision,
        redaction_applied: request.redaction_applied,
        call_path: request.call_path,
    }
}

} // verus!
