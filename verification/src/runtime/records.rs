//! The persisted run, effect and attempt records that runtime decisions read.
use vstd::prelude::*;

use crate::json::JsonValue;

verus! {

/// Durable lifecycle status of one workflow run.
#[derive(Clone, Copy, Debug, PartialEq, Eq, Structural)]
pub enum WorkflowRunStatus {
    Pending,
    Running,
    Waiting,
    Cancelling,
    Succeeded,
    Failed,
    Cancelled,
    NeedsOperator,
}

/// Durable state of one journaled side effect.
#[derive(Clone, Copy, Debug, PartialEq, Eq, Structural)]
pub enum WorkflowEffectState {
    Planned,
    Dispatched,
    Applied,
    Ambiguous,
    Failed,
    Cancelled,
}

/// Durable status of one node attempt.
#[derive(Clone, Copy, Debug, PartialEq, Eq, Structural)]
pub enum WorkflowNodeAttemptStatus {
    Prepared,
    Submitted,
    Running,
    Succeeded,
    Failed,
    Interrupted,
    Cancelled,
    Ambiguous,
}

/// Attempts that finished never change again.
pub open spec fn spec_attempt_terminal(status: WorkflowNodeAttemptStatus) -> bool {
    !(status == WorkflowNodeAttemptStatus::Prepared || status
        == WorkflowNodeAttemptStatus::Submitted || status == WorkflowNodeAttemptStatus::Running)
}

pub fn attempt_is_terminal(status: WorkflowNodeAttemptStatus) -> (r: bool)
    ensures
        r == spec_attempt_terminal(status),
{
    match status {
        WorkflowNodeAttemptStatus::Prepared | WorkflowNodeAttemptStatus::Submitted
        | WorkflowNodeAttemptStatus::Running => false,
        _ => true,
    }
}

/// One journaled side effect of a run.
#[derive(Debug)]
pub struct WorkflowEffectRecord {
    pub effect_key: String,
    pub kind: String,
    pub state: WorkflowEffectState,
    pub request: JsonValue,
    pub response: Option<JsonValue>,
    pub error_code: Option<String>,
}

/// One attempt of a node.
#[derive(Clone, Debug, PartialEq, Eq)]
pub struct WorkflowNodeAttemptRecord {
    pub attempt_id: String,
    pub status: WorkflowNodeAttemptStatus,
    pub thread_id: Option<String>,
    pub submission_id: String,
    pub turn_id: Option<String>,
    pub input_hash: String,
}

/// Durable state of one Fornax trace mutation's correlation.
#[derive(Clone, Copy, Debug, PartialEq, Eq, Structural)]
pub enum WorkflowFornaxTraceState {
    Planned,
    Live,
    Applied,
    Finished,
    Ambiguous,
    Orphaned,
    Failed,
}

/// The journaled correlation of one Fornax trace mutation.
#[derive(Clone, Debug, PartialEq, Eq)]
pub struct WorkflowFornaxTraceRecord {
    pub effect_key: String,
    pub operation_id: String,
    pub request_hash: String,
    pub state: WorkflowFornaxTraceState,
    pub error_code: Option<String>,
}

/// Proof, recorded after the fact, that a mutation reached Fornax.
#[derive(Clone, Debug, PartialEq, Eq)]
pub struct WorkflowFornaxDeliveryProofRecord {
    pub effect_key: String,
    pub remote_trace_id: String,
    pub remote_span_id: String,
    pub proof_kind: String,
    pub proof_digest: String,
}

/// A delivery proof to be recorded, bound to the local request identity.
#[derive(Clone, Debug, PartialEq, Eq)]
pub struct WorkflowFornaxDeliveryProofPlan {
    pub run_id: String,
    pub effect_key: String,
    pub operation_id: String,
    pub request_hash: String,
    pub remote_trace_id: String,
    pub remote_span_id: String,
    pub proof_kind: String,
    pub proof_digest: String,
    pub reconciled_at_ms: i64,
}

/// A fenced change of a Fornax trace correlation.
#[derive(Clone, Debug, PartialEq, Eq)]
pub struct WorkflowFornaxTraceUpdate {
    pub run_id: String,
    pub effect_key: String,
    pub expected_state: WorkflowFornaxTraceState,
    pub state: WorkflowFornaxTraceState,
    pub span_handle_id: Option<String>,
    pub trace_context_id: Option<String>,
    pub trace_id: Option<String>,
    pub span_id: Option<String>,
    pub bridge_instance_id: Option<String>,
    pub error_code: Option<String>,
    pub updated_at_ms: i64,
}

/// The persisted fields of one run that cancellation and recovery read.
#[derive(Clone, Debug, PartialEq, Eq)]
pub struct WorkflowRunRecord {
    pub run_id: String,
    pub status: WorkflowRunStatus,
    pub cancellation_requested: bool,
    pub deadline_ms: Option<i64>,
    pub updated_at_ms: i64,
}

/// A fenced change of a node attempt's status.
#[derive(Clone, Debug, PartialEq, Eq)]
pub struct WorkflowNodeAttemptTransition {
    pub expected_status: WorkflowNodeAttemptStatus,
    pub status: WorkflowNodeAttemptStatus,
    pub turn_id: Option<String>,
    pub error_code: Option<String>,
    pub updated_at_ms: i64,
}

} // verus!
