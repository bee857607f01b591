//! Journaling of Fornax trace mutations: every bridge call is planned as an
//! effect first, and its success or failure is recorded on the effect and
//! on the trace correlation before anything else happens.
use vstd::prelude::*;

use crate::ids::spec_uuid_text;
use crate::ids::uuid_text;
use crate::integrations::fornax::bridge_config::FornaxBridgeError;
use crate::integrations::fornax::bridge_protocol::StartedSpan;
use crate::json::JsonValue;
use crate::runtime::records::WorkflowEffectState;
use crate::runtime::records::WorkflowFornaxTraceState;
use crate::runtime::records::WorkflowFornaxTraceUpdate;
use crate::text::owned;
use crate::text::push_str;

verus! {

/// The stable correlation of a live span.
#[derive(Clone, Debug, PartialEq, Eq)]
pub struct FornaxSpanCorrelation {
    pub span_handle_id: u128,
    pub trace_context_id: u128,
    pub trace_id: String,
    pub span_id: String,
}

impl FornaxSpanCorrelation {
    pub fn from_started(value: &StartedSpan) -> (r: Self)
        ensures
            r.span_handle_id == value.span_handle_id,
            r.trace_context_id == value.trace_context_id,
            r.trace_id == value.trace_id,
            r.span_id == value.span_id,
    {
        FornaxSpanCorrelation {
            span_handle_id: value.span_handle_id,
            trace_context_id: value.trace_context_id,
            trace_id: value.trace_id.clone(),
            span_id: value.span_id.clone(),
        }
    }
}

#[derive(Clone, Debug, PartialEq, Eq)]
pub enum DurableFornaxTraceError {
    Store(String),
    Bridge(FornaxBridgeError),
    StaleCorrelation,
    InvalidAppliedResponse(String),
}

/// The three journaled trace mutations.
#[derive(Clone, Copy, Debug, PartialEq, Eq, Structural)]
pub enum TraceMutation {
    Start,
    Record,
    Finish,
}

pub open spec fn spec_mutation_kind(m: TraceMutation) -> Seq<char> {
    match m {
        TraceMutation::Start => "fornax.trace.start"@,
        TraceMutation::Record => "fornax.trace.record"@,
        TraceMutation::Finish => "fornax.trace.finish"@,
    }
}

/// The effect kind a mutation is journaled under.
pub fn mutation_kind(m: TraceMutation) -> (r: &'static str)
    ensures
        r@ == spec_mutation_kind(m),
{
    match m {
        TraceMutation::Start => "fornax.trace.start",
        TraceMutation::Record => "fornax.trace.record",
        TraceMutation::Finish => "fornax.trace.finish",
    }
}

/// The correlation state a successful mutation leads to.
pub fn mutation_target(m: TraceMutation) -> (r: WorkflowFornaxTraceState)
    ensures
        r == match m {
            TraceMutation::Start => WorkflowFornaxTraceState::Live,
            TraceMutation::Record => WorkflowFornaxTraceState::Applied,
            TraceMutation::Finish => WorkflowFornaxTraceState::Finished,
        },
{
    match m {
        TraceMutation::Start => WorkflowFornaxTraceState::Live,
        TraceMutation::Record => WorkflowFornaxTraceState::Applied,
        TraceMutation::Finish => WorkflowFornaxTraceState::Finished,
    }
}

pub open spec fn spec_error_code(error: FornaxBridgeError) -> Seq<char> {
    match error {
        FornaxBridgeError::AmbiguousMutation { .. } => "ambiguous_mutation"@,
        FornaxBridgeError::QueueFull => "queue_full"@,
        FornaxBridgeError::OrphanedSpan => "orphaned_span"@,
        FornaxBridgeError::SdkAuthentication => "sdk_authentication"@,
        FornaxBridgeError::ShuttingDown => "shutting_down"@,
        _ => "fornax_bridge"@,
    }
}

/// The journal code of a bridge failure.
pub fn error_code(error: &FornaxBridgeError) -> (r: &'static str)
    ensures
        r@ == spec_error_code(*error),
{
    match error {
        FornaxBridgeError::AmbiguousMutation { .. } => "ambiguous_mutation",
        FornaxBridgeError::QueueFull => "queue_full",
        FornaxBridgeError::OrphanedSpan => "orphaned_span",
        FornaxBridgeError::SdkAuthentication => "sdk_authentication",
        FornaxBridgeError::ShuttingDown => "shutting_down",
        _ => "fornax_bridge",
    }
}

/// Preparing a mutation marks a planned effect dispatched (the write to
/// make, then the state after); any other state is kept.
pub fn prepared_state(state: WorkflowEffectState) -> (r: (bool, WorkflowEffectState))
    ensures
        r == if state == WorkflowEffectState::Planned {
            (true, WorkflowEffectState::Dispatched)
        } else {
            (false, state)
        },
{
    if state == WorkflowEffectState::Planned {
        (true, WorkflowEffectState::Dispatched)
    } else {
        (false, state)
    }
}

/// The recorded response of an already applied mutation, which is replayed
/// instead of calling the bridge again.
pub fn applied_response(response: Option<JsonValue>) -> (r: Result<JsonValue, DurableFornaxTraceError>)
    ensures
        match response {
            Some(v) => r == Ok::<JsonValue, DurableFornaxTraceError>(v),
            None => r matches Err(DurableFornaxTraceError::InvalidAppliedResponse(m)) && m@ == "missing response"@,
        },
{
    match response {
        Some(v) => Ok(v),
        None => Err(DurableFornaxTraceError::InvalidAppliedResponse(owned("missing response"))),
    }
}

pub open spec fn spec_opt_text(o: Option<String>) -> Option<Seq<char>> {
    match o {
        Some(s) => Some(s@),
        None => None,
    }
}

/// After a successful bridge call the correlation moves from `existing` to
/// `target`, carrying the span's identifiers; nothing is written when it is
/// already there.
pub fn success_update(
    run_id: &str,
    effect_key: &str,
    existing: WorkflowFornaxTraceState,
    target: WorkflowFornaxTraceState,
    correlation: &FornaxSpanCorrelation,
    bridge_instance_id: &str,
    now_ms: i64,
) -> (r: Option<WorkflowFornaxTraceUpdate>)
    ensures
        existing == target <==> r is None,
        r matches Some(u) ==> {
            &&& u.run_id@ == run_id@ && u.effect_key@ == effect_key@
            &&& u.expected_state == existing && u.state == target
            &&& spec_opt_text(u.span_handle_id) == Some(spec_uuid_text(correlation.span_handle_id))
            &&& spec_opt_text(u.trace_context_id) == Some(spec_uuid_text(correlation.trace_context_id))
            &&& u.trace_id == Some(correlation.trace_id) && u.span_id == Some(correlation.span_id)
            &&& spec_opt_text(u.bridge_instance_id) == Some(bridge_instance_id@)
            &&& u.error_code is None && u.updated_at_ms == now_ms
        },
{
    if existing == target {
        return None;
    }
    Some(
        WorkflowFornaxTraceUpdate {
            run_id: owned(run_id),
            effect_key: owned(effect_key),
            expected_state: existing,
            state: target,
            span_handle_id: Some(uuid_text(correlation.span_handle_id)),
            trace_context_id: Some(uuid_text(correlation.trace_context_id)),
            trace_id: Some(correlation.trace_id.clone()),
            span_id: Some(correlation.span_id.clone()),
            bridge_instance_id: Some(owned(bridge_instance_id)),
            error_code: None,
            updated_at_ms: now_ms,
        },
    )
}

/// A fenced correlation update that changed nothing means another writer
/// moved it first.
pub fn success_outcome(updated: bool) -> (r: Result<(), DurableFornaxTraceError>)
    ensures
        updated <==> r is Ok,
        !updated ==> r == Err::<(), DurableFornaxTraceError>(DurableFornaxTraceError::StaleCorrelation),
{
    if updated {
        Ok(())
    } else {
        Err(DurableFornaxTraceError::StaleCorrelation)
    }
}

/// What a failed bridge call leaves in the journals.
#[derive(Clone, Debug, PartialEq, Eq)]
pub struct FailurePlan {
    /// The correlation update, made only while it is still planned.
    pub trace_update: Option<WorkflowFornaxTraceUpdate>,
    /// The error code the effect becomes ambiguous with.
    pub effect_error_code: String,
}

/// A full bridge queue leaves nothing behind (the call may be repeated);
/// any other failure makes the effect ambiguous with `code:operation`, and a
/// still planned correlation ambiguous or failed.
pub fn failure_plan(
    run_id: &str,
    effect_key: &str,
    existing: WorkflowFornaxTraceState,
    operation_id: u128,
    error: &FornaxBridgeError,
    bridge_instance_id: &str,
    now_ms: i64,
) -> (r: Option<FailurePlan>)
    ensures
        (*error == FornaxBridgeError::QueueFull) <==> r is None,
        r matches Some(p) ==> {
            &&& p.effect_error_code@ == spec_error_code(*error) + ":"@ + spec_uuid_text(operation_id)
            &&& (existing == WorkflowFornaxTraceState::Planned) <==> p.trace_update is Some
            &&& p.trace_update matches Some(u) ==> {
                &&& u.run_id@ == run_id@ && u.effect_key@ == effect_key@
                &&& u.expected_state == existing
                &&& u.state == if error is AmbiguousMutation {
                    WorkflowFornaxTraceState::Ambiguous
                } else {
                    WorkflowFornaxTraceState::Failed
                }
                &&& u.span_handle_id is None && u.trace_context_id is None && u.trace_id is None && u.span_id is None
                &&& spec_opt_text(u.bridge_instance_id) == Some(bridge_instance_id@)
                &&& spec_opt_text(u.error_code) == Some(spec_error_code(*error))
                &&& u.updated_at_ms == now_ms
            }
        },
{
    if let FornaxBridgeError::QueueFull = error {
        return None;
    }
    let state = if let FornaxBridgeError::AmbiguousMutation { .. } = error {
        WorkflowFornaxTraceState::Ambiguous
    } else {
        WorkflowFornaxTraceState::Failed
    };
    let code = error_code(error);
    let trace_update = if existing == WorkflowFornaxTraceState::Planned {
        Some(
            WorkflowFornaxTraceUpdate {
                run_id: owned(run_id),
                effect_key: owned(effect_key),
                expected_state: existing,
                state,
                span_handle_id: None,
                trace_context_id: None,
                trace_id: None,
                span_id: None,
                bridge_instance_id: Some(owned(bridge_instance_id)),
                error_code: Some(owned(code)),
                updated_at_ms: now_ms,
            },
        )
    } else {
        None
    };
    let mut effect_error_code = owned(code);
    push_str(&mut effect_error_code, ":");
    push_str(&mut effect_error_code, uuid_text(operation_id).as_str());
    Some(FailurePlan { trace_update, effect_error_code })
}

} // verus!
