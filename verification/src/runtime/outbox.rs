//! Write-ahead outbox for external mutations: an operation runs only after
//! its effect is planned and claimed, and an applied effect is answered from
//! the journal instead of running again.
use vstd::prelude::*;

use crate::json::JsonValue;
use crate::runtime::failure_injection::spec_fails_at;
use crate::runtime::failure_injection::spec_next_visit;
use crate::runtime::failure_injection::FailureInjector;
use crate::runtime::failure_injection::FailurePoint;
use crate::runtime::failure_injection::InjectedFailure;
use crate::runtime::records::WorkflowEffectState;

verus! {

#[derive(Debug, PartialEq)]
pub enum OutboxError {
    Store(String),
    Injected(InjectedFailure),
    RequiresReconciliation(WorkflowEffectState),
    MissingResponse,
    MissingEffect,
    Operation(String),
}

/// How a dispatch proceeds from the journaled effect.
#[derive(Debug, PartialEq)]
pub enum OutboxStart {
    /// Already applied: answer with the recorded response.
    Replay(JsonValue),
    /// Planned: claim it and run the operation.
    Dispatch,
}

pub fn outbox_start(state: WorkflowEffectState, response: Option<JsonValue>) -> (r: Result<OutboxStart, OutboxError>)
    ensures
        state == WorkflowEffectState::Applied ==> match response {
            Some(v) => r == Ok::<OutboxStart, OutboxError>(OutboxStart::Replay(v)),
            None => r == Err::<OutboxStart, OutboxError>(OutboxError::MissingResponse),
        },
        state == WorkflowEffectState::Planned ==> r == Ok::<OutboxStart, OutboxError>(OutboxStart::Dispatch),
        state != WorkflowEffectState::Applied && state != WorkflowEffectState::Planned ==> r == Err::<
            OutboxStart,
            OutboxError,
        >(OutboxError::RequiresReconciliation(state)),
{
    match state {
        WorkflowEffectState::Applied => match response {
            Some(v) => Ok(OutboxStart::Replay(v)),
            None => Err(OutboxError::MissingResponse),
        },
        WorkflowEffectState::Planned => Ok(OutboxStart::Dispatch),
        _ => Err(OutboxError::RequiresReconciliation(state)),
    }
}

/// The fenced claim `Planned → Dispatched`; when it changed nothing another
/// dispatcher holds the effect.
pub fn dispatch_claimed(updated: bool) -> (r: Result<(), OutboxError>)
    ensures
        updated ==> r is Ok,
        !updated ==> r == Err::<(), OutboxError>(OutboxError::RequiresReconciliation(WorkflowEffectState::Dispatched)),
{
    if updated {
        Ok(())
    } else {
        Err(OutboxError::RequiresReconciliation(WorkflowEffectState::Dispatched))
    }
}

/// After the operation succeeded: the fenced `Dispatched → Applied` write,
/// or, when it changed nothing, the effect's current state.
pub fn reconcile_outcome(updated: bool, current: Option<WorkflowEffectState>) -> (r: Result<(), OutboxError>)
    ensures
        updated ==> r is Ok,
        !updated ==> match current {
            None => r == Err::<(), OutboxError>(OutboxError::MissingEffect),
            Some(s) => if s == WorkflowEffectState::Applied {
                r is Ok
            } else {
                r == Err::<(), OutboxError>(OutboxError::RequiresReconciliation(s))
            },
        },
{
    if updated {
        return Ok(());
    }
    match current {
        None => Err(OutboxError::MissingEffect),
        Some(s) => if s == WorkflowEffectState::Applied {
            Ok(())
        } else {
            Err(OutboxError::RequiresReconciliation(s))
        },
    }
}

// ---------------------------------------------------------------- dispatch

#[derive(Clone, Copy, Debug, PartialEq, Eq, Structural)]
pub enum OutboxPhase {
    /// Waiting for the planned (or existing) effect.
    AwaitPlan,
    /// Waiting for the fenced `Planned → Dispatched` claim.
    AwaitClaim,
    /// Waiting for the operation's result.
    AwaitOperation,
    /// Waiting for the fenced `Dispatched → Applied` write of the response.
    AwaitApply,
    /// Waiting for the effect, read back after that write changed nothing.
    AwaitReread,
    Done,
}

/// The phase, and the operation's response once it has one.
#[derive(Debug, PartialEq)]
pub struct OutboxState {
    pub phase: OutboxPhase,
    pub response: Option<JsonValue>,
}

#[derive(Debug, PartialEq)]
pub enum OutboxEvent {
    Planned { state: WorkflowEffectState, response: Option<JsonValue> },
    Claimed { updated: bool },
    Operated(Result<JsonValue, OutboxError>),
    AppliedWritten { updated: bool },
    Reread(Option<WorkflowEffectState>),
}

#[derive(Debug, PartialEq)]
pub enum OutboxAction {
    /// Claim the planned effect as dispatched.
    Claim,
    /// Run the operation, once.
    RunOperation,
    /// Journal the state's response as the effect's `Applied` response.
    WriteApplied,
    /// Read the effect back.
    ReadEffect,
    Finish(Result<JsonValue, OutboxError>),
}

pub open spec fn spec_outbox_start() -> OutboxState {
    OutboxState { phase: OutboxPhase::AwaitPlan, response: None }
}

/// Position of a phase; every step moves to a later one.
pub open spec fn spec_outbox_rank(p: OutboxPhase) -> int {
    match p {
        OutboxPhase::AwaitPlan => 0,
        OutboxPhase::AwaitClaim => 1,
        OutboxPhase::AwaitOperation => 2,
        OutboxPhase::AwaitApply => 3,
        OutboxPhase::AwaitReread => 4,
        OutboxPhase::Done => 5,
    }
}

pub open spec fn spec_outbox_fits(s: OutboxState, event: OutboxEvent) -> bool {
    match event {
        OutboxEvent::Planned { .. } => s.phase == OutboxPhase::AwaitPlan,
        OutboxEvent::Claimed { .. } => s.phase == OutboxPhase::AwaitClaim,
        OutboxEvent::Operated(_) => s.phase == OutboxPhase::AwaitOperation,
        OutboxEvent::AppliedWritten { .. } => s.phase == OutboxPhase::AwaitApply && s.response is Some,
        OutboxEvent::Reread(_) => s.phase == OutboxPhase::AwaitReread && s.response is Some,
    }
}

/// `after` is `before` with one arrival at `point` recorded; `failed` says
/// whether that arrival was the configured failure.
pub open spec fn spec_checkpointed(before: FailureInjector, after: FailureInjector, point: FailurePoint, failed: bool) -> bool {
    &&& after.target() == before.target()
    &&& after.visit_count(point) == spec_next_visit(before.visit_count(point))
    &&& forall|p: FailurePoint| p != point ==> after.visit_count(p) == before.visit_count(p)
    &&& failed == spec_fails_at(before.target(), point, before.visit_count(point))
}

pub open spec fn spec_done(r: (OutboxState, OutboxAction), result: Result<JsonValue, OutboxError>) -> bool {
    r == (OutboxState { phase: OutboxPhase::Done, response: None }, OutboxAction::Finish(result))
}

/// `r` is the step of a dispatch. An applied effect is answered from its
/// journaled response and any other unplanned one needs reconciliation; a
/// planned one is claimed, the operation runs once between the two
/// dispatch checkpoints, its response is journaled as `Applied` and only then
/// returned.
pub open spec fn spec_outbox_step(
    s: OutboxState,
    event: OutboxEvent,
    before: FailureInjector,
    after: FailureInjector,
    r: (OutboxState, OutboxAction),
) -> bool {
    match event {
        OutboxEvent::Planned { state, response } => after == before && if state == WorkflowEffectState::Applied {
            match response {
                Some(v) => spec_done(r, Ok(v)),
                None => spec_done(r, Err(OutboxError::MissingResponse)),
            }
        } else if state == WorkflowEffectState::Planned {
            r == (OutboxState { phase: OutboxPhase::AwaitClaim, response: None }, OutboxAction::Claim)
        } else {
            spec_done(r, Err(OutboxError::RequiresReconciliation(state)))
        },
        OutboxEvent::Claimed { updated } => if !updated {
            after == before && spec_done(
                r,
                Err(OutboxError::RequiresReconciliation(WorkflowEffectState::Dispatched)),
            )
        } else {
            exists|failed: bool|
                spec_checkpointed(before, after, FailurePoint::BeforeExternalDispatch, failed) && if failed {
                    spec_done(r, Err(OutboxError::Injected(InjectedFailure { point: FailurePoint::BeforeExternalDispatch })))
                } else {
                    r == (OutboxState { phase: OutboxPhase::AwaitOperation, response: None }, OutboxAction::RunOperation)
                }
        },
        OutboxEvent::Operated(result) => match result {
            Err(e) => after == before && spec_done(r, Err(e)),
            Ok(v) => exists|failed: bool|
                spec_checkpointed(before, after, FailurePoint::AfterExternalDispatch, failed) && if failed {
                    spec_done(r, Err(OutboxError::Injected(InjectedFailure { point: FailurePoint::AfterExternalDispatch })))
                } else {
                    r == (OutboxState { phase: OutboxPhase::AwaitApply, response: Some(v) }, OutboxAction::WriteApplied)
                },
        },
        OutboxEvent::AppliedWritten { updated } => after == before && if updated {
            spec_done(r, Ok(s.response->0))
        } else {
            r == (OutboxState { phase: OutboxPhase::AwaitReread, response: s.response }, OutboxAction::ReadEffect)
        },
        OutboxEvent::Reread(current) => after == before && match current {
            None => spec_done(r, Err(OutboxError::MissingEffect)),
            Some(st) => if st == WorkflowEffectState::Applied {
                spec_done(r, Ok(s.response->0))
            } else {
                spec_done(r, Err(OutboxError::RequiresReconciliation(st)))
            },
        },
    }
}

pub fn outbox_begin() -> (r: OutboxState)
    ensures
        r == spec_outbox_start(),
{
    OutboxState { phase: OutboxPhase::AwaitPlan, response: None }
}

fn done(result: Result<JsonValue, OutboxError>) -> (r: (OutboxState, OutboxAction))
    ensures
        spec_done(r, result),
{
    (OutboxState { phase: OutboxPhase::Done, response: None }, OutboxAction::Finish(result))
}

/// Advances a dispatch by one event, recording its dispatch checkpoints in
/// `injector`.
pub fn outbox_step(s: OutboxState, event: OutboxEvent, injector: &mut FailureInjector) -> (r: (OutboxState, OutboxAction))
    requires
        spec_outbox_fits(s, event),
    ensures
        spec_outbox_step(s, event, *old(injector), *final(injector), r),
{
    match event {
        OutboxEvent::Planned { state, response } => {
            if state == WorkflowEffectState::Applied {
                match response {
                    Some(v) => done(Ok(v)),
                    None => done(Err(OutboxError::MissingResponse)),
                }
            } else if state == WorkflowEffectState::Planned {
                (OutboxState { phase: OutboxPhase::AwaitClaim, response: None }, OutboxAction::Claim)
            } else {
                done(Err(OutboxError::RequiresReconciliation(state)))
            }
        },
        OutboxEvent::Claimed { updated } => {
            if !updated {
                return done(Err(OutboxError::RequiresReconciliation(WorkflowEffectState::Dispatched)));
            }
            match injector.checkpoint(FailurePoint::BeforeExternalDispatch) {
                Err(e) => {
                    assert(spec_checkpointed(*old(injector), *injector, FailurePoint::BeforeExternalDispatch, true));
                    done(Err(OutboxError::Injected(e)))
                },
                Ok(()) => {
                    assert(spec_checkpointed(*old(injector), *injector, FailurePoint::BeforeExternalDispatch, false));
                    (OutboxState { phase: OutboxPhase::AwaitOperation, response: None }, OutboxAction::RunOperation)
                },
            }
        },
        OutboxEvent::Operated(result) => match result {
            Err(e) => done(Err(e)),
            Ok(v) => match injector.checkpoint(FailurePoint::AfterExternalDispatch) {
                Err(e) => {
                    assert(spec_checkpointed(*old(injector), *injector, FailurePoint::AfterExternalDispatch, true));
                    done(Err(OutboxError::Injected(e)))
                },
                Ok(()) => {
                    assert(spec_checkpointed(*old(injector), *injector, FailurePoint::AfterExternalDispatch, false));
                    (OutboxState { phase: OutboxPhase::AwaitApply, response: Some(v) }, OutboxAction::WriteApplied)
                },
            },
        },
        OutboxEvent::AppliedWritten { updated } => {
            if updated {
                match s.response {
                    Some(v) => done(Ok(v)),
                    None => done(Err(OutboxError::MissingResponse)),
                }
            } else {
                (OutboxState { phase: OutboxPhase::AwaitReread, response: s.response }, OutboxAction::ReadEffect)
            }
        },
        OutboxEvent::Reread(current) => match current {
            None => done(Err(OutboxError::MissingEffect)),
            Some(st) => {
                if st == WorkflowEffectState::Applied {
                    match s.response {
                        Some(v) => done(Ok(v)),
                        None => done(Err(OutboxError::MissingResponse)),
                    }
                } else {
                    done(Err(OutboxError::RequiresReconciliation(st)))
                }
            },
        },
    }
}

/// Every step of a dispatch moves to a later phase, so the operation runs at
/// most once: only right after a successful claim. A dispatch answers `Ok`
/// only with a journaled response: the applied effect's, or the operation's
/// after its `Applied` write.
pub proof fn law_outbox_runs_operation_once(
    s: OutboxState,
    event: OutboxEvent,
    before: FailureInjector,
    after: FailureInjector,
    r: (OutboxState, OutboxAction),
)
    requires
        spec_outbox_fits(s, event),
        spec_outbox_step(s, event, before, after, r),
    ensures
        spec_outbox_rank(r.0.phase) > spec_outbox_rank(s.phase),
        r.1 is RunOperation ==> s.phase == OutboxPhase::AwaitClaim && (event matches OutboxEvent::Claimed { updated } && updated),
        r.1 matches OutboxAction::Finish(Ok(v)) ==> (s.phase == OutboxPhase::AwaitPlan && (event matches OutboxEvent::Planned { state, response } && state == WorkflowEffectState::Applied && response == Some(v)))
            || ((s.phase == OutboxPhase::AwaitApply || s.phase == OutboxPhase::AwaitReread) && s.response == Some(v)),
{
}

} // verus!
