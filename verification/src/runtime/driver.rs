//! The decisions of the fenced load/step/commit driver of one run.
use vstd::prelude::*;

use crate::runtime::recovery::OperatorReason;

use crate::runtime::records::WorkflowRunStatus;

verus! {

/// Result of advancing a durable reducer.
#[derive(Clone, Copy, Debug, PartialEq, Eq, Structural)]
pub enum DriveOutcome {
    Continued,
    Waiting,
    Completed,
    Failed,
    Cancelling,
    Busy,
    NeedsOperator,
    StepLimitReached,
}

/// What one reducer step returned.
#[derive(Clone, Copy, Debug, PartialEq, Eq, Structural)]
pub enum StepResult {
    Continue,
    Wait,
    Complete,
    Failed,
}

/// The run transition committed after a step: the new status, the event
/// recorded with it, whether the step's checkpoint (rather than the run's
/// current state) is stored, and what the driver reports.
#[derive(Clone, Copy, Debug, PartialEq, Eq, Structural)]
pub struct RunCommit {
    pub status: WorkflowRunStatus,
    pub event: RunEvent,
    pub stores_checkpoint: bool,
    pub outcome: DriveOutcome,
}

/// The event kind of a run transition.
#[derive(Clone, Copy, Debug, PartialEq, Eq, Structural)]
pub enum RunEvent {
    Continued,
    Waiting,
    Succeeded,
    Failed,
}

pub open spec fn spec_event_kind(event: RunEvent) -> Seq<char> {
    match event {
        RunEvent::Continued => "run.continued"@,
        RunEvent::Waiting => "run.waiting"@,
        RunEvent::Succeeded => "run.succeeded"@,
        RunEvent::Failed => "run.failed"@,
    }
}

impl RunEvent {
    pub fn kind(&self) -> (r: &'static str)
        ensures
            r@ == spec_event_kind(*self),
    {
        match self {
            RunEvent::Continued => "run.continued",
            RunEvent::Waiting => "run.waiting",
            RunEvent::Succeeded => "run.succeeded",
            RunEvent::Failed => "run.failed",
        }
    }
}

/// A lease lasts at least one millisecond.
pub fn effective_lease_duration(lease_duration_ms: i64) -> (r: i64)
    ensures
        r == (if lease_duration_ms < 1 {
            1
        } else {
            lease_duration_ms
        }),
{
    if lease_duration_ms < 1 {
        1
    } else {
        lease_duration_ms
    }
}

/// What the driver reports without stepping, given the run as loaded: a
/// cancelled or cancelling run reports cancelling, a finished run its end;
/// `None` means the reducer is stepped.
pub fn settled_outcome(status: WorkflowRunStatus, cancellation_requested: bool) -> (r: Option<
    DriveOutcome,
>)
    ensures
        r == (if status == WorkflowRunStatus::Cancelling || cancellation_requested {
            Some(DriveOutcome::Cancelling)
        } else if status == WorkflowRunStatus::Succeeded {
            Some(DriveOutcome::Completed)
        } else if status == WorkflowRunStatus::Failed || status == WorkflowRunStatus::Cancelled {
            Some(DriveOutcome::Failed)
        } else {
            None::<DriveOutcome>
        }),
{
    if status == WorkflowRunStatus::Cancelling || cancellation_requested {
        Some(DriveOutcome::Cancelling)
    } else if status == WorkflowRunStatus::Succeeded {
        Some(DriveOutcome::Completed)
    } else if status == WorkflowRunStatus::Failed || status == WorkflowRunStatus::Cancelled {
        Some(DriveOutcome::Failed)
    } else {
        None
    }
}

pub open spec fn spec_commit(step: StepResult) -> RunCommit {
    match step {
        StepResult::Continue => RunCommit {
            status: WorkflowRunStatus::Running,
            event: RunEvent::Continued,
            stores_checkpoint: true,
            outcome: DriveOutcome::Continued,
        },
        StepResult::Wait => RunCommit {
            status: WorkflowRunStatus::Waiting,
            event: RunEvent::Waiting,
            stores_checkpoint: true,
            outcome: DriveOutcome::Waiting,
        },
        StepResult::Complete => RunCommit {
            status: WorkflowRunStatus::Succeeded,
            event: RunEvent::Succeeded,
            stores_checkpoint: false,
            outcome: DriveOutcome::Completed,
        },
        StepResult::Failed => RunCommit {
            status: WorkflowRunStatus::Failed,
            event: RunEvent::Failed,
            stores_checkpoint: false,
            outcome: DriveOutcome::Failed,
        },
    }
}

/// The transition committed for a step's result.
pub fn commit_for(step: StepResult) -> (r: RunCommit)
    ensures
        r == spec_commit(step),
{
    match step {
        StepResult::Continue => RunCommit {
            status: WorkflowRunStatus::Running,
            event: RunEvent::Continued,
            stores_checkpoint: true,
            outcome: DriveOutcome::Continued,
        },
        StepResult::Wait => RunCommit {
            status: WorkflowRunStatus::Waiting,
            event: RunEvent::Waiting,
            stores_checkpoint: true,
            outcome: DriveOutcome::Waiting,
        },
        StepResult::Complete => RunCommit {
            status: WorkflowRunStatus::Succeeded,
            event: RunEvent::Succeeded,
            stores_checkpoint: false,
            outcome: DriveOutcome::Completed,
        },
        StepResult::Failed => RunCommit {
            status: WorkflowRunStatus::Failed,
            event: RunEvent::Failed,
            stores_checkpoint: false,
            outcome: DriveOutcome::Failed,
        },
    }
}

/// A run that ended no longer needs its cancellation signal.
pub fn releases_signal(outcome: DriveOutcome) -> (r: bool)
    ensures
        r == (outcome == DriveOutcome::Completed || outcome == DriveOutcome::Failed),
{
    outcome == DriveOutcome::Completed || outcome == DriveOutcome::Failed
}

/// The clock of the `step`-th step of one drive: `now_ms` plus `step` (taken as at
/// most `i64::MAX`), saturating.
pub fn heartbeat_at(now_ms: i64, step: usize) -> (r: i64)
    ensures
        ({
            let s = if step > i64::MAX {
                i64::MAX as int
            } else {
                step as int
            };
            r == (if now_ms + s > i64::MAX {
                i64::MAX as int
            } else {
                now_ms + s
            })
        }),
{
    let s: i64 = if step as u128 > i64::MAX as u128 {
        i64::MAX
    } else {
        step as i64
    };
    if now_ms > 0 && s > i64::MAX - now_ms {
        i64::MAX
    } else {
        now_ms + s
    }
}

/// A drive goes on only while the reducer continues.
pub fn keeps_driving(outcome: DriveOutcome) -> (r: bool)
    ensures
        r == (outcome == DriveOutcome::Continued),
{
    outcome == DriveOutcome::Continued
}

/// A recovered run counts as driven unless it was busy or handed to an operator.
pub fn counts_as_driven(outcome: DriveOutcome) -> (r: bool)
    ensures
        r == !(outcome == DriveOutcome::Busy || outcome == DriveOutcome::NeedsOperator),
{
    !(outcome == DriveOutcome::Busy || outcome == DriveOutcome::NeedsOperator)
}

/// The error code a step's transition records: `workflow_step_failed` for a
/// failed reducer step, none otherwise.
pub fn step_error_code(step: StepResult) -> (r: Option<&'static str>)
    ensures
        r is Some <==> step == StepResult::Failed,
        r matches Some(c) ==> c@ == "workflow_step_failed"@,
{
    match step {
        StepResult::Failed => Some("workflow_step_failed"),
        _ => None,
    }
}

/// Where one leased drive step stands.
#[derive(Clone, Copy, Debug, PartialEq, Eq, Structural)]
pub enum LeasePhase {
    AwaitRun,
    AwaitDefinition,
    AwaitStep,
    AwaitCommit,
    Done,
}

/// The phase, and the outcome the step reports once committed.
#[derive(Clone, Copy, Debug, PartialEq, Eq, Structural)]
pub struct LeaseState {
    pub phase: LeasePhase,
    pub outcome: DriveOutcome,
}

#[derive(Clone, Copy, Debug, PartialEq, Eq, Structural)]
pub enum LeaseEvent {
    /// The run as loaded under the lease.
    RunLoaded { status: WorkflowRunStatus, cancellation_requested: bool },
    /// Whether the run's definition and version are registered.
    DefinitionResolved { available: bool },
    /// What the reducer step returned.
    Stepped(StepResult),
    /// The fenced run transition was written.
    Committed,
}

#[derive(Clone, Copy, Debug, PartialEq, Eq, Structural)]
pub enum LeaseAction {
    ResolveDefinition,
    /// Mark the run as needing an operator for this reason; the step reports `NeedsOperator`.
    Escalate(OperatorReason),
    StepReducer,
    /// Write this fenced run transition, with the step's error code.
    Commit(RunCommit),
    /// Report `outcome`, releasing the run's cancellation signal first where `release`.
    Finish { outcome: DriveOutcome, release: bool },
}

pub open spec fn spec_lease_start() -> LeaseState {
    LeaseState { phase: LeasePhase::AwaitRun, outcome: DriveOutcome::Busy }
}

pub open spec fn spec_lease_fits(s: LeaseState, event: LeaseEvent) -> bool {
    match event {
        LeaseEvent::RunLoaded { .. } => s.phase == LeasePhase::AwaitRun,
        LeaseEvent::DefinitionResolved { .. } => s.phase == LeasePhase::AwaitDefinition,
        LeaseEvent::Stepped(_) => s.phase == LeasePhase::AwaitStep,
        LeaseEvent::Committed => s.phase == LeasePhase::AwaitCommit,
    }
}

/// One leased step of a run: a cancelling or finished run reports without
/// stepping; a run whose definition is not registered escalates as
/// `definition_unavailable`; otherwise the reducer steps, its transition is
/// committed, and a run that ended releases its cancellation signal.
pub open spec fn spec_lease_step(s: LeaseState, event: LeaseEvent) -> (LeaseState, LeaseAction) {
    match event {
        LeaseEvent::RunLoaded { status, cancellation_requested } => {
            let settled = if status == WorkflowRunStatus::Cancelling || cancellation_requested {
                Some(DriveOutcome::Cancelling)
            } else if status == WorkflowRunStatus::Succeeded {
                Some(DriveOutcome::Completed)
            } else if status == WorkflowRunStatus::Failed || status == WorkflowRunStatus::Cancelled {
                Some(DriveOutcome::Failed)
            } else {
                None::<DriveOutcome>
            };
            match settled {
                Some(o) => (LeaseState { phase: LeasePhase::Done, outcome: o }, LeaseAction::Finish { outcome: o, release: false }),
                None => (LeaseState { phase: LeasePhase::AwaitDefinition, ..s }, LeaseAction::ResolveDefinition),
            }
        },
        LeaseEvent::DefinitionResolved { available } => if available {
            (LeaseState { phase: LeasePhase::AwaitStep, ..s }, LeaseAction::StepReducer)
        } else {
            (
                LeaseState { phase: LeasePhase::Done, outcome: DriveOutcome::NeedsOperator },
                LeaseAction::Escalate(OperatorReason::DefinitionUnavailable),
            )
        },
        LeaseEvent::Stepped(step) => (
            LeaseState { phase: LeasePhase::AwaitCommit, outcome: spec_commit(step).outcome },
            LeaseAction::Commit(spec_commit(step)),
        ),
        LeaseEvent::Committed => (
            LeaseState { phase: LeasePhase::Done, ..s },
            LeaseAction::Finish {
                outcome: s.outcome,
                release: s.outcome == DriveOutcome::Completed || s.outcome == DriveOutcome::Failed,
            },
        ),
    }
}

pub fn lease_start() -> (r: LeaseState)
    ensures
        r == spec_lease_start(),
{
    LeaseState { phase: LeasePhase::AwaitRun, outcome: DriveOutcome::Busy }
}

/// Advances one leased drive step by one event.
pub fn lease_step(s: LeaseState, event: LeaseEvent) -> (r: (LeaseState, LeaseAction))
    requires
        spec_lease_fits(s, event),
    ensures
        r == spec_lease_step(s, event),
{
    match event {
        LeaseEvent::RunLoaded { status, cancellation_requested } => match settled_outcome(status, cancellation_requested) {
            Some(o) => (LeaseState { phase: LeasePhase::Done, outcome: o }, LeaseAction::Finish { outcome: o, release: false }),
            None => (LeaseState { phase: LeasePhase::AwaitDefinition, ..s }, LeaseAction::ResolveDefinition),
        },
        LeaseEvent::DefinitionResolved { available } => if available {
            (LeaseState { phase: LeasePhase::AwaitStep, ..s }, LeaseAction::StepReducer)
        } else {
            (
                LeaseState { phase: LeasePhase::Done, outcome: DriveOutcome::NeedsOperator },
                LeaseAction::Escalate(OperatorReason::DefinitionUnavailable),
            )
        },
        LeaseEvent::Stepped(step) => {
            let commit = commit_for(step);
            (LeaseState { phase: LeasePhase::AwaitCommit, outcome: commit.outcome }, LeaseAction::Commit(commit))
        },
        LeaseEvent::Committed => (
            LeaseState { phase: LeasePhase::Done, ..s },
            LeaseAction::Finish { outcome: s.outcome, release: releases_signal(s.outcome) },
        ),
    }
}

// ---------------------------------------------------------------- drive until blocked

/// What ended a drive in error.
#[derive(Clone, Debug, PartialEq, Eq)]
pub enum DriveError {
    /// The step failed with this error.
    Step(String),
    /// The store failed with this error.
    Store(String),
    /// Renewing the lease found it taken over.
    StaleWrite,
}

#[derive(Clone, Copy, Debug, PartialEq, Eq, Structural)]
pub enum DrivePhase {
    /// Waiting for the attempt to acquire the run's lease.
    AwaitLease,
    /// Waiting for step `step` under the lease.
    AwaitStep,
    /// Waiting for the lease renewal after step `step` continued.
    AwaitRenew,
    /// Waiting for the lease to be released; `result` is what is then returned.
    AwaitRelease,
    Done,
}

/// The phase, the steps that continued and renewed the lease, and the result
/// once the loop has ended.
#[derive(Debug, PartialEq, Eq)]
pub struct DriveState {
    pub phase: DrivePhase,
    pub step: usize,
    pub result: Option<Result<DriveOutcome, DriveError>>,
}

#[derive(Debug, PartialEq, Eq)]
pub enum DriveEvent {
    LeaseAcquired(bool),
    Stepped(Result<DriveOutcome, String>),
    Renewed(Result<bool, String>),
    Released(Result<(), String>),
}

#[derive(Debug, PartialEq, Eq)]
pub enum DriveAction {
    /// Run one step under the lease at this clock.
    Step { heartbeat_ms: i64 },
    /// Renew the lease at this clock.
    RenewLease { heartbeat_ms: i64 },
    /// Release the lease.
    ReleaseLease,
    Finish(Result<DriveOutcome, DriveError>),
}

/// The clock of a drive's `step`-th step.
pub open spec fn spec_heartbeat(now_ms: i64, step: usize) -> int {
    let s = if step > i64::MAX {
        i64::MAX as int
    } else {
        step as int
    };
    if now_ms + s > i64::MAX {
        i64::MAX as int
    } else {
        now_ms + s
    }
}

pub open spec fn spec_drive_start() -> DriveState {
    DriveState { phase: DrivePhase::AwaitLease, step: 0, result: None }
}

/// What a drive keeps: steps stay under the limit while it runs, and a
/// drive that reached the limit continued exactly that many times.
pub open spec fn spec_drive_inv(maximum_steps: usize, s: DriveState) -> bool {
    &&& (s.phase == DrivePhase::AwaitStep || s.phase == DrivePhase::AwaitRenew) ==> s.step < maximum_steps
    &&& s.phase == DrivePhase::AwaitRelease <==> s.result is Some
    &&& s.result == Some(Ok::<DriveOutcome, DriveError>(DriveOutcome::StepLimitReached)) ==> s.step == maximum_steps
    &&& s.step <= maximum_steps
}

pub open spec fn spec_drive_fits(s: DriveState, event: DriveEvent) -> bool {
    match event {
        DriveEvent::LeaseAcquired(_) => s.phase == DrivePhase::AwaitLease,
        DriveEvent::Stepped(r) => s.phase == DrivePhase::AwaitStep && !(r matches Ok(o) && (o
            == DriveOutcome::Busy || o == DriveOutcome::StepLimitReached)),
        DriveEvent::Renewed(_) => s.phase == DrivePhase::AwaitRenew,
        DriveEvent::Released(_) => s.phase == DrivePhase::AwaitRelease,
    }
}

pub open spec fn spec_release_with(s: DriveState, result: Result<DriveOutcome, DriveError>) -> (DriveState, DriveAction) {
    (DriveState { phase: DrivePhase::AwaitRelease, result: Some(result), ..s }, DriveAction::ReleaseLease)
}

/// The step of driving a run until it blocks: without the lease it is
/// busy and steps nothing; with it, steps run one at a time while they
/// continue and the lease renews, at most `maximum_steps` of them, and the
/// lease is released before the drive returns its result.
pub open spec fn spec_drive_step(now_ms: i64, maximum_steps: usize, s: DriveState, event: DriveEvent) -> (DriveState, DriveAction) {
    match event {
        DriveEvent::LeaseAcquired(acquired) => if !acquired {
            (DriveState { phase: DrivePhase::Done, ..s }, DriveAction::Finish(Ok(DriveOutcome::Busy)))
        } else {
            (
                DriveState { phase: DrivePhase::AwaitStep, step: 0, result: None },
                DriveAction::Step { heartbeat_ms: spec_heartbeat(now_ms, 0) as i64 },
            )
        },
        DriveEvent::Stepped(result) => match result {
            Err(e) => spec_release_with(s, Err(DriveError::Step(e))),
            Ok(outcome) => if outcome != DriveOutcome::Continued {
                spec_release_with(s, Ok(outcome))
            } else {
                (
                    DriveState { phase: DrivePhase::AwaitRenew, ..s },
                    DriveAction::RenewLease { heartbeat_ms: spec_heartbeat(now_ms, s.step) as i64 },
                )
            },
        },
        DriveEvent::Renewed(renewed) => match renewed {
            Err(e) => spec_release_with(s, Err(DriveError::Store(e))),
            Ok(false) => spec_release_with(s, Err(DriveError::StaleWrite)),
            Ok(true) => if s.step + 1 >= maximum_steps {
                spec_release_with(
                    DriveState { step: (s.step + 1) as usize, ..s },
                    Ok(DriveOutcome::StepLimitReached),
                )
            } else {
                (
                    DriveState { phase: DrivePhase::AwaitStep, step: (s.step + 1) as usize, ..s },
                    DriveAction::Step { heartbeat_ms: spec_heartbeat(now_ms, (s.step + 1) as usize) as i64 },
                )
            },
        },
        DriveEvent::Released(released) => (
            DriveState { phase: DrivePhase::Done, result: None, ..s },
            DriveAction::Finish(
                match s.result->0 {
                    Err(e) => Err(e),
                    Ok(outcome) => match released {
                        Err(e) => Err(DriveError::Store(e)),
                        Ok(()) => Ok(outcome),
                    },
                },
            ),
        ),
    }
}

pub fn drive_start() -> (r: DriveState)
    ensures
        r == spec_drive_start(),
{
    DriveState { phase: DrivePhase::AwaitLease, step: 0, result: None }
}

fn heartbeat(now_ms: i64, step: usize) -> (r: i64)
    ensures
        r == spec_heartbeat(now_ms, step),
{
    heartbeat_at(now_ms, step)
}

/// Advances a drive of one run by one event.
pub fn drive_step(now_ms: i64, maximum_steps: usize, s: DriveState, event: DriveEvent) -> (r: (DriveState, DriveAction))
    requires
        maximum_steps >= 1,
        spec_drive_inv(maximum_steps, s),
        spec_drive_fits(s, event),
    ensures
        r == spec_drive_step(now_ms, maximum_steps, s, event),
        spec_drive_inv(maximum_steps, r.0),
{
    match event {
        DriveEvent::LeaseAcquired(acquired) => {
            if !acquired {
                (DriveState { phase: DrivePhase::Done, ..s }, DriveAction::Finish(Ok(DriveOutcome::Busy)))
            } else {
                (DriveState { phase: DrivePhase::AwaitStep, step: 0, result: None }, DriveAction::Step { heartbeat_ms: heartbeat(now_ms, 0) })
            }
        },
        DriveEvent::Stepped(result) => match result {
            Err(e) => (DriveState { phase: DrivePhase::AwaitRelease, result: Some(Err(DriveError::Step(e))), ..s }, DriveAction::ReleaseLease),
            Ok(outcome) => {
                if outcome != DriveOutcome::Continued {
                    (DriveState { phase: DrivePhase::AwaitRelease, result: Some(Ok(outcome)), ..s }, DriveAction::ReleaseLease)
                } else {
                    let h = heartbeat(now_ms, s.step);
                    (DriveState { phase: DrivePhase::AwaitRenew, ..s }, DriveAction::RenewLease { heartbeat_ms: h })
                }
            },
        },
        DriveEvent::Renewed(renewed) => match renewed {
            Err(e) => (DriveState { phase: DrivePhase::AwaitRelease, result: Some(Err(DriveError::Store(e))), ..s }, DriveAction::ReleaseLease),
            Ok(false) => (DriveState { phase: DrivePhase::AwaitRelease, result: Some(Err(DriveError::StaleWrite)), ..s }, DriveAction::ReleaseLease),
            Ok(true) => {
                let next = s.step + 1;
                if next >= maximum_steps {
                    (
                        DriveState { phase: DrivePhase::AwaitRelease, step: next, result: Some(Ok(DriveOutcome::StepLimitReached)) },
                        DriveAction::ReleaseLease,
                    )
                } else {
                    let h = heartbeat(now_ms, next);
                    (DriveState { phase: DrivePhase::AwaitStep, step: next, ..s }, DriveAction::Step { heartbeat_ms: h })
                }
            },
        },
        DriveEvent::Released(released) => {
            let result = match s.result {
                Some(Err(e)) => Err(e),
                Some(Ok(outcome)) => match released {
                    Err(e) => Err(DriveError::Store(e)),
                    Ok(()) => Ok(outcome),
                },
                None => Err(DriveError::StaleWrite),
            };
            (DriveState { phase: DrivePhase::Done, step: s.step, result: None }, DriveAction::Finish(result))
        },
    }
}

/// A drive either ends busy, right after failing to get the lease and
/// without a step, or ends right after releasing the lease; it asks for a
/// step only below the limit, and it reports the limit only once that many
/// steps continued.
pub proof fn law_drive_bounded(now_ms: i64, maximum_steps: usize, s: DriveState, event: DriveEvent)
    requires
        maximum_steps >= 1,
        spec_drive_inv(maximum_steps, s),
        spec_drive_fits(s, event),
    ensures
        ({
            let r = spec_drive_step(now_ms, maximum_steps, s, event);
            &&& r.1 matches DriveAction::Finish(res) ==> (res == Ok::<DriveOutcome, DriveError>(DriveOutcome::Busy)
                && event == DriveEvent::LeaseAcquired(false)) || s.phase == DrivePhase::AwaitRelease
            &&& r.1 is Step ==> r.0.step < maximum_steps
            &&& r.0.result == Some(Ok::<DriveOutcome, DriveError>(DriveOutcome::StepLimitReached)) ==> r.0.step == maximum_steps
            &&& spec_drive_inv(maximum_steps, r.0)
        }),
{
}

} // verus!
