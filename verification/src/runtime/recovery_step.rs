//! Reconciling one run after a restart, as a state machine: the caller
//! performs each action against the store and the node host, and hands back
//! what it found; every decision, early operator escalation and report tally
//! is taken here.
use vstd::prelude::*;

use crate::runtime::recovery::AttemptRepair;
use crate::runtime::recovery::OperatorReason;
use crate::runtime::recovery::ReconcileOutcome;
use crate::runtime::recovery::RecoveryReport;
use crate::runtime::recovery::RecoveryTally;
use crate::runtime::recovery::ThreadRepair;
use crate::runtime::recovery::settle;
use crate::runtime::records::WorkflowRunStatus;

verus! {

/// Where the reconciliation of a run stands.
#[derive(Clone, Copy, Debug, PartialEq, Eq, Structural)]
pub enum ReconcilePhase {
    /// Waiting to learn whether the run's human interaction has settled.
    AwaitInteraction,
    /// Waiting for the definition and effect precheck.
    AwaitPrecheck,
    /// Waiting for the thread repair of node `node`.
    AwaitNode,
    /// Walking the unfinished attempts of node `node`.
    AwaitAttempts,
    /// Waiting for the run's wake readiness.
    AwaitSettle,
    Done,
}

/// The reconciliation of one run: its phase, the node being inspected out of
/// `node_count`, and the recovery report so far.
#[derive(Clone, Debug, PartialEq, Eq)]
pub struct ReconcileState {
    pub phase: ReconcilePhase,
    pub node: usize,
    pub node_count: usize,
    pub report: RecoveryReport,
}

/// What the caller found when it performed the last action.
#[derive(Clone, Debug, PartialEq, Eq)]
pub enum ReconcileEvent {
    /// Whether the run waits on a known human interaction that is no longer waiting.
    InteractionChecked { settled: bool },
    /// `run_precheck` of the definition's availability and the run's effects.
    Prechecked { reason: Option<OperatorReason> },
    /// `thread_repair` of the current node.
    NodeInspected { repair: ThreadRepair },
    /// `attempt_repair` of the current node's next unfinished attempt with a thread.
    AttemptInspected { repair: AttemptRepair },
    /// The current node has no unfinished attempt left.
    AttemptsDone,
    /// The run's status and whether its wake has come.
    WakeChecked { status: WorkflowRunStatus, wake_ready: bool },
}

/// What the caller does next.
#[derive(Clone, Debug, PartialEq, Eq)]
pub enum ReconcileAction {
    /// Read the definition's availability and the run's effects; answer `Prechecked`.
    Precheck,
    /// Look up the threads of node `i`; answer `NodeInspected`.
    InspectNode(usize),
    /// Persist this thread repair of the current node, then walk its attempts.
    RepairThreads(ThreadRepair),
    /// Inspect the current node's next unfinished attempt, or answer `AttemptsDone`.
    NextAttempt,
    /// Persist this attempt repair, then inspect the next attempt.
    RepairAttempt(AttemptRepair),
    /// Read the run's wake readiness; answer `WakeChecked`.
    Settle,
    /// Mark the run as needing an operator, for the current node where there
    /// is one; the run's outcome is `NeedsOperator`.
    Escalate(OperatorReason),
    /// The run is reconciled with this outcome.
    Finish(ReconcileOutcome),
}

/// The state a reconciliation of a run over `node_count` nodes starts in.
pub open spec fn spec_reconcile_start(node_count: usize, report: RecoveryReport) -> ReconcileState {
    ReconcileState { phase: ReconcilePhase::AwaitInteraction, node: 0, node_count, report }
}

/// The event answers the phase's pending action.
pub open spec fn spec_event_fits(phase: ReconcilePhase, event: ReconcileEvent) -> bool {
    match event {
        ReconcileEvent::InteractionChecked { .. } => phase == ReconcilePhase::AwaitInteraction,
        ReconcileEvent::Prechecked { .. } => phase == ReconcilePhase::AwaitPrecheck,
        ReconcileEvent::NodeInspected { .. } => phase == ReconcilePhase::AwaitNode,
        ReconcileEvent::AttemptInspected { .. } => phase == ReconcilePhase::AwaitAttempts,
        ReconcileEvent::AttemptsDone => phase == ReconcilePhase::AwaitAttempts,
        ReconcileEvent::WakeChecked { .. } => phase == ReconcilePhase::AwaitSettle,
    }
}

/// The report with one more of `tally`.
pub open spec fn spec_tallied(report: RecoveryReport, tally: RecoveryTally) -> RecoveryReport {
    match tally {
        RecoveryTally::Inspected => RecoveryReport { inspected_runs: (report.inspected_runs + 1) as usize, ..report },
        RecoveryTally::RepairedBinding => RecoveryReport {
            repaired_thread_bindings: (report.repaired_thread_bindings + 1) as usize,
            ..report
        },
        RecoveryTally::ReconciledTerminal => RecoveryReport {
            reconciled_terminal_attempts: (report.reconciled_terminal_attempts + 1) as usize,
            ..report
        },
        RecoveryTally::Interrupted => RecoveryReport {
            interrupted_attempts: (report.interrupted_attempts + 1) as usize,
            ..report
        },
        RecoveryTally::NeedsOperator => RecoveryReport {
            needs_operator_runs: (report.needs_operator_runs + 1) as usize,
            ..report
        },
        RecoveryTally::Driven => RecoveryReport { driven_runs: (report.driven_runs + 1) as usize, ..report },
    }
}

/// Escalating ends the run's reconciliation and counts it as needing an operator.
pub open spec fn spec_escalate(s: ReconcileState, reason: OperatorReason) -> (ReconcileState, ReconcileAction) {
    (
        ReconcileState {
            phase: ReconcilePhase::Done,
            report: spec_tallied(s.report, RecoveryTally::NeedsOperator),
            ..s
        },
        ReconcileAction::Escalate(reason),
    )
}

/// Moves on to node `i`, or to settling when every node was inspected.
pub open spec fn spec_goto_node(s: ReconcileState, i: usize) -> (ReconcileState, ReconcileAction) {
    if i < s.node_count {
        (ReconcileState { phase: ReconcilePhase::AwaitNode, node: i, ..s }, ReconcileAction::InspectNode(i))
    } else {
        (ReconcileState { phase: ReconcilePhase::AwaitSettle, ..s }, ReconcileAction::Settle)
    }
}

/// One step of reconciling a run: a settled human interaction makes the run
/// ready at once; a missing definition or an ambiguous effect escalates;
/// each node's threads are repaired (a binding or an adopted retry thread
/// counts as a repaired binding) or escalate; each unfinished attempt is
/// kept, interrupted (counted), finished (counted) or escalates; finally a
/// waiting run whose wake has not come stays waiting, and any other is driven.
pub open spec fn spec_reconcile_step(s: ReconcileState, event: ReconcileEvent) -> (ReconcileState, ReconcileAction) {
    match event {
        ReconcileEvent::InteractionChecked { settled } => if settled {
            (
                ReconcileState { phase: ReconcilePhase::Done, ..s },
                ReconcileAction::Finish(ReconcileOutcome::ReadyToDrive),
            )
        } else {
            (ReconcileState { phase: ReconcilePhase::AwaitPrecheck, ..s }, ReconcileAction::Precheck)
        },
        ReconcileEvent::Prechecked { reason } => match reason {
            Some(r) => spec_escalate(s, r),
            None => spec_goto_node(s, 0),
        },
        ReconcileEvent::NodeInspected { repair } => match repair {
            ThreadRepair::NeedsOperator(r) => spec_escalate(s, r),
            ThreadRepair::Unchanged => (
                ReconcileState { phase: ReconcilePhase::AwaitAttempts, ..s },
                ReconcileAction::NextAttempt,
            ),
            _ => (
                ReconcileState {
                    phase: ReconcilePhase::AwaitAttempts,
                    report: spec_tallied(s.report, RecoveryTally::RepairedBinding),
                    ..s
                },
                ReconcileAction::RepairThreads(repair),
            ),
        },
        ReconcileEvent::AttemptInspected { repair } => match repair {
            AttemptRepair::Keep => (s, ReconcileAction::NextAttempt),
            AttemptRepair::NeedsOperator(r) => spec_escalate(s, r),
            AttemptRepair::Interrupt { .. } => (
                ReconcileState { report: spec_tallied(s.report, RecoveryTally::Interrupted), ..s },
                ReconcileAction::RepairAttempt(repair),
            ),
            AttemptRepair::Finish { .. } => (
                ReconcileState { report: spec_tallied(s.report, RecoveryTally::ReconciledTerminal), ..s },
                ReconcileAction::RepairAttempt(repair),
            ),
        },
        ReconcileEvent::AttemptsDone => spec_goto_node(s, (s.node + 1) as usize),
        ReconcileEvent::WakeChecked { status, wake_ready } => (
            ReconcileState { phase: ReconcilePhase::Done, ..s },
            ReconcileAction::Finish(
                if status == WorkflowRunStatus::Waiting && !wake_ready {
                    ReconcileOutcome::Waiting
                } else {
                    ReconcileOutcome::ReadyToDrive
                },
            ),
        ),
    }
}

/// The counters of the report can take one more.
pub open spec fn spec_report_room(report: RecoveryReport) -> bool {
    forall|t: RecoveryTally| #[trigger] report.spec_count(t) < usize::MAX
}

/// The state a reconciliation of a run over `node_count` nodes starts in.
pub fn reconcile_start(node_count: usize, report: RecoveryReport) -> (r: ReconcileState)
    ensures
        r == spec_reconcile_start(node_count, report),
{
    ReconcileState { phase: ReconcilePhase::AwaitInteraction, node: 0, node_count, report }
}

fn tallied(report: RecoveryReport, tally: RecoveryTally) -> (r: RecoveryReport)
    requires
        report.spec_count(tally) < usize::MAX,
    ensures
        r == spec_tallied(report, tally),
{
    match tally {
        RecoveryTally::Inspected => RecoveryReport { inspected_runs: report.inspected_runs + 1, ..report },
        RecoveryTally::RepairedBinding => RecoveryReport {
            repaired_thread_bindings: report.repaired_thread_bindings + 1,
            ..report
        },
        RecoveryTally::ReconciledTerminal => RecoveryReport {
            reconciled_terminal_attempts: report.reconciled_terminal_attempts + 1,
            ..report
        },
        RecoveryTally::Interrupted => RecoveryReport { interrupted_attempts: report.interrupted_attempts + 1, ..report },
        RecoveryTally::NeedsOperator => RecoveryReport { needs_operator_runs: report.needs_operator_runs + 1, ..report },
        RecoveryTally::Driven => RecoveryReport { driven_runs: report.driven_runs + 1, ..report },
    }
}

fn goto_node(s: ReconcileState, i: usize) -> (r: (ReconcileState, ReconcileAction))
    ensures
        r == spec_goto_node(s, i),
{
    if i < s.node_count {
        (ReconcileState { phase: ReconcilePhase::AwaitNode, node: i, ..s }, ReconcileAction::InspectNode(i))
    } else {
        (ReconcileState { phase: ReconcilePhase::AwaitSettle, ..s }, ReconcileAction::Settle)
    }
}

fn escalate(s: ReconcileState, reason: OperatorReason) -> (r: (ReconcileState, ReconcileAction))
    requires
        spec_report_room(s.report),
    ensures
        r == spec_escalate(s, reason),
{
    proof {
        assert(s.report.spec_count(RecoveryTally::NeedsOperator) < usize::MAX);
    }
    let report = tallied(s.report, RecoveryTally::NeedsOperator);
    (ReconcileState { phase: ReconcilePhase::Done, report, ..s }, ReconcileAction::Escalate(reason))
}

/// Advances the reconciliation of a run by one event.
pub fn reconcile_step(s: ReconcileState, event: ReconcileEvent) -> (r: (ReconcileState, ReconcileAction))
    requires
        spec_event_fits(s.phase, event),
        spec_report_room(s.report),
        s.node < usize::MAX,
    ensures
        r == spec_reconcile_step(s, event),
{
    proof {
        assert(s.report.spec_count(RecoveryTally::RepairedBinding) < usize::MAX);
        assert(s.report.spec_count(RecoveryTally::Interrupted) < usize::MAX);
        assert(s.report.spec_count(RecoveryTally::ReconciledTerminal) < usize::MAX);
    }
    match event {
        ReconcileEvent::InteractionChecked { settled } => if settled {
            (
                ReconcileState { phase: ReconcilePhase::Done, ..s },
                ReconcileAction::Finish(ReconcileOutcome::ReadyToDrive),
            )
        } else {
            (ReconcileState { phase: ReconcilePhase::AwaitPrecheck, ..s }, ReconcileAction::Precheck)
        },
        ReconcileEvent::Prechecked { reason } => match reason {
            Some(r) => escalate(s, r),
            None => goto_node(s, 0),
        },
        ReconcileEvent::NodeInspected { repair } => match repair {
            ThreadRepair::NeedsOperator(r) => escalate(s, r),
            ThreadRepair::Unchanged => (
                ReconcileState { phase: ReconcilePhase::AwaitAttempts, ..s },
                ReconcileAction::NextAttempt,
            ),
            _ => {
                let report = tallied(s.report, RecoveryTally::RepairedBinding);
                (
                    ReconcileState { phase: ReconcilePhase::AwaitAttempts, report, ..s },
                    ReconcileAction::RepairThreads(repair),
                )
            },
        },
        ReconcileEvent::AttemptInspected { repair } => match repair {
            AttemptRepair::Keep => (s, ReconcileAction::NextAttempt),
            AttemptRepair::NeedsOperator(r) => escalate(s, r),
            AttemptRepair::Interrupt { .. } => {
                let report = tallied(s.report, RecoveryTally::Interrupted);
                (ReconcileState { report, ..s }, ReconcileAction::RepairAttempt(repair))
            },
            AttemptRepair::Finish { .. } => {
                let report = tallied(s.report, RecoveryTally::ReconciledTerminal);
                (ReconcileState { report, ..s }, ReconcileAction::RepairAttempt(repair))
            },
        },
        ReconcileEvent::AttemptsDone => {
            let next = s.node + 1;
            goto_node(s, next)
        },
        ReconcileEvent::WakeChecked { status, wake_ready } => (
            ReconcileState { phase: ReconcilePhase::Done, ..s },
            ReconcileAction::Finish(settle(status, wake_ready)),
        ),
    }
}

} // verus!
