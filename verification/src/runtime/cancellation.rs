//! Cooperative cancellation of a run: what happens to each attempt that is
//! still open, and what the report of a cancellation counts.
use vstd::prelude::*;

use crate::runtime::node_client::NodeError;
use crate::runtime::records::WorkflowNodeAttemptRecord;
use crate::runtime::records::WorkflowNodeAttemptStatus;
use crate::runtime::records::WorkflowNodeAttemptTransition;
use crate::runtime::records::WorkflowRunRecord;
use crate::runtime::records::WorkflowRunStatus;
use crate::runtime::records::attempt_is_terminal;
use crate::runtime::records::spec_attempt_terminal;
use crate::text::owned;

verus! {

/// Observable result of one durable cooperative cancellation.
#[derive(Clone, Debug, PartialEq, Eq)]
pub struct CancellationReport {
    pub run: WorkflowRunRecord,
    pub interrupted_turns: usize,
    pub ambiguous_turns: usize,
}

#[derive(Clone, Debug, PartialEq, Eq)]
pub enum CancellationError {
    Store(String),
    Identifier(String),
    Node(NodeError),
}

/// A run whose cancellation already finished is reported as it is, with
/// nothing interrupted.
pub fn already_cancelled(run: WorkflowRunRecord) -> (r: Result<CancellationReport, WorkflowRunRecord>)
    ensures
        run.status == WorkflowRunStatus::Cancelled ==> r == Ok::<CancellationReport, WorkflowRunRecord>(
            CancellationReport { run, interrupted_turns: 0, ambiguous_turns: 0 },
        ),
        run.status != WorkflowRunStatus::Cancelled ==> r == Err::<CancellationReport, WorkflowRunRecord>(run),
{
    if run.status == WorkflowRunStatus::Cancelled {
        Ok(CancellationReport { run, interrupted_turns: 0, ambiguous_turns: 0 })
    } else {
        Err(run)
    }
}

/// What cancellation does with one attempt.
#[derive(Clone, Debug, PartialEq, Eq)]
pub enum AttemptCancellation {
    /// Finished attempts are left alone.
    Leave,
    /// Never submitted: cancelled outright.
    CancelBeforeSubmission(WorkflowNodeAttemptTransition),
    /// A turn runs: interrupt it and wait for it within the grace period.
    Interrupt { turn_id: String },
}

pub fn attempt_cancellation(attempt: &WorkflowNodeAttemptRecord, now_ms: i64) -> (r: AttemptCancellation)
    ensures
        spec_attempt_terminal(attempt.status) ==> r == AttemptCancellation::Leave,
        !spec_attempt_terminal(attempt.status) ==> match attempt.turn_id {
            None => r matches AttemptCancellation::CancelBeforeSubmission(t) && t.expected_status == attempt.status
                && t.status == WorkflowNodeAttemptStatus::Cancelled && t.turn_id is None && (t.error_code matches Some(
                c,
            ) && c@ == "cancelled_before_submission"@) && t.updated_at_ms == now_ms,
            Some(turn) => r == AttemptCancellation::Interrupt { turn_id: turn },
        },
{
    if attempt_is_terminal(attempt.status) {
        return AttemptCancellation::Leave;
    }
    match &attempt.turn_id {
        None => AttemptCancellation::CancelBeforeSubmission(
            WorkflowNodeAttemptTransition {
                expected_status: attempt.status,
                status: WorkflowNodeAttemptStatus::Cancelled,
                turn_id: None,
                error_code: Some(owned("cancelled_before_submission")),
                updated_at_ms: now_ms,
            },
        ),
        Some(turn) => AttemptCancellation::Interrupt { turn_id: turn.clone() },
    }
}

/// A turn counts as interrupted when the host accepted the cancellation and
/// the turn settled successfully within the grace period.
pub fn interrupted(accepted: bool, settled_within_grace: bool) -> (r: bool)
    ensures
        r == (accepted && settled_within_grace),
{
    accepted && settled_within_grace
}

/// An attempt whose turn did not settle in time becomes ambiguous, unless it
/// has finished meanwhile.
pub fn grace_expired(attempt: &WorkflowNodeAttemptRecord, now_ms: i64) -> (r: Option<WorkflowNodeAttemptTransition>)
    ensures
        spec_attempt_terminal(attempt.status) <==> r is None,
        r matches Some(t) ==> t.expected_status == attempt.status && t.status == WorkflowNodeAttemptStatus::Ambiguous
            && t.turn_id == attempt.turn_id && (t.error_code matches Some(c) && c@ == "cancellation_grace_expired"@)
            && t.updated_at_ms == now_ms,
{
    if attempt_is_terminal(attempt.status) {
        return None;
    }
    Some(
        WorkflowNodeAttemptTransition {
            expected_status: attempt.status,
            status: WorkflowNodeAttemptStatus::Ambiguous,
            turn_id: match &attempt.turn_id {
                Some(t) => Some(t.clone()),
                None => None,
            },
            error_code: Some(owned("cancellation_grace_expired")),
            updated_at_ms: now_ms,
        },
    )
}

/// Counts of interrupted and ambiguous turns so far.
#[derive(Clone, Copy, Debug, PartialEq, Eq, Structural)]
pub struct CancellationTally {
    pub interrupted_turns: usize,
    pub ambiguous_turns: usize,
}

impl CancellationTally {
    pub fn new() -> (r: Self)
        ensures
            r.interrupted_turns == 0 && r.ambiguous_turns == 0,
    {
        CancellationTally { interrupted_turns: 0, ambiguous_turns: 0 }
    }

    /// Counts one interrupted turn, or one ambiguous turn.
    pub fn record(&mut self, was_interrupted: bool)
        requires
            old(self).interrupted_turns < usize::MAX,
            old(self).ambiguous_turns < usize::MAX,
        ensures
            was_interrupted ==> final(self).interrupted_turns == old(self).interrupted_turns + 1
                && final(self).ambiguous_turns == old(self).ambiguous_turns,
            !was_interrupted ==> final(self).ambiguous_turns == old(self).ambiguous_turns + 1
                && final(self).interrupted_turns == old(self).interrupted_turns,
    {
        if was_interrupted {
            self.interrupted_turns = self.interrupted_turns + 1;
        } else {
            self.ambiguous_turns = self.ambiguous_turns + 1;
        }
    }

    /// The report of a finished cancellation of `run`.
    pub fn report(self, run: WorkflowRunRecord) -> (r: CancellationReport)
        ensures
            r == (CancellationReport {
                run,
                interrupted_turns: self.interrupted_turns,
                ambiguous_turns: self.ambiguous_turns,
            }),
    {
        CancellationReport { run, interrupted_turns: self.interrupted_turns, ambiguous_turns: self.ambiguous_turns }
    }
}

// ---------------------------------------------------------------- the walk

/// One attempt of the run, with the node it belongs to.
#[derive(Clone, Debug, PartialEq, Eq)]
pub struct NodeAttempt {
    pub node_id: String,
    pub attempt: WorkflowNodeAttemptRecord,
}

#[derive(Clone, Copy, Debug, PartialEq, Eq, Structural)]
pub enum CancelPhase {
    /// Waiting for the run record that requesting its cancellation gave.
    AwaitRequested,
    /// Waiting for the attempts of the run's nodes, in node order.
    AwaitAttempts,
    /// Waiting for attempt `next` to be cancelled before submission.
    AwaitCancelled,
    /// Waiting for the interrupt of attempt `next`'s turn.
    AwaitInterrupt,
    /// Waiting for attempt `next` to be marked ambiguous.
    AwaitAmbiguous,
    /// Waiting for the run's cancellation to be finished.
    AwaitFinished,
    Done,
}

/// The phase, the attempts walked, the attempt at hand, and the counts so far.
#[derive(Clone, Debug, PartialEq, Eq)]
pub struct CancelState {
    pub phase: CancelPhase,
    pub attempts: Vec<NodeAttempt>,
    pub next: usize,
    pub tally: CancellationTally,
}

#[derive(Debug, PartialEq)]
pub enum CancelEvent {
    Requested(WorkflowRunRecord),
    Listed(Vec<NodeAttempt>),
    Cancelled,
    /// Whether the host accepted the cancellation, and whether the turn then
    /// settled successfully within the grace period.
    Settled { accepted: bool, settled_within_grace: bool },
    MarkedAmbiguous,
    Finished(WorkflowRunRecord),
}

#[derive(Debug, PartialEq)]
pub enum CancelAction {
    /// Raise the run's cancellation signal and list its nodes' attempts.
    ListAttempts,
    /// Apply this transition to attempt `index`.
    CancelBeforeSubmission { index: usize, transition: WorkflowNodeAttemptTransition },
    /// Cancel the node's turn, wait for it within the grace period, then
    /// detach the observer.
    Interrupt { index: usize, node_id: String, turn_id: String },
    /// Apply this transition to attempt `index`.
    MarkAmbiguous { index: usize, transition: WorkflowNodeAttemptTransition },
    /// Finish the run's cancellation and release its signal.
    FinishRun,
    Report(CancellationReport),
}

/// The attempt is still open and has a turn that cancellation interrupts.
pub open spec fn spec_open_turn(a: NodeAttempt) -> bool {
    !spec_attempt_terminal(a.attempt.status) && a.attempt.turn_id is Some
}

/// The open attempts with a turn among the first `n`.
pub open spec fn spec_open_turns(a: Seq<NodeAttempt>, n: int) -> int
    decreases n,
{
    if n <= 0 {
        0
    } else {
        spec_open_turns(a, n - 1) + if spec_open_turn(a[n - 1]) {
            1int
        } else {
            0int
        }
    }
}

/// The first open attempt at or after `j`, or the end.
pub open spec fn spec_next_open(a: Seq<NodeAttempt>, j: int) -> int
    decreases a.len() - j,
{
    if j >= a.len() {
        a.len() as int
    } else if !spec_attempt_terminal(a[j].attempt.status) {
        j
    } else {
        spec_next_open(a, j + 1)
    }
}

pub open spec fn spec_tally_sum(t: CancellationTally) -> int {
    t.interrupted_turns + t.ambiguous_turns
}

pub open spec fn spec_cancelled_transition(a: WorkflowNodeAttemptRecord, now_ms: i64, t: WorkflowNodeAttemptTransition) -> bool {
    &&& t.expected_status == a.status
    &&& t.status == WorkflowNodeAttemptStatus::Cancelled
    &&& t.turn_id is None
    &&& t.error_code matches Some(c) && c@ == "cancelled_before_submission"@
    &&& t.updated_at_ms == now_ms
}

pub open spec fn spec_ambiguous_transition(a: WorkflowNodeAttemptRecord, now_ms: i64, t: WorkflowNodeAttemptTransition) -> bool {
    &&& t.expected_status == a.status
    &&& t.status == WorkflowNodeAttemptStatus::Ambiguous
    &&& t.turn_id == a.turn_id
    &&& t.error_code matches Some(c) && c@ == "cancellation_grace_expired"@
    &&& t.updated_at_ms == now_ms
}

/// `r` continues the walk at the first open attempt from `j`: an attempt
/// never submitted is cancelled, one with a turn is interrupted, and after
/// the last the run's cancellation is finished.
pub open spec fn spec_walked(a: Seq<NodeAttempt>, j: int, tally: CancellationTally, now_ms: i64, r: (CancelState, CancelAction)) -> bool {
    let k = spec_next_open(a, j);
    &&& r.0.attempts@ == a
    &&& r.0.tally == tally
    &&& r.0.next == k
    &&& if k >= a.len() {
        r.0.phase == CancelPhase::AwaitFinished && r.1 == CancelAction::FinishRun
    } else {
        match a[k].attempt.turn_id {
            None => r.0.phase == CancelPhase::AwaitCancelled && (r.1 matches CancelAction::CancelBeforeSubmission {
                index,
                transition,
            } && index == k && spec_cancelled_transition(a[k].attempt, now_ms, transition)),
            Some(turn) => r.0.phase == CancelPhase::AwaitInterrupt && (r.1 matches CancelAction::Interrupt {
                index,
                node_id,
                turn_id,
            } && index == k && node_id@ == a[k].node_id@ && turn_id == turn),
        }
    }
}

/// What the walk keeps: the counts so far are the open turns before the
/// attempt at hand, which is open.
pub open spec fn spec_cancel_inv(s: CancelState) -> bool {
    &&& s.next <= s.attempts.len()
    &&& spec_tally_sum(s.tally) == spec_open_turns(s.attempts@, s.next as int)
    &&& (s.phase == CancelPhase::AwaitCancelled || s.phase == CancelPhase::AwaitInterrupt || s.phase
        == CancelPhase::AwaitAmbiguous) ==> s.next < s.attempts.len() && !spec_attempt_terminal(
        s.attempts@[s.next as int].attempt.status,
    )
    &&& s.phase == CancelPhase::AwaitCancelled ==> s.attempts@[s.next as int].attempt.turn_id is None
    &&& (s.phase == CancelPhase::AwaitInterrupt || s.phase == CancelPhase::AwaitAmbiguous)
        ==> s.attempts@[s.next as int].attempt.turn_id is Some
    &&& s.phase == CancelPhase::AwaitFinished ==> s.next == s.attempts.len()
}

pub open spec fn spec_cancel_fits(s: CancelState, event: CancelEvent) -> bool {
    match event {
        CancelEvent::Requested(_) => s.phase == CancelPhase::AwaitRequested,
        CancelEvent::Listed(_) => s.phase == CancelPhase::AwaitAttempts,
        CancelEvent::Cancelled => s.phase == CancelPhase::AwaitCancelled,
        CancelEvent::Settled { .. } => s.phase == CancelPhase::AwaitInterrupt,
        CancelEvent::MarkedAmbiguous => s.phase == CancelPhase::AwaitAmbiguous,
        CancelEvent::Finished(_) => s.phase == CancelPhase::AwaitFinished,
    }
}

pub open spec fn spec_cancel_start(s: CancelState) -> bool {
    &&& s.phase == CancelPhase::AwaitRequested
    &&& s.attempts@.len() == 0
    &&& s.next == 0
    &&& s.tally == CancellationTally { interrupted_turns: 0, ambiguous_turns: 0 }
}

/// `r` is the step of a cancellation of a run.
pub open spec fn spec_cancel_step(now_ms: i64, s: CancelState, event: CancelEvent, r: (CancelState, CancelAction)) -> bool {
    match event {
        CancelEvent::Requested(run) => if run.status == WorkflowRunStatus::Cancelled {
            r.0.phase == CancelPhase::Done && r.1 == CancelAction::Report(
                CancellationReport { run, interrupted_turns: 0, ambiguous_turns: 0 },
            )
        } else {
            r.0.phase == CancelPhase::AwaitAttempts && r.0.attempts@.len() == 0 && r.0.next == 0
                && spec_tally_sum(r.0.tally) == 0 && r.1 == CancelAction::ListAttempts
        },
        CancelEvent::Listed(a) => spec_walked(
            a@,
            0,
            CancellationTally { interrupted_turns: 0, ambiguous_turns: 0 },
            now_ms,
            r,
        ),
        CancelEvent::Cancelled => spec_walked(s.attempts@, s.next + 1, s.tally, now_ms, r),
        CancelEvent::Settled { accepted, settled_within_grace } => if accepted && settled_within_grace {
            spec_walked(
                s.attempts@,
                s.next + 1,
                CancellationTally { interrupted_turns: (s.tally.interrupted_turns + 1) as usize, ..s.tally },
                now_ms,
                r,
            )
        } else {
            r.0 == (CancelState { phase: CancelPhase::AwaitAmbiguous, ..s }) && (r.1 matches CancelAction::MarkAmbiguous {
                index,
                transition,
            } && index == s.next && spec_ambiguous_transition(s.attempts@[s.next as int].attempt, now_ms, transition))
        },
        CancelEvent::MarkedAmbiguous => spec_walked(
            s.attempts@,
            s.next + 1,
            CancellationTally { ambiguous_turns: (s.tally.ambiguous_turns + 1) as usize, ..s.tally },
            now_ms,
            r,
        ),
        CancelEvent::Finished(run) => r.0.phase == CancelPhase::Done && r.1 == CancelAction::Report(
            CancellationReport {
                run,
                interrupted_turns: s.tally.interrupted_turns,
                ambiguous_turns: s.tally.ambiguous_turns,
            },
        ),
    }
}

proof fn lemma_open_turns_bounded(a: Seq<NodeAttempt>, n: int)
    requires
        0 <= n,
    ensures
        0 <= spec_open_turns(a, n) <= n,
    decreases n,
{
    if n > 0 {
        lemma_open_turns_bounded(a, n - 1);
    }
}

pub fn cancel_begin() -> (r: CancelState)
    ensures
        spec_cancel_start(r),
        spec_cancel_inv(r),
{
    CancelState { phase: CancelPhase::AwaitRequested, attempts: Vec::new(), next: 0, tally: CancellationTally::new() }
}

fn walk(attempts: Vec<NodeAttempt>, j: usize, tally: CancellationTally, now_ms: i64) -> (r: (CancelState, CancelAction))
    requires
        j <= attempts.len(),
        spec_tally_sum(tally) == spec_open_turns(attempts@, j as int),
    ensures
        spec_walked(attempts@, j as int, tally, now_ms, r),
        spec_cancel_inv(r.0),
{
    let mut k = j;
    while k < attempts.len() && attempt_is_terminal(attempts[k].attempt.status)
        invariant
            j <= k <= attempts.len(),
            spec_next_open(attempts@, j as int) == spec_next_open(attempts@, k as int),
            spec_open_turns(attempts@, k as int) == spec_open_turns(attempts@, j as int),
        decreases attempts.len() - k,
    {
        k = k + 1;
    }
    if k == attempts.len() {
        return (CancelState { phase: CancelPhase::AwaitFinished, attempts, next: k, tally }, CancelAction::FinishRun);
    }
    let action = match &attempts[k].attempt.turn_id {
        None => CancelAction::CancelBeforeSubmission {
            index: k,
            transition: WorkflowNodeAttemptTransition {
                expected_status: attempts[k].attempt.status,
                status: WorkflowNodeAttemptStatus::Cancelled,
                turn_id: None,
                error_code: Some(owned("cancelled_before_submission")),
                updated_at_ms: now_ms,
            },
        },
        Some(turn) => CancelAction::Interrupt {
            index: k,
            node_id: attempts[k].node_id.clone(),
            turn_id: turn.clone(),
        },
    };
    let phase = match &attempts[k].attempt.turn_id {
        None => CancelPhase::AwaitCancelled,
        Some(_) => CancelPhase::AwaitInterrupt,
    };
    (CancelState { phase, attempts, next: k, tally }, action)
}

/// Advances the cancellation of a run by one event.
pub fn cancel_step(now_ms: i64, s: CancelState, event: CancelEvent) -> (r: (CancelState, CancelAction))
    requires
        spec_cancel_inv(s),
        spec_cancel_fits(s, event),
    ensures
        spec_cancel_step(now_ms, s, event, r),
        spec_cancel_inv(r.0),
        event is Finished ==> (r.1 matches CancelAction::Report(report) && report.interrupted_turns
            + report.ambiguous_turns == spec_open_turns(s.attempts@, s.attempts@.len() as int)),
{
    match event {
        CancelEvent::Requested(run) => {
            if run.status == WorkflowRunStatus::Cancelled {
                (
                    CancelState { phase: CancelPhase::Done, attempts: Vec::new(), next: 0, tally: CancellationTally::new() },
                    CancelAction::Report(CancellationReport { run, interrupted_turns: 0, ambiguous_turns: 0 }),
                )
            } else {
                (
                    CancelState {
                        phase: CancelPhase::AwaitAttempts,
                        attempts: Vec::new(),
                        next: 0,
                        tally: CancellationTally::new(),
                    },
                    CancelAction::ListAttempts,
                )
            }
        },
        CancelEvent::Listed(a) => walk(a, 0, CancellationTally::new(), now_ms),
        CancelEvent::Cancelled => {
            let next = s.next + 1;
            walk(s.attempts, next, s.tally, now_ms)
        },
        CancelEvent::Settled { accepted, settled_within_grace } => {
            if interrupted(accepted, settled_within_grace) {
                proof {
                    lemma_open_turns_bounded(s.attempts@, s.next as int);
                }
                let mut tally = s.tally;
                tally.record(true);
                let next = s.next + 1;
                walk(s.attempts, next, tally, now_ms)
            } else {
                let a = &s.attempts[s.next].attempt;
                let transition = WorkflowNodeAttemptTransition {
                    expected_status: a.status,
                    status: WorkflowNodeAttemptStatus::Ambiguous,
                    turn_id: match &a.turn_id {
                        Some(t) => Some(t.clone()),
                        None => None,
                    },
                    error_code: Some(owned("cancellation_grace_expired")),
                    updated_at_ms: now_ms,
                };
                let index = s.next;
                (CancelState { phase: CancelPhase::AwaitAmbiguous, ..s }, CancelAction::MarkAmbiguous { index, transition })
            }
        },
        CancelEvent::MarkedAmbiguous => {
            proof {
                lemma_open_turns_bounded(s.attempts@, s.next as int);
            }
            let mut tally = s.tally;
            tally.record(false);
            let next = s.next + 1;
            walk(s.attempts, next, tally, now_ms)
        },
        CancelEvent::Finished(run) => {
            let report = s.tally.report(run);
            (CancelState { phase: CancelPhase::Done, ..s }, CancelAction::Report(report))
        },
    }
}

} // verus!
