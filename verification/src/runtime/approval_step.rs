//! Collecting an approval, as two state machines: asking one approver (with
//! a bounded number of invalid replies), and walking the allowed approvers
//! until the decision evidence is terminal. The caller performs each action
//! against Lark and the store; every decision is taken here.
use vstd::prelude::*;

use crate::runtime::approval::derive_terminal;
use crate::runtime::approval::spec_derived;
use crate::runtime::approval::spec_parse_decision;
use crate::runtime::approval::ApprovalOutcome;
use crate::runtime::approval::WorkflowApprovalDecisionRecord;
use crate::runtime::approval::WorkflowApprovalError;
use crate::runtime::approval_flow::has_decided;
use crate::runtime::approval_flow::judge_reply;
use crate::runtime::approval_flow::spec_judge_reply;
use crate::runtime::approval_flow::ApprovalReply;
use crate::runtime::approval_flow::ApproverPoll;
use crate::runtime::approval_flow::MAX_INVALID_RESPONSES_PER_APPROVER;
use crate::runtime::interaction::HumanInteractionOutcome;
use crate::text::owned;

verus! {

// ---------------------------------------------------------------- one approver

/// Who is asked, and what binds the reply.
#[derive(Clone, Debug, PartialEq, Eq)]
pub struct ApproverContext {
    pub approval_id: String,
    pub approver: String,
    pub nonce: String,
    pub subject_sha256: String,
}

/// The attempt at asking the approver, and the artifact of the last invalid reply.
#[derive(Clone, Debug, PartialEq, Eq)]
pub struct ApproverState {
    pub attempt: usize,
    pub prior_invalid: Option<String>,
}

#[derive(Debug, PartialEq)]
pub enum ApproverEvent {
    /// What the interaction of the current attempt gave.
    Interaction(HumanInteractionOutcome),
    /// The reply stored as `artifact_id`.
    Reply { artifact_id: String, reply: ApprovalReply },
}

#[derive(Clone, Debug, PartialEq, Eq)]
pub enum ApproverAction {
    /// Ask (or poll) the approver with `approver_request` for the state's
    /// attempt and prior invalid reply.
    Ask,
    /// Read the reply stored as this artifact.
    ReadReply { artifact_id: String },
    /// Asking the approver gave this.
    Done(ApproverPoll),
}

/// The first attempt.
pub open spec fn spec_approver_start() -> ApproverState {
    ApproverState { attempt: 0, prior_invalid: None }
}

/// `r` is the step of asking an approver: a waiting or timed-out interaction
/// waits, a cancelled one cancels, one that needs an operator passes its
/// reason on, and a resolved one has its reply read; a reply is judged, and
/// an invalid one is asked again, up to the limit, after which an operator
/// is needed.
pub open spec fn spec_approver_step(
    ctx: ApproverContext,
    s: ApproverState,
    event: ApproverEvent,
    r: (ApproverState, ApproverAction),
) -> bool {
    match event {
        ApproverEvent::Interaction(outcome) => match outcome {
            HumanInteractionOutcome::Waiting { interaction_id } => r == (
                s,
                ApproverAction::Done(ApproverPoll::Waiting(interaction_id)),
            ),
            HumanInteractionOutcome::TimedOut { interaction_id } => r == (
                s,
                ApproverAction::Done(ApproverPoll::Waiting(interaction_id)),
            ),
            HumanInteractionOutcome::Cancelled { .. } => r == (s, ApproverAction::Done(ApproverPoll::Cancelled)),
            HumanInteractionOutcome::NeedsOperator { reason, .. } => r == (
                s,
                ApproverAction::Done(ApproverPoll::NeedsOperator(reason)),
            ),
            HumanInteractionOutcome::Resolved { artifact_id, .. } => r == (
                s,
                ApproverAction::ReadReply { artifact_id },
            ),
        },
        ApproverEvent::Reply { artifact_id, reply } => if reply.sender_id@ == ctx.approver@ && spec_parse_decision(
            reply.text@,
            ctx.nonce@,
            ctx.subject_sha256@,
        ) is None {
            if s.attempt < MAX_INVALID_RESPONSES_PER_APPROVER {
                r == (
                    ApproverState { attempt: (s.attempt + 1) as usize, prior_invalid: Some(artifact_id) },
                    ApproverAction::Ask,
                )
            } else {
                r.0 == s && (r.1 matches ApproverAction::Done(ApproverPoll::NeedsOperator(x)) && x@
                    == "approval_invalid_response_limit"@)
            }
        } else {
            r.0 == s && (r.1 matches ApproverAction::Done(p) && spec_judge_reply(
                ctx.approval_id@,
                ctx.approver@,
                ctx.nonce@,
                ctx.subject_sha256@,
                artifact_id@,
                reply,
                p,
            ))
        },
    }
}

pub fn approver_start() -> (r: ApproverState)
    ensures
        r == spec_approver_start(),
{
    ApproverState { attempt: 0, prior_invalid: None }
}

/// Advances the asking of one approver by one event.
pub fn approver_step(ctx: &ApproverContext, s: ApproverState, event: ApproverEvent) -> (r: (
    ApproverState,
    ApproverAction,
))
    ensures
        spec_approver_step(*ctx, s, event, r),
{
    match event {
        ApproverEvent::Interaction(outcome) => match outcome {
            HumanInteractionOutcome::Waiting { interaction_id } => (
                s,
                ApproverAction::Done(ApproverPoll::Waiting(interaction_id)),
            ),
            HumanInteractionOutcome::TimedOut { interaction_id } => (
                s,
                ApproverAction::Done(ApproverPoll::Waiting(interaction_id)),
            ),
            HumanInteractionOutcome::Cancelled { .. } => (s, ApproverAction::Done(ApproverPoll::Cancelled)),
            HumanInteractionOutcome::NeedsOperator { reason, .. } => (
                s,
                ApproverAction::Done(ApproverPoll::NeedsOperator(reason)),
            ),
            HumanInteractionOutcome::Resolved { artifact_id, .. } => (s, ApproverAction::ReadReply { artifact_id }),
        },
        ApproverEvent::Reply { artifact_id, reply } => {
            let judged = judge_reply(
                ctx.approval_id.as_str(),
                ctx.approver.as_str(),
                ctx.nonce.as_str(),
                ctx.subject_sha256.as_str(),
                artifact_id.as_str(),
                &reply,
            );
            match judged {
                ApproverPoll::Invalid(_) => {
                    if s.attempt < MAX_INVALID_RESPONSES_PER_APPROVER {
                        (
                            ApproverState { attempt: s.attempt + 1, prior_invalid: Some(artifact_id) },
                            ApproverAction::Ask,
                        )
                    } else {
                        (
                            s,
                            ApproverAction::Done(ApproverPoll::NeedsOperator(owned("approval_invalid_response_limit"))),
                        )
                    }
                },
                other => (s, ApproverAction::Done(other)),
            }
        },
    }
}

// ---------------------------------------------------------------- all approvers

/// The approval being collected.
#[derive(Clone, Debug, PartialEq, Eq)]
pub struct ApprovalContext {
    pub approval_id: String,
    pub quorum: u32,
    pub deadline_ms: i64,
    pub now_ms: i64,
    pub allowed_approvers: Vec<String>,
}

#[derive(Clone, Copy, Debug, PartialEq, Eq, Structural)]
pub enum ApprovalPhase {
    /// Waiting for the approval's decisions, as listed now.
    AwaitDecisions,
    /// Waiting for what asking approver `next` gave.
    AwaitPoll,
    Done,
}

/// The phase, and the first allowed approver not yet walked.
#[derive(Clone, Copy, Debug, PartialEq, Eq, Structural)]
pub struct ApprovalState {
    pub phase: ApprovalPhase,
    pub next: usize,
}

#[derive(Debug, PartialEq)]
pub enum ApprovalEvent {
    Decisions(Vec<WorkflowApprovalDecisionRecord>),
    Polled(ApproverPoll),
}

#[derive(Debug, PartialEq)]
pub enum ApprovalAction {
    /// Ask allowed approver `i` (the one-approver machine), then answer `Polled`.
    PollApprover(usize),
    /// Append this decision, then list the decisions again.
    AppendDecision(WorkflowApprovalDecisionRecord),
    Finish(ApprovalOutcome),
    Fail(WorkflowApprovalError),
}

pub open spec fn spec_approval_start() -> ApprovalState {
    ApprovalState { phase: ApprovalPhase::AwaitDecisions, next: 0 }
}

pub open spec fn spec_approval_fits(s: ApprovalState, event: ApprovalEvent) -> bool {
    match event {
        ApprovalEvent::Decisions(_) => s.phase == ApprovalPhase::AwaitDecisions,
        ApprovalEvent::Polled(p) => s.phase == ApprovalPhase::AwaitPoll && !(p is Invalid),
    }
}

/// Approver `i` has a recorded decision.
pub open spec fn spec_decided(
    decisions: Seq<WorkflowApprovalDecisionRecord>,
    approvers: Seq<String>,
    i: int,
) -> bool {
    exists|j: int| 0 <= j < decisions.len() && #[trigger] decisions[j].sender_id@ == approvers[i]@
}

/// The first approver at or after `from` without a recorded decision.
pub open spec fn spec_next_undecided(
    decisions: Seq<WorkflowApprovalDecisionRecord>,
    approvers: Seq<String>,
    from: int,
) -> Option<usize>
    decreases approvers.len() - from,
{
    if from < 0 || from >= approvers.len() {
        None
    } else if !spec_decided(decisions, approvers, from) {
        Some(from as usize)
    } else {
        spec_next_undecided(decisions, approvers, from + 1)
    }
}

/// The action ends with the derived terminal outcome or its error.
pub open spec fn spec_derived_action(ctx: ApprovalContext, decisions: Seq<WorkflowApprovalDecisionRecord>, a: ApprovalAction) -> bool {
    match a {
        ApprovalAction::Finish(o) => spec_derived(ctx.approval_id@, ctx.quorum, ctx.deadline_ms, ctx.now_ms, decisions, Ok(Some(o))),
        ApprovalAction::Fail(e) => spec_derived(ctx.approval_id@, ctx.quorum, ctx.deadline_ms, ctx.now_ms, decisions, Err(e)),
        _ => false,
    }
}

/// `r` is the step of collecting an approval: terminal evidence (or its
/// error) ends it; otherwise the next allowed approver without a decision is
/// asked, and when none is left the evidence is inconsistent. Asking waits,
/// cancels or needs an operator with the approval's id, or records a
/// decision and reads the evidence again.
pub open spec fn spec_approval_step(
    ctx: ApprovalContext,
    s: ApprovalState,
    event: ApprovalEvent,
    r: (ApprovalState, ApprovalAction),
) -> bool {
    match event {
        ApprovalEvent::Decisions(ds) => if spec_derived(
            ctx.approval_id@,
            ctx.quorum,
            ctx.deadline_ms,
            ctx.now_ms,
            ds@,
            Ok(None),
        ) {
            match spec_next_undecided(ds@, ctx.allowed_approvers@, s.next as int) {
                Some(i) => r == (ApprovalState { phase: ApprovalPhase::AwaitPoll, next: i }, ApprovalAction::PollApprover(i)),
                None => r == (
                    ApprovalState { phase: ApprovalPhase::Done, ..s },
                    ApprovalAction::Fail(WorkflowApprovalError::InvalidState),
                ),
            }
        } else {
            r.0 == ApprovalState { phase: ApprovalPhase::Done, ..s } && spec_derived_action(ctx, ds@, r.1)
        },
        ApprovalEvent::Polled(p) => match p {
            ApproverPoll::Decision(rec) => r == (
                ApprovalState { phase: ApprovalPhase::AwaitDecisions, next: (s.next + 1) as usize },
                ApprovalAction::AppendDecision(rec),
            ),
            ApproverPoll::Waiting(interaction_id) => r.0 == ApprovalState { phase: ApprovalPhase::Done, ..s } && (
            r.1 matches ApprovalAction::Finish(ApprovalOutcome::Waiting { approval_id: a, interaction_id: i }) && a@
                == ctx.approval_id@ && i == interaction_id),
            ApproverPoll::Cancelled => r.0 == ApprovalState { phase: ApprovalPhase::Done, ..s } && (
            r.1 matches ApprovalAction::Finish(ApprovalOutcome::Cancelled { approval_id: a }) && a@
                == ctx.approval_id@),
            ApproverPoll::NeedsOperator(reason) => r.0 == ApprovalState { phase: ApprovalPhase::Done, ..s } && (
            r.1 matches ApprovalAction::Finish(ApprovalOutcome::NeedsOperator { approval_id: a, reason: x }) && a@
                == ctx.approval_id@ && x == reason),
            ApproverPoll::Invalid(_) => true,
        },
    }
}

fn next_undecided(decisions: &Vec<WorkflowApprovalDecisionRecord>, approvers: &Vec<String>, from: usize) -> (r:
    Option<usize>)
    ensures
        r == spec_next_undecided(decisions@, approvers@, from as int),
    decreases approvers.len() - from,
{
    if from >= approvers.len() {
        None
    } else if !has_decided(decisions, approvers[from].as_str()) {
        Some(from)
    } else {
        next_undecided(decisions, approvers, from + 1)
    }
}

pub fn approval_start() -> (r: ApprovalState)
    ensures
        r == spec_approval_start(),
{
    ApprovalState { phase: ApprovalPhase::AwaitDecisions, next: 0 }
}

/// Advances the collecting of an approval by one event.
pub fn approval_step(ctx: &ApprovalContext, s: ApprovalState, event: ApprovalEvent) -> (r: (
    ApprovalState,
    ApprovalAction,
))
    requires
        spec_approval_fits(s, event),
        s.next < usize::MAX,
    ensures
        spec_approval_step(*ctx, s, event, r),
{
    match event {
        ApprovalEvent::Decisions(ds) => {
            match derive_terminal(ctx.approval_id.as_str(), ctx.quorum, ctx.deadline_ms, ctx.now_ms, &ds) {
                Err(e) => (ApprovalState { phase: ApprovalPhase::Done, ..s }, ApprovalAction::Fail(e)),
                Ok(Some(o)) => (ApprovalState { phase: ApprovalPhase::Done, ..s }, ApprovalAction::Finish(o)),
                Ok(None) => match next_undecided(&ds, &ctx.allowed_approvers, s.next) {
                    Some(i) => (ApprovalState { phase: ApprovalPhase::AwaitPoll, next: i }, ApprovalAction::PollApprover(i)),
                    None => (
                        ApprovalState { phase: ApprovalPhase::Done, ..s },
                        ApprovalAction::Fail(WorkflowApprovalError::InvalidState),
                    ),
                },
            }
        },
        ApprovalEvent::Polled(p) => match p {
            ApproverPoll::Decision(rec) => (
                ApprovalState { phase: ApprovalPhase::AwaitDecisions, next: s.next + 1 },
                ApprovalAction::AppendDecision(rec),
            ),
            ApproverPoll::Waiting(interaction_id) => (
                ApprovalState { phase: ApprovalPhase::Done, ..s },
                ApprovalAction::Finish(
                    ApprovalOutcome::Waiting { approval_id: owned(ctx.approval_id.as_str()), interaction_id },
                ),
            ),
            ApproverPoll::Cancelled => (
                ApprovalState { phase: ApprovalPhase::Done, ..s },
                ApprovalAction::Finish(ApprovalOutcome::Cancelled { approval_id: owned(ctx.approval_id.as_str()) }),
            ),
            ApproverPoll::NeedsOperator(reason) => (
                ApprovalState { phase: ApprovalPhase::Done, ..s },
                ApprovalAction::Finish(
                    ApprovalOutcome::NeedsOperator { approval_id: owned(ctx.approval_id.as_str()), reason },
                ),
            ),
            ApproverPoll::Invalid(_) => (s, ApprovalAction::Fail(WorkflowApprovalError::InvalidState)),
        },
    }
}

} // verus!
