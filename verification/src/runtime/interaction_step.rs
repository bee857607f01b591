//! Requesting a human interaction over Lark, as a state machine: the caller
//! plans and claims the request effect, ensures the interaction records,
//! looks for an already sent request, sends it, and records the send; the
//! order of those calls and every decision is taken here.
use vstd::prelude::*;

use crate::json::spec_get_str;
use crate::json::JsonValue;
use crate::runtime::interaction::effect_interaction_id;
use crate::runtime::interaction::send_phase;
use crate::runtime::interaction::HumanInteractionOutcome;
use crate::runtime::interaction::LarkInteractionError;
use crate::runtime::interaction::SendPhase;
use crate::runtime::records::WorkflowEffectState;
use crate::text::owned;

verus! {

#[derive(Clone, Copy, Debug, PartialEq, Eq, Structural)]
pub enum InteractionPhase {
    /// Waiting for the planned request effect.
    AwaitPlan,
    /// Waiting for the fenced `Planned → Dispatched` claim with a new interaction id.
    AwaitClaim,
    /// Waiting for the claimed effect, read back.
    AwaitReread,
    /// Waiting for the interaction's records to exist.
    AwaitRecords,
    /// Waiting for a search of the chat for the request's marker, before sending.
    AwaitMarker,
    /// Waiting for the send.
    AwaitSend,
    /// Waiting for a search for the marker after a failed send.
    AwaitMarkerAfterFailure,
    /// Waiting for the send to be recorded.
    AwaitComplete,
    /// Waiting for the effect to be marked ambiguous.
    AwaitAmbiguous,
    Done,
}

/// The phase, the request effect's state, and the interaction's id once known.
#[derive(Clone, Debug, PartialEq, Eq)]
pub struct InteractionState {
    pub phase: InteractionPhase,
    pub effect_state: WorkflowEffectState,
    pub interaction_id: Option<String>,
}

#[derive(Debug, PartialEq)]
pub enum InteractionEvent {
    Planned { state: WorkflowEffectState, response: Option<JsonValue> },
    Claimed { updated: bool },
    Reread { effect: Option<(WorkflowEffectState, Option<JsonValue>)> },
    RecordsEnsured,
    /// The message carrying the request's marker, if one was found.
    MarkerFound { message_id: Option<String> },
    /// The sent message, or `None` where the send failed.
    Sent { message_id: Option<String> },
    Completed,
    MarkedAmbiguous,
}

#[derive(Debug, PartialEq)]
pub enum InteractionAction {
    /// Claim the planned effect as dispatched with a new interaction id.
    Claim,
    /// Read the effect back.
    ReadEffect,
    /// Ensure the interaction's records for this id.
    EnsureRecords,
    /// Search the chat for the request's marker.
    FindMarker,
    /// Send the prompt with its marker: the message `send_request` builds.
    Send,
    /// Record the request as sent as this message.
    CompleteSend { message_id: String },
    /// Mark the effect ambiguous with `lark_send_ambiguous`.
    MarkAmbiguous,
    /// Refresh the interaction's outcome and return it.
    Refresh,
    Finish(HumanInteractionOutcome),
    Fail(LarkInteractionError),
}

pub open spec fn spec_interaction_start() -> InteractionState {
    InteractionState { phase: InteractionPhase::AwaitPlan, effect_state: WorkflowEffectState::Planned, interaction_id: None }
}

pub open spec fn spec_interaction_fits(s: InteractionState, event: InteractionEvent) -> bool {
    match event {
        InteractionEvent::Planned { .. } => s.phase == InteractionPhase::AwaitPlan,
        InteractionEvent::Claimed { .. } => s.phase == InteractionPhase::AwaitClaim,
        InteractionEvent::Reread { .. } => s.phase == InteractionPhase::AwaitReread,
        InteractionEvent::RecordsEnsured => s.phase == InteractionPhase::AwaitRecords,
        InteractionEvent::MarkerFound { .. } => s.phase == InteractionPhase::AwaitMarker || s.phase
            == InteractionPhase::AwaitMarkerAfterFailure,
        InteractionEvent::Sent { .. } => s.phase == InteractionPhase::AwaitSend,
        InteractionEvent::Completed => s.phase == InteractionPhase::AwaitComplete,
        InteractionEvent::MarkedAmbiguous => s.phase == InteractionPhase::AwaitAmbiguous,
    }
}

/// Learning the effect's state and response: its recorded interaction id, or
/// an error without one.
pub open spec fn spec_learn_effect(
    s: InteractionState,
    state: WorkflowEffectState,
    response: Option<JsonValue>,
    r: (InteractionState, InteractionAction),
) -> bool {
    match response {
        Some(v) => match spec_get_str(v, "interaction_id"@) {
            Some(id) => r.0.phase == InteractionPhase::AwaitRecords && r.0.effect_state == state && (
            r.0.interaction_id matches Some(x) && x@ == id) && r.1 == InteractionAction::EnsureRecords,
            None => r == (
                InteractionState { phase: InteractionPhase::Done, ..s },
                InteractionAction::Fail(LarkInteractionError::MissingInteraction),
            ),
        },
        None => r == (
            InteractionState { phase: InteractionPhase::Done, ..s },
            InteractionAction::Fail(LarkInteractionError::MissingInteraction),
        ),
    }
}

/// `r` finishes with the operator outcome for the interaction and `reason`.
pub open spec fn spec_needs_operator(s: InteractionState, reason: Seq<char>, r: (InteractionState, InteractionAction)) -> bool {
    r.0 == InteractionState { phase: InteractionPhase::Done, ..s } && (r.1 matches InteractionAction::Finish(
        HumanInteractionOutcome::NeedsOperator { interaction_id, reason: x },
    ) && Some(interaction_id@) == (match s.interaction_id {
        Some(i) => Some(i@),
        None => None::<Seq<char>>,
    }) && x@ == reason)
}

/// `r` is the step of requesting an interaction: a planned effect is claimed
/// (a lost claim is a concurrent mutation) and read back (a missing one is an
/// error); the interaction id the effect records is required; the records
/// are ensured; an applied effect only refreshes, one neither applied nor
/// dispatched needs reconciliation; a dispatched one looks for an already
/// sent request before sending, records a found or sent request and then
/// refreshes, and after a failed send with no request found marks the effect
/// ambiguous and needs an operator.
pub open spec fn spec_interaction_step(
    s: InteractionState,
    event: InteractionEvent,
    r: (InteractionState, InteractionAction),
) -> bool {
    match event {
        InteractionEvent::Planned { state, response } => if state == WorkflowEffectState::Planned {
            r == (InteractionState { phase: InteractionPhase::AwaitClaim, ..s }, InteractionAction::Claim)
        } else {
            spec_learn_effect(s, state, response, r)
        },
        InteractionEvent::Claimed { updated } => if updated {
            r == (InteractionState { phase: InteractionPhase::AwaitReread, ..s }, InteractionAction::ReadEffect)
        } else {
            r == (
                InteractionState { phase: InteractionPhase::Done, ..s },
                InteractionAction::Fail(LarkInteractionError::ConcurrentMutation),
            )
        },
        InteractionEvent::Reread { effect } => match effect {
            None => r == (
                InteractionState { phase: InteractionPhase::Done, ..s },
                InteractionAction::Fail(LarkInteractionError::MissingEffect),
            ),
            Some((state, response)) => spec_learn_effect(s, state, response, r),
        },
        InteractionEvent::RecordsEnsured => if s.effect_state == WorkflowEffectState::Applied {
            r == (InteractionState { phase: InteractionPhase::Done, ..s }, InteractionAction::Refresh)
        } else if s.effect_state == WorkflowEffectState::Dispatched {
            r == (InteractionState { phase: InteractionPhase::AwaitMarker, ..s }, InteractionAction::FindMarker)
        } else {
            spec_needs_operator(s, "lark_send_requires_reconciliation"@, r)
        },
        InteractionEvent::MarkerFound { message_id } => match message_id {
            Some(m) => r == (
                InteractionState { phase: InteractionPhase::AwaitComplete, ..s },
                InteractionAction::CompleteSend { message_id: m },
            ),
            None => if s.phase == InteractionPhase::AwaitMarker {
                r == (InteractionState { phase: InteractionPhase::AwaitSend, ..s }, InteractionAction::Send)
            } else {
                r == (
                    InteractionState { phase: InteractionPhase::AwaitAmbiguous, ..s },
                    InteractionAction::MarkAmbiguous,
                )
            },
        },
        InteractionEvent::Sent { message_id } => match message_id {
            Some(m) => r == (
                InteractionState { phase: InteractionPhase::AwaitComplete, ..s },
                InteractionAction::CompleteSend { message_id: m },
            ),
            None => r == (
                InteractionState { phase: InteractionPhase::AwaitMarkerAfterFailure, ..s },
                InteractionAction::FindMarker,
            ),
        },
        InteractionEvent::Completed => r == (
            InteractionState { phase: InteractionPhase::Done, ..s },
            InteractionAction::Refresh,
        ),
        InteractionEvent::MarkedAmbiguous => spec_needs_operator(s, "lark_send_ambiguous"@, r),
    }
}

pub fn interaction_start() -> (r: InteractionState)
    ensures
        r == spec_interaction_start(),
{
    InteractionState { phase: InteractionPhase::AwaitPlan, effect_state: WorkflowEffectState::Planned, interaction_id: None }
}

fn learn_effect(s: InteractionState, state: WorkflowEffectState, response: Option<JsonValue>) -> (r: (
    InteractionState,
    InteractionAction,
))
    ensures
        spec_learn_effect(s, state, response, r),
{
    match effect_interaction_id(&response) {
        Ok(id) => (
            InteractionState { phase: InteractionPhase::AwaitRecords, effect_state: state, interaction_id: Some(id) },
            InteractionAction::EnsureRecords,
        ),
        Err(e) => (InteractionState { phase: InteractionPhase::Done, ..s }, InteractionAction::Fail(e)),
    }
}

fn needs_operator(s: InteractionState, reason: &str) -> (r: (InteractionState, InteractionAction))
    requires
        s.interaction_id is Some,
    ensures
        spec_needs_operator(s, reason@, r),
{
    let id = match &s.interaction_id {
        Some(i) => owned(i.as_str()),
        None => owned(""),
    };
    (
        InteractionState { phase: InteractionPhase::Done, ..s },
        InteractionAction::Finish(HumanInteractionOutcome::NeedsOperator { interaction_id: id, reason: owned(reason) }),
    )
}

/// Advances the request of an interaction by one event.
pub fn interaction_step(s: InteractionState, event: InteractionEvent) -> (r: (InteractionState, InteractionAction))
    requires
        spec_interaction_fits(s, event),
        s.phase != InteractionPhase::AwaitPlan && s.phase != InteractionPhase::AwaitClaim
            && s.phase != InteractionPhase::AwaitReread ==> s.interaction_id is Some,
    ensures
        spec_interaction_step(s, event, r),
{
    match event {
        InteractionEvent::Planned { state, response } => if state == WorkflowEffectState::Planned {
            (InteractionState { phase: InteractionPhase::AwaitClaim, ..s }, InteractionAction::Claim)
        } else {
            learn_effect(s, state, response)
        },
        InteractionEvent::Claimed { updated } => if updated {
            (InteractionState { phase: InteractionPhase::AwaitReread, ..s }, InteractionAction::ReadEffect)
        } else {
            (
                InteractionState { phase: InteractionPhase::Done, ..s },
                InteractionAction::Fail(LarkInteractionError::ConcurrentMutation),
            )
        },
        InteractionEvent::Reread { effect } => match effect {
            None => (
                InteractionState { phase: InteractionPhase::Done, ..s },
                InteractionAction::Fail(LarkInteractionError::MissingEffect),
            ),
            Some((state, response)) => learn_effect(s, state, response),
        },
        InteractionEvent::RecordsEnsured => match send_phase(s.effect_state) {
            SendPhase::Refresh => (InteractionState { phase: InteractionPhase::Done, ..s }, InteractionAction::Refresh),
            SendPhase::Send => (
                InteractionState { phase: InteractionPhase::AwaitMarker, ..s },
                InteractionAction::FindMarker,
            ),
            SendPhase::NeedsOperator => needs_operator(s, "lark_send_requires_reconciliation"),
        },
        InteractionEvent::MarkerFound { message_id } => match message_id {
            Some(m) => (
                InteractionState { phase: InteractionPhase::AwaitComplete, ..s },
                InteractionAction::CompleteSend { message_id: m },
            ),
            None => if s.phase == InteractionPhase::AwaitMarker {
                (InteractionState { phase: InteractionPhase::AwaitSend, ..s }, InteractionAction::Send)
            } else {
                (InteractionState { phase: InteractionPhase::AwaitAmbiguous, ..s }, InteractionAction::MarkAmbiguous)
            },
        },
        InteractionEvent::Sent { message_id } => match message_id {
            Some(m) => (
                InteractionState { phase: InteractionPhase::AwaitComplete, ..s },
                InteractionAction::CompleteSend { message_id: m },
            ),
            None => (
                InteractionState { phase: InteractionPhase::AwaitMarkerAfterFailure, ..s },
                InteractionAction::FindMarker,
            ),
        },
        InteractionEvent::Completed => (InteractionState { phase: InteractionPhase::Done, ..s }, InteractionAction::Refresh),
        InteractionEvent::MarkedAmbiguous => needs_operator(s, "lark_send_ambiguous"),
    }
}

} // verus!
