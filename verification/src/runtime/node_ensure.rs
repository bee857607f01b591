//! Ensuring a node, as a state machine: the caller plans the `node.ensure`
//! effect, lists, resolves, creates and materializes nodes, and updates the
//! effect; the order of those calls and every decision is taken here.
use vstd::prelude::*;

use crate::json::spec_get;
use crate::json::spec_member_from;
use crate::json::spec_get_str;
use crate::json::JsonValue;
use crate::runtime::node_client::applied_node_id;
use crate::runtime::node_client::NodeError;
use crate::runtime::records::WorkflowEffectState;
use crate::text::owned;

verus! {

#[derive(Clone, Copy, Debug, PartialEq, Eq, Structural)]
pub enum EnsurePhase {
    /// Waiting for the planned `node.ensure` effect.
    AwaitPlan,
    /// Waiting for the run's nodes, searched by the spec's key.
    AwaitListing,
    /// Waiting for the host to resolve the spec.
    AwaitResolve,
    /// Waiting for the new node's row.
    AwaitCreate,
    /// Waiting for the node's thread to be materialized.
    AwaitMaterialize,
    /// Waiting for the fenced `Planned → Applied` update of the effect.
    AwaitApply,
    /// Waiting to read the effect back after a lost update.
    AwaitReconcile,
    Done,
}

/// What the caller found when it performed the last action.
#[derive(Debug, PartialEq)]
pub enum EnsureEvent {
    Planned { state: WorkflowEffectState, response: Option<JsonValue> },
    Listed { found: bool },
    Resolved,
    Created,
    Materialized,
    Applied { updated: bool },
    EffectRead { current: Option<WorkflowEffectState> },
}

/// What the caller does next.
#[derive(Clone, Debug, PartialEq, Eq)]
pub enum EnsureAction {
    /// The effect was applied before: return the node with this id.
    GetNode { node_id: String },
    /// List the run's nodes and look for the spec's key.
    ListNodes,
    /// Ask the host to resolve the spec.
    ResolveSpec,
    /// Create the node as `Ready` with the resolved spec.
    CreateNode,
    /// Materialize the found or created node's thread.
    Materialize,
    /// Update the effect from `Planned` to `Applied`, with `applied_response`
    /// of the node and its thread as response.
    MarkApplied,
    /// Read the effect back.
    ReadEffect,
    /// Return the handle of the materialized node.
    Finish,
    Fail(NodeError),
}

pub open spec fn spec_ensure_fits(phase: EnsurePhase, event: EnsureEvent) -> bool {
    match event {
        EnsureEvent::Planned { .. } => phase == EnsurePhase::AwaitPlan,
        EnsureEvent::Listed { .. } => phase == EnsurePhase::AwaitListing,
        EnsureEvent::Resolved => phase == EnsurePhase::AwaitResolve,
        EnsureEvent::Created => phase == EnsurePhase::AwaitCreate,
        EnsureEvent::Materialized => phase == EnsurePhase::AwaitMaterialize,
        EnsureEvent::Applied { .. } => phase == EnsurePhase::AwaitApply,
        EnsureEvent::EffectRead { .. } => phase == EnsurePhase::AwaitReconcile,
    }
}

/// `r` is the step of ensuring a node from `phase` on `event`: an applied
/// effect returns its recorded node (an effect without one is invalid);
/// otherwise an existing node of the key is materialized, or a new one is
/// resolved, created and materialized; the effect is then marked applied,
/// and a lost update stands only if the effect was applied meanwhile.
pub open spec fn spec_ensure_step(phase: EnsurePhase, event: EnsureEvent, r: (EnsurePhase, EnsureAction)) -> bool {
    match event {
        EnsureEvent::Planned { state, response } => if state == WorkflowEffectState::Applied {
            r.0 == EnsurePhase::Done && match response {
                Some(v) => match spec_get_str(v, "node_id"@) {
                    Some(id) => r.1 matches EnsureAction::GetNode { node_id } && node_id@ == id,
                    None => r.1 matches EnsureAction::Fail(NodeError::InvalidState(_)),
                },
                None => r.1 matches EnsureAction::Fail(NodeError::InvalidState(_)),
            }
        } else {
            r == (EnsurePhase::AwaitListing, EnsureAction::ListNodes)
        },
        EnsureEvent::Listed { found } => r == if found {
            (EnsurePhase::AwaitMaterialize, EnsureAction::Materialize)
        } else {
            (EnsurePhase::AwaitResolve, EnsureAction::ResolveSpec)
        },
        EnsureEvent::Resolved => r == (EnsurePhase::AwaitCreate, EnsureAction::CreateNode),
        EnsureEvent::Created => r == (EnsurePhase::AwaitMaterialize, EnsureAction::Materialize),
        EnsureEvent::Materialized => r == (EnsurePhase::AwaitApply, EnsureAction::MarkApplied),
        EnsureEvent::Applied { updated } => r == if updated {
            (EnsurePhase::Done, EnsureAction::Finish)
        } else {
            (EnsurePhase::AwaitReconcile, EnsureAction::ReadEffect)
        },
        EnsureEvent::EffectRead { current } => if current == Some(WorkflowEffectState::Applied) {
            r == (EnsurePhase::Done, EnsureAction::Finish)
        } else {
            r.0 == EnsurePhase::Done && (r.1 matches EnsureAction::Fail(NodeError::InvalidState(m)) && m@
                == "node ensure effect lost its planned state"@)
        },
    }
}

/// Advances the ensuring of a node by one event.
pub fn ensure_step(phase: EnsurePhase, event: EnsureEvent) -> (r: (EnsurePhase, EnsureAction))
    requires
        spec_ensure_fits(phase, event),
    ensures
        spec_ensure_step(phase, event, r),
{
    match event {
        EnsureEvent::Planned { state, response } => if state == WorkflowEffectState::Applied {
            match applied_node_id(&response) {
                Ok(node_id) => (EnsurePhase::Done, EnsureAction::GetNode { node_id }),
                Err(e) => (EnsurePhase::Done, EnsureAction::Fail(e)),
            }
        } else {
            (EnsurePhase::AwaitListing, EnsureAction::ListNodes)
        },
        EnsureEvent::Listed { found } => if found {
            (EnsurePhase::AwaitMaterialize, EnsureAction::Materialize)
        } else {
            (EnsurePhase::AwaitResolve, EnsureAction::ResolveSpec)
        },
        EnsureEvent::Resolved => (EnsurePhase::AwaitCreate, EnsureAction::CreateNode),
        EnsureEvent::Created => (EnsurePhase::AwaitMaterialize, EnsureAction::Materialize),
        EnsureEvent::Materialized => (EnsurePhase::AwaitApply, EnsureAction::MarkApplied),
        EnsureEvent::Applied { updated } => if updated {
            (EnsurePhase::Done, EnsureAction::Finish)
        } else {
            (EnsurePhase::AwaitReconcile, EnsureAction::ReadEffect)
        },
        EnsureEvent::EffectRead { current } => if current == Some(WorkflowEffectState::Applied) {
            (EnsurePhase::Done, EnsureAction::Finish)
        } else {
            (
                EnsurePhase::Done,
                EnsureAction::Fail(NodeError::InvalidState(owned("node ensure effect lost its planned state"))),
            )
        },
    }
}

/// The response recorded when an ensure is applied: the node's id and its
/// thread's id (`null` without one).
pub fn applied_response(node_id: &str, thread_id: &Option<String>) -> (r: JsonValue)
    ensures
        r matches JsonValue::Object(members) && members@.len() == 2,
        spec_get_str(r, "node_id"@) == Some(node_id@),
        thread_id matches Some(t) ==> spec_get_str(r, "thread_id"@) == Some(t@),
        thread_id is None ==> spec_get(r, "thread_id"@) == Some(JsonValue::Null),
{
    proof {
        reveal_strlit("node_id");
        reveal_strlit("thread_id");
    }
    let thread = match thread_id {
        Some(t) => JsonValue::Str(t.clone()),
        None => JsonValue::Null,
    };
    let mut members: Vec<(String, JsonValue)> = Vec::new();
    members.push((owned("node_id"), JsonValue::Str(owned(node_id))));
    members.push((owned("thread_id"), thread));
    proof {
        assert(members@[0].0@ == "node_id"@);
        assert(members@[1].0@ == "thread_id"@);
        assert("node_id"@[0] != "thread_id"@[0]);
        assert(members@[0].0@ != "thread_id"@);
        assert(spec_member_from(members@, "thread_id"@, 0) == spec_member_from(members@, "thread_id"@, 1));
        assert(spec_member_from(members@, "thread_id"@, 2) is None);
    }
    JsonValue::Object(members)
}

/// Ensuring a node again under an effect that was applied returns the node
/// it recorded: the response of `applied_response` leads the next ensure
/// straight to that node.
pub proof fn law_ensure_again_returns_node(
    node_id: Seq<char>,
    response: JsonValue,
    r: (EnsurePhase, EnsureAction),
)
    requires
        spec_get_str(response, "node_id"@) == Some(node_id),
        spec_ensure_step(
            EnsurePhase::AwaitPlan,
            EnsureEvent::Planned { state: WorkflowEffectState::Applied, response: Some(response) },
            r,
        ),
    ensures
        r.0 == EnsurePhase::Done,
        r.1 matches EnsureAction::GetNode { node_id: n } && n@ == node_id,
{
}

} // verus!
