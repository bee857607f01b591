//! The decisions behind typed node effects: ensuring a node exists with a
//! thread, adding a dependency edge, and retrying a node's turn.
use vstd::prelude::*;

use crate::json::spec_get_str;
use crate::json::JsonValue;
use crate::runtime::graph::WorkflowDependencyRecord;
use crate::runtime::records::WorkflowEffectState;
use crate::runtime::retry::spec_decide;
use crate::runtime::retry::spec_deterministic_unit;
use crate::runtime::retry::RetryClassification;
use crate::runtime::retry::RetryDecision;
use crate::runtime::retry::RetryPlanner;
use crate::runtime::retry::RetryPolicy;
use crate::runtime::retry::RetrySession;
use crate::text::owned;
use crate::text::push_str;
use crate::text::str_eq;

verus! {

#[derive(Clone, Debug, PartialEq, Eq)]
pub enum NodeError {
    NotFound,
    SpecificationConflict { node_key: String },
    InvalidState(String),
    InvalidThreadId(String),
    Identifier(String),
    Store(String),
    Serialization(String),
    Host(String),
    Injected(String),
    InvalidClock,
    RetryExhausted,
    RetryNotReady { retry_at_ms: i64 },
}

/// How a failed node affects the rest of its run.
#[derive(Clone, Copy, Debug, PartialEq, Eq, Structural)]
pub enum FailurePolicy {
    FailFast,
    ContinueIndependentBranches,
    SkipDependents,
}

/// When a downstream node may start.
#[derive(Clone, Copy, Debug, PartialEq, Eq, Structural)]
pub enum DependencyPolicy {
    AllSucceeded,
    AllTerminal,
    /// At least this many (a positive count) upstream nodes succeeded.
    AtLeast(usize),
}

pub open spec fn spec_failure_policy_name(policy: FailurePolicy) -> Seq<char> {
    match policy {
        FailurePolicy::FailFast => "fail_fast"@,
        FailurePolicy::ContinueIndependentBranches => "continue_independent"@,
        FailurePolicy::SkipDependents => "skip_dependents"@,
    }
}

/// The persisted name of a failure policy.
pub fn failure_policy_name(policy: FailurePolicy) -> (r: &'static str)
    ensures
        r@ == spec_failure_policy_name(policy),
{
    match policy {
        FailurePolicy::FailFast => "fail_fast",
        FailurePolicy::ContinueIndependentBranches => "continue_independent",
        FailurePolicy::SkipDependents => "skip_dependents",
    }
}

/// The persisted name and threshold of a dependency policy; a threshold
/// beyond `u32` is refused.
pub fn dependency_policy_parts(policy: DependencyPolicy) -> (r: Result<(&'static str, Option<u32>), NodeError>)
    ensures
        match policy {
            DependencyPolicy::AllSucceeded => r matches Ok((n, None)) && n@ == "all_succeeded"@,
            DependencyPolicy::AllTerminal => r matches Ok((n, None)) && n@ == "all_terminal"@,
            DependencyPolicy::AtLeast(count) => if count <= u32::MAX {
                r matches Ok((n, Some(c))) && n@ == "at_least"@ && c == count
            } else {
                r matches Err(NodeError::InvalidState(_))
            },
        },
{
    match policy {
        DependencyPolicy::AllSucceeded => Ok(("all_succeeded", None)),
        DependencyPolicy::AllTerminal => Ok(("all_terminal", None)),
        DependencyPolicy::AtLeast(count) => {
            if count as u64 > u32::MAX as u64 {
                Err(NodeError::InvalidState(owned("dependency threshold exceeds u32")))
            } else {
                Ok(("at_least", Some(count as u32)))
            }
        },
    }
}

/// The `node_id` recorded by an applied ensure effect.
pub fn applied_node_id(response: &Option<JsonValue>) -> (r: Result<String, NodeError>)
    ensures
        match response {
            Some(v) => match spec_get_str(*v, "node_id"@) {
                Some(id) => r matches Ok(x) && x@ == id,
                None => r matches Err(NodeError::InvalidState(_)),
            },
            None => r matches Err(NodeError::InvalidState(_)),
        },
{
    proof {
        reveal_strlit("node_id");
    }
    match response {
        Some(v) => match v.get_str("node_id") {
            Some(id) => Ok(owned(id)),
            None => Err(NodeError::InvalidState(owned("node effect has no node_id"))),
        },
        None => Err(NodeError::InvalidState(owned("node effect has no node_id"))),
    }
}

/// The position of the first node with `node_key`, if any.
pub fn find_node_by_key(node_keys: &Vec<String>, node_key: &str) -> (r: Option<usize>)
    ensures
        match r {
            Some(i) => i < node_keys.len() && node_keys@[i as int]@ == node_key@ && forall|j: int|
                0 <= j < i ==> #[trigger] node_keys@[j]@ != node_key@,
            None => forall|j: int| 0 <= j < node_keys.len() ==> #[trigger] node_keys@[j]@ != node_key@,
        },
{
    let mut i: usize = 0;
    while i < node_keys.len()
        invariant
            i <= node_keys.len(),
            forall|j: int| 0 <= j < i ==> #[trigger] node_keys@[j]@ != node_key@,
        decreases node_keys.len() - i,
    {
        if str_eq(node_keys[i].as_str(), node_key) {
            return Some(i);
        }
        i += 1;
    }
    None
}

/// How an unbound node gets its thread.
#[derive(Clone, Debug, PartialEq, Eq)]
pub enum ThreadChoice {
    /// Ask the host to create one.
    Create,
    /// Bind the one thread that already exists for the node.
    Reuse(String),
}

/// Chooses from the threads the host already has for an unbound node: none
/// means create one, one is reused, more is an inconsistency.
pub fn thread_choice(existing: &Vec<String>) -> (r: Result<ThreadChoice, NodeError>)
    ensures
        existing.len() == 0 ==> r == Ok::<ThreadChoice, NodeError>(ThreadChoice::Create),
        existing.len() == 1 ==> (r matches Ok(ThreadChoice::Reuse(t)) && t@ == existing@[0]@),
        existing.len() > 1 ==> r matches Err(NodeError::InvalidState(_)),
{
    if existing.len() == 0 {
        Ok(ThreadChoice::Create)
    } else if existing.len() == 1 {
        Ok(ThreadChoice::Reuse(owned(existing[0].as_str())))
    } else {
        Err(NodeError::InvalidState(owned("multiple persisted threads match an unbound workflow node")))
    }
}

/// After an apply that found the effect no longer planned, the ensure stands
/// only if the effect was applied meanwhile.
pub fn confirm_applied(current: Option<WorkflowEffectState>, what: &str) -> (r: Result<(), NodeError>)
    ensures
        r is Ok <==> current == Some(WorkflowEffectState::Applied),
{
    if current == Some(WorkflowEffectState::Applied) {
        Ok(())
    } else {
        let mut m = owned(what);
        push_str(&mut m, " lost its planned state");
        Err(NodeError::InvalidState(m))
    }
}

/// Whether exactly this edge is already persisted.
pub fn dependency_exists(
    dependencies: &Vec<WorkflowDependencyRecord>,
    downstream: &str,
    upstream: &str,
    policy: &str,
    at_least: Option<u32>,
) -> (r: bool)
    ensures
        r == exists|i: int| 0 <= i < dependencies.len() && {
            let d = #[trigger] dependencies@[i];
            d.node_id@ == downstream@ && d.depends_on_node_id@ == upstream@ && d.policy@ == policy@
                && d.at_least == at_least
        },
{
    let mut i: usize = 0;
    while i < dependencies.len()
        invariant
            i <= dependencies.len(),
            forall|j: int| 0 <= j < i ==> {
                let d = #[trigger] dependencies@[j];
                !(d.node_id@ == downstream@ && d.depends_on_node_id@ == upstream@ && d.policy@
                    == policy@ && d.at_least == at_least)
            },
        decreases dependencies.len() - i,
    {
        let d = &dependencies[i];
        if str_eq(d.node_id.as_str(), downstream) && str_eq(d.depends_on_node_id.as_str(), upstream)
            && str_eq(d.policy.as_str(), policy) && d.at_least == at_least {
            return true;
        }
        i += 1;
    }
    false
}

// ---------------------------------------------------------------- retry

/// Whether and where a failed node's turn is retried now: the policy decides
/// from the attempts so far (the last one seeds the jitter, `initial` when
/// there is none); a retry due later is refused until then.
pub fn retry_gate(
    policy: &RetryPolicy,
    attempt_ids: &Vec<String>,
    classification: RetryClassification,
    now_ms: i64,
    run_deadline_ms: Option<i64>,
) -> (r: Result<RetrySession, NodeError>)
    requires
        policy.maximum_attempts >= 1,
    ensures
        ({
            let completed = if attempt_ids.len() > u32::MAX {
                u32::MAX
            } else {
                attempt_ids.len() as u32
            };
            let seed = if attempt_ids.len() == 0 {
                "initial"@
            } else {
                attempt_ids@.last()@
            };
            match spec_decide(
                *policy,
                completed,
                classification,
                spec_deterministic_unit(vstd::utf8::encode_utf8(seed)),
                now_ms,
                run_deadline_ms,
            ) {
                RetryDecision::Fail => r == Err::<RetrySession, NodeError>(NodeError::RetryExhausted),
                RetryDecision::RetryAt { retry_at_ms, session } => if retry_at_ms > now_ms {
                    r == Err::<RetrySession, NodeError>(NodeError::RetryNotReady { retry_at_ms })
                } else {
                    r == Ok::<RetrySession, NodeError>(session)
                },
            }
        }),
{
    let completed: u32 = if attempt_ids.len() as u64 > u32::MAX as u64 {
        u32::MAX
    } else {
        attempt_ids.len() as u32
    };
    proof {
        reveal_strlit("initial");
    }
    let decision = if attempt_ids.len() == 0 {
        RetryPlanner::decide(policy, completed, classification, "initial", now_ms, run_deadline_ms)
    } else {
        let last = attempt_ids.len() - 1;
        RetryPlanner::decide(
            policy,
            completed,
            classification,
            attempt_ids[last].as_str(),
            now_ms,
            run_deadline_ms,
        )
    };
    match decision {
        RetryDecision::Fail => Err(NodeError::RetryExhausted),
        RetryDecision::RetryAt { retry_at_ms, session } => {
            if retry_at_ms > now_ms {
                Err(NodeError::RetryNotReady { retry_at_ms })
            } else {
                Ok(session)
            }
        },
    }
}

/// The effect key of a fresh-thread retry: the turn's key and `/fresh-thread`.
pub fn fresh_thread_effect(turn_effect: &str) -> (r: String)
    ensures
        r@ == turn_effect@ + "/fresh-thread"@,
{
    let mut s = owned(turn_effect);
    push_str(&mut s, "/fresh-thread");
    s
}

/// What the fresh-thread effect of a retry asks for.
#[derive(Clone, Debug, PartialEq, Eq)]
pub enum FreshThreadStep {
    /// The thread was already created: use it.
    Use(String),
    /// Create the thread now.
    Create,
}

/// Decides from the fresh-thread effect: an applied one names its thread, a
/// planned one creates it, any other needs reconciliation.
pub fn fresh_thread_step(state: WorkflowEffectState, response: &Option<JsonValue>) -> (r: Result<
    FreshThreadStep,
    NodeError,
>)
    ensures
        state == WorkflowEffectState::Applied ==> match response {
            Some(v) => match spec_get_str(*v, "thread_id"@) {
                Some(t) => r matches Ok(FreshThreadStep::Use(x)) && x@ == t,
                None => r matches Err(NodeError::InvalidState(_)),
            },
            None => r matches Err(NodeError::InvalidState(_)),
        },
        state == WorkflowEffectState::Planned ==> r == Ok::<FreshThreadStep, NodeError>(FreshThreadStep::Create),
        state != WorkflowEffectState::Applied && state != WorkflowEffectState::Planned ==> r matches Err(
            NodeError::InvalidState(_),
        ),
{
    proof {
        reveal_strlit("thread_id");
    }
    if state == WorkflowEffectState::Applied {
        match response {
            Some(v) => match v.get_str("thread_id") {
                Some(t) => Ok(FreshThreadStep::Use(owned(t))),
                None => Err(NodeError::InvalidState(owned("fresh-thread effect has no thread_id"))),
            },
            None => Err(NodeError::InvalidState(owned("fresh-thread effect has no thread_id"))),
        }
    } else if state == WorkflowEffectState::Planned {
        Ok(FreshThreadStep::Create)
    } else {
        Err(NodeError::InvalidState(owned("fresh-thread effect requires reconciliation")))
    }
}

} // verus!
