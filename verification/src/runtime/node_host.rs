//! Values exchanged with the host that runs workflow node threads.
use vstd::prelude::*;

use crate::json::JsonValue;

verus! {

/// The run and node a materialized thread belongs to.
#[derive(Clone, Debug, PartialEq, Eq)]
pub struct WorkflowNodeBinding {
    pub run_id: String,
    pub node_id: String,
}

/// Ask the host to create (or find) the thread of one node.
#[derive(Debug)]
pub struct MaterializeNodeRequest {
    pub binding: WorkflowNodeBinding,
    /// The node's spec, as its JSON value.
    pub spec: JsonValue,
}

/// What the host did with a prepared turn.
#[derive(Clone, Copy, Debug, PartialEq, Eq, Structural)]
pub enum PreparedTurnDisposition {
    Queued,
    AlreadyQueued,
    BoundaryAlreadyPersisted,
}

/// A turn accepted by the host.
#[derive(Clone, Debug, PartialEq, Eq)]
pub struct SubmittedTurn {
    pub turn_id: String,
    pub disposition: PreparedTurnDisposition,
}

/// How a finished node turn ended.
#[derive(Clone, Copy, Debug, PartialEq, Eq, Structural)]
pub enum NodeTurnStatus {
    Completed,
    Interrupted,
    Failed,
}

/// The terminal result of one node turn.
#[derive(Clone, Debug, PartialEq, Eq)]
pub struct NodeTurnResult {
    pub turn_id: String,
    pub status: NodeTurnStatus,
    pub error: Option<String>,
}

/// What the host found for a prepared turn after a restart.
#[derive(Clone, Debug, PartialEq, Eq)]
pub enum RecoveredTurnState {
    NoBoundary,
    Unterminated,
    Terminal(NodeTurnResult),
    Conflict,
}

#[derive(Clone, Copy, Debug, PartialEq, Eq, Structural)]
pub enum NodeRuntimeStatus {
    Running,
    Idle,
    Shutdown,
}

#[derive(Clone, Copy, Debug, PartialEq, Eq, Structural)]
pub enum RuntimeShutdown {
    Graceful,
    InterruptThenShutdown,
}

#[derive(Clone, Copy, Debug, PartialEq, Eq, Structural)]
pub enum NodeHostBindError {
    AlreadyBound,
}

#[derive(Clone, Debug, PartialEq, Eq)]
pub enum NodeHostError {
    RuntimeUnavailable,
    ThreadNotFound,
    InvalidRequest(String),
    Host(String),
}

/// Holds at most one host; binding a second one is refused.
pub struct NodeHostSlot {
    bound: bool,
}

impl NodeHostSlot {
    pub fn new() -> (r: Self)
        ensures
            !r.is_bound(),
    {
        NodeHostSlot { bound: false }
    }

    pub closed spec fn is_bound(&self) -> bool {
        self.bound
    }

    /// Records that a host was bound; the second bind fails and changes nothing.
    pub fn bind(&mut self) -> (r: Result<(), NodeHostBindError>)
        ensures
            old(self).is_bound() ==> r == Err::<(), NodeHostBindError>(NodeHostBindError::AlreadyBound)
                && final(self).is_bound(),
            !old(self).is_bound() ==> r is Ok && final(self).is_bound(),
    {
        if self.bound {
            Err(NodeHostBindError::AlreadyBound)
        } else {
            self.bound = true;
            Ok(())
        }
    }

    /// The host is available only once bound.
    pub fn get(&self) -> (r: Result<(), NodeHostError>)
        ensures
            r is Ok <==> self.is_bound(),
            !self.is_bound() ==> r == Err::<(), NodeHostError>(NodeHostError::RuntimeUnavailable),
    {
        if self.bound {
            Ok(())
        } else {
            Err(NodeHostError::RuntimeUnavailable)
        }
    }
}

} // verus!
