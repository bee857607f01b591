//! When a run waiting on nodes may wake, stated over the listed nodes.
use vstd::prelude::*;

use crate::runtime::graph::WorkflowNodeRecord;
use crate::runtime::graph::WorkflowNodeStatus;
use crate::runtime::recovery::spec_find_node;
use crate::runtime::recovery::spec_wake_ready;
use crate::runtime::recovery::WakeCondition;

verus! {

/// `p` is the first node recorded with id `id`.
pub open spec fn spec_first_named(nodes: Seq<WorkflowNodeRecord>, id: Seq<char>, p: int) -> bool {
    &&& 0 <= p < nodes.len()
    &&& nodes[p].node_id@ == id
    &&& forall|q: int| 0 <= q < p ==> (#[trigger] nodes[q]).node_id@ != id
}

/// The node has finished: it succeeded, failed or was cancelled.
pub open spec fn spec_node_finished(s: WorkflowNodeStatus) -> bool {
    s == WorkflowNodeStatus::Succeeded || s == WorkflowNodeStatus::Failed || s == WorkflowNodeStatus::Cancelled
}

proof fn lemma_find_first(nodes: Seq<WorkflowNodeRecord>, id: Seq<char>, p: int, i: int)
    requires
        spec_first_named(nodes, id, p),
        0 <= i <= p,
    ensures
        spec_find_node(nodes, id, i) == Some(nodes[p]),
    decreases p - i,
{
    if i < p {
        assert(nodes[i].node_id@ != id);
        lemma_find_first(nodes, id, p, i + 1);
    }
}

proof fn lemma_find_absent(nodes: Seq<WorkflowNodeRecord>, id: Seq<char>, i: int)
    requires
        0 <= i,
        forall|q: int| 0 <= q < nodes.len() ==> (#[trigger] nodes[q]).node_id@ != id,
    ensures
        spec_find_node(nodes, id, i) is None,
    decreases nodes.len() - i,
{
    if i < nodes.len() {
        assert(nodes[i].node_id@ != id);
        lemma_find_absent(nodes, id, i + 1);
    }
}

/// No node is recorded with id `id`.
pub open spec fn spec_unnamed(nodes: Seq<WorkflowNodeRecord>, id: Seq<char>) -> bool {
    forall|q: int| 0 <= q < nodes.len() ==> (#[trigger] nodes[q]).node_id@ != id
}

/// Every listed node is known and has finished.
pub open spec fn spec_all_listed_finished(ids: Seq<String>, nodes: Seq<WorkflowNodeRecord>) -> bool {
    forall|k: int| 0 <= k < ids.len() ==> #[trigger] spec_known_finished(nodes, ids[k]@)
}

/// The first node recorded with id `id` has finished.
pub open spec fn spec_known_finished(nodes: Seq<WorkflowNodeRecord>, id: Seq<char>) -> bool {
    exists|p: int| spec_first_named(nodes, id, p) && spec_node_finished(nodes[p].status)
}

proof fn lemma_all_finished(ids: Vec<String>, cancellation_requested: bool, nodes: Seq<WorkflowNodeRecord>, now_ms: i64)
    requires
        spec_all_listed_finished(ids@, nodes),
    ensures
        spec_wake_ready(Some(WakeCondition::NodesTerminal(ids)), cancellation_requested, nodes, now_ms) == Some(true),
{
    assert(ids@.len() == ids.len());
    assert forall|k: int| 0 <= k < ids.len() implies #[trigger] crate::runtime::recovery::spec_node_done(
        nodes,
        ids@[k]@,
    ) by {
        assert(spec_known_finished(nodes, ids@[k]@));
        let p = choose|p: int| spec_first_named(nodes, ids@[k]@, p) && spec_node_finished(nodes[p].status);
        lemma_find_first(nodes, ids@[k]@, p, 0);
    }
    let w = WakeCondition::NodesTerminal(ids);
    assert(w matches WakeCondition::NodesTerminal(v) && v == ids);
}

proof fn lemma_not_all(ids: Vec<String>, nodes: Seq<WorkflowNodeRecord>, k: int)
    requires
        0 <= k < ids.len(),
        !crate::runtime::recovery::spec_node_done(nodes, ids@[k]@),
    ensures
        !(forall|j: int| 0 <= j < ids.len() ==> #[trigger] crate::runtime::recovery::spec_node_done(nodes, ids@[j]@)),
{
}

proof fn lemma_one_open(ids: Vec<String>, cancellation_requested: bool, nodes: Seq<WorkflowNodeRecord>, now_ms: i64, k: int, p: int)
    requires
        0 <= k < ids.len(),
        spec_first_named(nodes, ids@[k]@, p),
        !spec_node_finished(nodes[p].status),
    ensures
        spec_wake_ready(Some(WakeCondition::NodesTerminal(ids)), cancellation_requested, nodes, now_ms) == Some(false),
{
    lemma_find_first(nodes, ids@[k]@, p, 0);
    assert(!crate::runtime::recovery::spec_node_done(nodes, ids@[k]@));
    lemma_not_all(ids, nodes, k);
    let w = WakeCondition::NodesTerminal(ids);
    assert(w matches WakeCondition::NodesTerminal(v) && v == ids);
    assert(spec_wake_ready(Some(w), cancellation_requested, nodes, now_ms) is Some);
    assert(spec_wake_ready(Some(w), cancellation_requested, nodes, now_ms) != Some(true));
}

proof fn lemma_one_unknown(ids: Vec<String>, cancellation_requested: bool, nodes: Seq<WorkflowNodeRecord>, now_ms: i64, k: int)
    requires
        0 <= k < ids.len(),
        spec_unnamed(nodes, ids@[k]@),
    ensures
        spec_wake_ready(Some(WakeCondition::NodesTerminal(ids)), cancellation_requested, nodes, now_ms) == Some(false),
{
    lemma_find_absent(nodes, ids@[k]@, 0);
    assert(!crate::runtime::recovery::spec_node_done(nodes, ids@[k]@));
    lemma_not_all(ids, nodes, k);
    let w = WakeCondition::NodesTerminal(ids);
    assert(w matches WakeCondition::NodesTerminal(v) && v == ids);
    assert(spec_wake_ready(Some(w), cancellation_requested, nodes, now_ms) is Some);
}

/// A run waiting on several nodes wakes exactly when every listed node is
/// known and has finished: one listed node that is still open, or that no
/// record names, keeps it waiting.
pub proof fn law_nodes_terminal_wakes_when_all_finished(
    ids: Vec<String>,
    cancellation_requested: bool,
    nodes: Seq<WorkflowNodeRecord>,
    now_ms: i64,
)
    ensures
        spec_all_listed_finished(ids@, nodes) ==> spec_wake_ready(Some(WakeCondition::NodesTerminal(ids)), cancellation_requested, nodes, now_ms)
            == Some(true),
        forall|k: int, p: int|
            0 <= k < ids.len() && #[trigger] spec_first_named(nodes, ids@[k]@, p) && !spec_node_finished(
                nodes[p].status,
            ) ==> spec_wake_ready(Some(WakeCondition::NodesTerminal(ids)), cancellation_requested, nodes, now_ms)
            == Some(false),
        forall|k: int|
            0 <= k < ids.len() && #[trigger] spec_unnamed(nodes, ids@[k]@) ==> spec_wake_ready(
                Some(WakeCondition::NodesTerminal(ids)),
                cancellation_requested,
                nodes,
                now_ms,
            ) == Some(false),
{
    if spec_all_listed_finished(ids@, nodes) {
        lemma_all_finished(ids, cancellation_requested, nodes, now_ms);
    }
    assert forall|k: int, p: int|
        0 <= k < ids.len() && #[trigger] spec_first_named(nodes, ids@[k]@, p) && !spec_node_finished(
            nodes[p].status,
        ) implies spec_wake_ready(Some(WakeCondition::NodesTerminal(ids)), cancellation_requested, nodes, now_ms)
        == Some(false) by {
        lemma_one_open(ids, cancellation_requested, nodes, now_ms, k, p);
    }
    assert forall|k: int|
        0 <= k < ids.len() && #[trigger] spec_unnamed(nodes, ids@[k]@) implies spec_wake_ready(
            Some(WakeCondition::NodesTerminal(ids)),
            cancellation_requested,
            nodes,
            now_ms,
        ) == Some(false) by {
        lemma_one_unknown(ids, cancellation_requested, nodes, now_ms, k);
    }
}

/// A run waiting on one node wakes exactly when that node is known and has
/// finished; a run waiting for a human never wakes on its own, and one
/// waiting for cancellation wakes exactly when it was requested.
pub proof fn law_single_waits(
    id: String,
    cancellation_requested: bool,
    nodes: Seq<WorkflowNodeRecord>,
    now_ms: i64,
    p: int,
)
    ensures
        spec_first_named(nodes, id@, p) ==> spec_wake_ready(
            Some(WakeCondition::NodeTerminal(id)),
            cancellation_requested,
            nodes,
            now_ms,
        ) == Some(spec_node_finished(nodes[p].status)),
        spec_unnamed(nodes, id@) ==> spec_wake_ready(
            Some(WakeCondition::NodeTerminal(id)),
            cancellation_requested,
            nodes,
            now_ms,
        ) == Some(false),
        spec_wake_ready(Some(WakeCondition::HumanInteraction(id)), cancellation_requested, nodes, now_ms) == Some(
            false,
        ),
        spec_wake_ready(Some(WakeCondition::Cancellation), cancellation_requested, nodes, now_ms) == Some(
            cancellation_requested,
        ),
{
    if spec_first_named(nodes, id@, p) {
        lemma_find_first(nodes, id@, p, 0);
    }
    if spec_unnamed(nodes, id@) {
        lemma_find_absent(nodes, id@, 0);
    }
}

} // verus!
