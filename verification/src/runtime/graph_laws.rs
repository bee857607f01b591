//! What a dependency policy means for the node downstream, stated over the
//! upstream nodes' statuses.
use vstd::prelude::*;

use crate::runtime::graph::spec_count_succeeded;
use crate::runtime::graph::spec_count_terminal;
use crate::runtime::graph::spec_incoming;
use crate::runtime::graph::spec_resolve;
use crate::runtime::graph::DependencyResolution;
use crate::runtime::graph::WorkflowDependencyRecord;
use crate::runtime::graph::WorkflowNodeRecord;
use crate::runtime::graph::WorkflowNodeStatus;

verus! {

/// The node has finished: it succeeded, failed or was cancelled.
pub open spec fn spec_finished(s: WorkflowNodeStatus) -> bool {
    s == WorkflowNodeStatus::Succeeded || s == WorkflowNodeStatus::Failed || s == WorkflowNodeStatus::Cancelled
}

/// The status of the upstream node of `d`.
pub open spec fn spec_upstream(map: Map<Seq<char>, WorkflowNodeRecord>, d: WorkflowDependencyRecord) -> WorkflowNodeStatus {
    map[d.depends_on_node_id@].status
}

proof fn lemma_incoming_all(deps: Seq<WorkflowDependencyRecord>, id: Seq<char>, q: spec_fn(WorkflowDependencyRecord) -> bool)
    requires
        forall|i: int| 0 <= i < deps.len() && deps[i].node_id@ == id ==> q(#[trigger] deps[i]),
    ensures
        forall|k: int| 0 <= k < spec_incoming(deps, id).len() ==> q(#[trigger] spec_incoming(deps, id)[k]),
    decreases deps.len(),
{
    if deps.len() > 0 {
        let d = deps.drop_last();
        assert forall|i: int| 0 <= i < d.len() && d[i].node_id@ == id implies q(#[trigger] d[i]) by {
            assert(d[i] == deps[i]);
        }
        lemma_incoming_all(d, id, q);
        let inc = spec_incoming(deps, id);
        let ind = spec_incoming(d, id);
        assert(deps[deps.len() - 1] == deps.last());
        if deps.last().node_id@ == id {
            assert(inc == ind.push(deps.last()));
            assert forall|k: int| 0 <= k < inc.len() implies q(#[trigger] inc[k]) by {
                if k < ind.len() {
                    assert(inc[k] == ind[k]);
                }
            }
        } else {
            assert(inc == ind);
        }
    }
}

proof fn lemma_incoming_some(
    deps: Seq<WorkflowDependencyRecord>,
    id: Seq<char>,
    q: spec_fn(WorkflowDependencyRecord) -> bool,
    i: int,
)
    requires
        0 <= i < deps.len(),
        deps[i].node_id@ == id,
        q(deps[i]),
    ensures
        exists|k: int| 0 <= k < spec_incoming(deps, id).len() && q(#[trigger] spec_incoming(deps, id)[k]),
    decreases deps.len(),
{
    let inc = spec_incoming(deps, id);
    let d = deps.drop_last();
    if i == deps.len() - 1 {
        assert(inc == spec_incoming(d, id).push(deps.last()));
        assert(q(inc[inc.len() - 1]));
    } else {
        assert(d[i] == deps[i]);
        lemma_incoming_some(d, id, q, i);
        let k = choose|k: int| 0 <= k < spec_incoming(d, id).len() && q(#[trigger] spec_incoming(d, id)[k]);
        if deps.last().node_id@ == id {
            assert(inc[k] == spec_incoming(d, id)[k]);
        }
        assert(q(inc[k]));
    }
}

proof fn lemma_counts(map: Map<Seq<char>, WorkflowNodeRecord>, inc: Seq<WorkflowDependencyRecord>)
    ensures
        spec_count_succeeded(map, inc) <= spec_count_terminal(map, inc) <= inc.len(),
        (forall|k: int| 0 <= k < inc.len() ==> spec_finished(spec_upstream(map, #[trigger] inc[k])))
            ==> spec_count_terminal(map, inc) == inc.len(),
        (forall|k: int| 0 <= k < inc.len() ==> spec_upstream(map, #[trigger] inc[k]) == WorkflowNodeStatus::Succeeded)
            ==> spec_count_succeeded(map, inc) == inc.len(),
        (forall|k: int|
            0 <= k < inc.len() && spec_finished(spec_upstream(map, #[trigger] inc[k])) ==> spec_upstream(map, inc[k])
                == WorkflowNodeStatus::Succeeded) ==> spec_count_succeeded(map, inc) == spec_count_terminal(map, inc),
        (forall|k: int| 0 <= k < inc.len() ==> spec_upstream(map, #[trigger] inc[k]) != WorkflowNodeStatus::Succeeded)
            ==> spec_count_succeeded(map, inc) == 0,
    decreases inc.len(),
{
    if inc.len() > 0 {
        let d = inc.drop_last();
        lemma_counts(map, d);
        assert forall|k: int| 0 <= k < d.len() implies #[trigger] d[k] == inc[k] by {}
        assert(inc[inc.len() - 1] == inc.last());
    }
}

proof fn lemma_terminal_short(map: Map<Seq<char>, WorkflowNodeRecord>, inc: Seq<WorkflowDependencyRecord>, k: int)
    requires
        0 <= k < inc.len(),
        !spec_finished(spec_upstream(map, inc[k])),
    ensures
        spec_count_terminal(map, inc) < inc.len(),
    decreases inc.len(),
{
    let d = inc.drop_last();
    lemma_counts(map, d);
    if k < inc.len() - 1 {
        assert(d[k] == inc[k]);
        lemma_terminal_short(map, d, k);
    }
}

proof fn lemma_succeeded_short(map: Map<Seq<char>, WorkflowNodeRecord>, inc: Seq<WorkflowDependencyRecord>, k: int)
    requires
        0 <= k < inc.len(),
        spec_upstream(map, inc[k]) != WorkflowNodeStatus::Succeeded,
    ensures
        spec_count_succeeded(map, inc) < inc.len(),
    decreases inc.len(),
{
    let d = inc.drop_last();
    lemma_counts(map, d);
    if k < inc.len() - 1 {
        assert(d[k] == inc[k]);
        lemma_succeeded_short(map, d, k);
    }
}

proof fn lemma_succeeded_some(map: Map<Seq<char>, WorkflowNodeRecord>, inc: Seq<WorkflowDependencyRecord>, k: int)
    requires
        0 <= k < inc.len(),
        spec_upstream(map, inc[k]) == WorkflowNodeStatus::Succeeded,
    ensures
        spec_count_succeeded(map, inc) >= 1,
    decreases inc.len(),
{
    let d = inc.drop_last();
    if k < inc.len() - 1 {
        assert(d[k] == inc[k]);
        lemma_succeeded_some(map, d, k);
    }
}

proof fn lemma_failed_upstream(map: Map<Seq<char>, WorkflowNodeRecord>, inc: Seq<WorkflowDependencyRecord>, k: int)
    requires
        0 <= k < inc.len(),
        spec_finished(spec_upstream(map, inc[k])),
        spec_upstream(map, inc[k]) != WorkflowNodeStatus::Succeeded,
    ensures
        spec_count_succeeded(map, inc) < spec_count_terminal(map, inc),
    decreases inc.len(),
{
    let d = inc.drop_last();
    lemma_counts(map, d);
    if k < inc.len() - 1 {
        assert(d[k] == inc[k]);
        lemma_failed_upstream(map, d, k);
    }
}

/// Under `all_terminal`, a node is ready exactly when every upstream node has
/// finished, whether it succeeded, failed or was cancelled; until then it is
/// blocked, and it is never skipped or failed fast.
pub proof fn law_all_terminal_waits_for_every_upstream(
    map: Map<Seq<char>, WorkflowNodeRecord>,
    deps: Seq<WorkflowDependencyRecord>,
    id: Seq<char>,
)
    requires
        map.dom().contains(id),
        exists|i: int| 0 <= i < deps.len() && (#[trigger] deps[i]).node_id@ == id,
        forall|i: int| 0 <= i < deps.len() && (#[trigger] deps[i]).node_id@ == id ==> deps[i].policy@ == "all_terminal"@,
    ensures
        (forall|i: int|
            0 <= i < deps.len() && (#[trigger] deps[i]).node_id@ == id ==> spec_finished(spec_upstream(map, deps[i])))
            ==> spec_resolve(map, deps, id) == Ok::<DependencyResolution, crate::runtime::graph::GraphError>(
            DependencyResolution::Ready,
        ),
        (exists|i: int|
            0 <= i < deps.len() && (#[trigger] deps[i]).node_id@ == id && !spec_finished(spec_upstream(map, deps[i])))
            ==> spec_resolve(map, deps, id) == Ok::<DependencyResolution, crate::runtime::graph::GraphError>(
            DependencyResolution::Blocked,
        ),
{
    reveal_strlit("all_terminal");
    reveal_strlit("all_succeeded");
    reveal_strlit("at_least");
    let inc = spec_incoming(deps, id);
    let i0 = choose|i: int| 0 <= i < deps.len() && (#[trigger] deps[i]).node_id@ == id;
    lemma_incoming_some(deps, id, |d: WorkflowDependencyRecord| true, i0);
    lemma_incoming_all(deps, id, |d: WorkflowDependencyRecord| d.policy@ == "all_terminal"@);
    assert(inc[0].policy@ == "all_terminal"@);
    lemma_counts(map, inc);
    if forall|i: int|
        0 <= i < deps.len() && (#[trigger] deps[i]).node_id@ == id ==> spec_finished(spec_upstream(map, deps[i])) {
        lemma_incoming_all(deps, id, |d: WorkflowDependencyRecord| spec_finished(spec_upstream(map, d)));
    }
    if exists|i: int|
        0 <= i < deps.len() && (#[trigger] deps[i]).node_id@ == id && !spec_finished(spec_upstream(map, deps[i])) {
        let i1 = choose|i: int|
            0 <= i < deps.len() && (#[trigger] deps[i]).node_id@ == id && !spec_finished(spec_upstream(map, deps[i]));
        lemma_incoming_some(deps, id, |d: WorkflowDependencyRecord| !spec_finished(spec_upstream(map, d)), i1);
        let k = choose|k: int| 0 <= k < inc.len() && !spec_finished(spec_upstream(map, #[trigger] inc[k]));
        lemma_terminal_short(map, inc, k);
    }
}

/// Under `all_succeeded`, a node is ready exactly when every upstream node
/// succeeded; an upstream that failed or was cancelled makes it impossible,
/// so the node is skipped or fails fast as its failure policy says; otherwise
/// it is blocked.
pub proof fn law_all_succeeded_needs_every_upstream(
    map: Map<Seq<char>, WorkflowNodeRecord>,
    deps: Seq<WorkflowDependencyRecord>,
    id: Seq<char>,
)
    requires
        map.dom().contains(id),
        exists|i: int| 0 <= i < deps.len() && (#[trigger] deps[i]).node_id@ == id,
        forall|i: int| 0 <= i < deps.len() && (#[trigger] deps[i]).node_id@ == id ==> deps[i].policy@ == "all_succeeded"@,
    ensures
        (forall|i: int|
            0 <= i < deps.len() && (#[trigger] deps[i]).node_id@ == id ==> spec_upstream(map, deps[i])
                == WorkflowNodeStatus::Succeeded) ==> spec_resolve(map, deps, id) == Ok::<
            DependencyResolution,
            crate::runtime::graph::GraphError,
        >(DependencyResolution::Ready),
        (exists|i: int|
            0 <= i < deps.len() && (#[trigger] deps[i]).node_id@ == id && spec_finished(spec_upstream(map, deps[i]))
                && spec_upstream(map, deps[i]) != WorkflowNodeStatus::Succeeded) ==> {
            &&& map[id].failure_policy@ == "fail_fast"@ ==> spec_resolve(map, deps, id) == Ok::<
                DependencyResolution,
                crate::runtime::graph::GraphError,
            >(DependencyResolution::FailFast)
            &&& (map[id].failure_policy@ == "skip_dependents"@ || map[id].failure_policy@ == "continue_independent"@)
                ==> spec_resolve(map, deps, id) == Ok::<DependencyResolution, crate::runtime::graph::GraphError>(
                DependencyResolution::Skip,
            )
        },
        (forall|i: int|
            0 <= i < deps.len() && (#[trigger] deps[i]).node_id@ == id && spec_finished(spec_upstream(map, deps[i]))
                ==> spec_upstream(map, deps[i]) == WorkflowNodeStatus::Succeeded) && (exists|i: int|
            0 <= i < deps.len() && (#[trigger] deps[i]).node_id@ == id && !spec_finished(spec_upstream(map, deps[i])))
            ==> spec_resolve(map, deps, id) == Ok::<DependencyResolution, crate::runtime::graph::GraphError>(
            DependencyResolution::Blocked,
        ),
{
    reveal_strlit("all_terminal");
    reveal_strlit("all_succeeded");
    reveal_strlit("at_least");
    reveal_strlit("fail_fast");
    reveal_strlit("skip_dependents");
    reveal_strlit("continue_independent");
    let inc = spec_incoming(deps, id);
    let i0 = choose|i: int| 0 <= i < deps.len() && (#[trigger] deps[i]).node_id@ == id;
    lemma_incoming_some(deps, id, |d: WorkflowDependencyRecord| true, i0);
    lemma_incoming_all(deps, id, |d: WorkflowDependencyRecord| d.policy@ == "all_succeeded"@);
    assert(inc[0].policy@ == "all_succeeded"@);
    lemma_counts(map, inc);
    if forall|i: int|
        0 <= i < deps.len() && (#[trigger] deps[i]).node_id@ == id ==> spec_upstream(map, deps[i])
            == WorkflowNodeStatus::Succeeded {
        lemma_incoming_all(
            deps,
            id,
            |d: WorkflowDependencyRecord| spec_upstream(map, d) == WorkflowNodeStatus::Succeeded,
        );
    }
    if exists|i: int|
        0 <= i < deps.len() && (#[trigger] deps[i]).node_id@ == id && spec_finished(spec_upstream(map, deps[i]))
            && spec_upstream(map, deps[i]) != WorkflowNodeStatus::Succeeded {
        let i1 = choose|i: int|
            0 <= i < deps.len() && (#[trigger] deps[i]).node_id@ == id && spec_finished(spec_upstream(map, deps[i]))
                && spec_upstream(map, deps[i]) != WorkflowNodeStatus::Succeeded;
        let q = |d: WorkflowDependencyRecord|
            spec_finished(spec_upstream(map, d)) && spec_upstream(map, d) != WorkflowNodeStatus::Succeeded;
        lemma_incoming_some(deps, id, q, i1);
        let k = choose|k: int| 0 <= k < inc.len() && q(#[trigger] inc[k]);
        lemma_failed_upstream(map, inc, k);
        lemma_succeeded_short(map, inc, k);
        assert(spec_count_succeeded(map, inc) < spec_count_terminal(map, inc));
        assert(spec_count_succeeded(map, inc) < inc.len());
        if map[id].failure_policy@ == "fail_fast"@ {
            assert("fail_fast"@.len() == 9);
            assert("skip_dependents"@.len() == 15);
            assert("continue_independent"@.len() == 20);
            assert(spec_resolve(map, deps, id) == Ok::<DependencyResolution, crate::runtime::graph::GraphError>(
                DependencyResolution::FailFast,
            ));
        }
    }
    if (forall|i: int|
        0 <= i < deps.len() && (#[trigger] deps[i]).node_id@ == id && spec_finished(spec_upstream(map, deps[i]))
            ==> spec_upstream(map, deps[i]) == WorkflowNodeStatus::Succeeded) && (exists|i: int|
        0 <= i < deps.len() && (#[trigger] deps[i]).node_id@ == id && !spec_finished(spec_upstream(map, deps[i]))) {
        lemma_incoming_all(
            deps,
            id,
            |d: WorkflowDependencyRecord|
                spec_finished(spec_upstream(map, d)) ==> spec_upstream(map, d) == WorkflowNodeStatus::Succeeded,
        );
        let i1 = choose|i: int|
            0 <= i < deps.len() && (#[trigger] deps[i]).node_id@ == id && !spec_finished(spec_upstream(map, deps[i]));
        lemma_incoming_some(deps, id, |d: WorkflowDependencyRecord| !spec_finished(spec_upstream(map, d)), i1);
        let k = choose|k: int| 0 <= k < inc.len() && !spec_finished(spec_upstream(map, #[trigger] inc[k]));
        lemma_succeeded_short(map, inc, k);
    }
}

/// A node that depends on nothing is ready.
pub proof fn law_independent_node_is_ready(
    map: Map<Seq<char>, WorkflowNodeRecord>,
    deps: Seq<WorkflowDependencyRecord>,
    id: Seq<char>,
)
    requires
        map.dom().contains(id),
        forall|i: int| 0 <= i < deps.len() ==> (#[trigger] deps[i]).node_id@ != id,
    ensures
        spec_resolve(map, deps, id) == Ok::<DependencyResolution, crate::runtime::graph::GraphError>(
            DependencyResolution::Ready,
        ),
{
    lemma_incoming_all(deps, id, |d: WorkflowDependencyRecord| false);
    let inc = spec_incoming(deps, id);
    if inc.len() > 0 {
        assert((|d: WorkflowDependencyRecord| false)(inc[0]));
    }
}

/// Under `at_least` with a threshold of one, one succeeded upstream node makes
/// the node ready; with none succeeded, it stays blocked while some upstream
/// is still open, and once all have finished it is skipped or fails fast as
/// its failure policy says.
pub proof fn law_at_least_one_needs_a_success(
    map: Map<Seq<char>, WorkflowNodeRecord>,
    deps: Seq<WorkflowDependencyRecord>,
    id: Seq<char>,
)
    requires
        map.dom().contains(id),
        exists|i: int| 0 <= i < deps.len() && (#[trigger] deps[i]).node_id@ == id,
        forall|i: int|
            0 <= i < deps.len() && (#[trigger] deps[i]).node_id@ == id ==> deps[i].policy@ == "at_least"@
                && deps[i].at_least == Some(1u32),
    ensures
        (exists|i: int|
            0 <= i < deps.len() && (#[trigger] deps[i]).node_id@ == id && spec_upstream(map, deps[i])
                == WorkflowNodeStatus::Succeeded) ==> spec_resolve(map, deps, id) == Ok::<
            DependencyResolution,
            crate::runtime::graph::GraphError,
        >(DependencyResolution::Ready),
        (forall|i: int|
            0 <= i < deps.len() && (#[trigger] deps[i]).node_id@ == id ==> spec_upstream(map, deps[i])
                != WorkflowNodeStatus::Succeeded) && (exists|i: int|
            0 <= i < deps.len() && (#[trigger] deps[i]).node_id@ == id && !spec_finished(spec_upstream(map, deps[i])))
            ==> spec_resolve(map, deps, id) == Ok::<DependencyResolution, crate::runtime::graph::GraphError>(
            DependencyResolution::Blocked,
        ),
        (forall|i: int|
            0 <= i < deps.len() && (#[trigger] deps[i]).node_id@ == id ==> spec_upstream(map, deps[i])
                != WorkflowNodeStatus::Succeeded && spec_finished(spec_upstream(map, deps[i]))) ==> {
            &&& map[id].failure_policy@ == "fail_fast"@ ==> spec_resolve(map, deps, id) == Ok::<
                DependencyResolution,
                crate::runtime::graph::GraphError,
            >(DependencyResolution::FailFast)
            &&& (map[id].failure_policy@ == "skip_dependents"@ || map[id].failure_policy@ == "continue_independent"@)
                ==> spec_resolve(map, deps, id) == Ok::<DependencyResolution, crate::runtime::graph::GraphError>(
                DependencyResolution::Skip,
            )
        },
{
    reveal_strlit("all_terminal");
    reveal_strlit("all_succeeded");
    reveal_strlit("at_least");
    reveal_strlit("fail_fast");
    reveal_strlit("skip_dependents");
    reveal_strlit("continue_independent");
    assert("fail_fast"@.len() == 9);
    assert("skip_dependents"@.len() == 15);
    assert("continue_independent"@.len() == 20);
    let inc = spec_incoming(deps, id);
    let i0 = choose|i: int| 0 <= i < deps.len() && (#[trigger] deps[i]).node_id@ == id;
    lemma_incoming_some(deps, id, |d: WorkflowDependencyRecord| true, i0);
    lemma_incoming_all(
        deps,
        id,
        |d: WorkflowDependencyRecord| d.policy@ == "at_least"@ && d.at_least == Some(1u32),
    );
    assert(inc[0].policy@ == "at_least"@ && inc[0].at_least == Some(1u32));
    lemma_counts(map, inc);
    if exists|i: int|
        0 <= i < deps.len() && (#[trigger] deps[i]).node_id@ == id && spec_upstream(map, deps[i])
            == WorkflowNodeStatus::Succeeded {
        let i1 = choose|i: int|
            0 <= i < deps.len() && (#[trigger] deps[i]).node_id@ == id && spec_upstream(map, deps[i])
                == WorkflowNodeStatus::Succeeded;
        lemma_incoming_some(
            deps,
            id,
            |d: WorkflowDependencyRecord| spec_upstream(map, d) == WorkflowNodeStatus::Succeeded,
            i1,
        );
        let k = choose|k: int|
            0 <= k < inc.len() && spec_upstream(map, #[trigger] inc[k]) == WorkflowNodeStatus::Succeeded;
        lemma_succeeded_some(map, inc, k);
    }
    if forall|i: int|
        0 <= i < deps.len() && (#[trigger] deps[i]).node_id@ == id ==> spec_upstream(map, deps[i])
            != WorkflowNodeStatus::Succeeded {
        lemma_incoming_all(
            deps,
            id,
            |d: WorkflowDependencyRecord| spec_upstream(map, d) != WorkflowNodeStatus::Succeeded,
        );
        assert(spec_count_succeeded(map, inc) == 0);
        if exists|i: int|
            0 <= i < deps.len() && (#[trigger] deps[i]).node_id@ == id && !spec_finished(spec_upstream(map, deps[i])) {
            let i1 = choose|i: int|
                0 <= i < deps.len() && (#[trigger] deps[i]).node_id@ == id && !spec_finished(
                    spec_upstream(map, deps[i]),
                );
            lemma_incoming_some(deps, id, |d: WorkflowDependencyRecord| !spec_finished(spec_upstream(map, d)), i1);
            let k = choose|k: int| 0 <= k < inc.len() && !spec_finished(spec_upstream(map, #[trigger] inc[k]));
            lemma_terminal_short(map, inc, k);
        }
    }
    if forall|i: int|
        0 <= i < deps.len() && (#[trigger] deps[i]).node_id@ == id ==> spec_upstream(map, deps[i])
            != WorkflowNodeStatus::Succeeded && spec_finished(spec_upstream(map, deps[i])) {
        lemma_incoming_all(
            deps,
            id,
            |d: WorkflowDependencyRecord|
                spec_upstream(map, d) != WorkflowNodeStatus::Succeeded && spec_finished(spec_upstream(map, d)),
        );
        assert(spec_count_succeeded(map, inc) == 0);
        assert(spec_count_terminal(map, inc) == inc.len());
    }
}

} // verus!
