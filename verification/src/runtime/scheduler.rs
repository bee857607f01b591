//! Fair launch planning over one persisted run graph.
use vstd::prelude::*;

use crate::runtime::graph::spec_node_map;
use crate::runtime::graph::spec_resolve;
use crate::runtime::graph::spec_sorted;
use crate::runtime::graph::DependencyResolution;
use crate::runtime::graph::GraphError;
use crate::runtime::graph::WorkflowDependencyRecord;
use crate::runtime::graph::WorkflowGraph;
use crate::runtime::graph::WorkflowNodeRecord;
use crate::runtime::graph::WorkflowNodeStatus;

verus! {

/// Why planning stopped early.
#[derive(Debug, PartialEq, Eq)]
pub enum SchedulerError {
    Graph(GraphError),
    FailFast(String),
}

/// One durable status transition the scheduler asks for, in node-id order.
#[derive(Debug, PartialEq, Eq)]
pub struct ScheduledTransition {
    pub node_id: String,
    /// Row version the transition is fenced on.
    pub row_version: i64,
    /// Target status: `Blocked`, `Ready` or `Cancelled` (skipped).
    pub status: WorkflowNodeStatus,
    /// False when the node already has the target status and no retry time.
    pub write: bool,
    /// The node belongs to the fair launch batch.
    pub launch: bool,
}

/// Ordered transitions; a stop, when present, comes after the listed transitions
/// and no node launches.
#[derive(Debug, PartialEq, Eq)]
pub struct SchedulePlan {
    pub steps: Vec<ScheduledTransition>,
    pub stop: Option<SchedulerError>,
}

/// Event kind recorded with a transition to `status`.
pub open spec fn spec_event_kind(status: WorkflowNodeStatus) -> Seq<char> {
    if status == WorkflowNodeStatus::Blocked {
        "node.blocked"@
    } else if status == WorkflowNodeStatus::Ready {
        "node.ready"@
    } else {
        "node.skipped"@
    }
}

pub fn event_kind(status: WorkflowNodeStatus) -> (r: &'static str)
    ensures
        r@ == spec_event_kind(status),
{
    match status {
        WorkflowNodeStatus::Blocked => "node.blocked",
        WorkflowNodeStatus::Ready => "node.ready",
        _ => "node.skipped",
    }
}

/// What one node contributes: nothing, a transition, or a stop
/// (`Err(Some(e))` a graph error, `Err(None)` fail-fast).
pub open spec fn spec_step(
    map: Map<Seq<char>, WorkflowNodeRecord>,
    deps: Seq<WorkflowDependencyRecord>,
    node: WorkflowNodeRecord,
    now_ms: i64,
) -> Option<Result<WorkflowNodeStatus, Option<GraphError>>> {
    if node.status == WorkflowNodeStatus::Running {
        None
    } else if node.status == WorkflowNodeStatus::Waiting && node.retry_at_ms is Some
        && node.retry_at_ms->0 > now_ms {
        None
    } else if !(node.status == WorkflowNodeStatus::Pending || node.status
        == WorkflowNodeStatus::Blocked || node.status == WorkflowNodeStatus::Ready || node.status
        == WorkflowNodeStatus::Waiting) {
        None
    } else {
        match spec_resolve(map, deps, node.node_id@) {
            Err(e) => Some(Err(Some(e))),
            Ok(DependencyResolution::Blocked) => Some(Ok(WorkflowNodeStatus::Blocked)),
            Ok(DependencyResolution::Ready) => Some(Ok(WorkflowNodeStatus::Ready)),
            Ok(DependencyResolution::Skip) => Some(Ok(WorkflowNodeStatus::Cancelled)),
            Ok(DependencyResolution::FailFast) => Some(Err(None)),
        }
    }
}

/// Transitions of `nodes` in order, up to the first stop (with the node that stopped).
pub open spec fn spec_steps(
    map: Map<Seq<char>, WorkflowNodeRecord>,
    deps: Seq<WorkflowDependencyRecord>,
    nodes: Seq<WorkflowNodeRecord>,
    now_ms: i64,
) -> (Seq<(WorkflowNodeRecord, WorkflowNodeStatus)>, Option<(Option<GraphError>, Seq<char>)>)
    decreases nodes.len(),
{
    if nodes.len() == 0 {
        (Seq::empty(), None)
    } else {
        let rest = spec_steps(map, deps, nodes.drop_first(), now_ms);
        match spec_step(map, deps, nodes[0], now_ms) {
            None => rest,
            Some(Err(e)) => (Seq::empty(), Some((e, nodes[0].node_id@))),
            Some(Ok(status)) => (seq![(nodes[0], status)] + rest.0, rest.1),
        }
    }
}

/// Number of running nodes.
pub open spec fn spec_running(nodes: Seq<WorkflowNodeRecord>) -> nat
    decreases nodes.len(),
{
    if nodes.len() == 0 {
        0
    } else {
        spec_running(nodes.drop_last()) + if nodes.last().status == WorkflowNodeStatus::Running {
            1nat
        } else {
            0nat
        }
    }
}

/// Number of steps before `j` that make a node ready.
pub open spec fn spec_ready_before(steps: Seq<ScheduledTransition>, j: int) -> nat
    decreases j,
{
    if j <= 0 {
        0
    } else {
        spec_ready_before(steps, j - 1) + if steps[j - 1].status == WorkflowNodeStatus::Ready {
            1nat
        } else {
            0nat
        }
    }
}

/// The fair batch size: the active-node limit less the nodes already running.
pub open spec fn spec_capacity(maximum_active_nodes: usize, nodes: Seq<WorkflowNodeRecord>) -> int {
    if maximum_active_nodes >= spec_running(nodes) {
        maximum_active_nodes - spec_running(nodes)
    } else {
        0
    }
}

/// The plan agrees with the per-node rules, in ascending id order.
pub open spec fn spec_plan_matches(
    plan: SchedulePlan,
    map: Map<Seq<char>, WorkflowNodeRecord>,
    deps: Seq<WorkflowDependencyRecord>,
    sorted: Seq<WorkflowNodeRecord>,
    now_ms: i64,
    maximum_active_nodes: usize,
) -> bool {
    let expected = spec_steps(map, deps, sorted, now_ms);
    &&& plan.steps@.len() == expected.0.len()
    &&& forall|j: int|
        0 <= j < plan.steps@.len() ==> {
            let s = #[trigger] plan.steps@[j];
            let (node, status) = expected.0[j];
            &&& s.node_id@ == node.node_id@
            &&& s.row_version == node.row_version
            &&& s.status == status
            &&& s.write == !(node.status == status && node.retry_at_ms is None)
            &&& s.launch == (expected.1 is None && status == WorkflowNodeStatus::Ready
                && spec_ready_before(plan.steps@, j) < spec_capacity(maximum_active_nodes, sorted))
        }
    &&& match expected.1 {
        None => plan.stop is None,
        Some((Some(e), _)) => plan.stop == Some(SchedulerError::Graph(e)),
        Some((None, id)) => plan.stop matches Some(SchedulerError::FailFast(s)) && s@ == id,
    }
}


/// Number of steps before `j` that launch their node.
pub open spec fn spec_launched_before(steps: Seq<ScheduledTransition>, j: int) -> nat
    decreases j,
{
    if j <= 0 {
        0
    } else {
        spec_launched_before(steps, j - 1) + if steps[j - 1].launch {
            1nat
        } else {
            0nat
        }
    }
}

proof fn lemma_launched_bounded(
    plan: SchedulePlan,
    map: Map<Seq<char>, WorkflowNodeRecord>,
    deps: Seq<WorkflowDependencyRecord>,
    sorted: Seq<WorkflowNodeRecord>,
    now_ms: i64,
    maximum_active_nodes: usize,
    j: int,
)
    requires
        spec_plan_matches(plan, map, deps, sorted, now_ms, maximum_active_nodes),
        0 <= j <= plan.steps@.len(),
    ensures
        spec_launched_before(plan.steps@, j) <= spec_ready_before(plan.steps@, j),
        spec_launched_before(plan.steps@, j) <= spec_capacity(maximum_active_nodes, sorted),
    decreases j,
{
    if j > 0 {
        lemma_launched_bounded(plan, map, deps, sorted, now_ms, maximum_active_nodes, j - 1);
        let s = plan.steps@[j - 1];
        assert(s.launch ==> s.status == WorkflowNodeStatus::Ready && spec_ready_before(plan.steps@, j - 1)
            < spec_capacity(maximum_active_nodes, sorted));
    }
}

/// One scheduling round never launches more nodes than the active-node limit
/// leaves free.
pub proof fn law_launches_within_capacity(
    plan: SchedulePlan,
    map: Map<Seq<char>, WorkflowNodeRecord>,
    deps: Seq<WorkflowDependencyRecord>,
    sorted: Seq<WorkflowNodeRecord>,
    now_ms: i64,
    maximum_active_nodes: usize,
)
    requires
        spec_plan_matches(plan, map, deps, sorted, now_ms, maximum_active_nodes),
    ensures
        spec_launched_before(plan.steps@, plan.steps@.len() as int) <= spec_capacity(maximum_active_nodes, sorted),
{
    lemma_launched_bounded(plan, map, deps, sorted, now_ms, maximum_active_nodes, plan.steps@.len() as int);
}

proof fn lemma_steps_unfold(
    map: Map<Seq<char>, WorkflowNodeRecord>,
    deps: Seq<WorkflowDependencyRecord>,
    nodes: Seq<WorkflowNodeRecord>,
    i: int,
    now_ms: i64,
)
    requires
        0 <= i < nodes.len(),
    ensures
        spec_steps(map, deps, nodes.skip(i), now_ms) == ({
            let rest = spec_steps(map, deps, nodes.skip(i + 1), now_ms);
            match spec_step(map, deps, nodes[i], now_ms) {
                None => rest,
                Some(Err(e)) => (Seq::empty(), Some((e, nodes[i].node_id@))),
                Some(Ok(status)) => (seq![(nodes[i], status)] + rest.0, rest.1),
            }
        }),
{
    assert(nodes.skip(i).drop_first() == nodes.skip(i + 1));
    assert(nodes.skip(i)[0] == nodes[i]);
}

/// Number of running nodes, counted in one pass.
fn count_running(nodes: &Vec<WorkflowNodeRecord>) -> (n: usize)
    ensures
        n as nat == spec_running(nodes@),
{
    let mut n: usize = 0;
    let mut i: usize = 0;
    while i < nodes.len()
        invariant
            i <= nodes@.len(),
            n <= i,
            n as nat == spec_running(nodes@.take(i as int)),
        decreases nodes.len() - i,
    {
        assert(nodes@.take(i + 1).drop_last() == nodes@.take(i as int));
        if nodes[i].status == WorkflowNodeStatus::Running {
            n += 1;
        }
        i += 1;
    }
    assert(nodes@.take(nodes@.len() as int) == nodes@);
    n
}

/// The same transitions with no node launching.
fn without_launches(steps: &Vec<ScheduledTransition>) -> (out: Vec<ScheduledTransition>)
    ensures
        out@.len() == steps@.len(),
        forall|j: int|
            0 <= j < out@.len() ==> {
                let a = #[trigger] out@[j];
                let b = steps@[j];
                &&& a.node_id@ == b.node_id@
                &&& a.row_version == b.row_version
                &&& a.status == b.status
                &&& a.write == b.write
                &&& !a.launch
            },
{
    let mut out: Vec<ScheduledTransition> = Vec::new();
    let mut j: usize = 0;
    while j < steps.len()
        invariant
            j <= steps@.len(),
            out@.len() == j,
            forall|k: int|
                0 <= k < j ==> {
                    let a = #[trigger] out@[k];
                    let b = steps@[k];
                    &&& a.node_id@ == b.node_id@
                    &&& a.row_version == b.row_version
                    &&& a.status == b.status
                    &&& a.write == b.write
                    &&& !a.launch
                },
        decreases steps.len() - j,
    {
        let s = &steps[j];
        out.push(
            ScheduledTransition {
                node_id: s.node_id.clone(),
                row_version: s.row_version,
                status: s.status,
                write: s.write,
                launch: false,
            },
        );
        j += 1;
    }
    out
}

proof fn lemma_ready_before_prefix(a: Seq<ScheduledTransition>, b: Seq<ScheduledTransition>, j: int)
    requires
        0 <= j <= a.len(),
        j <= b.len(),
        forall|k: int| 0 <= k < j ==> (#[trigger] a[k]).status == b[k].status,
    ensures
        spec_ready_before(a, j) == spec_ready_before(b, j),
    decreases j,
{
    if j > 0 {
        lemma_ready_before_prefix(a, b, j - 1);
    }
}

/// Plans one scheduling round: cancelled runs launch nothing; otherwise every
/// eligible node in ascending id order is moved to the status its dependencies
/// dictate, and the first ready nodes up to the free capacity launch.
#[verifier::loop_isolation(false)]
#[verifier::spinoff_prover]
pub fn plan_schedule(
    cancellation_requested: bool,
    nodes: Vec<WorkflowNodeRecord>,
    dependencies: Vec<WorkflowDependencyRecord>,
    now_ms: i64,
    maximum_active_nodes: usize,
) -> (plan: SchedulePlan)
    ensures
        cancellation_requested ==> plan.steps@.len() == 0 && plan.stop is None,
        !cancellation_requested ==> match crate::runtime::graph::spec_graph_new(nodes@, dependencies@) {
            Err(e) => plan.steps@.len() == 0 && plan.stop == Some(SchedulerError::Graph(e)),
            Ok(_) => exists|sorted: Seq<WorkflowNodeRecord>|
                #![trigger spec_node_map(sorted)]
                {
                    &&& spec_sorted(sorted)
                    &&& spec_node_map(sorted) == spec_node_map(nodes@)
                    &&& spec_plan_matches(
                        plan,
                        spec_node_map(nodes@),
                        dependencies@,
                        sorted,
                        now_ms,
                        maximum_active_nodes,
                    )
                },
        },
{
    if cancellation_requested {
        return SchedulePlan { steps: Vec::new(), stop: None };
    }
    let ghost input_nodes = nodes@;
    let ghost deps = dependencies@;
    let graph = match WorkflowGraph::new(nodes, dependencies) {
        Ok(g) => g,
        Err(e) => {
            return SchedulePlan { steps: Vec::new(), stop: Some(SchedulerError::Graph(e)) };
        },
    };
    let sorted = graph.nodes();
    let ghost map = graph.node_map();
    let ghost expected = spec_steps(map, deps, sorted@, now_ms);
    let active = count_running(sorted);
    let capacity: usize = if maximum_active_nodes >= active {
        maximum_active_nodes - active
    } else {
        0
    };
    let mut steps: Vec<ScheduledTransition> = Vec::new();
    let mut ready_count: usize = 0;
    let mut i: usize = 0;
    assert(sorted@.skip(0) == sorted@);
    while i < sorted.len()
        invariant
            i <= sorted@.len(),
            steps@.len() <= i,
            ready_count <= steps@.len(),
            ready_count as nat == spec_ready_before(steps@, steps@.len() as int),
            spec_steps(map, deps, sorted@.skip(i as int), now_ms) == (
                expected.0.skip(steps@.len() as int),
                expected.1,
            ),
            steps@.len() <= expected.0.len(),
            forall|j: int|
                0 <= j < steps@.len() ==> {
                    let s = #[trigger] steps@[j];
                    let (node, status) = expected.0[j];
                    &&& s.node_id@ == node.node_id@
                    &&& s.row_version == node.row_version
                    &&& s.status == status
                    &&& s.write == !(node.status == status && node.retry_at_ms is None)
                    &&& s.launch == (status == WorkflowNodeStatus::Ready && spec_ready_before(
                        steps@,
                        j,
                    ) < capacity)
                },
        decreases sorted.len() - i,
    {
        let node = &sorted[i];
        proof {
            lemma_steps_unfold(map, deps, sorted@, i as int, now_ms);
        }
        let eligible = if node.status == WorkflowNodeStatus::Running {
            false
        } else if node.status == WorkflowNodeStatus::Waiting && match node.retry_at_ms {
            Some(at) => at > now_ms,
            None => false,
        } {
            false
        } else {
            match node.status {
                WorkflowNodeStatus::Pending | WorkflowNodeStatus::Blocked
                | WorkflowNodeStatus::Ready | WorkflowNodeStatus::Waiting => true,
                _ => false,
            }
        };
        if eligible {
            let target = match graph.resolve(node.node_id.as_str()) {
                Ok(DependencyResolution::Blocked) => WorkflowNodeStatus::Blocked,
                Ok(DependencyResolution::Ready) => WorkflowNodeStatus::Ready,
                Ok(DependencyResolution::Skip) => WorkflowNodeStatus::Cancelled,
                Ok(DependencyResolution::FailFast) => {
                    let cleared = without_launches(&steps);
                    return SchedulePlan {
                        steps: cleared,
                        stop: Some(SchedulerError::FailFast(node.node_id.clone())),
                    };
                },
                Err(e) => {
                    let cleared = without_launches(&steps);
                    return SchedulePlan { steps: cleared, stop: Some(SchedulerError::Graph(e)) };
                },
            };
            assert(spec_step(map, deps, sorted@[i as int], now_ms) == Some(
                Ok::<WorkflowNodeStatus, Option<GraphError>>(target),
            ));
            let write = !(node.status == target && node.retry_at_ms.is_none());
            let launch = target == WorkflowNodeStatus::Ready && ready_count < capacity;
            let ghost before = steps@;
            steps.push(
                ScheduledTransition {
                    node_id: node.node_id.clone(),
                    row_version: node.row_version,
                    status: target,
                    write,
                    launch,
                },
            );
            proof {
                lemma_ready_before_prefix(steps@, before, before.len() as int);
                assert forall|j: int| 0 <= j < before.len() implies spec_ready_before(steps@, j)
                    == spec_ready_before(before, j) by {
                    lemma_ready_before_prefix(steps@, before, j);
                }
                assert(expected.0.skip(before.len() as int)[0] == expected.0[before.len() as int]);
                assert(expected.0.skip(before.len() as int).drop_first() == expected.0.skip(
                    steps@.len() as int,
                ));
            }
            if target == WorkflowNodeStatus::Ready {
                ready_count += 1;
            }
        } else {
            assert(spec_step(map, deps, sorted@[i as int], now_ms) is None);
        }
        i += 1;
    }
    proof {
        assert(sorted@.skip(sorted@.len() as int) =~= Seq::<WorkflowNodeRecord>::empty());
    }
    SchedulePlan { steps, stop: None }
}

} // verus!
