//! Validated in-memory view of one persisted run graph and its dependency rules.
use vstd::prelude::*;

use crate::text::chars_lt;
use crate::text::chars_of;
use crate::text::lemma_str_lt_total;
use crate::text::lemma_str_lt_trans;
use crate::text::spec_str_lt;
use crate::text::str_eq;

verus! {

/// Durable lifecycle status of one workflow node.
#[derive(Clone, Copy, Debug, PartialEq, Eq, Structural)]
pub enum WorkflowNodeStatus {
    Pending,
    Blocked,
    Ready,
    Running,
    Waiting,
    Succeeded,
    Failed,
    Cancelled,
}

/// The persisted fields of one node that scheduling reads.
#[derive(Clone, Debug, PartialEq, Eq)]
pub struct WorkflowNodeRecord {
    pub node_id: String,
    pub status: WorkflowNodeStatus,
    pub failure_policy: String,
    pub retry_at_ms: Option<i64>,
    pub row_version: i64,
}

/// One persisted edge: `node_id` depends on `depends_on_node_id`.
#[derive(Clone, Debug, PartialEq, Eq)]
pub struct WorkflowDependencyRecord {
    pub node_id: String,
    pub depends_on_node_id: String,
    pub policy: String,
    pub at_least: Option<u32>,
}

/// Durable dependency outcome for one downstream node.
#[derive(Clone, Copy, Debug, PartialEq, Eq, Structural)]
pub enum DependencyResolution {
    Blocked,
    Ready,
    Skip,
    FailFast,
}

#[derive(Clone, Copy, Debug, PartialEq, Eq, Structural)]
pub enum GraphError {
    UnknownNode,
    Cycle,
    InvalidPolicy,
    MixedPolicies,
    InvalidFailurePolicy,
}

/// Succeeded, failed and cancelled nodes never change again.
pub open spec fn spec_is_terminal(status: WorkflowNodeStatus) -> bool {
    status == WorkflowNodeStatus::Succeeded || status == WorkflowNodeStatus::Failed || status
        == WorkflowNodeStatus::Cancelled
}

pub fn is_terminal(status: WorkflowNodeStatus) -> (r: bool)
    ensures
        r == spec_is_terminal(status),
{
    match status {
        WorkflowNodeStatus::Succeeded | WorkflowNodeStatus::Failed
        | WorkflowNodeStatus::Cancelled => true,
        _ => false,
    }
}

/// Nodes keyed by id; a later record with the same id replaces an earlier one.
pub open spec fn spec_node_map(nodes: Seq<WorkflowNodeRecord>) -> Map<Seq<char>, WorkflowNodeRecord>
    decreases nodes.len(),
{
    if nodes.len() == 0 {
        Map::empty()
    } else {
        spec_node_map(nodes.drop_last()).insert(nodes.last().node_id@, nodes.last())
    }
}

/// Every dependency names known nodes at both ends.
pub open spec fn spec_deps_known(
    map: Map<Seq<char>, WorkflowNodeRecord>,
    deps: Seq<WorkflowDependencyRecord>,
) -> bool {
    forall|i: int|
        0 <= i < deps.len() ==> map.dom().contains(#[trigger] deps[i].node_id@) && map.dom().contains(
            deps[i].depends_on_node_id@,
        )
}

/// `rank` strictly decreases along every dependency edge.
pub open spec fn spec_ranked_by(
    deps: Seq<WorkflowDependencyRecord>,
    rank: spec_fn(Seq<char>) -> nat,
) -> bool {
    forall|i: int|
        0 <= i < deps.len() ==> rank(#[trigger] deps[i].node_id@) > rank(
            deps[i].depends_on_node_id@,
        )
}

/// The dependency relation has no cycle (it admits a strictly decreasing rank).
pub open spec fn spec_acyclic(deps: Seq<WorkflowDependencyRecord>) -> bool {
    exists|rank: spec_fn(Seq<char>) -> nat| spec_ranked_by(deps, rank)
}

/// What constructing a graph from these records gives.
pub open spec fn spec_graph_new(
    nodes: Seq<WorkflowNodeRecord>,
    deps: Seq<WorkflowDependencyRecord>,
) -> Result<(), GraphError> {
    if !spec_deps_known(spec_node_map(nodes), deps) {
        Err(GraphError::UnknownNode)
    } else if !spec_acyclic(deps) {
        Err(GraphError::Cycle)
    } else {
        Ok(())
    }
}

/// Dependencies whose downstream node is `id`, in persisted order.
pub open spec fn spec_incoming(deps: Seq<WorkflowDependencyRecord>, id: Seq<char>) -> Seq<
    WorkflowDependencyRecord,
>
    decreases deps.len(),
{
    if deps.len() == 0 {
        Seq::empty()
    } else if deps.last().node_id@ == id {
        spec_incoming(deps.drop_last(), id).push(deps.last())
    } else {
        spec_incoming(deps.drop_last(), id)
    }
}

/// Number of upstream nodes of `incoming` that have succeeded.
pub open spec fn spec_count_succeeded(
    map: Map<Seq<char>, WorkflowNodeRecord>,
    incoming: Seq<WorkflowDependencyRecord>,
) -> nat
    decreases incoming.len(),
{
    if incoming.len() == 0 {
        0
    } else {
        spec_count_succeeded(map, incoming.drop_last()) + if map[incoming.last().depends_on_node_id@].status
            == WorkflowNodeStatus::Succeeded {
            1nat
        } else {
            0nat
        }
    }
}

/// Number of upstream nodes of `incoming` that are terminal.
pub open spec fn spec_count_terminal(
    map: Map<Seq<char>, WorkflowNodeRecord>,
    incoming: Seq<WorkflowDependencyRecord>,
) -> nat
    decreases incoming.len(),
{
    if incoming.len() == 0 {
        0
    } else {
        spec_count_terminal(map, incoming.drop_last()) + if spec_is_terminal(
            map[incoming.last().depends_on_node_id@].status,
        ) {
            1nat
        } else {
            0nat
        }
    }
}

/// All dependencies carry the same policy as the first.
pub open spec fn spec_uniform_policy(incoming: Seq<WorkflowDependencyRecord>) -> bool {
    forall|i: int| 0 <= i < incoming.len() ==> (#[trigger] incoming[i]).policy@ == incoming[0].policy@
}

/// How the dependency policy of `id` resolves against upstream statuses.
pub open spec fn spec_resolve(
    map: Map<Seq<char>, WorkflowNodeRecord>,
    deps: Seq<WorkflowDependencyRecord>,
    id: Seq<char>,
) -> Result<DependencyResolution, GraphError> {
    let incoming = spec_incoming(deps, id);
    let succeeded = spec_count_succeeded(map, incoming);
    let terminal = spec_count_terminal(map, incoming);
    let total = incoming.len();
    let policy = incoming[0].policy@;
    let threshold = incoming[0].at_least;
    if !map.dom().contains(id) {
        Err(GraphError::UnknownNode)
    } else if total == 0 {
        Ok(DependencyResolution::Ready)
    } else if !spec_uniform_policy(incoming) {
        Err(GraphError::MixedPolicies)
    } else if policy != "all_succeeded"@ && policy != "all_terminal"@ && policy != "at_least"@ {
        Err(GraphError::InvalidPolicy)
    } else if policy == "at_least"@ && threshold is None {
        Err(GraphError::InvalidPolicy)
    } else {
        let ready = if policy == "all_succeeded"@ {
            succeeded == total
        } else if policy == "all_terminal"@ {
            terminal == total
        } else {
            succeeded >= threshold->0
        };
        let impossible = if policy == "all_succeeded"@ {
            terminal > succeeded
        } else if policy == "all_terminal"@ {
            false
        } else {
            terminal == total && succeeded < threshold->0
        };
        let failure = map[id].failure_policy@;
        if ready {
            Ok(DependencyResolution::Ready)
        } else if !impossible {
            Ok(DependencyResolution::Blocked)
        } else if failure == "skip_dependents"@ || failure == "continue_independent"@ {
            Ok(DependencyResolution::Skip)
        } else if failure == "fail_fast"@ {
            Ok(DependencyResolution::FailFast)
        } else {
            Err(GraphError::InvalidFailurePolicy)
        }
    }
}

/// Ids strictly increase along the sequence.
pub open spec fn spec_sorted(s: Seq<WorkflowNodeRecord>) -> bool {
    forall|i: int, j: int|
        0 <= i < j < s.len() ==> spec_str_lt(#[trigger] s[i].node_id@, #[trigger] s[j].node_id@)
}

pub proof fn lemma_sorted_distinct(s: Seq<WorkflowNodeRecord>, i: int, j: int)
    requires
        spec_sorted(s),
        0 <= i < s.len(),
        0 <= j < s.len(),
        i != j,
    ensures
        s[i].node_id@ != s[j].node_id@,
{
    lemma_str_lt_total(s[i].node_id@, s[i].node_id@);
    if i < j {
        assert(spec_str_lt(s[i].node_id@, s[j].node_id@));
    } else {
        assert(spec_str_lt(s[j].node_id@, s[i].node_id@));
    }
}

/// In a sorted sequence, the map holds exactly the listed records.
pub proof fn lemma_sorted_map(s: Seq<WorkflowNodeRecord>)
    requires
        spec_sorted(s),
    ensures
        forall|j: int|
            0 <= j < s.len() ==> #[trigger] spec_node_map(s).dom().contains(s[j].node_id@)
                && spec_node_map(s)[s[j].node_id@] == s[j],
        forall|k: Seq<char>|
            #[trigger] spec_node_map(s).dom().contains(k) ==> exists|j: int|
                0 <= j < s.len() && s[j].node_id@ == k,
    decreases s.len(),
{
    if s.len() > 0 {
        let t = s.drop_last();
        assert(spec_sorted(t));
        lemma_sorted_map(t);
        assert forall|j: int| 0 <= j < s.len() implies #[trigger] spec_node_map(s).dom().contains(
            s[j].node_id@,
        ) && spec_node_map(s)[s[j].node_id@] == s[j] by {
            if j < s.len() - 1 {
                lemma_sorted_distinct(s, j, s.len() - 1);
                assert(t[j] == s[j]);
                assert(spec_node_map(t).dom().contains(t[j].node_id@));
            }
        }
        assert forall|k: Seq<char>| #[trigger] spec_node_map(s).dom().contains(k) implies exists|
            j: int,
        | 0 <= j < s.len() && s[j].node_id@ == k by {
            if k != s.last().node_id@ {
                assert(spec_node_map(t).dom().contains(k));
                let j = choose|j: int| 0 <= j < t.len() && t[j].node_id@ == k;
                assert(s[j] == t[j]);
            }
        }
    }
}

pub proof fn lemma_incoming_extend(deps: Seq<WorkflowDependencyRecord>, i: int, id: Seq<char>)
    requires
        0 <= i < deps.len(),
    ensures
        spec_incoming(deps.take(i + 1), id) == if deps[i].node_id@ == id {
            spec_incoming(deps.take(i), id).push(deps[i])
        } else {
            spec_incoming(deps.take(i), id)
        },
{
    assert(deps.take(i + 1).drop_last() == deps.take(i));
}


/// Replacing or adding one record in a sorted sequence updates exactly that key.
pub proof fn lemma_map_put(
    old: Seq<WorkflowNodeRecord>,
    new: Seq<WorkflowNodeRecord>,
    n: WorkflowNodeRecord,
    p: int,
    back: spec_fn(int) -> int,
    fwd: spec_fn(int) -> int,
)
    requires
        spec_sorted(old),
        spec_sorted(new),
        0 <= p < new.len(),
        new[p] == n,
        forall|j: int| 0 <= j < new.len() && j != p ==> 0 <= #[trigger] back(j) < old.len() && old[back(j)] == new[j],
        forall|q: int| 0 <= q < old.len() ==> (#[trigger] old[q]).node_id@ == n.node_id@ || (0 <= fwd(q) < new.len() && new[fwd(q)] == old[q]),
    ensures
        spec_node_map(new) == spec_node_map(old).insert(n.node_id@, n),
{
    lemma_sorted_map(old);
    lemma_sorted_map(new);
    let a = spec_node_map(new);
    let b = spec_node_map(old).insert(n.node_id@, n);
    assert(a.dom().contains(new[p].node_id@));
    assert forall|k: Seq<char>| #[trigger] a.dom().contains(k) implies b.dom().contains(k) && a[k] == b[k] by {
        let j = choose|j: int| 0 <= j < new.len() && new[j].node_id@ == k;
        assert(a.dom().contains(new[j].node_id@));
        if j != p {
            let q = back(j);
            lemma_sorted_distinct(new, j, p);
            assert(spec_node_map(old).dom().contains(old[q].node_id@));
        }
    }
    assert forall|k: Seq<char>| #[trigger] b.dom().contains(k) implies a.dom().contains(k) by {
        if k != n.node_id@ {
            assert(spec_node_map(old).dom().contains(k));
            let q = choose|q: int| 0 <= q < old.len() && old[q].node_id@ == k;
            assert(old[q].node_id@ != n.node_id@);
            let j = fwd(q);
            assert(a.dom().contains(new[j].node_id@));
        }
    }
    assert(a =~= b);
}

/// Number of `true` entries.
pub open spec fn spec_count_true(s: Seq<bool>) -> nat
    decreases s.len(),
{
    if s.len() == 0 {
        0
    } else {
        spec_count_true(s.drop_last()) + if s.last() {
            1nat
        } else {
            0nat
        }
    }
}

pub proof fn lemma_count_true_bound(s: Seq<bool>)
    ensures
        spec_count_true(s) <= s.len(),
        spec_count_true(s) == s.len() ==> forall|i: int| 0 <= i < s.len() ==> #[trigger] s[i],
    decreases s.len(),
{
    if s.len() > 0 {
        lemma_count_true_bound(s.drop_last());
        assert forall|i: int| 0 <= i < s.len() && spec_count_true(s) == s.len() implies #[trigger] s[i] by {
            if i < s.len() - 1 {
                assert(s.drop_last()[i] == s[i]);
            }
        }
    }
}

pub proof fn lemma_count_true_set(s: Seq<bool>, v: int)
    requires
        0 <= v < s.len(),
        !s[v],
    ensures
        spec_count_true(s.update(v, true)) == spec_count_true(s) + 1,
    decreases s.len(),
{
    let t = s.update(v, true);
    if v == s.len() - 1 {
        assert(t.drop_last() == s.drop_last());
    } else {
        assert(t.drop_last() == s.drop_last().update(v, true));
        lemma_count_true_set(s.drop_last(), v);
    }
}

/// Edges of an index graph, read through the node list.
pub open spec fn spec_edges_match(
    nodes: Seq<WorkflowNodeRecord>,
    deps: Seq<WorkflowDependencyRecord>,
    from: Seq<usize>,
    to: Seq<usize>,
) -> bool {
    &&& from.len() == deps.len()
    &&& to.len() == deps.len()
    &&& forall|e: int|
        0 <= e < deps.len() ==> {
            &&& (#[trigger] from[e]) < nodes.len()
            &&& to[e] < nodes.len()
            &&& nodes[from[e] as int].node_id@ == deps[e].node_id@
            &&& nodes[to[e] as int].node_id@ == deps[e].depends_on_node_id@
        }
}

/// No unfinished node of rank at most `b` can exist when each has an unfinished dependency.
pub proof fn lemma_no_descent(
    nodes: Seq<WorkflowNodeRecord>,
    deps: Seq<WorkflowDependencyRecord>,
    from: Seq<usize>,
    to: Seq<usize>,
    done: Seq<bool>,
    rank: spec_fn(Seq<char>) -> nat,
    b: nat,
)
    requires
        spec_edges_match(nodes, deps, from, to),
        done.len() == nodes.len(),
        spec_ranked_by(deps, rank),
        forall|v: int|
            0 <= v < nodes.len() && !#[trigger] done[v] ==> exists|e: int|
                0 <= e < deps.len() && from[e] == v && !done[to[e] as int],
    ensures
        forall|v: int| 0 <= v < nodes.len() && !#[trigger] done[v] ==> rank(nodes[v].node_id@) > b,
    decreases b,
{
    assert forall|v: int| 0 <= v < nodes.len() && !#[trigger] done[v] implies rank(nodes[v].node_id@) > b by {
        let e = choose|e: int| 0 <= e < deps.len() && from[e] == v && !done[to[e] as int];
        assert(rank(deps[e].node_id@) > rank(deps[e].depends_on_node_id@));
        let u = to[e] as int;
        assert(nodes[u].node_id@ == deps[e].depends_on_node_id@);
        if b > 0 {
            lemma_no_descent(nodes, deps, from, to, done, rank, (b - 1) as nat);
            assert(!done[u]);
        }
    }
}



proof fn lemma_put_replace(old: Seq<WorkflowNodeRecord>, new: Seq<WorkflowNodeRecord>, node: WorkflowNodeRecord, p: int)
    requires
        spec_sorted(old),
        0 <= p < old.len(),
        old[p].node_id@ == node.node_id@,
        new == old.update(p, node),
    ensures
        spec_sorted(new),
        spec_node_map(new) == spec_node_map(old).insert(node.node_id@, node),
{
    assert forall|a: int, b: int| 0 <= a < b < new.len() implies spec_str_lt(
        #[trigger] new[a].node_id@,
        #[trigger] new[b].node_id@,
    ) by {
        assert(spec_str_lt(old[a].node_id@, old[b].node_id@));
    }
    lemma_map_put(old, new, node, p, |j: int| j, |q: int| q);
}

proof fn lemma_put_insert(old: Seq<WorkflowNodeRecord>, new: Seq<WorkflowNodeRecord>, node: WorkflowNodeRecord, p: int)
    requires
        spec_sorted(old),
        0 <= p <= old.len(),
        forall|q: int| 0 <= q < p ==> spec_str_lt(#[trigger] old[q].node_id@, node.node_id@),
        p < old.len() ==> spec_str_lt(node.node_id@, old[p].node_id@),
        new == old.insert(p, node),
    ensures
        spec_sorted(new),
        spec_node_map(new) == spec_node_map(old).insert(node.node_id@, node),
{
    let key = node.node_id@;
    assert forall|a: int, b: int| 0 <= a < b < new.len() implies spec_str_lt(
        #[trigger] new[a].node_id@,
        #[trigger] new[b].node_id@,
    ) by {
        if b < p {
            assert(spec_str_lt(old[a].node_id@, old[b].node_id@));
        } else if b == p {
            assert(spec_str_lt(old[a].node_id@, key));
        } else if a < p {
            assert(spec_str_lt(old[a].node_id@, key));
            if b - 1 > p {
                assert(spec_str_lt(old[p].node_id@, old[b - 1].node_id@));
                lemma_str_lt_trans(key, old[p].node_id@, old[b - 1].node_id@);
            }
            lemma_str_lt_trans(old[a].node_id@, key, old[b - 1].node_id@);
        } else if a == p {
            if b - 1 > p {
                assert(spec_str_lt(old[p].node_id@, old[b - 1].node_id@));
                lemma_str_lt_trans(key, old[p].node_id@, old[b - 1].node_id@);
            }
        } else {
            assert(spec_str_lt(old[a - 1].node_id@, old[b - 1].node_id@));
        }
    }
    lemma_map_put(
        old,
        new,
        node,
        p,
        |j: int| if j < p { j } else { j - 1 },
        |q: int| if q < p { q } else { q + 1 },
    );
}

proof fn lemma_all_true_count(s: Seq<bool>)
    requires
        forall|v: int| 0 <= v < s.len() ==> #[trigger] s[v],
    ensures
        spec_count_true(s) == s.len(),
    decreases s.len(),
{
    if s.len() > 0 {
        lemma_all_true_count(s.drop_last());
    }
}

/// Orders records by id; a later record with an id already seen replaces the earlier one.
fn sort_nodes(nodes: Vec<WorkflowNodeRecord>) -> (sorted: Vec<WorkflowNodeRecord>)
    ensures
        spec_sorted(sorted@),
        spec_node_map(sorted@) == spec_node_map(nodes@),
{
    let ghost input = nodes@;
    let mut rest = nodes;
    let mut sorted: Vec<WorkflowNodeRecord> = Vec::new();
    let ghost mut i: int = 0;
    while rest.len() > 0
        invariant
            0 <= i <= input.len(),
            rest@ == input.skip(i),
            spec_sorted(sorted@),
            spec_node_map(sorted@) == spec_node_map(input.take(i)),
        decreases rest.len(),
    {
        let node = rest.remove(0);
        assert(node == input[i]);
        let key = chars_of(node.node_id.as_str());
        let mut p: usize = 0;
        while p < sorted.len() && chars_lt(&chars_of(sorted[p].node_id.as_str()), &key)
            invariant
                p <= sorted.len(),
                key@ == node.node_id@,
                forall|q: int| 0 <= q < p ==> spec_str_lt(#[trigger] sorted@[q].node_id@, key@),
            decreases sorted.len() - p,
        {
            p += 1;
        }
        let ghost old_sorted = sorted@;
        proof {
            if p < sorted.len() {
                lemma_str_lt_total(sorted@[p as int].node_id@, key@);
            }
        }
        if p < sorted.len() && str_eq(sorted[p].node_id.as_str(), node.node_id.as_str()) {
            sorted.set(p, node);
            proof {
                lemma_put_replace(old_sorted, sorted@, node, p as int);
            }
        } else {
            sorted.insert(p, node);
            proof {
                lemma_put_insert(old_sorted, sorted@, node, p as int);
            }
        }
        proof {
            assert(input.take(i + 1).drop_last() == input.take(i));
            assert(input.take(i + 1).last() == node);
            i = i + 1;
            assert(rest@ == input.skip(i));
        }
    }
    assert(input.take(i) == input);
    sorted
}

/// Position of the record with id `id`.
fn position_of(nodes: &Vec<WorkflowNodeRecord>, id: &str) -> (r: Option<usize>)
    ensures
        match r {
            Some(p) => p < nodes@.len() && nodes@[p as int].node_id@ == id@,
            None => forall|j: int| 0 <= j < nodes@.len() ==> (#[trigger] nodes@[j]).node_id@ != id@,
        },
{
    let mut p: usize = 0;
    while p < nodes.len()
        invariant
            p <= nodes.len(),
            forall|j: int| 0 <= j < p ==> (#[trigger] nodes@[j]).node_id@ != id@,
        decreases nodes.len() - p,
    {
        if str_eq(nodes[p].node_id.as_str(), id) {
            return Some(p);
        }
        p += 1;
    }
    None
}

/// Whether every edge of node `v` ends at a finished node.
fn targets_done(v: usize, from: &Vec<usize>, to: &Vec<usize>, done: &Vec<bool>) -> (r: bool)
    requires
        from@.len() == to@.len(),
        forall|e: int| 0 <= e < to@.len() ==> (#[trigger] to@[e]) < done@.len(),
    ensures
        r == forall|e: int| 0 <= e < from@.len() && #[trigger] from@[e] == v ==> done@[to@[e] as int],
{
    let mut e: usize = 0;
    while e < from.len()
        invariant
            e <= from.len(),
            from@.len() == to@.len(),
            forall|x: int| 0 <= x < to@.len() ==> (#[trigger] to@[x]) < done@.len(),
            forall|x: int| 0 <= x < e && #[trigger] from@[x] == v ==> done@[to@[x] as int],
        decreases from.len() - e,
    {
        if from[e] == v && !done[to[e]] {
            return false;
        }
        e += 1;
    }
    true
}

/// Peels nodes whose dependencies are all peeled; the graph is acyclic iff all nodes peel.
#[verifier::spinoff_prover]
#[verifier::rlimit(40)]
fn check_acyclic(
    nodes: &Vec<WorkflowNodeRecord>,
    deps: &Vec<WorkflowDependencyRecord>,
    from: &Vec<usize>,
    to: &Vec<usize>,
) -> (r: bool)
    requires
        spec_sorted(nodes@),
        spec_edges_match(nodes@, deps@, from@, to@),
    ensures
        r == spec_acyclic(deps@),
{
    let n = nodes.len();
    let mut done: Vec<bool> = Vec::new();
    let mut rank: Vec<usize> = Vec::new();
    let mut k: usize = 0;
    while k < n
        invariant
            k <= n,
            n == nodes@.len(),
            done@.len() == k,
            rank@.len() == k,
            forall|v: int| 0 <= v < k ==> !#[trigger] done@[v],
        decreases n - k,
    {
        done.push(false);
        rank.push(0);
        k += 1;
    }
    assert(spec_count_true(done@) == 0) by {
        lemma_zero_count(done@);
    }
    let mut count: usize = 0;
    while count < n
        invariant
            n == nodes@.len(),
            spec_sorted(nodes@),
            spec_edges_match(nodes@, deps@, from@, to@),
            done@.len() == n,
            rank@.len() == n,
            count <= n,
            spec_count_true(done@) == count,
            forall|v: int| 0 <= v < n && #[trigger] done@[v] ==> rank@[v] < count,
            forall|e: int|
                0 <= e < deps@.len() && done@[#[trigger] from@[e] as int] ==> done@[to@[e] as int]
                    && rank@[to@[e] as int] < rank@[from@[e] as int],
        decreases n - count,
    {
        proof {
            assert forall|e: int| 0 <= e < to@.len() implies (#[trigger] to@[e]) < n by {
                assert(from@[e] < nodes@.len());
            }
        }
        let chosen = match find_ready(n, from, to, &done) {
            Some(v) => v,
            None => {
                proof {
                    if forall|x: int| 0 <= x < n ==> #[trigger] done@[x] {
                        lemma_all_true_count(done@);
                    }
                    let w = choose|w: int| 0 <= w < n && !done@[w];
                    lemma_stuck(nodes@, deps@, from@, to@, done@, w);
                }
                return false;
            },
        };
        let ghost old_done = done@;
        let ghost old_rank = rank@;
        done.set(chosen, true);
        rank.set(chosen, count);
        proof {
            lemma_count_true_set(old_done, chosen as int);
            assert forall|e: int|
                0 <= e < deps@.len() && done@[#[trigger] from@[e] as int] implies done@[to@[e] as int]
                && rank@[to@[e] as int] < rank@[from@[e] as int] by {
                if from@[e] == chosen {
                    assert(old_done[to@[e] as int]);
                } else {
                    assert(old_done[from@[e] as int]);
                }
            }
        }
        count += 1;
    }
    proof {
        lemma_count_true_bound(done@);
        lemma_peeled_ranked(nodes@, deps@, from@, to@, done@, rank@);
    }
    true
}


/// A node whose dependencies are all finished, if an unfinished one exists.
fn find_ready(n: usize, from: &Vec<usize>, to: &Vec<usize>, done: &Vec<bool>) -> (r: Option<usize>)
    requires
        done@.len() == n,
        from@.len() == to@.len(),
        forall|e: int| 0 <= e < to@.len() ==> (#[trigger] to@[e]) < n,
    ensures
        match r {
            Some(v) => v < n && !done@[v as int] && forall|e: int|
                0 <= e < from@.len() && #[trigger] from@[e] == v ==> done@[to@[e] as int],
            None => forall|w: int|
                0 <= w < n && !#[trigger] done@[w] ==> exists|e: int|
                    0 <= e < from@.len() && from@[e] == w && !done@[to@[e] as int],
        },
{
    let mut v: usize = 0;
    while v < n
        invariant
            v <= n,
            done@.len() == n,
            from@.len() == to@.len(),
            forall|e: int| 0 <= e < to@.len() ==> (#[trigger] to@[e]) < n,
            forall|w: int|
                0 <= w < v && !#[trigger] done@[w] ==> exists|e: int|
                    0 <= e < from@.len() && from@[e] == w && !done@[to@[e] as int],
        decreases n - v,
    {
        if !done[v] && targets_done(v, from, to, done) {
            return Some(v);
        }
        v += 1;
    }
    None
}

proof fn lemma_stuck(
    nodes: Seq<WorkflowNodeRecord>,
    deps: Seq<WorkflowDependencyRecord>,
    from: Seq<usize>,
    to: Seq<usize>,
    done: Seq<bool>,
    w: int,
)
    requires
        spec_edges_match(nodes, deps, from, to),
        done.len() == nodes.len(),
        0 <= w < nodes.len(),
        !done[w],
        forall|v: int|
            0 <= v < nodes.len() && !#[trigger] done[v] ==> exists|e: int|
                0 <= e < from.len() && from[e] == v && !done[to[e] as int],
    ensures
        !spec_acyclic(deps),
{
    if spec_acyclic(deps) {
        let rk = choose|rk: spec_fn(Seq<char>) -> nat| spec_ranked_by(deps, rk);
        lemma_no_descent(nodes, deps, from, to, done, rk, rk(nodes[w].node_id@));
    }
}

proof fn lemma_peeled_ranked(
    nodes: Seq<WorkflowNodeRecord>,
    deps: Seq<WorkflowDependencyRecord>,
    from: Seq<usize>,
    to: Seq<usize>,
    done: Seq<bool>,
    rank: Seq<usize>,
)
    requires
        spec_sorted(nodes),
        spec_edges_match(nodes, deps, from, to),
        done.len() == nodes.len(),
        rank.len() == nodes.len(),
        forall|v: int| 0 <= v < nodes.len() ==> #[trigger] done[v],
        forall|e: int|
            0 <= e < deps.len() && done[#[trigger] from[e] as int] ==> done[to[e] as int]
                && rank[to[e] as int] < rank[from[e] as int],
    ensures
        spec_acyclic(deps),
{
    let n = nodes.len();
    let rk = |key: Seq<char>|
        if exists|v: int| 0 <= v < n && nodes[v].node_id@ == key {
            rank[choose|v: int| 0 <= v < n && nodes[v].node_id@ == key] as nat
        } else {
            0nat
        };
    assert forall|e: int| 0 <= e < deps.len() implies rk(#[trigger] deps[e].node_id@) > rk(
        deps[e].depends_on_node_id@,
    ) by {
        let f = from[e] as int;
        let t = to[e] as int;
        assert(done[f]);
        let vf = choose|v: int| 0 <= v < n && nodes[v].node_id@ == deps[e].node_id@;
        let vt = choose|v: int| 0 <= v < n && nodes[v].node_id@ == deps[e].depends_on_node_id@;
        if vf != f {
            lemma_sorted_distinct(nodes, vf, f);
        }
        if vt != t {
            lemma_sorted_distinct(nodes, vt, t);
        }
    }
    assert(spec_ranked_by(deps, rk));
}

proof fn lemma_zero_count(s: Seq<bool>)
    requires
        forall|v: int| 0 <= v < s.len() ==> !#[trigger] s[v],
    ensures
        spec_count_true(s) == 0,
    decreases s.len(),
{
    if s.len() > 0 {
        lemma_zero_count(s.drop_last());
    }
}

/// Validated graph: nodes sorted by id, dependencies resolved to node positions.
pub struct WorkflowGraph {
    nodes: Vec<WorkflowNodeRecord>,
    dependencies: Vec<WorkflowDependencyRecord>,
    dep_from: Vec<usize>,
    dep_to: Vec<usize>,
}

impl WorkflowGraph {
    /// Nodes keyed by id.
    pub closed spec fn node_map(&self) -> Map<Seq<char>, WorkflowNodeRecord> {
        spec_node_map(self.nodes@)
    }

    /// Nodes in ascending id order.
    pub closed spec fn sorted_nodes(&self) -> Seq<WorkflowNodeRecord> {
        self.nodes@
    }

    /// Persisted dependency edges in their original order.
    pub closed spec fn dependencies(&self) -> Seq<WorkflowDependencyRecord> {
        self.dependencies@
    }

    /// Internal consistency: sorted unique nodes, resolved edges, no cycle.
    #[verifier::type_invariant]
    closed spec fn wf(&self) -> bool {
        &&& spec_sorted(self.nodes@)
        &&& self.dep_from@.len() == self.dependencies@.len()
        &&& self.dep_to@.len() == self.dependencies@.len()
        &&& forall|e: int|
            0 <= e < self.dependencies@.len() ==> {
                &&& (#[trigger] self.dep_from@[e]) < self.nodes@.len()
                &&& self.dep_to@[e] < self.nodes@.len()
                &&& self.nodes@[self.dep_from@[e] as int].node_id@
                    == self.dependencies@[e].node_id@
                &&& self.nodes@[self.dep_to@[e] as int].node_id@
                    == self.dependencies@[e].depends_on_node_id@
            }
        &&& spec_acyclic(self.dependencies@)
    }

    /// Builds and validates the graph: unknown endpoints and dependency cycles are refused.
    pub fn new(nodes: Vec<WorkflowNodeRecord>, dependencies: Vec<WorkflowDependencyRecord>) -> (r:
        Result<Self, GraphError>)
        ensures
            match r {
                Ok(g) => {
                    &&& spec_graph_new(nodes@, dependencies@) == Ok::<(), GraphError>(())
                    &&& g.node_map() == spec_node_map(nodes@)
                    &&& g.dependencies() == dependencies@
                },
                Err(e) => spec_graph_new(nodes@, dependencies@) == Err::<(), GraphError>(e),
            },
    {
        let sorted = sort_nodes(nodes);
        proof {
            lemma_sorted_map(sorted@);
        }
        let mut dep_from: Vec<usize> = Vec::new();
        let mut dep_to: Vec<usize> = Vec::new();
        let mut e: usize = 0;
        while e < dependencies.len()
            invariant
                e <= dependencies.len(),
                spec_sorted(sorted@),
                spec_node_map(sorted@) == spec_node_map(nodes@),
                spec_edges_match(sorted@, dependencies@.take(e as int), dep_from@, dep_to@),
            decreases dependencies.len() - e,
        {
            let f = position_of(&sorted, dependencies[e].node_id.as_str());
            let t = position_of(&sorted, dependencies[e].depends_on_node_id.as_str());
            match (f, t) {
                (Some(f), Some(t)) => {
                    dep_from.push(f);
                    dep_to.push(t);
                    proof {
                        let d = dependencies@.take(e + 1);
                        assert forall|x: int| 0 <= x < d.len() implies {
                            &&& (#[trigger] dep_from@[x]) < sorted@.len()
                            &&& dep_to@[x] < sorted@.len()
                            &&& sorted@[dep_from@[x] as int].node_id@ == d[x].node_id@
                            &&& sorted@[dep_to@[x] as int].node_id@ == d[x].depends_on_node_id@
                        } by {
                            if x < e {
                                assert(dependencies@.take(e as int)[x] == d[x]);
                            }
                        }
                    }
                },
                _ => {
                    proof {
                        lemma_sorted_map(sorted@);
                        let d = dependencies@[e as int];
                        if spec_deps_known(spec_node_map(nodes@), dependencies@) {
                            assert(spec_node_map(sorted@).dom().contains(d.node_id@));
                            assert(spec_node_map(sorted@).dom().contains(d.depends_on_node_id@));
                        }
                    }
                    return Err(GraphError::UnknownNode);
                },
            }
            e += 1;
        }
        assert(dependencies@.take(dependencies.len() as int) == dependencies@);
        proof {
            assert forall|i: int| 0 <= i < dependencies@.len() implies spec_node_map(nodes@).dom().contains(
                #[trigger] dependencies@[i].node_id@,
            ) && spec_node_map(nodes@).dom().contains(dependencies@[i].depends_on_node_id@) by {
                let f = dep_from@[i] as int;
                let t = dep_to@[i] as int;
                assert(spec_node_map(sorted@).dom().contains(sorted@[f].node_id@));
                assert(spec_node_map(sorted@).dom().contains(sorted@[t].node_id@));
            }
        }
        if !check_acyclic(&sorted, &dependencies, &dep_from, &dep_to) {
            return Err(GraphError::Cycle);
        }
        Ok(WorkflowGraph { nodes: sorted, dependencies, dep_from, dep_to })
    }

    /// The node with this id, if any.
    pub fn node(&self, node_id: &str) -> (r: Option<&WorkflowNodeRecord>)
        ensures
            match r {
                Some(n) => self.node_map().dom().contains(node_id@) && *n == self.node_map()[node_id@],
                None => !self.node_map().dom().contains(node_id@),
            },
    {
        proof {
            use_type_invariant(self);
            lemma_sorted_map(self.nodes@);
        }
        match position_of(&self.nodes, node_id) {
            Some(p) => {
                assert(spec_node_map(self.nodes@).dom().contains(self.nodes@[p as int].node_id@));
                Some(&self.nodes[p])
            },
            None => None,
        }
    }

    /// All nodes in ascending id order.
    pub fn nodes(&self) -> (r: &Vec<WorkflowNodeRecord>)
        ensures
            r@ == self.sorted_nodes(),
            spec_sorted(r@),
            spec_node_map(r@) == self.node_map(),
    {
        proof {
            use_type_invariant(self);
        }
        &self.nodes
    }

    /// Resolves the dependency policy of one node against its upstream statuses.
    #[verifier::loop_isolation(false)]
    pub fn resolve(&self, node_id: &str) -> (r: Result<DependencyResolution, GraphError>)
        ensures
            r == spec_resolve(self.node_map(), self.dependencies(), node_id@),
    {
        proof {
            use_type_invariant(self);
            lemma_sorted_map(self.nodes@);
        }
        let ghost map = self.node_map();
        let ghost deps = self.dependencies@;
        let ghost id = node_id@;
        let idx = match position_of(&self.nodes, node_id) {
            Some(p) => p,
            None => {
                return Err(GraphError::UnknownNode);
            },
        };
        assert(map.dom().contains(id)) by {
            assert(spec_node_map(self.nodes@).dom().contains(self.nodes@[idx as int].node_id@));
        }
        let mut inc: Vec<usize> = Vec::new();
        let mut e: usize = 0;
        while e < self.dependencies.len()
            invariant
                e <= deps.len(),
                deps == self.dependencies@,
                idx < self.nodes@.len(),
                self.nodes@[idx as int].node_id@ == id,
                spec_sorted(self.nodes@),
                self.dep_from@.len() == deps.len(),
                forall|x: int|
                    0 <= x < deps.len() ==> (#[trigger] self.dep_from@[x]) < self.nodes@.len()
                        && self.nodes@[self.dep_from@[x] as int].node_id@ == deps[x].node_id@,
                forall|k: int| 0 <= k < inc@.len() ==> (#[trigger] inc@[k]) < deps.len(),
                inc@.map_values(|x: usize| deps[x as int]) == spec_incoming(deps.take(e as int), id),
            decreases deps.len() - e,
        {
            proof {
                lemma_incoming_extend(deps, e as int, id);
                let f = self.dep_from@[e as int] as int;
                if f != idx {
                    lemma_sorted_distinct(self.nodes@, f, idx as int);
                }
            }
            if self.dep_from[e] == idx {
                let ghost before = inc@;
                inc.push(e);
                assert(inc@.map_values(|x: usize| deps[x as int]) =~= before.map_values(
                    |x: usize| deps[x as int],
                ).push(deps[e as int]));
            }
            e += 1;
        }
        assert(deps.take(deps.len() as int) == deps);
        let ghost incoming = spec_incoming(deps, id);
        assert(incoming.len() == inc@.len());
        if inc.len() == 0 {
            return Ok(DependencyResolution::Ready);
        }
        let first = &self.dependencies[inc[0]];
        assert(incoming[0] == *first);
        let mut k: usize = 0;
        while k < inc.len()
            invariant
                k <= inc@.len(),
                incoming.len() == inc@.len(),
                forall|j: int| 0 <= j < inc@.len() ==> (#[trigger] inc@[j]) < deps.len(),
                forall|j: int| 0 <= j < inc@.len() ==> incoming[j] == deps[#[trigger] inc@[j] as int],
                deps == self.dependencies@,
                incoming[0] == *first,
                forall|j: int| 0 <= j < k ==> (#[trigger] incoming[j]).policy@ == first.policy@,
            decreases inc.len() - k,
        {
            assert(incoming[k as int] == deps[inc@[k as int] as int]);
            if !str_eq(self.dependencies[inc[k]].policy.as_str(), first.policy.as_str()) {
                assert(incoming[k as int].policy@ != incoming[0].policy@);
                return Err(GraphError::MixedPolicies);
            }
            k += 1;
        }
        assert forall|x: int| 0 <= x < deps.len() implies (#[trigger] self.dep_to@[x]) < self.nodes@.len()
            && self.nodes@[self.dep_to@[x] as int].node_id@ == deps[x].depends_on_node_id@ by {
            assert(self.dep_from@[x] < self.nodes@.len());
        }
        let mut succeeded: usize = 0;
        let mut terminal: usize = 0;
        let mut k: usize = 0;
        while k < inc.len()
            invariant
                k <= inc@.len(),
                incoming.len() == inc@.len(),
                forall|j: int| 0 <= j < inc@.len() ==> (#[trigger] inc@[j]) < deps.len(),
                forall|j: int| 0 <= j < inc@.len() ==> incoming[j] == deps[#[trigger] inc@[j] as int],
                deps == self.dependencies@,
                map == spec_node_map(self.nodes@),
                spec_sorted(self.nodes@),
                self.dep_to@.len() == deps.len(),
                forall|x: int|
                    0 <= x < deps.len() ==> (#[trigger] self.dep_to@[x]) < self.nodes@.len()
                        && self.nodes@[self.dep_to@[x] as int].node_id@ == deps[x].depends_on_node_id@,
                succeeded as nat == spec_count_succeeded(map, incoming.take(k as int)),
                terminal as nat == spec_count_terminal(map, incoming.take(k as int)),
                succeeded <= k,
                terminal <= k,
            decreases inc.len() - k,
        {
            let t = self.dep_to[inc[k]];
            let status = self.nodes[t].status;
            proof {
                lemma_sorted_map(self.nodes@);
                assert(spec_node_map(self.nodes@).dom().contains(self.nodes@[t as int].node_id@));
                assert(incoming.take(k + 1).drop_last() == incoming.take(k as int));
                assert(map[incoming[k as int].depends_on_node_id@].status == status);
            }
            if status == WorkflowNodeStatus::Succeeded {
                succeeded += 1;
            }
            if is_terminal(status) {
                terminal += 1;
            }
            k += 1;
        }
        assert(incoming.take(inc.len() as int) == incoming);
        let total = inc.len();
        let all_succeeded = str_eq(first.policy.as_str(), "all_succeeded");
        let all_terminal = str_eq(first.policy.as_str(), "all_terminal");
        let at_least = str_eq(first.policy.as_str(), "at_least");
        if !all_succeeded && !all_terminal && !at_least {
            return Err(GraphError::InvalidPolicy);
        }
        let mut threshold: usize = 0;
        if at_least {
            match first.at_least {
                Some(t) => {
                    threshold = t as usize;
                },
                None => {
                    return Err(GraphError::InvalidPolicy);
                },
            }
        }
        let ready = if all_succeeded {
            succeeded == total
        } else if all_terminal {
            terminal == total
        } else {
            succeeded >= threshold
        };
        if ready {
            return Ok(DependencyResolution::Ready);
        }
        let impossible = if all_succeeded {
            terminal > succeeded
        } else if all_terminal {
            false
        } else {
            terminal == total && succeeded < threshold
        };
        if !impossible {
            return Ok(DependencyResolution::Blocked);
        }
        let node = &self.nodes[idx];
        assert(map[id] == *node) by {
            assert(spec_node_map(self.nodes@).dom().contains(self.nodes@[idx as int].node_id@));
        }
        if str_eq(node.failure_policy.as_str(), "skip_dependents") || str_eq(
            node.failure_policy.as_str(),
            "continue_independent",
        ) {
            Ok(DependencyResolution::Skip)
        } else if str_eq(node.failure_policy.as_str(), "fail_fast") {
            Ok(DependencyResolution::FailFast)
        } else {
            Err(GraphError::InvalidFailurePolicy)
        }
    }
}

} // verus!
