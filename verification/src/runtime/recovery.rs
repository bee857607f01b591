//! Startup reconciliation of runs whose lease expired: the decisions taken for
//! each run, node thread and unfinished attempt.
use vstd::prelude::*;

use crate::digest::lemma_hex_digit_ascii;
use crate::digest::lemma_hex_digits;
use crate::digest::spec_hex;

use crate::text::spec_opt_str;
use vstd::string::StrSliceExecFns;
use vstd::string::StringSliceAdditionalSpecFns;

use crate::json::spec_get_str;
use crate::runtime::graph::is_terminal;
use crate::runtime::graph::spec_is_terminal;
use crate::runtime::graph::WorkflowNodeRecord;
use crate::runtime::node_host::NodeTurnStatus;
use crate::runtime::node_host::RecoveredTurnState;
use crate::runtime::records::WorkflowEffectRecord;
use crate::runtime::records::WorkflowEffectState;
use crate::runtime::records::WorkflowNodeAttemptRecord;
use crate::runtime::records::WorkflowNodeAttemptStatus;
use crate::runtime::records::WorkflowRunStatus;
use crate::text::owned;
use crate::text::str_eq;

verus! {

/// What a waiting run waits for.
#[derive(Clone, Debug, PartialEq, Eq)]
pub enum WakeCondition {
    /// Milliseconds since the Unix epoch.
    RetryAt(u128),
    Cancellation,
    NodeTerminal(String),
    NodesTerminal(Vec<String>),
    HumanInteraction(String),
}

/// Counters of one recovery pass.
#[derive(Clone, Debug, PartialEq, Eq)]
pub struct RecoveryReport {
    pub inspected_runs: usize,
    pub repaired_thread_bindings: usize,
    pub reconciled_terminal_attempts: usize,
    pub interrupted_attempts: usize,
    pub needs_operator_runs: usize,
    pub driven_runs: usize,
}

/// One thing a recovery pass counts.
#[derive(Clone, Copy, Debug, PartialEq, Eq, Structural)]
pub enum RecoveryTally {
    Inspected,
    RepairedBinding,
    ReconciledTerminal,
    Interrupted,
    NeedsOperator,
    Driven,
}

impl Default for RecoveryReport {
    fn default() -> (r: Self)
        ensures
            r.inspected_runs == 0 && r.repaired_thread_bindings == 0
                && r.reconciled_terminal_attempts == 0 && r.interrupted_attempts == 0
                && r.needs_operator_runs == 0 && r.driven_runs == 0,
    {
        RecoveryReport {
            inspected_runs: 0,
            repaired_thread_bindings: 0,
            reconciled_terminal_attempts: 0,
            interrupted_attempts: 0,
            needs_operator_runs: 0,
            driven_runs: 0,
        }
    }
}

impl RecoveryReport {
    pub open spec fn spec_count(&self, tally: RecoveryTally) -> usize {
        match tally {
            RecoveryTally::Inspected => self.inspected_runs,
            RecoveryTally::RepairedBinding => self.repaired_thread_bindings,
            RecoveryTally::ReconciledTerminal => self.reconciled_terminal_attempts,
            RecoveryTally::Interrupted => self.interrupted_attempts,
            RecoveryTally::NeedsOperator => self.needs_operator_runs,
            RecoveryTally::Driven => self.driven_runs,
        }
    }

    /// Adds one to the counter of `tally` and leaves the others alone.
    pub fn record(&mut self, tally: RecoveryTally)
        requires
            old(self).spec_count(tally) < usize::MAX,
        ensures
            final(self).spec_count(tally) == old(self).spec_count(tally) + 1,
            forall|t: RecoveryTally| t != tally ==> final(self).spec_count(t) == old(self).spec_count(t),
    {
        match tally {
            RecoveryTally::Inspected => self.inspected_runs = self.inspected_runs + 1,
            RecoveryTally::RepairedBinding => self.repaired_thread_bindings = self.repaired_thread_bindings + 1,
            RecoveryTally::ReconciledTerminal => self.reconciled_terminal_attempts = self.reconciled_terminal_attempts + 1,
            RecoveryTally::Interrupted => self.interrupted_attempts = self.interrupted_attempts + 1,
            RecoveryTally::NeedsOperator => self.needs_operator_runs = self.needs_operator_runs + 1,
            RecoveryTally::Driven => self.driven_runs = self.driven_runs + 1,
        }
    }
}

#[derive(Clone, Debug, PartialEq, Eq)]
pub enum WorkflowRecoveryError {
    Store(String),
    Identifier(String),
    Registry(String),
    Driver(String),
    Host(String),
    Serialization(String),
    Lark(String),
    InvalidHash,
    InvalidThread(String),
    InvalidWake,
}

/// Why a run was handed to an operator.
#[derive(Clone, Copy, Debug, PartialEq, Eq, Structural)]
pub enum OperatorReason {
    DefinitionUnavailable,
    AmbiguousEffect,
    DuplicateNodeThreads,
    OrphanThreadMapping,
    OrphanNodeThread,
    PreparedTurnConflict,
}

pub open spec fn spec_reason_code(reason: OperatorReason) -> Seq<char> {
    match reason {
        OperatorReason::DefinitionUnavailable => "definition_unavailable"@,
        OperatorReason::AmbiguousEffect => "ambiguous_effect"@,
        OperatorReason::DuplicateNodeThreads => "duplicate_node_threads"@,
        OperatorReason::OrphanThreadMapping => "orphan_thread_mapping"@,
        OperatorReason::OrphanNodeThread => "orphan_node_thread"@,
        OperatorReason::PreparedTurnConflict => "prepared_turn_conflict"@,
    }
}

impl OperatorReason {
    /// The error code recorded on the run.
    pub fn code(&self) -> (r: &'static str)
        ensures
            r@ == spec_reason_code(*self),
    {
        match self {
            OperatorReason::DefinitionUnavailable => "definition_unavailable",
            OperatorReason::AmbiguousEffect => "ambiguous_effect",
            OperatorReason::DuplicateNodeThreads => "duplicate_node_threads",
            OperatorReason::OrphanThreadMapping => "orphan_thread_mapping",
            OperatorReason::OrphanNodeThread => "orphan_node_thread",
            OperatorReason::PreparedTurnConflict => "prepared_turn_conflict",
        }
    }
}

/// How reconciling one run ended.
#[derive(Clone, Copy, Debug, PartialEq, Eq, Structural)]
pub enum ReconcileOutcome {
    ReadyToDrive,
    Waiting,
    NeedsOperator,
}

// ---------------------------------------------------------------- wake

/// The first node with id `id` at or after position `i`.
pub open spec fn spec_find_node(nodes: Seq<WorkflowNodeRecord>, id: Seq<char>, i: int) -> Option<
    WorkflowNodeRecord,
>
    decreases nodes.len() - i,
{
    if i < 0 || i >= nodes.len() {
        None
    } else if nodes[i].node_id@ == id {
        Some(nodes[i])
    } else {
        spec_find_node(nodes, id, i + 1)
    }
}

/// The node `id` is known and terminal.
pub open spec fn spec_node_done(nodes: Seq<WorkflowNodeRecord>, id: Seq<char>) -> bool {
    match spec_find_node(nodes, id, 0) {
        Some(node) => spec_is_terminal(node.status),
        None => false,
    }
}

/// Whether a run's wake condition holds; `None` when the clock reads before the epoch.
pub open spec fn spec_wake_ready(
    wake: Option<WakeCondition>,
    cancellation_requested: bool,
    nodes: Seq<WorkflowNodeRecord>,
    now_ms: i64,
) -> Option<bool> {
    match wake {
        None => Some(true),
        Some(WakeCondition::RetryAt(at)) => if now_ms < 0 {
            None
        } else {
            Some(at <= now_ms)
        },
        Some(WakeCondition::Cancellation) => Some(cancellation_requested),
        Some(WakeCondition::NodeTerminal(id)) => Some(spec_node_done(nodes, id@)),
        Some(WakeCondition::NodesTerminal(ids)) => Some(
            forall|k: int| 0 <= k < ids.len() ==> #[trigger] spec_node_done(nodes, ids@[k]@),
        ),
        Some(WakeCondition::HumanInteraction(_)) => Some(false),
    }
}

fn node_done(nodes: &Vec<WorkflowNodeRecord>, id: &str) -> (r: bool)
    ensures
        r == spec_node_done(nodes@, id@),
{
    let mut i: usize = 0;
    while i < nodes.len()
        invariant
            i <= nodes.len(),
            spec_find_node(nodes@, id@, 0) == spec_find_node(nodes@, id@, i as int),
        decreases nodes.len() - i,
    {
        if str_eq(nodes[i].node_id.as_str(), id) {
            assert(spec_find_node(nodes@, id@, i as int) == Some(nodes@[i as int]));
            return is_terminal(nodes[i].status);
        }
        i += 1;
    }
    false
}

fn all_done(nodes: &Vec<WorkflowNodeRecord>, ids: &Vec<String>) -> (r: bool)
    ensures
        r == (forall|k: int| 0 <= k < ids.len() ==> #[trigger] spec_node_done(nodes@, ids@[k]@)),
{
    let mut k: usize = 0;
    while k < ids.len()
        invariant
            k <= ids.len(),
            forall|j: int| 0 <= j < k ==> #[trigger] spec_node_done(nodes@, ids@[j]@),
        decreases ids.len() - k,
    {
        if !node_done(nodes, ids[k].as_str()) {
            assert(!spec_node_done(nodes@, ids@[k as int]@));
            return false;
        }
        k += 1;
    }
    true
}

/// Whether a waiting run may be driven again.
pub fn wake_is_ready(
    wake: &Option<WakeCondition>,
    cancellation_requested: bool,
    nodes: &Vec<WorkflowNodeRecord>,
    now_ms: i64,
) -> (r: Result<bool, WorkflowRecoveryError>)
    ensures
        match spec_wake_ready(*wake, cancellation_requested, nodes@, now_ms) {
            Some(b) => r == Ok::<bool, WorkflowRecoveryError>(b),
            None => r == Err::<bool, WorkflowRecoveryError>(WorkflowRecoveryError::InvalidWake),
        },
{
    match wake {
        None => Ok(true),
        Some(WakeCondition::RetryAt(at)) => {
            if now_ms < 0 {
                Err(WorkflowRecoveryError::InvalidWake)
            } else {
                Ok(*at <= now_ms as u128)
            }
        },
        Some(WakeCondition::Cancellation) => Ok(cancellation_requested),
        Some(WakeCondition::NodeTerminal(id)) => Ok(node_done(nodes, id.as_str())),
        Some(WakeCondition::NodesTerminal(ids)) => Ok(all_done(nodes, ids)),
        Some(WakeCondition::HumanInteraction(_)) => Ok(false),
    }
}

/// A waiting run whose wake has not come stays waiting; every other run is driven.
pub fn settle(status: WorkflowRunStatus, wake_ready: bool) -> (r: ReconcileOutcome)
    ensures
        r == (if status == WorkflowRunStatus::Waiting && !wake_ready {
            ReconcileOutcome::Waiting
        } else {
            ReconcileOutcome::ReadyToDrive
        }),
{
    if status == WorkflowRunStatus::Waiting && !wake_ready {
        ReconcileOutcome::Waiting
    } else {
        ReconcileOutcome::ReadyToDrive
    }
}

// ---------------------------------------------------------------- input hash

pub open spec fn spec_hex_value(b: u8) -> Option<u8> {
    if 48 <= b <= 57 {
        Some((b - 48) as u8)
    } else if 97 <= b <= 102 {
        Some((b - 87) as u8)
    } else if 65 <= b <= 70 {
        Some((b - 55) as u8)
    } else {
        None
    }
}

/// `u8::from_str_radix` on two bytes in base 16 (a leading `+` is accepted).
pub open spec fn spec_hex_pair(a: u8, b: u8) -> Option<u8> {
    match (spec_hex_value(a), spec_hex_value(b)) {
        (Some(x), Some(y)) => Some((16 * x + y) as u8),
        (None, Some(y)) => if a == 43 {
            Some(y)
        } else {
            None
        },
        _ => None,
    }
}

/// The 32 bytes written as 64 hex digits, if `text` is that.
pub open spec fn spec_decode_hash(text: Seq<u8>) -> Option<Seq<u8>> {
    if text.len() == 64 && forall|k: int| 0 <= k < 32 ==> #[trigger] spec_hex_pair(text[2 * k], text[2 * k + 1]) is Some {
        Some(Seq::new(32, |k: int| spec_hex_pair(text[2 * k], text[2 * k + 1])->0))
    } else {
        None
    }
}

/// A digest written as lower-case hex digits, as attempt input hashes are
/// stored, decodes back to the same 32 bytes.
pub proof fn law_input_hash_round_trip(bytes: Seq<u8>)
    requires
        bytes.len() == 32,
    ensures
        spec_decode_hash(vstd::utf8::encode_utf8(spec_hex(bytes))) == Some(bytes),
{
    lemma_hex_digits(bytes);
    let h = spec_hex(bytes);
    assert forall|i: int| 0 <= i < h.len() implies '\0' <= #[trigger] h[i] <= '\u{7f}' by {
        let k = i / 2;
        lemma_hex_digit_ascii(bytes[k] / 16);
        lemma_hex_digit_ascii(bytes[k] % 16);
        if i % 2 == 0 {
            assert(i == 2 * k);
        } else {
            assert(i == 2 * k + 1);
        }
    }
    assert(vstd::utf8::is_ascii_chars(h));
    vstd::utf8::is_ascii_chars_encode_utf8(h);
    let t = vstd::utf8::encode_utf8(h);
    assert forall|k: int| 0 <= k < 32 implies #[trigger] spec_hex_pair(t[2 * k], t[2 * k + 1]) == Some(bytes[k]) by {
        lemma_hex_digit_ascii(bytes[k] / 16);
        lemma_hex_digit_ascii(bytes[k] % 16);
        assert(t[2 * k] == h[2 * k] as u8);
        assert(t[2 * k + 1] == h[2 * k + 1] as u8);
    }
    assert(Seq::new(32, |k: int| spec_hex_pair(t[2 * k], t[2 * k + 1])->0) =~= bytes);
}

fn hex_value(b: u8) -> (r: Option<u8>)
    ensures
        r == spec_hex_value(b),
{
    if 48 <= b && b <= 57 {
        Some(b - 48)
    } else if 97 <= b && b <= 102 {
        Some(b - 87)
    } else if 65 <= b && b <= 70 {
        Some(b - 55)
    } else {
        None
    }
}

fn hex_pair(a: u8, b: u8) -> (r: Option<u8>)
    ensures
        r == spec_hex_pair(a, b),
{
    match (hex_value(a), hex_value(b)) {
        (Some(x), Some(y)) => Some(16 * x + y),
        (None, Some(y)) => if a == 43 {
            Some(y)
        } else {
            None
        },
        _ => None,
    }
}

/// Decodes a stored attempt input hash.
pub fn decode_hash(value: &str) -> (r: Result<[u8; 32], WorkflowRecoveryError>)
    ensures
        match spec_decode_hash(value.spec_bytes()) {
            Some(bytes) => r is Ok && r->Ok_0@ == bytes,
            None => r == Err::<[u8; 32], WorkflowRecoveryError>(WorkflowRecoveryError::InvalidHash),
        },
{
    let text = value.as_bytes_vec();
    if text.len() != 64 {
        return Err(WorkflowRecoveryError::InvalidHash);
    }
    let mut out: [u8; 32] = [0u8; 32];
    let mut k: usize = 0;
    while k < 32
        invariant
            k <= 32,
            text@ == value.spec_bytes(),
            text.len() == 64,
            out@.len() == 32,
            forall|j: int| 0 <= j < k ==> #[trigger] spec_hex_pair(text@[2 * j], text@[2 * j + 1]) == Some(out@[j]),
        decreases 32 - k,
    {
        match hex_pair(text[2 * k], text[2 * k + 1]) {
            Some(v) => {
                out[k] = v;
            },
            None => {
                assert(spec_hex_pair(text@[2 * (k as int)], text@[2 * (k as int) + 1]) is None);
                return Err(WorkflowRecoveryError::InvalidHash);
            },
        }
        k += 1;
    }
    assert(out@ =~= Seq::new(32, |j: int| spec_hex_pair(text@[2 * j], text@[2 * j + 1])->0));
    Ok(out)
}

// ---------------------------------------------------------------- run checks

/// The first effect that leaves the run's outcome unknown.
pub open spec fn spec_has_ambiguous(effects: Seq<WorkflowEffectRecord>) -> bool {
    exists|i: int| 0 <= i < effects.len() && #[trigger] effects[i].state == WorkflowEffectState::Ambiguous
}

/// Checks made before any node: the definition must resolve and no effect may be ambiguous.
pub fn run_precheck(definition_available: bool, effects: &Vec<WorkflowEffectRecord>) -> (r: Option<
    OperatorReason,
>)
    ensures
        !definition_available ==> r == Some(OperatorReason::DefinitionUnavailable),
        definition_available && spec_has_ambiguous(effects@) ==> r == Some(
            OperatorReason::AmbiguousEffect,
        ),
        definition_available && !spec_has_ambiguous(effects@) ==> r is None,
{
    if !definition_available {
        return Some(OperatorReason::DefinitionUnavailable);
    }
    let mut i: usize = 0;
    while i < effects.len()
        invariant
            i <= effects.len(),
            definition_available,
            forall|j: int| 0 <= j < i ==> effects@[j].state != WorkflowEffectState::Ambiguous,
        decreases effects.len() - i,
    {
        if effects[i].state == WorkflowEffectState::Ambiguous {
            return Some(OperatorReason::AmbiguousEffect);
        }
        i += 1;
    }
    None
}

// ---------------------------------------------------------------- node threads

pub open spec fn spec_strs(s: Seq<String>) -> Seq<Seq<char>> {
    s.map_values(|x: String| x@)
}

/// The materialized threads that the store does not know yet, in order.
pub open spec fn spec_unknown(matches: Seq<Seq<char>>, known: Seq<Seq<char>>) -> Seq<Seq<char>>
    decreases matches.len(),
{
    if matches.len() == 0 {
        Seq::empty()
    } else if known.contains(matches.last()) {
        spec_unknown(matches.drop_last(), known)
    } else {
        spec_unknown(matches.drop_last(), known).push(matches.last())
    }
}

/// A planned fresh-thread retry effect of node `node_id`.
pub open spec fn spec_planned_retry(effect: WorkflowEffectRecord, node_id: Seq<char>) -> bool {
    &&& effect.kind@ == "node.retry.thread"@
    &&& effect.state == WorkflowEffectState::Planned
    &&& spec_get_str(effect.request, "node_id"@) == Some(node_id)
}

/// The position of the first planned fresh-thread retry effect of a node, from `i` on.
pub open spec fn spec_first_planned(effects: Seq<WorkflowEffectRecord>, node_id: Seq<char>, i: int) -> Option<usize>
    decreases effects.len() - i,
{
    if i < 0 || i >= effects.len() {
        None
    } else if spec_planned_retry(effects[i], node_id) {
        Some(i as usize)
    } else {
        spec_first_planned(effects, node_id, i + 1)
    }
}

/// The position of the first planned fresh-thread retry effect of a node.
pub fn find_planned_retry(effects: &Vec<WorkflowEffectRecord>, node_id: &str) -> (r: Option<usize>)
    ensures
        r == spec_first_planned(effects@, node_id@, 0),
{
    let mut i: usize = 0;
    while i < effects.len()
        invariant
            i <= effects.len(),
            spec_first_planned(effects@, node_id@, 0) == spec_first_planned(effects@, node_id@, i as int),
        decreases effects.len() - i,
    {
        proof {
            reveal_strlit("node.retry.thread");
            reveal_strlit("node_id");
        }
        let e = &effects[i];
        let kind_ok = str_eq(e.kind.as_str(), "node.retry.thread");
        if kind_ok && e.state == WorkflowEffectState::Planned {
            match e.request.get_str("node_id") {
                Some(s) => {
                    if str_eq(s, node_id) {
                        return Some(i);
                    }
                },
                None => {},
            }
        }
        i += 1;
    }
    None
}

/// What recovery does with the thread mapping of one node.
#[derive(Clone, Debug, PartialEq, Eq)]
pub enum ThreadRepair {
    Unchanged,
    /// Bind the node's only materialized thread as its primary thread.
    BindPrimary(String),
    /// Record the one unknown thread as the product of the planned retry effect at `effect`.
    AdoptRetryThread { thread_id: String, effect: usize },
    NeedsOperator(OperatorReason),
}

/// `r` is what recovery does for a node with this primary thread, these
/// materialized and known threads, and this planned retry effect.
pub open spec fn spec_thread_repair(
    r: ThreadRepair,
    primary: Option<Seq<char>>,
    matches: Seq<Seq<char>>,
    known: Seq<Seq<char>>,
    planned: Option<usize>,
) -> bool {
    let unknown = spec_unknown(matches, known);
    match primary {
        None => if matches.len() == 0 {
            r == ThreadRepair::Unchanged
        } else if matches.len() == 1 {
            r matches ThreadRepair::BindPrimary(t) && t@ == matches[0]
        } else {
            r == ThreadRepair::NeedsOperator(OperatorReason::DuplicateNodeThreads)
        },
        Some(p) => if !matches.contains(p) {
            r == ThreadRepair::NeedsOperator(OperatorReason::OrphanThreadMapping)
        } else if unknown.len() == 1 {
            match planned {
                None => r == ThreadRepair::NeedsOperator(OperatorReason::OrphanNodeThread),
                Some(e) => r matches ThreadRepair::AdoptRetryThread { thread_id, effect } && thread_id@
                    == unknown[0] && effect == e,
            }
        } else if unknown.len() > 1 {
            r == ThreadRepair::NeedsOperator(OperatorReason::DuplicateNodeThreads)
        } else {
            r == ThreadRepair::Unchanged
        },
    }
}

fn contains_str(v: &Vec<String>, x: &str) -> (r: bool)
    ensures
        r == spec_strs(v@).contains(x@),
{
    let mut i: usize = 0;
    while i < v.len()
        invariant
            i <= v.len(),
            forall|j: int| 0 <= j < i ==> v@[j]@ != x@,
        decreases v.len() - i,
    {
        if str_eq(v[i].as_str(), x) {
            assert(spec_strs(v@)[i as int] == x@);
            return true;
        }
        i += 1;
    }
    assert(!spec_strs(v@).contains(x@)) by {
        if spec_strs(v@).contains(x@) {
            let j = choose|j: int| 0 <= j < spec_strs(v@).len() && spec_strs(v@)[j] == x@;
            assert(v@[j]@ == x@);
        }
    }
    false
}

fn unknown_threads(matches: &Vec<String>, known: &Vec<String>) -> (r: Vec<String>)
    ensures
        spec_strs(r@) == spec_unknown(spec_strs(matches@), spec_strs(known@)),
{
    let mut out: Vec<String> = Vec::new();
    let mut i: usize = 0;
    while i < matches.len()
        invariant
            i <= matches.len(),
            spec_strs(out@) == spec_unknown(spec_strs(matches@).take(i as int), spec_strs(known@)),
        decreases matches.len() - i,
    {
        let ghost m = spec_strs(matches@);
        assert(m.take(i + 1).drop_last() == m.take(i as int));
        let ghost prev = out@;
        if !contains_str(known, matches[i].as_str()) {
            out.push(owned(matches[i].as_str()));
            assert(spec_strs(out@) =~= spec_strs(prev).push(m[i as int]));
        } else {
            assert(out@ == prev);
        }
        i += 1;
    }
    assert(spec_strs(matches@).take(matches.len() as int) == spec_strs(matches@));
    out
}

/// Decides what happens to the thread mapping of node `node_id`, given its
/// primary thread, the threads the host materialized for it, the threads the
/// store knows, and the run's effects.
pub fn thread_repair(
    primary: &Option<String>,
    matches: &Vec<String>,
    known: &Vec<String>,
    effects: &Vec<WorkflowEffectRecord>,
    node_id: &str,
) -> (r: ThreadRepair)
    ensures
        spec_thread_repair(
            r,
            spec_opt_str(*primary),
            spec_strs(matches@),
            spec_strs(known@),
            spec_first_planned(effects@, node_id@, 0),
        ),
{
    let unknown = unknown_threads(matches, known);
    match primary {
        None => {
            if matches.len() == 0 {
                ThreadRepair::Unchanged
            } else if matches.len() == 1 {
                ThreadRepair::BindPrimary(owned(matches[0].as_str()))
            } else {
                ThreadRepair::NeedsOperator(OperatorReason::DuplicateNodeThreads)
            }
        },
        Some(p) => {
            if !contains_str(matches, p.as_str()) {
                ThreadRepair::NeedsOperator(OperatorReason::OrphanThreadMapping)
            } else if unknown.len() == 1 {
                assert(spec_strs(unknown@)[0] == unknown@[0]@);
                match find_planned_retry(effects, node_id) {
                    None => ThreadRepair::NeedsOperator(OperatorReason::OrphanNodeThread),
                    Some(e) => ThreadRepair::AdoptRetryThread {
                        thread_id: owned(unknown[0].as_str()),
                        effect: e,
                    },
                }
            } else if unknown.len() > 1 {
                ThreadRepair::NeedsOperator(OperatorReason::DuplicateNodeThreads)
            } else {
                ThreadRepair::Unchanged
            }
        },
    }
}

/// The thread whose prepared turn recovery inspects: the attempt's own, else the node's.
pub fn attempt_thread(attempt: &WorkflowNodeAttemptRecord, primary: &Option<String>) -> (r: Option<
    String,
>)
    ensures
        spec_opt_str(r) == (match attempt.thread_id {
            Some(t) => Some(t@),
            None => spec_opt_str(*primary),
        }),
{
    match &attempt.thread_id {
        Some(t) => Some(owned(t.as_str())),
        None => match primary {
            Some(p) => Some(owned(p.as_str())),
            None => None,
        },
    }
}

/// What recovery does with one unfinished attempt.
#[derive(Clone, Debug, PartialEq, Eq)]
pub enum AttemptRepair {
    /// No turn boundary was persisted: nothing to do.
    Keep,
    NeedsOperator(OperatorReason),
    /// Mark the attempt interrupted with this turn id and schedule the node's retry now.
    Interrupt { turn_id: String },
    /// Record the attempt's terminal status.
    Finish { status: WorkflowNodeAttemptStatus, turn_id: String, failed: bool },
}

pub open spec fn spec_attempt_status(status: NodeTurnStatus) -> WorkflowNodeAttemptStatus {
    match status {
        NodeTurnStatus::Completed => WorkflowNodeAttemptStatus::Succeeded,
        NodeTurnStatus::Interrupted => WorkflowNodeAttemptStatus::Interrupted,
        NodeTurnStatus::Failed => WorkflowNodeAttemptStatus::Failed,
    }
}

/// Decides what happens to an unfinished attempt given what the host recovered.
/// `failed` in `Finish` says that the attempt is recorded with the `turn_failed` error code.
pub fn attempt_repair(attempt: &WorkflowNodeAttemptRecord, recovered: &RecoveredTurnState) -> (r:
    AttemptRepair)
    ensures
        match *recovered {
            RecoveredTurnState::NoBoundary => r == AttemptRepair::Keep,
            RecoveredTurnState::Conflict => r == AttemptRepair::NeedsOperator(
                OperatorReason::PreparedTurnConflict,
            ),
            RecoveredTurnState::Unterminated => r matches AttemptRepair::Interrupt { turn_id }
                && turn_id@ == (match attempt.turn_id {
                Some(t) => t@,
                None => attempt.submission_id@,
            }),
            RecoveredTurnState::Terminal(result) => r matches AttemptRepair::Finish {
                status,
                turn_id,
                failed,
            } && status == spec_attempt_status(result.status) && turn_id@ == result.turn_id@
                && failed == result.error is Some,
        },
{
    match recovered {
        RecoveredTurnState::NoBoundary => AttemptRepair::Keep,
        RecoveredTurnState::Conflict => AttemptRepair::NeedsOperator(OperatorReason::PreparedTurnConflict),
        RecoveredTurnState::Unterminated => {
            let turn_id = match &attempt.turn_id {
                Some(t) => owned(t.as_str()),
                None => owned(attempt.submission_id.as_str()),
            };
            AttemptRepair::Interrupt { turn_id }
        },
        RecoveredTurnState::Terminal(result) => {
            let status = match result.status {
                NodeTurnStatus::Completed => WorkflowNodeAttemptStatus::Succeeded,
                NodeTurnStatus::Interrupted => WorkflowNodeAttemptStatus::Interrupted,
                NodeTurnStatus::Failed => WorkflowNodeAttemptStatus::Failed,
            };
            AttemptRepair::Finish {
                status,
                turn_id: owned(result.turn_id.as_str()),
                failed: result.error.is_some(),
            }
        },
    }
}

} // verus!
