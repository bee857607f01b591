//! What a workflow can truthfully claim about its journaled Fornax trace
//! mutations, and the checks on a proof of remote delivery.
use vstd::prelude::*;

use crate::integrations::fornax::evaluation::scalar_ok;
use crate::integrations::fornax::evaluation::spec_scalar_ok;
use crate::runtime::document_update::spec_valid_sha256;
use crate::runtime::document_update::valid_sha256;
use crate::runtime::records::WorkflowFornaxDeliveryProofPlan;
use crate::runtime::records::WorkflowFornaxDeliveryProofRecord;
use crate::runtime::records::WorkflowFornaxTraceRecord;
use crate::runtime::records::WorkflowFornaxTraceState;
use crate::text::owned;
use crate::text::str_eq;

verus! {

#[derive(Clone, Copy, Debug, PartialEq, Eq, Structural)]
pub enum FornaxDeliveryState {
    AcceptedLocal,
    DeliveredRemote,
    DeliveryFailedRetryable,
    DeliveryAmbiguous,
    DeliveryFailedPermanent,
}

#[derive(Clone, Debug, PartialEq, Eq)]
pub struct FornaxDeliveryReport {
    pub effect_key: String,
    pub operation_id: String,
    pub state: FornaxDeliveryState,
    pub error_code: Option<String>,
    pub remote_trace_id: Option<String>,
    pub remote_span_id: Option<String>,
    pub proof_digest: Option<String>,
}

#[derive(Clone, Debug, PartialEq, Eq)]
pub enum FornaxDeliveryError {
    Store(String),
    InvalidProof(String),
    CorrelationNotFound,
}

/// The error code marks a failed Fornax SDK authentication.
pub open spec fn spec_permanent_code(code: Option<String>) -> bool {
    match code {
        Some(c) => c@ == "sdk_authentication"@,
        None => false,
    }
}

/// The claim a journaled record alone supports: a failed authentication is
/// permanent, any other failure and an orphaned span may be retried.
pub open spec fn spec_local_state(record: WorkflowFornaxTraceRecord) -> FornaxDeliveryState {
    match record.state {
        WorkflowFornaxTraceState::Ambiguous => FornaxDeliveryState::DeliveryAmbiguous,
        WorkflowFornaxTraceState::Orphaned => FornaxDeliveryState::DeliveryFailedRetryable,
        WorkflowFornaxTraceState::Failed => if spec_permanent_code(record.error_code) {
            FornaxDeliveryState::DeliveryFailedPermanent
        } else {
            FornaxDeliveryState::DeliveryFailedRetryable
        },
        _ => FornaxDeliveryState::AcceptedLocal,
    }
}

/// The report of `record`, given the proof of delivery recorded for it, if any.
pub open spec fn spec_report(
    record: WorkflowFornaxTraceRecord,
    evidence: Option<WorkflowFornaxDeliveryProofRecord>,
) -> FornaxDeliveryReport {
    let state = if (evidence is Some) { FornaxDeliveryState::DeliveredRemote } else { spec_local_state(record) };
    let trace = match evidence { Some(p) => Some(p.remote_trace_id), None => None };
    let span = match evidence { Some(p) => Some(p.remote_span_id), None => None };
    let digest = match evidence { Some(p) => Some(p.proof_digest), None => None };
    FornaxDeliveryReport {
        effect_key: record.effect_key,
        operation_id: record.operation_id,
        state,
        error_code: record.error_code,
        remote_trace_id: trace,
        remote_span_id: span,
        proof_digest: digest,
    }
}

/// The proof recorded last for `effect_key`.
pub open spec fn spec_proof_for(
    proofs: Seq<WorkflowFornaxDeliveryProofRecord>,
    effect_key: Seq<char>,
) -> Option<WorkflowFornaxDeliveryProofRecord>
    decreases proofs.len(),
{
    if proofs.len() == 0 {
        None
    } else if proofs.last().effect_key@ == effect_key {
        Some(proofs.last())
    } else {
        spec_proof_for(proofs.drop_last(), effect_key)
    }
}

fn clone_opt(v: &Option<String>) -> (r: Option<String>)
    ensures
        r == *v,
{
    match v {
        Some(s) => Some(s.clone()),
        None => None,
    }
}

fn is_permanent_code(code: &Option<String>) -> (r: bool)
    ensures
        r == spec_permanent_code(*code),
{
    match code {
        Some(c) => str_eq(c.as_str(), "sdk_authentication"),
        None => false,
    }
}

impl FornaxDeliveryReport {
    /// The report of `record`; a recorded proof makes it delivered.
    pub fn new(
        record: &WorkflowFornaxTraceRecord,
        evidence: Option<&WorkflowFornaxDeliveryProofRecord>,
    ) -> (r: Self)
        ensures
            r == spec_report(*record, match evidence { Some(p) => Some(*p), None => None }),
    {
        let local = match record.state {
            WorkflowFornaxTraceState::Ambiguous => FornaxDeliveryState::DeliveryAmbiguous,
            WorkflowFornaxTraceState::Orphaned => FornaxDeliveryState::DeliveryFailedRetryable,
            WorkflowFornaxTraceState::Failed => if is_permanent_code(&record.error_code) {
                FornaxDeliveryState::DeliveryFailedPermanent
            } else {
                FornaxDeliveryState::DeliveryFailedRetryable
            },
            _ => FornaxDeliveryState::AcceptedLocal,
        };
        let state = if evidence.is_some() { FornaxDeliveryState::DeliveredRemote } else { local };
        FornaxDeliveryReport {
            effect_key: record.effect_key.clone(),
            operation_id: record.operation_id.clone(),
            state,
            error_code: clone_opt(&record.error_code),
            remote_trace_id: match evidence { Some(p) => Some(p.remote_trace_id.clone()), None => None },
            remote_span_id: match evidence { Some(p) => Some(p.remote_span_id.clone()), None => None },
            proof_digest: match evidence { Some(p) => Some(p.proof_digest.clone()), None => None },
        }
    }

    /// The report of a record with no proof of delivery.
    pub fn from_record(record: &WorkflowFornaxTraceRecord) -> (r: Self)
        ensures
            r == spec_report(*record, None),
    {
        Self::new(record, None)
    }
}

/// The position of the proof recorded last for `effect_key`.
fn find_proof(proofs: &Vec<WorkflowFornaxDeliveryProofRecord>, effect_key: &str) -> (r: Option<usize>)
    ensures
        match r {
            Some(i) => i < proofs@.len() && spec_proof_for(proofs@, effect_key@) == Some(proofs@[i as int]),
            None => spec_proof_for(proofs@, effect_key@) is None,
        },
{
    let mut k: usize = proofs.len();
    assert(proofs@.take(k as int) =~= proofs@);
    while k > 0
        invariant
            k <= proofs@.len(),
            spec_proof_for(proofs@, effect_key@) == spec_proof_for(proofs@.take(k as int), effect_key@),
        decreases k,
    {
        assert(proofs@.take(k as int).last() == proofs@[k - 1]);
        if str_eq(proofs[k - 1].effect_key.as_str(), effect_key) {
            return Some(k - 1);
        }
        assert(proofs@.take(k as int).drop_last() =~= proofs@.take(k - 1));
        k -= 1;
    }
    None
}

/// One report per journaled record, in journal order; the proof recorded
/// last for a record's effect key makes it delivered.
pub fn backlog_reports(
    records: &Vec<WorkflowFornaxTraceRecord>,
    proofs: &Vec<WorkflowFornaxDeliveryProofRecord>,
) -> (r: Vec<FornaxDeliveryReport>)
    ensures
        r@.len() == records@.len(),
        forall|i: int| 0 <= i < records@.len() ==> #[trigger] r@[i] == spec_report(
            records@[i],
            spec_proof_for(proofs@, records@[i].effect_key@),
        ),
{
    proof {
        assert(proofs@.take(proofs@.len() as int) =~= proofs@);
    }
    let mut out: Vec<FornaxDeliveryReport> = Vec::new();
    let mut i: usize = 0;
    while i < records.len()
        invariant
            i <= records@.len(),
            out@.len() == i,
            forall|j: int| 0 <= j < i ==> #[trigger] out@[j] == spec_report(
                records@[j],
                spec_proof_for(proofs@, records@[j].effect_key@),
            ),
        decreases records.len() - i,
    {
        let record = &records[i];
        let report = match find_proof(proofs, record.effect_key.as_str()) {
            Some(k) => FornaxDeliveryReport::new(record, Some(&proofs[k])),
            None => FornaxDeliveryReport::new(record, None),
        };
        out.push(report);
        i += 1;
    }
    out
}

/// The first field of a delivery proof that is refused: each identifier is
/// a bounded scalar and the digest is 64 lower-case hex digits.
pub open spec fn spec_proof_field_error(
    effect_key: Seq<char>,
    remote_trace_id: Seq<char>,
    remote_span_id: Seq<char>,
    proof_kind: Seq<char>,
    proof_digest: Seq<char>,
) -> Option<Seq<char>> {
    if !spec_scalar_ok(effect_key) {
        Some("effect_key"@)
    } else if !spec_scalar_ok(remote_trace_id) {
        Some("remote_trace_id"@)
    } else if !spec_scalar_ok(remote_span_id) {
        Some("remote_span_id"@)
    } else if !spec_scalar_ok(proof_kind) {
        Some("proof_kind"@)
    } else if !spec_valid_sha256(proof_digest) {
        Some("proof_digest"@)
    } else {
        None
    }
}

/// The proof to record for `effect_key`, bound to the journaled correlation
/// `correlation` of that key, if the store has one.
pub fn reconcile_plan(
    run_id: &str,
    effect_key: &str,
    remote_trace_id: &str,
    remote_span_id: &str,
    proof_kind: &str,
    proof_digest: &str,
    reconciled_at_ms: i64,
    correlation: Option<&WorkflowFornaxTraceRecord>,
) -> (r: Result<WorkflowFornaxDeliveryProofPlan, FornaxDeliveryError>)
    ensures
        ({
            let e = spec_proof_field_error(effect_key@, remote_trace_id@, remote_span_id@, proof_kind@, proof_digest@);
            match e {
                Some(f) => r matches Err(FornaxDeliveryError::InvalidProof(x)) && x@ == f,
                None => match correlation {
                    None => r == Err::<WorkflowFornaxDeliveryProofPlan, FornaxDeliveryError>(
                        FornaxDeliveryError::CorrelationNotFound,
                    ),
                    Some(c) => r matches Ok(p) && p.run_id@ == run_id@ && p.effect_key@ == effect_key@
                        && p.operation_id == c.operation_id && p.request_hash == c.request_hash
                        && p.remote_trace_id@ == remote_trace_id@ && p.remote_span_id@ == remote_span_id@
                        && p.proof_kind@ == proof_kind@ && p.proof_digest@ == proof_digest@
                        && p.reconciled_at_ms == reconciled_at_ms,
                },
            }
        }),
{
    if !scalar_ok(effect_key) {
        return Err(FornaxDeliveryError::InvalidProof(owned("effect_key")));
    }
    if !scalar_ok(remote_trace_id) {
        return Err(FornaxDeliveryError::InvalidProof(owned("remote_trace_id")));
    }
    if !scalar_ok(remote_span_id) {
        return Err(FornaxDeliveryError::InvalidProof(owned("remote_span_id")));
    }
    if !scalar_ok(proof_kind) {
        return Err(FornaxDeliveryError::InvalidProof(owned("proof_kind")));
    }
    if !valid_sha256(proof_digest) {
        return Err(FornaxDeliveryError::InvalidProof(owned("proof_digest")));
    }
    match correlation {
        None => Err(FornaxDeliveryError::CorrelationNotFound),
        Some(c) => Ok(WorkflowFornaxDeliveryProofPlan {
            run_id: owned(run_id),
            effect_key: owned(effect_key),
            operation_id: c.operation_id.clone(),
            request_hash: c.request_hash.clone(),
            remote_trace_id: owned(remote_trace_id),
            remote_span_id: owned(remote_span_id),
            proof_kind: owned(proof_kind),
            proof_digest: owned(proof_digest),
            reconciled_at_ms,
        }),
    }
}

} // verus!
