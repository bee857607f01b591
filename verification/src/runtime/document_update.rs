//! Revision-aware, single-writer overwrites of workflow-owned Lark documents.
//!
//! One update is journaled as an effect. Before dispatch the current document
//! is observed and compared with the request and the journal; after dispatch
//! it is observed again. Each comparison is a step below: the journal write it
//! makes (if any) and the outcome it reports (or, before dispatch, the
//! decision to dispatch).
use vstd::prelude::*;

use crate::text::spec_opt_str;

use crate::digest::sha256_hex;
use crate::digest::spec_hex;
use crate::digest::sha256_digest;
use crate::integrations::lark::identity::LarkIdentity;
use crate::integrations::lark::types::ContentSensitivity;
use crate::integrations::lark::types::DocumentSnapshot;
use crate::integrations::lark::types::DocumentUpdateMode;
use crate::integrations::lark::types::DocumentUpdateRequest;
use crate::json::spec_get;
use crate::json::spec_get_bool;
use crate::json::spec_get_str;
use crate::json::spec_get_u64;
use crate::json::JsonNumber;
use crate::json::JsonValue;
use crate::runtime::records::WorkflowEffectRecord;
use crate::runtime::records::WorkflowEffectState;
use crate::text::is_blank;
use crate::text::owned;
use crate::text::spec_blank;
use crate::text::spec_lower_hex;
use crate::text::chars_of;
use crate::text::str_eq;

verus! {

/// The effect kind under which updates are journaled.
pub fn effect_kind() -> (r: &'static str)
    ensures
        r@ == "lark.document.update.single-writer.v1"@,
{
    proof {
        reveal_strlit("lark.document.update.single-writer.v1");
    }
    "lark.document.update.single-writer.v1"
}

/// The error code of an update that may be retried.
pub fn retryable_error() -> (r: &'static str)
    ensures
        r@ == "lark_document_update_retryable"@,
{
    proof {
        reveal_strlit("lark_document_update_retryable");
    }
    "lark_document_update_retryable"
}
/// Dispatches allowed per update.
pub const MAX_DISPATCH_ATTEMPTS: u64 = 3;

/// One deterministic full-content update to a workflow-owned Lark document.
#[derive(Clone, Debug, PartialEq, Eq)]
pub struct OwnedDocumentUpdateRequest {
    pub effect_key: String,
    pub identity: LarkIdentity,
    pub document: String,
    pub expected_revision_id: String,
    pub expected_sha256: String,
    pub desired_markdown: String,
    pub sensitivity: ContentSensitivity,
}

/// Redacted proof that the requested document content is current.
#[derive(Clone, Debug, PartialEq, Eq)]
pub struct OwnedDocumentUpdateEvidence {
    pub document: String,
    pub revision_id: String,
    pub sha256: String,
    pub reconciled: bool,
}

/// Durable disposition for one revision-aware single-writer update.
#[derive(Clone, Debug, PartialEq, Eq)]
pub enum OwnedDocumentUpdateOutcome {
    Applied(OwnedDocumentUpdateEvidence),
    Retryable { reason: String },
    NeedsOperator {
        reason: String,
        observed_revision_id: Option<String>,
        observed_sha256: Option<String>,
    },
}

#[derive(Clone, Debug, PartialEq, Eq)]
pub enum LarkDocumentUpdateError {
    InvalidRequest,
    ConcurrentMutation,
    InvalidJournalResponse,
    Store(String),
}

/// A write to the update's journal entry, made from its current state.
#[derive(Clone, Debug, PartialEq, Eq)]
pub enum JournalWrite {
    /// To `Applied`, with the evidence as response.
    Apply(OwnedDocumentUpdateEvidence),
    /// To `Ambiguous` with the retryable error code and this dispatch count.
    MarkRetryable { attempts: u64 },
    /// To `Ambiguous` with `reason` as error code and the observation as response.
    Escalate {
        reason: String,
        attempts: u64,
        observed_revision_id: Option<String>,
        observed_sha256: Option<String>,
    },
    /// To `Dispatched` with this dispatch count.
    Dispatch { attempts: u64 },
}

/// One step of an update: the journal write, then the outcome; no outcome
/// means that the update is dispatched now, as `overwrite_request`.
#[derive(Clone, Debug, PartialEq, Eq)]
pub struct DocumentStep {
    pub write: Option<JournalWrite>,
    pub outcome: Option<OwnedDocumentUpdateOutcome>,
}

/// The one update call of a dispatch: the whole document is overwritten with
/// the desired markdown, as the request's identity and sensitivity.
pub fn overwrite_request(request: &OwnedDocumentUpdateRequest) -> (r: DocumentUpdateRequest)
    ensures
        r.identity == request.identity,
        r.document@ == request.document@,
        r.mode == DocumentUpdateMode::Overwrite,
        r.markdown matches Some(m) && m@ == request.desired_markdown@,
        r.selection is None,
        r.new_title is None,
        r.sensitivity == request.sensitivity,
{
    DocumentUpdateRequest {
        identity: request.identity,
        document: request.document.clone(),
        mode: DocumentUpdateMode::Overwrite,
        markdown: Some(request.desired_markdown.clone()),
        selection: None,
        new_title: None,
        sensitivity: request.sensitivity,
    }
}

// ---------------------------------------------------------------- specs

/// Lower-case hex SHA-256 of a text's UTF-8 bytes.
pub open spec fn spec_content_sha256(text: Seq<char>) -> Seq<char> {
    spec_hex(sha256_digest(vstd::utf8::encode_utf8(text)))
}

/// Exactly 64 lower-case hexadecimal digits.
pub open spec fn spec_valid_sha256(s: Seq<char>) -> bool {
    s.len() == 64 && forall|i: int| 0 <= i < s.len() ==> #[trigger] spec_lower_hex(s[i])
}

pub open spec fn spec_valid_request(r: OwnedDocumentUpdateRequest) -> bool {
    !spec_blank(r.document@) && !spec_blank(r.expected_revision_id@) && spec_valid_sha256(
        r.expected_sha256@,
    )
}

/// Dispatches recorded in a journal response (none when absent).
pub open spec fn spec_dispatch_attempts(response: Option<JsonValue>) -> u64 {
    match response {
        Some(v) => match spec_get_u64(v, "dispatch_attempts"@) {
            Some(n) => n,
            None => 0,
        },
        None => 0,
    }
}

/// The evidence recorded in a journal response, if it is one.
pub open spec fn spec_evidence_in(response: Option<JsonValue>) -> Option<(Seq<char>, Seq<char>, Seq<char>, bool)> {
    match response {
        Some(v) => match (
            spec_get_str(v, "document"@),
            spec_get_str(v, "revision_id"@),
            spec_get_str(v, "sha256"@),
            spec_get_bool(v, "reconciled"@),
        ) {
            (Some(d), Some(r), Some(s), Some(b)) => Some((d, r, s, b)),
            _ => None,
        },
        None => None,
    }
}

pub open spec fn spec_evidence_is(
    e: OwnedDocumentUpdateEvidence,
    document: Seq<char>,
    revision_id: Seq<char>,
    sha256: Seq<char>,
    reconciled: bool,
) -> bool {
    e.document@ == document && e.revision_id@ == revision_id && e.sha256@ == sha256 && e.reconciled
        == reconciled
}

pub open spec fn spec_observed_revision(observed: Option<DocumentSnapshot>) -> Option<Seq<char>> {
    match observed {
        Some(s) => Some(s.revision_id@),
        None => None,
    }
}

pub open spec fn spec_observed_sha256(observed: Option<DocumentSnapshot>) -> Option<Seq<char>> {
    match observed {
        Some(s) => Some(spec_content_sha256(s.markdown@)),
        None => None,
    }
}

/// `step` hands the update to an operator for `reason`, having escalated the
/// journal unless it is already ambiguous.
pub open spec fn spec_needs_operator(
    step: DocumentStep,
    state: WorkflowEffectState,
    attempts: u64,
    reason: Seq<char>,
    observed: Option<DocumentSnapshot>,
) -> bool {
    &&& step.outcome matches Some(OwnedDocumentUpdateOutcome::NeedsOperator {
        reason: r,
        observed_revision_id: orv,
        observed_sha256: osh,
    }) && r@ == reason && spec_opt_str(orv) == spec_observed_revision(observed) && spec_opt_str(osh)
        == spec_observed_sha256(observed)
    &&& if state == WorkflowEffectState::Ambiguous {
        step.write is None
    } else {
        step.write matches Some(JournalWrite::Escalate {
            reason: r,
            attempts: a,
            observed_revision_id: orv,
            observed_sha256: osh,
        }) && r@ == reason && a == attempts && spec_opt_str(orv) == spec_observed_revision(observed)
            && spec_opt_str(osh) == spec_observed_sha256(observed)
    }
}

/// `step` reports the outcome unchanged in the journal.
pub open spec fn spec_report_only(
    step: DocumentStep,
    reason: Seq<char>,
    observed: Option<DocumentSnapshot>,
) -> bool {
    &&& step.write is None
    &&& step.outcome matches Some(OwnedDocumentUpdateOutcome::NeedsOperator {
        reason: r,
        observed_revision_id: orv,
        observed_sha256: osh,
    }) && r@ == reason && spec_opt_str(orv) == spec_observed_revision(observed) && spec_opt_str(osh)
        == spec_observed_sha256(observed)
}

/// The update was not observed after a dispatch: retry, unless dispatches are used up.
pub open spec fn spec_mark_retryable(step: DocumentStep, state: WorkflowEffectState, attempts: u64) -> bool {
    if attempts >= MAX_DISPATCH_ATTEMPTS {
        spec_needs_operator(step, state, attempts, "document_update_retry_exhausted"@, None)
    } else {
        &&& step.outcome matches Some(OwnedDocumentUpdateOutcome::Retryable { reason: r }) && r@
            == "document_update_not_observed"@
        &&& if state == WorkflowEffectState::Ambiguous {
            step.write is None
        } else {
            step.write == Some(JournalWrite::MarkRetryable { attempts })
        }
    }
}

/// `step` records the evidence and reports it.
pub open spec fn spec_apply(
    step: DocumentStep,
    document: Seq<char>,
    revision_id: Seq<char>,
    sha256: Seq<char>,
    reconciled: bool,
) -> bool {
    &&& step.write matches Some(JournalWrite::Apply(e)) && spec_evidence_is(
        e,
        document,
        revision_id,
        sha256,
        reconciled,
    )
    &&& step.outcome matches Some(OwnedDocumentUpdateOutcome::Applied(e)) && spec_evidence_is(
        e,
        document,
        revision_id,
        sha256,
        reconciled,
    )
}

/// The step taken before dispatch, given the journal entry and the observed document
/// (`None` when it could not be read).
pub open spec fn spec_observe_step(
    request: OwnedDocumentUpdateRequest,
    effect: WorkflowEffectRecord,
    observed: Option<DocumentSnapshot>,
    r: Result<DocumentStep, LarkDocumentUpdateError>,
) -> bool {
    let desired = spec_content_sha256(request.desired_markdown@);
    let state = effect.state;
    let attempts = spec_dispatch_attempts(effect.response);
    match observed {
        None => r matches Ok(step) && if state == WorkflowEffectState::Dispatched || state
            == WorkflowEffectState::Ambiguous {
            spec_mark_retryable(step, state, attempts)
        } else {
            step.write is None && (step.outcome matches Some(
                OwnedDocumentUpdateOutcome::Retryable { reason: m },
            ) && m@ == "document_observation_unavailable"@)
        },
        Some(obs) => {
            let osha = spec_content_sha256(obs.markdown@);
            if obs.doc_id@ != request.document@ || spec_blank(obs.revision_id@) {
                r matches Ok(step) && spec_needs_operator(
                    step,
                    state,
                    attempts,
                    "unexpected_document_identity"@,
                    observed,
                )
            } else if state == WorkflowEffectState::Applied {
                match spec_evidence_in(effect.response) {
                    None => r == Err::<DocumentStep, LarkDocumentUpdateError>(
                        LarkDocumentUpdateError::InvalidJournalResponse,
                    ),
                    Some((d, rev, sha, rec)) => r matches Ok(step) && if rev == obs.revision_id@
                        && sha == osha && osha == desired {
                        step.write is None && (step.outcome matches Some(
                            OwnedDocumentUpdateOutcome::Applied(e),
                        ) && spec_evidence_is(e, d, rev, sha, rec))
                    } else {
                        spec_needs_operator(
                            step,
                            state,
                            attempts,
                            "unexpected_post_apply_drift"@,
                            observed,
                        )
                    },
                }
            } else if osha == desired {
                r matches Ok(step) && spec_apply(step, request.document@, obs.revision_id@, desired, true)
            } else if obs.revision_id@ != request.expected_revision_id@ || osha
                != request.expected_sha256@ {
                r matches Ok(step) && spec_needs_operator(
                    step,
                    state,
                    attempts,
                    "unexpected_revision_drift"@,
                    observed,
                )
            } else if state == WorkflowEffectState::Cancelled {
                r matches Ok(step) && spec_report_only(step, "document_update_cancelled"@, observed)
            } else if state == WorkflowEffectState::Ambiguous && spec_opt_str(effect.error_code)
                != Some("lark_document_update_retryable"@) {
                r matches Ok(step) && spec_report_only(
                    step,
                    "document_update_requires_operator"@,
                    observed,
                )
            } else if attempts >= MAX_DISPATCH_ATTEMPTS {
                r matches Ok(step) && spec_needs_operator(
                    step,
                    state,
                    attempts,
                    "document_update_retry_exhausted"@,
                    observed,
                )
            } else {
                r == Ok::<DocumentStep, LarkDocumentUpdateError>(
                    DocumentStep {
                        write: Some(JournalWrite::Dispatch { attempts: (attempts + 1) as u64 }),
                        outcome: None,
                    },
                )
            }
        },
    }
}

/// The step taken after a dispatch, given the dispatches made before it,
/// whether the update call failed, and the document read back.
pub open spec fn spec_settle_step(
    request: OwnedDocumentUpdateRequest,
    prior_attempts: u64,
    update_failed: bool,
    after: Option<DocumentSnapshot>,
    step: DocumentStep,
) -> bool {
    let desired = spec_content_sha256(request.desired_markdown@);
    let attempts = (prior_attempts + 1) as u64;
    let state = WorkflowEffectState::Dispatched;
    match after {
        None => spec_mark_retryable(step, state, attempts),
        Some(a) => {
            let asha = spec_content_sha256(a.markdown@);
            if a.doc_id@ == request.document@ && a.revision_id@ != request.expected_revision_id@
                && asha == desired {
                spec_apply(
                    step,
                    request.document@,
                    a.revision_id@,
                    desired,
                    update_failed || prior_attempts > 0,
                )
            } else if a.doc_id@ == request.document@ && a.revision_id@
                == request.expected_revision_id@ && asha == request.expected_sha256@ {
                spec_mark_retryable(step, state, attempts)
            } else {
                spec_needs_operator(step, state, attempts, "unexpected_post_update_content"@, after)
            }
        },
    }
}

// ---------------------------------------------------------------- laws

/// A document that already holds the desired content is never written
/// again: the update is reported applied, reconciled, with the desired digest.
pub proof fn law_desired_content_is_not_rewritten(
    request: OwnedDocumentUpdateRequest,
    effect: WorkflowEffectRecord,
    observed: DocumentSnapshot,
    r: Result<DocumentStep, LarkDocumentUpdateError>,
)
    requires
        spec_observe_step(request, effect, Some(observed), r),
        observed.doc_id@ == request.document@,
        !spec_blank(observed.revision_id@),
        spec_content_sha256(observed.markdown@) == spec_content_sha256(request.desired_markdown@),
        effect.state != WorkflowEffectState::Applied,
    ensures
        r matches Ok(step) && step.outcome matches Some(OwnedDocumentUpdateOutcome::Applied(e)) && e.reconciled
            && e.sha256@ == spec_content_sha256(request.desired_markdown@),
        !(r matches Ok(step) && step.write matches Some(JournalWrite::Dispatch { .. })),
{
}

/// Every dispatch is journaled before it happens, and no update is
/// dispatched more than `MAX_DISPATCH_ATTEMPTS` times.
pub proof fn law_dispatch_budget(
    request: OwnedDocumentUpdateRequest,
    effect: WorkflowEffectRecord,
    observed: Option<DocumentSnapshot>,
    r: Result<DocumentStep, LarkDocumentUpdateError>,
)
    requires
        spec_observe_step(request, effect, observed, r),
    ensures
        r matches Ok(step) ==> (step.outcome is None ==> (step.write matches Some(JournalWrite::Dispatch { attempts })
            && attempts == spec_dispatch_attempts(effect.response) + 1 && attempts <= MAX_DISPATCH_ATTEMPTS)),
{
}

/// The dispatch count a step writes, where it dispatches.
pub open spec fn spec_dispatched(r: Result<DocumentStep, LarkDocumentUpdateError>) -> Option<u64> {
    match r {
        Ok(step) => if step.outcome is None {
            match step.write {
                Some(JournalWrite::Dispatch { attempts }) => Some(attempts),
                _ => None,
            }
        } else {
            None
        },
        Err(_) => None,
    }
}

proof fn lemma_dispatch_chain(
    request: OwnedDocumentUpdateRequest,
    effects: Seq<WorkflowEffectRecord>,
    observed: Seq<Option<DocumentSnapshot>>,
    steps: Seq<Result<DocumentStep, LarkDocumentUpdateError>>,
    k: int,
)
    requires
        effects.len() == observed.len() == steps.len(),
        0 <= k < steps.len(),
        spec_dispatch_attempts(effects[0].response) == 0,
        forall|j: int| 0 <= j < steps.len() ==> spec_observe_step(request, #[trigger] effects[j], observed[j], steps[j]),
        forall|j: int| 0 <= j < steps.len() ==> (#[trigger] spec_dispatched(steps[j])) is Some,
        forall|j: int|
            0 <= j < steps.len() - 1 ==> spec_dispatch_attempts(#[trigger] effects[j + 1].response) == spec_dispatched(
                steps[j],
            )->0,
    ensures
        spec_dispatched(steps[k]) is Some,
        spec_dispatched(steps[k])->0 == k + 1,
    decreases k,
{
    law_dispatch_budget(request, effects[k], observed[k], steps[k]);
    assert(spec_dispatched(steps[k]) is Some);
    let a = spec_dispatched(steps[k])->0;
    assert(a == spec_dispatch_attempts(effects[k].response) + 1);
    if k > 0 {
        lemma_dispatch_chain(request, effects, observed, steps, k - 1);
        assert(spec_dispatch_attempts(effects[k].response) == spec_dispatched(steps[k - 1])->0);
        assert(spec_dispatched(steps[k - 1])->0 == k);
        assert(a == k + 1);
    } else {
        assert(a == 1);
    }
}

/// Across calls, each dispatch is journaled with one more attempt than the
/// journal held: a run of observations that each dispatch, starting from a
/// journal with no dispatch and each reading back the count the previous
/// one wrote, numbers its dispatches 1, 2, … and has at most
/// `MAX_DISPATCH_ATTEMPTS` of them.
pub proof fn law_dispatch_budget_across_calls(
    request: OwnedDocumentUpdateRequest,
    effects: Seq<WorkflowEffectRecord>,
    observed: Seq<Option<DocumentSnapshot>>,
    steps: Seq<Result<DocumentStep, LarkDocumentUpdateError>>,
)
    requires
        effects.len() == observed.len() == steps.len(),
        steps.len() > 0 ==> spec_dispatch_attempts(effects[0].response) == 0,
        forall|j: int| 0 <= j < steps.len() ==> spec_observe_step(request, #[trigger] effects[j], observed[j], steps[j]),
        forall|j: int| 0 <= j < steps.len() ==> (#[trigger] spec_dispatched(steps[j])) is Some,
        forall|j: int|
            0 <= j < steps.len() - 1 ==> spec_dispatch_attempts(#[trigger] effects[j + 1].response) == spec_dispatched(
                steps[j],
            )->0,
    ensures
        steps.len() <= MAX_DISPATCH_ATTEMPTS,
        forall|j: int| 0 <= j < steps.len() ==> #[trigger] spec_dispatched(steps[j])->0 == j + 1,
{
    if steps.len() > 0 {
        assert forall|j: int| 0 <= j < steps.len() implies #[trigger] spec_dispatched(steps[j])->0 == j + 1 by {
            lemma_dispatch_chain(request, effects, observed, steps, j);
        }
        let last = steps.len() - 1;
        lemma_dispatch_chain(request, effects, observed, steps, last);
        law_dispatch_budget(request, effects[last], observed[last], steps[last]);
        assert(spec_dispatched(steps[last])->0 == last + 1);
    }
}

// ---------------------------------------------------------------- code

pub(crate) fn valid_sha256(value: &str) -> (r: bool)
    ensures
        r == spec_valid_sha256(value@),
{
    let cs = chars_of(value);
    if cs.len() != 64 {
        return false;
    }
    let mut i: usize = 0;
    while i < cs.len()
        invariant
            i <= cs.len(),
            cs@ == value@,
            forall|j: int| 0 <= j < i ==> #[trigger] spec_lower_hex(cs@[j]),
        decreases cs.len() - i,
    {
        let c = cs[i];
        if !(('0' <= c && c <= '9') || ('a' <= c && c <= 'f')) {
            assert(!spec_lower_hex(cs@[i as int]));
            return false;
        }
        i += 1;
    }
    true
}

/// Refuses a request without document, without expected revision, or whose
/// expected digest is not 64 lower-case hex digits.
pub fn validate_request(request: &OwnedDocumentUpdateRequest) -> (r: Result<(), LarkDocumentUpdateError>)
    ensures
        spec_valid_request(*request) <==> r is Ok,
        !spec_valid_request(*request) ==> r == Err::<(), LarkDocumentUpdateError>(
            LarkDocumentUpdateError::InvalidRequest,
        ),
{
    if is_blank(request.document.as_str()) || is_blank(request.expected_revision_id.as_str())
        || !valid_sha256(request.expected_sha256.as_str()) {
        return Err(LarkDocumentUpdateError::InvalidRequest);
    }
    Ok(())
}

/// Lower-case hex SHA-256 of a document body.
pub fn content_sha256(content: &str) -> (r: String)
    ensures
        r@ == spec_content_sha256(content@),
        r@.len() == 64,
{
    sha256_hex(content)
}

/// The identity's name in the journal.
pub fn identity_name(identity: LarkIdentity) -> (r: &'static str)
    ensures
        r@ == (match identity {
            LarkIdentity::Bot => "bot"@,
            LarkIdentity::User => "user"@,
        }),
{
    match identity {
        LarkIdentity::Bot => "bot",
        LarkIdentity::User => "user",
    }
}

/// Dispatches recorded in a journal response.
pub fn dispatch_attempts(response: &Option<JsonValue>) -> (r: u64)
    ensures
        r == spec_dispatch_attempts(*response),
{
    proof {
        reveal_strlit("dispatch_attempts");
    }
    match response {
        Some(v) => match v.get_u64("dispatch_attempts") {
            Some(n) => n,
            None => 0,
        },
        None => 0,
    }
}

/// Reads the evidence recorded by an earlier apply.
pub fn applied_evidence(response: &Option<JsonValue>) -> (r: Result<
    OwnedDocumentUpdateEvidence,
    LarkDocumentUpdateError,
>)
    ensures
        match spec_evidence_in(*response) {
            Some((d, rev, sha, rec)) => r matches Ok(e) && spec_evidence_is(e, d, rev, sha, rec),
            None => r == Err::<OwnedDocumentUpdateEvidence, LarkDocumentUpdateError>(
                LarkDocumentUpdateError::InvalidJournalResponse,
            ),
        },
{
    proof {
        reveal_strlit("document");
        reveal_strlit("revision_id");
        reveal_strlit("sha256");
        reveal_strlit("reconciled");
    }
    let v = match response {
        Some(v) => v,
        None => return Err(LarkDocumentUpdateError::InvalidJournalResponse),
    };
    match (v.get_str("document"), v.get_str("revision_id"), v.get_str("sha256"), v.get_bool("reconciled")) {
        (Some(d), Some(rev), Some(sha), Some(rec)) => Ok(
            OwnedDocumentUpdateEvidence {
                document: owned(d),
                revision_id: owned(rev),
                sha256: owned(sha),
                reconciled: rec,
            },
        ),
        _ => Err(LarkDocumentUpdateError::InvalidJournalResponse),
    }
}

fn observed_parts(observed: Option<&DocumentSnapshot>) -> (r: (Option<String>, Option<String>))
    ensures
        spec_opt_str(r.0) == spec_observed_revision(
            match observed {
                Some(s) => Some(*s),
                None => None,
            },
        ),
        spec_opt_str(r.1) == spec_observed_sha256(
            match observed {
                Some(s) => Some(*s),
                None => None,
            },
        ),
{
    match observed {
        Some(s) => (Some(owned(s.revision_id.as_str())), Some(content_sha256(s.markdown.as_str()))),
        None => (None, None),
    }
}

fn needs_operator(
    state: WorkflowEffectState,
    attempts: u64,
    reason: &str,
    observed: Option<&DocumentSnapshot>,
) -> (step: DocumentStep)
    ensures
        spec_needs_operator(
            step,
            state,
            attempts,
            reason@,
            match observed {
                Some(s) => Some(*s),
                None => None,
            },
        ),
{
    let (rev, sha) = observed_parts(observed);
    let write = if state == WorkflowEffectState::Ambiguous {
        None
    } else {
        let (rev2, sha2) = observed_parts(observed);
        Some(
            JournalWrite::Escalate {
                reason: owned(reason),
                attempts,
                observed_revision_id: rev2,
                observed_sha256: sha2,
            },
        )
    };
    DocumentStep {
        write,
        outcome: Some(
            OwnedDocumentUpdateOutcome::NeedsOperator {
                reason: owned(reason),
                observed_revision_id: rev,
                observed_sha256: sha,
            },
        ),
    }
}

fn report_only(reason: &str, observed: &DocumentSnapshot) -> (step: DocumentStep)
    ensures
        spec_report_only(step, reason@, Some(*observed)),
{
    let (rev, sha) = observed_parts(Some(observed));
    DocumentStep {
        write: None,
        outcome: Some(
            OwnedDocumentUpdateOutcome::NeedsOperator {
                reason: owned(reason),
                observed_revision_id: rev,
                observed_sha256: sha,
            },
        ),
    }
}

fn mark_retryable(state: WorkflowEffectState, attempts: u64) -> (step: DocumentStep)
    ensures
        spec_mark_retryable(step, state, attempts),
{
    if attempts >= MAX_DISPATCH_ATTEMPTS {
        return needs_operator(state, attempts, "document_update_retry_exhausted", None);
    }
    let write = if state == WorkflowEffectState::Ambiguous {
        None
    } else {
        Some(JournalWrite::MarkRetryable { attempts })
    };
    DocumentStep {
        write,
        outcome: Some(
            OwnedDocumentUpdateOutcome::Retryable { reason: owned("document_update_not_observed") },
        ),
    }
}

fn evidence(document: &str, revision_id: &str, sha256: &str, reconciled: bool) -> (e:
    OwnedDocumentUpdateEvidence)
    ensures
        spec_evidence_is(e, document@, revision_id@, sha256@, reconciled),
{
    OwnedDocumentUpdateEvidence {
        document: owned(document),
        revision_id: owned(revision_id),
        sha256: owned(sha256),
        reconciled,
    }
}

fn apply(document: &str, revision_id: &str, sha256: &str, reconciled: bool) -> (step: DocumentStep)
    ensures
        spec_apply(step, document@, revision_id@, sha256@, reconciled),
{
    DocumentStep {
        write: Some(JournalWrite::Apply(evidence(document, revision_id, sha256, reconciled))),
        outcome: Some(
            OwnedDocumentUpdateOutcome::Applied(evidence(document, revision_id, sha256, reconciled)),
        ),
    }
}

fn opt_eq(a: &Option<String>, b: &str) -> (r: bool)
    ensures
        r == (spec_opt_str(*a) == Some(b@)),
{
    match a {
        Some(s) => str_eq(s.as_str(), b),
        None => false,
    }
}

/// The step before dispatch: compares the observed document (`None` when it
/// could not be read) with the request and the journal entry.
pub fn observe_step(
    request: &OwnedDocumentUpdateRequest,
    effect: &WorkflowEffectRecord,
    observed: Option<&DocumentSnapshot>,
) -> (r: Result<DocumentStep, LarkDocumentUpdateError>)
    ensures
        spec_observe_step(
            *request,
            *effect,
            match observed {
                Some(s) => Some(*s),
                None => None,
            },
            r,
        ),
{
    let desired = content_sha256(request.desired_markdown.as_str());
    let state = effect.state;
    let attempts = dispatch_attempts(&effect.response);
    let obs = match observed {
        None => {
            if state == WorkflowEffectState::Dispatched || state == WorkflowEffectState::Ambiguous {
                return Ok(mark_retryable(state, attempts));
            }
            return Ok(
                DocumentStep {
                    write: None,
                    outcome: Some(
                        OwnedDocumentUpdateOutcome::Retryable {
                            reason: owned("document_observation_unavailable"),
                        },
                    ),
                },
            );
        },
        Some(o) => o,
    };
    if !str_eq(obs.doc_id.as_str(), request.document.as_str()) || is_blank(obs.revision_id.as_str()) {
        return Ok(needs_operator(state, attempts, "unexpected_document_identity", Some(obs)));
    }
    let osha = content_sha256(obs.markdown.as_str());
    if state == WorkflowEffectState::Applied {
        let ev = applied_evidence(&effect.response)?;
        if str_eq(ev.revision_id.as_str(), obs.revision_id.as_str()) && str_eq(
            ev.sha256.as_str(),
            osha.as_str(),
        ) && str_eq(osha.as_str(), desired.as_str()) {
            return Ok(DocumentStep { write: None, outcome: Some(OwnedDocumentUpdateOutcome::Applied(ev)) });
        }
        return Ok(needs_operator(state, attempts, "unexpected_post_apply_drift", Some(obs)));
    }
    if str_eq(osha.as_str(), desired.as_str()) {
        return Ok(apply(request.document.as_str(), obs.revision_id.as_str(), desired.as_str(), true));
    }
    if !str_eq(obs.revision_id.as_str(), request.expected_revision_id.as_str()) || !str_eq(
        osha.as_str(),
        request.expected_sha256.as_str(),
    ) {
        return Ok(needs_operator(state, attempts, "unexpected_revision_drift", Some(obs)));
    }
    if state == WorkflowEffectState::Cancelled {
        return Ok(report_only("document_update_cancelled", obs));
    }
    if state == WorkflowEffectState::Ambiguous && !opt_eq(&effect.error_code, retryable_error()) {
        return Ok(report_only("document_update_requires_operator", obs));
    }
    if attempts >= MAX_DISPATCH_ATTEMPTS {
        return Ok(needs_operator(state, attempts, "document_update_retry_exhausted", Some(obs)));
    }
    Ok(DocumentStep { write: Some(JournalWrite::Dispatch { attempts: attempts + 1 }), outcome: None })
}

/// The step after a dispatch: compares the document read back (`None` when it
/// could not be read) with the request.
pub fn settle_step(
    request: &OwnedDocumentUpdateRequest,
    prior_attempts: u64,
    update_failed: bool,
    after: Option<&DocumentSnapshot>,
) -> (step: DocumentStep)
    requires
        prior_attempts < MAX_DISPATCH_ATTEMPTS,
    ensures
        spec_settle_step(
            *request,
            prior_attempts,
            update_failed,
            match after {
                Some(s) => Some(*s),
                None => None,
            },
            step,
        ),
{
    let desired = content_sha256(request.desired_markdown.as_str());
    let attempts = prior_attempts + 1;
    let state = WorkflowEffectState::Dispatched;
    let a = match after {
        None => return mark_retryable(state, attempts),
        Some(a) => a,
    };
    let asha = content_sha256(a.markdown.as_str());
    let same_doc = str_eq(a.doc_id.as_str(), request.document.as_str());
    let same_rev = str_eq(a.revision_id.as_str(), request.expected_revision_id.as_str());
    if same_doc && !same_rev && str_eq(asha.as_str(), desired.as_str()) {
        return apply(
            request.document.as_str(),
            a.revision_id.as_str(),
            desired.as_str(),
            update_failed || prior_attempts > 0,
        );
    }
    if same_doc && same_rev && str_eq(asha.as_str(), request.expected_sha256.as_str()) {
        return mark_retryable(state, attempts);
    }
    needs_operator(state, attempts, "unexpected_post_update_content", Some(a))
}

/// The journal request of an update: what it changes and from which state.
pub fn plan_request(request: &OwnedDocumentUpdateRequest) -> (r: JsonValue)
    ensures
        spec_get_str(r, "document"@) == Some(request.document@),
        spec_get_str(r, "identity"@) == Some(
            match request.identity {
                LarkIdentity::Bot => "bot"@,
                LarkIdentity::User => "user"@,
            },
        ),
        spec_get_str(r, "expected_revision_id"@) == Some(request.expected_revision_id@),
        spec_get_str(r, "expected_sha256"@) == Some(request.expected_sha256@),
        spec_get_str(r, "desired_sha256"@) == Some(spec_content_sha256(request.desired_markdown@)),
        spec_get_str(r, "mode"@) == Some("overwrite"@),
        spec_get_str(r, "consistency"@) == Some("single_writer_revision_aware"@),
{
    let mut members: Vec<(String, JsonValue)> = Vec::new();
    members.push((owned("consistency"), JsonValue::Str(owned("single_writer_revision_aware"))));
    members.push((owned("desired_sha256"), JsonValue::Str(content_sha256(request.desired_markdown.as_str()))));
    members.push((owned("document"), JsonValue::Str(owned(request.document.as_str()))));
    members.push((owned("expected_revision_id"), JsonValue::Str(owned(request.expected_revision_id.as_str()))));
    members.push((owned("expected_sha256"), JsonValue::Str(owned(request.expected_sha256.as_str()))));
    members.push((owned("identity"), JsonValue::Str(owned(identity_name(request.identity)))));
    members.push((owned("mode"), JsonValue::Str(owned("overwrite"))));
    let r = JsonValue::Object(members);
    proof {
        reveal_strlit("consistency");
        reveal_strlit("desired_sha256");
        reveal_strlit("document");
        reveal_strlit("expected_revision_id");
        reveal_strlit("expected_sha256");
        reveal_strlit("identity");
        reveal_strlit("mode");
        reveal_strlit("overwrite");
        reveal_strlit("single_writer_revision_aware");
        reveal_strlit("bot");
        reveal_strlit("user");
        reveal_with_fuel(crate::json::spec_member_from, 8);
        assert("document"@[0] != "identity"@[0]);
        assert("document"@[0] != "consistency"@[0]);
        assert("document"@[1] != "desired_sha256"@[1]);
        assert("identity"@[0] != "expected_sha256"@[0]);
        assert("identity"@[0] != "expected_revision_id"@[0]);
        assert("expected_sha256"@[0] != "document"@[0]);
        assert("expected_sha256"@[0] != "consistency"@[0]);
        assert("expected_sha256"@[0] != "desired_sha256"@[0]);
        assert("expected_sha256"@.len() != "expected_revision_id"@.len());
        assert("expected_revision_id"@[0] != "document"@[0]);
        assert("expected_revision_id"@[0] != "consistency"@[0]);
        assert("expected_revision_id"@[0] != "desired_sha256"@[0]);
    }
    r
}

/// The journal response recorded with a dispatch.
pub fn dispatch_response(attempts: u64) -> (r: JsonValue)
    ensures
        spec_dispatch_attempts(Some(r)) == attempts,
{
    let mut members: Vec<(String, JsonValue)> = Vec::new();
    members.push((owned("dispatch_attempts"), JsonValue::Number(JsonNumber::PosInt(attempts))));
    let r = JsonValue::Object(members);
    proof {
        reveal_strlit("dispatch_attempts");
    }
    r
}

/// `Some(text)` as a JSON string, `None` as null.
pub open spec fn spec_text_or_null(o: Option<String>) -> Option<Seq<char>> {
    match o {
        Some(t) => Some(t@),
        None => None,
    }
}

/// The JSON member holds `text` as a string, or null where there is none.
pub open spec fn spec_member_is(m: Option<JsonValue>, text: Option<Seq<char>>) -> bool {
    match text {
        Some(t) => m matches Some(JsonValue::Str(x)) && x@ == t,
        None => m == Some(JsonValue::Null),
    }
}

fn text_or_null(o: &Option<String>) -> (r: JsonValue)
    ensures
        spec_member_is(Some(r), spec_text_or_null(*o)),
{
    match o {
        Some(t) => JsonValue::Str(owned(t.as_str())),
        None => JsonValue::Null,
    }
}

/// The journal response recorded with an escalation: the dispatch count and
/// what was observed of the document, null where nothing was.
pub fn observation_response(
    attempts: u64,
    observed_revision_id: &Option<String>,
    observed_sha256: &Option<String>,
) -> (r: JsonValue)
    ensures
        spec_dispatch_attempts(Some(r)) == attempts,
        spec_member_is(spec_get(r, "observed_revision_id"@), spec_text_or_null(*observed_revision_id)),
        spec_member_is(spec_get(r, "observed_sha256"@), spec_text_or_null(*observed_sha256)),
{
    let mut members: Vec<(String, JsonValue)> = Vec::new();
    members.push((owned("dispatch_attempts"), JsonValue::Number(JsonNumber::PosInt(attempts))));
    members.push((owned("observed_revision_id"), text_or_null(observed_revision_id)));
    members.push((owned("observed_sha256"), text_or_null(observed_sha256)));
    proof {
        reveal_strlit("dispatch_attempts");
        reveal_strlit("observed_revision_id");
        reveal_strlit("observed_sha256");
        assert("dispatch_attempts"@[0] != "observed_revision_id"@[0]);
        assert("dispatch_attempts"@[0] != "observed_sha256"@[0]);
        assert("observed_revision_id"@.len() != "observed_sha256"@.len());
        let ms = members@;
        assert(crate::json::spec_member_from(ms, "observed_sha256"@, 2) == Some(ms[2].1));
        assert(ms[1].0@ != "observed_sha256"@);
        assert(crate::json::spec_member_from(ms, "observed_sha256"@, 1) == Some(ms[2].1));
        assert(ms[0].0@ != "observed_sha256"@);
        assert(crate::json::spec_member_from(ms, "observed_sha256"@, 0) == Some(ms[2].1));
        assert(crate::json::spec_member_from(ms, "observed_revision_id"@, 1) == Some(ms[1].1));
        assert(crate::json::spec_member_from(ms, "observed_revision_id"@, 0) == Some(ms[1].1));
        assert(crate::json::spec_member_from(ms, "dispatch_attempts"@, 0) == Some(ms[0].1));
    }
    JsonValue::Object(members)
}

} // verus!
