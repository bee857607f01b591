//! Revision-bound approvals: request validation, reply parsing and quorum derivation.
use vstd::prelude::*;

use crate::integrations::lark::error::LarkCliError;
use crate::integrations::lark::identity::ChatId;
use crate::integrations::lark::identity::OpenId;
use crate::integrations::lark::identity::ThreadId;
use crate::text::eq_ignore_case;
use crate::text::join_spaces;
use crate::text::spec_eq_ignore_case;
use crate::text::spec_join_spaces;
use crate::text::spec_starts_with;
use crate::text::spec_words;
use crate::text::split_whitespace;
use crate::text::starts_with;
use crate::text::str_eq;
use crate::text::vec_eq;

verus! {

/// One approver's explicit decision.
#[derive(Clone, Copy, Debug, PartialEq, Eq, Structural)]
pub enum ApprovalDecision {
    Approve,
    ChangesRequested,
    Revoke,
}

/// The artifact an approval is bound to.
#[derive(Clone, Debug, PartialEq, Eq)]
pub struct ApprovalSubject {
    pub artifact_id: String,
    pub sha256: String,
    pub document_id: Option<String>,
    pub document_revision: Option<String>,
}

/// A quorum approval gate over one subject.
#[derive(Clone, Debug, PartialEq, Eq)]
pub struct ApprovalRequest {
    pub effect_key: String,
    pub gate: String,
    pub subject: ApprovalSubject,
    pub prompt: String,
    pub chat_id: ChatId,
    pub thread_id: Option<ThreadId>,
    pub allowed_approvers: Vec<OpenId>,
    pub quorum: usize,
    pub deadline_ms: i64,
}

/// One persisted decision row.
#[derive(Clone, Debug, PartialEq, Eq)]
pub struct WorkflowApprovalDecisionRecord {
    pub decision_id: String,
    pub approval_id: String,
    pub sender_id: String,
    pub message_id: Option<String>,
    pub response_artifact_id: Option<String>,
    pub decision: String,
    pub reason: Option<String>,
    pub created_at_ms: i64,
}

/// Attributable evidence behind an approval outcome.
#[derive(Clone, Debug, PartialEq, Eq)]
pub struct ApprovalDecisionEvidence {
    pub sender: OpenId,
    pub decision: ApprovalDecision,
    pub message_id: Option<String>,
    pub response_artifact_id: Option<String>,
    pub reason: Option<String>,
    pub created_at_ms: i64,
}

/// Derived state of one approval.
#[derive(Clone, Debug, PartialEq, Eq)]
pub enum ApprovalOutcome {
    Waiting { approval_id: String, interaction_id: String },
    Approved { approval_id: String, decisions: Vec<ApprovalDecisionEvidence> },
    ChangesRequested { approval_id: String, decisions: Vec<ApprovalDecisionEvidence> },
    Revoked { approval_id: String, decisions: Vec<ApprovalDecisionEvidence> },
    TimedOut { approval_id: String },
    Cancelled { approval_id: String },
    NeedsOperator { approval_id: String, reason: String },
}

#[derive(Clone, Debug, PartialEq, Eq)]
pub enum WorkflowApprovalError {
    InvalidRequest,
    NotFound,
    UnauthorizedApprover,
    InvalidState,
    SubjectDigestMismatch,
    Lark(LarkCliError),
}

/// ASCII letter, digit, `-`, `_` or `.`.
pub open spec fn spec_gate_byte(b: u8) -> bool {
    (48 <= b <= 57) || (65 <= b <= 90) || (97 <= b <= 122) || b == 45 || b == 95 || b == 46
}

pub open spec fn spec_hex_byte(b: u8) -> bool {
    (48 <= b <= 57) || (65 <= b <= 70) || (97 <= b <= 102)
}

/// The approval request is well formed.
pub open spec fn spec_valid_request(r: ApprovalRequest) -> bool {
    let gate = vstd::utf8::encode_utf8(r.gate@);
    let sha = vstd::utf8::encode_utf8(r.subject.sha256@);
    &&& gate.len() > 0
    &&& gate.len() <= 128
    &&& forall|i: int| 0 <= i < gate.len() ==> spec_gate_byte(#[trigger] gate[i])
    &&& r.allowed_approvers@.len() > 0
    &&& r.quorum <= r.allowed_approvers@.len()
    &&& r.deadline_ms > 0
    &&& r.prompt@.len() > 0
    &&& vstd::utf8::encode_utf8(r.prompt@).len() <= 4000
    &&& sha.len() == 64
    &&& forall|i: int| 0 <= i < sha.len() ==> spec_hex_byte(#[trigger] sha[i])
    &&& (r.subject.document_id is Some) == (r.subject.document_revision is Some)
}

fn all_bytes(bytes: &[u8], hex: bool) -> (r: bool)
    ensures
        r == (forall|i: int|
            0 <= i < bytes@.len() ==> if hex {
                spec_hex_byte(#[trigger] bytes@[i])
            } else {
                spec_gate_byte(bytes@[i])
            }),
{
    let mut i: usize = 0;
    while i < bytes.len()
        invariant
            i <= bytes@.len(),
            forall|k: int|
                0 <= k < i ==> if hex {
                    spec_hex_byte(#[trigger] bytes@[k])
                } else {
                    spec_gate_byte(bytes@[k])
                },
        decreases bytes.len() - i,
    {
        let b = bytes[i];
        let ok = if hex {
            (48 <= b && b <= 57) || (65 <= b && b <= 70) || (97 <= b && b <= 102)
        } else {
            (48 <= b && b <= 57) || (65 <= b && b <= 90) || (97 <= b && b <= 122) || b == 45 || b
                == 95 || b == 46
        };
        if !ok {
            return false;
        }
        i += 1;
    }
    true
}

/// Refuses malformed approval requests.
pub fn validate_request(request: &ApprovalRequest) -> (r: Result<(), WorkflowApprovalError>)
    ensures
        r is Ok <==> spec_valid_request(*request),
        r is Err ==> r == Err::<(), WorkflowApprovalError>(WorkflowApprovalError::InvalidRequest),
{
    let gate = request.gate.as_str().as_bytes();
    let sha = request.subject.sha256.as_str().as_bytes();
    if gate.len() == 0 || gate.len() > 128 || !all_bytes(gate, false)
        || request.allowed_approvers.len() == 0
        || request.quorum > request.allowed_approvers.len() || request.deadline_ms <= 0
        || request.prompt.as_str().is_empty() || request.prompt.as_str().as_bytes().len() > 4000
        || sha.len() != 64 || !all_bytes(sha, true) || request.subject.document_id.is_some()
        != request.subject.document_revision.is_some() {
        return Err(WorkflowApprovalError::InvalidRequest);
    }
    Ok(())
}

/// Persisted name of a decision.
pub open spec fn spec_decision_name(d: ApprovalDecision) -> Seq<char> {
    match d {
        ApprovalDecision::Approve => "approve"@,
        ApprovalDecision::ChangesRequested => "changes_requested"@,
        ApprovalDecision::Revoke => "revoke"@,
    }
}

pub fn decision_name(decision: ApprovalDecision) -> (r: &'static str)
    ensures
        r@ == spec_decision_name(decision),
{
    match decision {
        ApprovalDecision::Approve => "approve",
        ApprovalDecision::ChangesRequested => "changes_requested",
        ApprovalDecision::Revoke => "revoke",
    }
}

/// Reply words other than correlation markers (`[wf:…]`).
pub open spec fn spec_command(text: Seq<char>) -> Seq<Seq<char>> {
    spec_words(text).filter(spec_not_marker())
}

/// Keeps words that are not correlation markers.
pub open spec fn spec_not_marker() -> spec_fn(Seq<char>) -> bool {
    |w: Seq<char>| !spec_starts_with(w, "[wf:"@)
}

/// `VERB NONCE SHA256 [REASON…]`: approve takes no reason; the others need one.
pub open spec fn spec_parse_decision(text: Seq<char>, nonce: Seq<char>, sha256: Seq<char>) -> Option<
    (ApprovalDecision, Option<Seq<char>>),
> {
    let c = spec_command(text);
    if c.len() < 3 || c[1] != nonce || !spec_eq_ignore_case(c[2], sha256) {
        None
    } else if c[0] == "APPROVE"@ && c.len() == 3 {
        Some((ApprovalDecision::Approve, None))
    } else if c[0] == "CHANGES_REQUESTED"@ && c.len() > 3 {
        Some((ApprovalDecision::ChangesRequested, Some(spec_join_spaces(c.skip(3)))))
    } else if c[0] == "REVOKE"@ && c.len() > 3 {
        Some((ApprovalDecision::Revoke, Some(spec_join_spaces(c.skip(3)))))
    } else {
        None
    }
}

/// Parses an approver's reply bound to this request's nonce and subject digest.
pub fn parse_decision(text: &str, expected_nonce: &str, expected_sha256: &str) -> (r: Option<
    (ApprovalDecision, Option<String>),
>)
    ensures
        match (r, spec_parse_decision(text@, expected_nonce@, expected_sha256@)) {
            (None, None) => true,
            (Some((d, None)), Some((e, None))) => d == e,
            (Some((d, Some(reason))), Some((e, Some(expected)))) => d == e && reason@ == expected,
            _ => false,
        },
{
    let words = split_whitespace(text);
    let mut command: Vec<Vec<char>> = Vec::new();
    let ghost all = words@.map_values(|w: Vec<char>| w@);
    let ghost pred = spec_not_marker();
    let mut i: usize = 0;
    while i < words.len()
        invariant
            i <= words@.len(),
            all == words@.map_values(|w: Vec<char>| w@),
            pred == spec_not_marker(),
            command@.map_values(|w: Vec<char>| w@) == all.take(i as int).filter(pred),
        decreases words.len() - i,
    {
        proof {
            lemma_filter_step(all, i as int, pred);
            assert(all[i as int] == words@[i as int]@);
            assert(pred(all[i as int]) == !spec_starts_with(words@[i as int]@, "[wf:"@));
        }
        if !starts_with(&words[i], "[wf:") {
            let ghost before = command@;
            command.push(crate::text::copy_chars(&words[i]));
            assert(command@.map_values(|w: Vec<char>| w@) =~= before.map_values(|w: Vec<char>| w@).push(
                words@[i as int]@,
            ));
        }
        i += 1;
    }
    assert(all.take(words@.len() as int) == all);
    let ghost c = command@.map_values(|w: Vec<char>| w@);
    assert(c == spec_command(text@));
    if command.len() < 3 {
        return None;
    }
    let sha = crate::text::chars_of(expected_sha256);
    if !vec_eq(&command[1], expected_nonce) || !eq_ignore_case(&command[2], &sha) {
        return None;
    }
    proof {
        reveal_strlit("APPROVE");
        reveal_strlit("CHANGES_REQUESTED");
        reveal_strlit("REVOKE");
        assert("APPROVE"@.len() != "CHANGES_REQUESTED"@.len());
        assert("APPROVE"@.len() != "REVOKE"@.len());
    }
    if vec_eq(&command[0], "APPROVE") {
        if command.len() == 3 {
            return Some((ApprovalDecision::Approve, None));
        }
        return None;
    }
    let decision = if vec_eq(&command[0], "CHANGES_REQUESTED") {
        ApprovalDecision::ChangesRequested
    } else if vec_eq(&command[0], "REVOKE") {
        ApprovalDecision::Revoke
    } else {
        return None;
    };
    if command.len() == 3 {
        return None;
    }
    let reason = join_spaces(&command, 3);
    Some((decision, Some(reason)))
}


/// Decision named by a persisted row, if it is a known name.
pub open spec fn spec_decision_of(name: Seq<char>) -> Option<ApprovalDecision> {
    if name == "approve"@ {
        Some(ApprovalDecision::Approve)
    } else if name == "changes_requested"@ {
        Some(ApprovalDecision::ChangesRequested)
    } else if name == "revoke"@ {
        Some(ApprovalDecision::Revoke)
    } else {
        None
    }
}

/// A persisted decision name reads back as the decision that was written.
pub proof fn law_decision_name_round_trip(d: ApprovalDecision)
    ensures
        spec_decision_of(spec_decision_name(d)) == Some(d),
{
    reveal_strlit("approve");
    reveal_strlit("changes_requested");
    reveal_strlit("revoke");
    assert("approve"@.len() != "changes_requested"@.len());
    assert("approve"@.len() != "revoke"@.len());
    assert("changes_requested"@.len() != "revoke"@.len());
}

/// The first malformed row's fault: `Some(true)` a bad sender, `Some(false)` a bad decision.
pub open spec fn spec_first_fault(records: Seq<WorkflowApprovalDecisionRecord>) -> Option<bool>
    decreases records.len(),
{
    if records.len() == 0 {
        None
    } else if !crate::integrations::lark::identity::spec_prefixed_id(records[0].sender_id@, "ou_"@) {
        Some(true)
    } else if spec_decision_of(records[0].decision@) is None {
        Some(false)
    } else {
        spec_first_fault(records.drop_first())
    }
}

/// Distinct senders of approving rows, in first-seen order.
pub open spec fn spec_approvers(records: Seq<WorkflowApprovalDecisionRecord>) -> Seq<Seq<char>>
    decreases records.len(),
{
    if records.len() == 0 {
        Seq::empty()
    } else {
        let a = spec_approvers(records.drop_last());
        if records.last().decision@ == "approve"@ && !a.contains(records.last().sender_id@) {
            a.push(records.last().sender_id@)
        } else {
            a
        }
    }
}

/// Some row carries `name`.
pub open spec fn spec_any_decision(records: Seq<WorkflowApprovalDecisionRecord>, name: Seq<char>) -> bool {
    exists|i: int| 0 <= i < records.len() && (#[trigger] records[i]).decision@ == name
}

/// Evidence restates the rows one for one.
pub open spec fn spec_evidence_of(
    evidence: Seq<ApprovalDecisionEvidence>,
    records: Seq<WorkflowApprovalDecisionRecord>,
) -> bool {
    &&& evidence.len() == records.len()
    &&& forall|i: int|
        0 <= i < records.len() ==> {
            let e = #[trigger] evidence[i];
            let r = records[i];
            &&& e.sender.view() == r.sender_id@
            &&& Some(e.decision) == spec_decision_of(r.decision@)
            &&& e.message_id == r.message_id
            &&& e.response_artifact_id == r.response_artifact_id
            &&& e.reason == r.reason
            &&& e.created_at_ms == r.created_at_ms
        }
}

/// Terminal outcome of an approval, if one is reached: a revocation wins, then a
/// change request, then a quorum of distinct approvers, then the deadline.
pub open spec fn spec_terminal_kind(
    quorum: u32,
    deadline_ms: i64,
    now_ms: i64,
    records: Seq<WorkflowApprovalDecisionRecord>,
) -> Option<u8> {
    if spec_any_decision(records, "revoke"@) {
        Some(0)
    } else if spec_any_decision(records, "changes_requested"@) {
        Some(1)
    } else if spec_approvers(records).len() >= quorum {
        Some(2)
    } else if now_ms > deadline_ms {
        Some(3)
    } else {
        None
    }
}

fn clone_opt(v: &Option<String>) -> (r: Option<String>)
    ensures
        r == *v,
{
    match v {
        Some(s) => Some(s.clone()),
        None => None,
    }
}

fn chars_vec_eq(a: &Vec<char>, b: &Vec<char>) -> (r: bool)
    ensures
        r == (a@ == b@),
{
    if a.len() != b.len() {
        return false;
    }
    let mut i: usize = 0;
    while i < a.len()
        invariant
            i <= a@.len(),
            a@.len() == b@.len(),
            forall|k: int| 0 <= k < i ==> a@[k] == b@[k],
        decreases a.len() - i,
    {
        if a[i] != b[i] {
            return false;
        }
        i += 1;
    }
    assert(a@ =~= b@);
    true
}

proof fn lemma_any_step(records: Seq<WorkflowApprovalDecisionRecord>, i: int, name: Seq<char>)
    requires
        0 <= i < records.len(),
    ensures
        spec_any_decision(records.take(i + 1), name) == (spec_any_decision(records.take(i), name)
            || records[i].decision@ == name),
{
    let a = records.take(i + 1);
    let b = records.take(i);
    if spec_any_decision(b, name) {
        let k = choose|k: int| 0 <= k < b.len() && (#[trigger] b[k]).decision@ == name;
        assert(a[k] == b[k]);
    }
    if records[i].decision@ == name {
        assert(a[i] == records[i]);
    }
    if spec_any_decision(a, name) {
        let k = choose|k: int| 0 <= k < a.len() && (#[trigger] a[k]).decision@ == name;
        if k < i {
            assert(a[k] == b[k]);
        }
    }
}

proof fn lemma_filter_step(s: Seq<Seq<char>>, i: int, pred: spec_fn(Seq<char>) -> bool)
    requires
        0 <= i < s.len(),
    ensures
        s.take(i + 1).filter(pred) == if pred(s[i]) {
            s.take(i).filter(pred).push(s[i])
        } else {
            s.take(i).filter(pred)
        },
{
    reveal(Seq::filter);
    assert(s.take(i + 1).drop_last() == s.take(i));
    assert(s.take(i + 1).last() == s[i]);
}

/// Restates one persisted decision row as evidence.
pub fn decision_evidence(record: &WorkflowApprovalDecisionRecord) -> (r: Result<
    ApprovalDecisionEvidence,
    WorkflowApprovalError,
>)
    ensures
        match r {
            Ok(e) => crate::integrations::lark::identity::spec_prefixed_id(record.sender_id@, "ou_"@)
                && spec_decision_of(record.decision@) is Some && spec_evidence_of(seq![e], seq![*record]),
            Err(WorkflowApprovalError::Lark(LarkCliError::InvalidRequest { .. })) =>
                !crate::integrations::lark::identity::spec_prefixed_id(record.sender_id@, "ou_"@),
            Err(WorkflowApprovalError::InvalidState) =>
                crate::integrations::lark::identity::spec_prefixed_id(record.sender_id@, "ou_"@)
                && spec_decision_of(record.decision@) is None,
            Err(_) => false,
        },
{
    let sender = match OpenId::parse(record.sender_id.clone()) {
        Ok(id) => id,
        Err(e) => {
            return Err(WorkflowApprovalError::Lark(e));
        },
    };
    let decision = if str_eq(record.decision.as_str(), "approve") {
        ApprovalDecision::Approve
    } else if str_eq(record.decision.as_str(), "changes_requested") {
        ApprovalDecision::ChangesRequested
    } else if str_eq(record.decision.as_str(), "revoke") {
        ApprovalDecision::Revoke
    } else {
        return Err(WorkflowApprovalError::InvalidState);
    };
    Ok(
        ApprovalDecisionEvidence {
            sender,
            decision,
            message_id: clone_opt(&record.message_id),
            response_artifact_id: clone_opt(&record.response_artifact_id),
            reason: clone_opt(&record.reason),
            created_at_ms: record.created_at_ms,
        },
    )
}

/// `r` is the terminal outcome derived from the decision evidence: an error
/// for the first malformed row, else the outcome its kind names, or none.
pub open spec fn spec_derived(
    approval_id: Seq<char>,
    quorum: u32,
    deadline_ms: i64,
    now_ms: i64,
    decisions: Seq<WorkflowApprovalDecisionRecord>,
    r: Result<Option<ApprovalOutcome>, WorkflowApprovalError>,
) -> bool {
    match spec_first_fault(decisions) {
            Some(true) => r matches Err(WorkflowApprovalError::Lark(LarkCliError::InvalidRequest { .. })),
            Some(false) => r == Err::<Option<ApprovalOutcome>, WorkflowApprovalError>(
                WorkflowApprovalError::InvalidState,
            ),
            None => match (r, spec_terminal_kind(quorum, deadline_ms, now_ms, decisions)) {
                (Ok(None), None) => true,
                (Ok(Some(ApprovalOutcome::Revoked { approval_id: id, decisions: ev })), Some(0)) =>
                    id@ == approval_id && spec_evidence_of(ev@, decisions),
                (
                    Ok(Some(ApprovalOutcome::ChangesRequested { approval_id: id, decisions: ev })),
                    Some(1),
                ) => id@ == approval_id && spec_evidence_of(ev@, decisions),
                (Ok(Some(ApprovalOutcome::Approved { approval_id: id, decisions: ev })), Some(2)) =>
                    id@ == approval_id && spec_evidence_of(ev@, decisions),
                (Ok(Some(ApprovalOutcome::TimedOut { approval_id: id })), Some(3)) => id@
                    == approval_id,
                _ => false,
            },
        }
}

/// Derives the terminal outcome, if any, from append-only decision evidence.
#[verifier::loop_isolation(false)]
pub fn derive_terminal(
    approval_id: &str,
    quorum: u32,
    deadline_ms: i64,
    now_ms: i64,
    decisions: &Vec<WorkflowApprovalDecisionRecord>,
) -> (r: Result<Option<ApprovalOutcome>, WorkflowApprovalError>)
    ensures
        spec_derived(approval_id@, quorum, deadline_ms, now_ms, decisions@, r),
{
    proof {
        reveal_strlit("revoke");
        reveal_strlit("approve");
        reveal_strlit("changes_requested");
    }
    let mut evidence: Vec<ApprovalDecisionEvidence> = Vec::new();
    let mut approvers: Vec<Vec<char>> = Vec::new();
    let mut revoked = false;
    let mut changes = false;
    let mut i: usize = 0;
    assert(decisions@.skip(0) == decisions@);
    while i < decisions.len()
        invariant
            i <= decisions@.len(),
            spec_first_fault(decisions@) == spec_first_fault(decisions@.skip(i as int)),
            spec_evidence_of(evidence@, decisions@.take(i as int)),
            approvers@.map_values(|a: Vec<char>| a@) == spec_approvers(decisions@.take(i as int)),
            revoked == spec_any_decision(decisions@.take(i as int), "revoke"@),
            changes == spec_any_decision(decisions@.take(i as int), "changes_requested"@),
        decreases decisions.len() - i,
    {
        let rec = &decisions[i];
        assert(decisions@.skip(i as int)[0] == *rec);
        assert(decisions@.skip(i as int).drop_first() == decisions@.skip(i + 1));
        let e = decision_evidence(rec)?;
        assert(Some(e.decision) == spec_decision_of(rec.decision@)) by {
            assert(seq![e][0] == e);
            assert(seq![*rec][0] == *rec);
        }
        let ghost take_next = decisions@.take(i + 1);
        assert(take_next.drop_last() == decisions@.take(i as int));
        assert(take_next.last() == *rec);
        if e.decision == ApprovalDecision::Revoke {
            revoked = true;
        }
        if e.decision == ApprovalDecision::ChangesRequested {
            changes = true;
        }
        proof {
            reveal_strlit("revoke");
            reveal_strlit("approve");
            reveal_strlit("changes_requested");
            assert("revoke"@ != "approve"@) by {
                assert("revoke"@.len() != "approve"@.len());
            }
            assert("changes_requested"@ != "approve"@) by {
                assert("changes_requested"@.len() != "approve"@.len());
            }
            assert("revoke"@ != "changes_requested"@) by {
                assert("revoke"@.len() != "changes_requested"@.len());
            }
        }
        assert((e.decision == ApprovalDecision::Revoke) == (rec.decision@ == "revoke"@));
        assert((e.decision == ApprovalDecision::ChangesRequested) == (rec.decision@ == "changes_requested"@));
        proof {
            lemma_any_step(decisions@, i as int, "revoke"@);
            lemma_any_step(decisions@, i as int, "changes_requested"@);
        }
        if e.decision == ApprovalDecision::Approve {
            let sender = crate::text::chars_of(rec.sender_id.as_str());
            let mut seen = false;
            let mut k: usize = 0;
            while k < approvers.len()
                invariant
                    k <= approvers@.len(),
                    sender@ == rec.sender_id@,
                    seen == exists|x: int| 0 <= x < k && approvers@[x]@ == sender@,
                decreases approvers.len() - k,
            {
                if chars_vec_eq(&approvers[k], &sender) {
                    seen = true;
                }
                k += 1;
            }
            let ghost before = approvers@;
            proof {
                let a = before.map_values(|a: Vec<char>| a@);
                if a.contains(sender@) {
                    let x = choose|x: int| 0 <= x < a.len() && a[x] == sender@;
                    assert(before[x]@ == sender@);
                }
                if seen {
                    let x = choose|x: int| 0 <= x < k && before[x]@ == sender@;
                    assert(a[x] == sender@);
                }
            }
            if !seen {
                approvers.push(sender);
                assert(approvers@.map_values(|a: Vec<char>| a@) =~= before.map_values(|a: Vec<char>| a@).push(
                    rec.sender_id@,
                ));
            }
        }
        let ghost ev_before = evidence@;
        evidence.push(e);
        proof {
            assert forall|k: int| 0 <= k < take_next.len() implies {
                let e = #[trigger] evidence@[k];
                let r = take_next[k];
                &&& e.sender.view() == r.sender_id@
                &&& Some(e.decision) == spec_decision_of(r.decision@)
                &&& e.message_id == r.message_id
                &&& e.response_artifact_id == r.response_artifact_id
                &&& e.reason == r.reason
                &&& e.created_at_ms == r.created_at_ms
            } by {
                if k < i {
                    assert(take_next[k] == decisions@.take(i as int)[k]);
                    assert(evidence@[k] == ev_before[k]);
                } else {
                    assert(evidence@[k] == seq![evidence@[k]][0]);
                }
            }
        }
        i += 1;
    }
    assert(decisions@.take(decisions@.len() as int) == decisions@);
    assert(decisions@.skip(decisions@.len() as int) =~= Seq::<WorkflowApprovalDecisionRecord>::empty());
    if revoked {
        return Ok(Some(ApprovalOutcome::Revoked { approval_id: crate::text::owned(approval_id), decisions: evidence }));
    }
    if changes {
        return Ok(Some(ApprovalOutcome::ChangesRequested { approval_id: crate::text::owned(approval_id), decisions: evidence }));
    }
    if approvers.len() >= quorum as usize {
        return Ok(Some(ApprovalOutcome::Approved { approval_id: crate::text::owned(approval_id), decisions: evidence }));
    }
    if now_ms > deadline_ms {
        return Ok(Some(ApprovalOutcome::TimedOut { approval_id: crate::text::owned(approval_id) }));
    }
    Ok(None)
}

} // verus!
