//! The steps of collecting approvals: binding the request to its subject,
//! asking each approver in turn, judging each reply, and revoking.
use vstd::prelude::*;

use crate::text::spec_opt_str;

use crate::digest::sha256;
use crate::digest::spec_hex;
use crate::digest::sha256_digest;
use crate::digest::hex_lower;
use crate::runtime::approval::decision_name;
use crate::runtime::approval::parse_decision;
use crate::runtime::approval::spec_decision_name;
use crate::runtime::approval::spec_parse_decision;
use crate::runtime::approval::ApprovalDecision;
use crate::runtime::approval::ApprovalRequest;
use crate::runtime::approval::WorkflowApprovalDecisionRecord;
use crate::runtime::approval::WorkflowApprovalError;
use crate::runtime::document_update::spec_content_sha256;
use crate::runtime::document_update::content_sha256;
use crate::runtime::interaction::HumanInteractionOutcome;
use crate::runtime::interaction::HumanInteractionRequest;
use crate::integrations::lark::identity::OpenId;
use crate::integrations::lark::identity::ThreadId;
use crate::integrations::lark::types::ContentSensitivity;
use crate::text::chars_of;
use crate::text::eq_ignore_case;
use crate::text::owned;
use crate::text::prefix_chars;
use crate::text::push_char;
use crate::text::push_str;
use crate::text::spec_eq_ignore_case;
use crate::text::str_eq;

verus! {

/// Invalid replies tolerated per approver before an operator is needed.
pub const MAX_INVALID_RESPONSES_PER_APPROVER: usize = 3;

/// The stored subject's digest matches the request's, ignoring ASCII case.
pub fn subject_digest_matches(subject_bytes: &[u8], expected_sha256: &str) -> (r: bool)
    ensures
        r == spec_eq_ignore_case(spec_hex(sha256_digest(subject_bytes@)), expected_sha256@),
{
    let actual = hex_lower(&sha256(subject_bytes));
    eq_ignore_case(&chars_of(actual.as_str()), &chars_of(expected_sha256))
}

/// The request nonce: the first 24 characters of the stored request hash.
pub fn request_nonce(request_hash: &str) -> (r: String)
    requires
        request_hash@.len() >= 24,
    ensures
        r@ == request_hash@.take(24),
{
    prefix_chars(request_hash, 24)
}

/// Whether `approver` already has a recorded decision.
pub fn has_decided(decisions: &Vec<WorkflowApprovalDecisionRecord>, approver: &str) -> (r: bool)
    ensures
        r == exists|i: int| 0 <= i < decisions.len() && #[trigger] decisions@[i].sender_id@ == approver@,
{
    let mut i: usize = 0;
    while i < decisions.len()
        invariant
            i <= decisions.len(),
            forall|j: int| 0 <= j < i ==> decisions@[j].sender_id@ != approver@,
        decreases decisions.len() - i,
    {
        if str_eq(decisions[i].sender_id.as_str(), approver) {
            return true;
        }
        i += 1;
    }
    false
}

// ---------------------------------------------------------------- decimal text

pub open spec fn spec_digit_char(d: nat) -> char {
    (('0' as nat) + d) as char
}

/// `n.to_string()` for an unsigned integer.
pub open spec fn spec_decimal(n: nat) -> Seq<char>
    decreases n,
{
    if n < 10 {
        seq![spec_digit_char(n)]
    } else {
        spec_decimal(n / 10).push(spec_digit_char(n % 10))
    }
}

/// Writes `n` in decimal.
pub fn decimal(n: usize) -> (r: String)
    ensures
        r@ == spec_decimal(n as nat),
    decreases n,
{
    if n < 10 {
        let mut s = String::new();
        push_char(&mut s, (48u8 + n as u8) as char);
        s
    } else {
        let mut s = decimal(n / 10);
        push_char(&mut s, (48u8 + (n % 10) as u8) as char);
        s
    }
}

// ---------------------------------------------------------------- effect keys

/// The digest input of one approver's `attempt`-th interaction.
pub open spec fn spec_effect_input(
    approval_id: Seq<char>,
    approver: Seq<char>,
    attempt: nat,
    prior_invalid_artifact: Option<Seq<char>>,
) -> Seq<char> {
    approval_id + seq!['\0'] + approver + seq!['\0'] + spec_decimal(attempt) + seq!['\0'] + match prior_invalid_artifact {
        Some(a) => a,
        None => Seq::empty(),
    }
}

/// The effect key of one approver's `attempt`-th interaction, chained to the
/// artifact of the invalid reply before it.
pub fn approval_interaction_effect(
    approval_id: &str,
    approver: &str,
    attempt: usize,
    prior_invalid_artifact: Option<&str>,
) -> (r: String)
    ensures
        r@ == "approval-response-"@ + spec_content_sha256(
            spec_effect_input(
                approval_id@,
                approver@,
                attempt as nat,
                match prior_invalid_artifact {
                    Some(a) => Some(a@),
                    None => None,
                },
            ),
        ).take(32),
{
    let mut input = owned(approval_id);
    push_char(&mut input, '\0');
    push_str(&mut input, approver);
    push_char(&mut input, '\0');
    let d = decimal(attempt);
    push_str(&mut input, d.as_str());
    push_char(&mut input, '\0');
    match prior_invalid_artifact {
        Some(a) => push_str(&mut input, a),
        None => {},
    }
    let digest = content_sha256(input.as_str());
    let mut out = owned("approval-response-");
    let p = prefix_chars(digest.as_str(), 32);
    push_str(&mut out, p.as_str());
    proof {
        assert(input@ == spec_effect_input(
            approval_id@,
            approver@,
            attempt as nat,
            match prior_invalid_artifact {
                Some(a) => Some(a@),
                None => None,
            },
        ));
    }
    out
}

// ---------------------------------------------------------------- prompt

/// The text asking one approver for a decision.
pub open spec fn spec_approval_prompt(
    prompt: Seq<char>,
    gate: Seq<char>,
    sha: Seq<char>,
    nonce: Seq<char>,
) -> Seq<char> {
    prompt + "\n\nApproval gate: "@ + gate + "\nSubject SHA-256: "@ + sha + "\nRequest nonce: "@ + nonce
        + "\nReply exactly with one of:\nAPPROVE "@ + nonce + " "@ + sha + "\nCHANGES_REQUESTED "@
        + nonce + " "@ + sha + " <reason>\nREVOKE "@ + nonce + " "@ + sha + " <reason>"@
}

pub fn approval_prompt(request: &ApprovalRequest, nonce: &str) -> (r: String)
    ensures
        r@ == spec_approval_prompt(request.prompt@, request.gate@, request.subject.sha256@, nonce@),
{
    let sha = request.subject.sha256.as_str();
    let mut s = owned(request.prompt.as_str());
    push_str(&mut s, "\n\nApproval gate: ");
    push_str(&mut s, request.gate.as_str());
    push_str(&mut s, "\nSubject SHA-256: ");
    push_str(&mut s, sha);
    push_str(&mut s, "\nRequest nonce: ");
    push_str(&mut s, nonce);
    push_str(&mut s, "\nReply exactly with one of:\nAPPROVE ");
    push_str(&mut s, nonce);
    push_str(&mut s, " ");
    push_str(&mut s, sha);
    push_str(&mut s, "\nCHANGES_REQUESTED ");
    push_str(&mut s, nonce);
    push_str(&mut s, " ");
    push_str(&mut s, sha);
    push_str(&mut s, " <reason>\nREVOKE ");
    push_str(&mut s, nonce);
    push_str(&mut s, " ");
    push_str(&mut s, sha);
    push_str(&mut s, " <reason>");
    s
}

// ---------------------------------------------------------------- request

/// The effect key of one approver's `attempt`-th interaction.
pub open spec fn spec_approval_effect_key(
    approval_id: Seq<char>,
    approver: Seq<char>,
    attempt: nat,
    prior_invalid_artifact: Option<Seq<char>>,
) -> Seq<char> {
    "approval-response-"@ + spec_content_sha256(
        spec_effect_input(approval_id, approver, attempt, prior_invalid_artifact),
    ).take(32)
}

/// The text of an optional thread id.
pub open spec fn spec_thread_text(t: Option<ThreadId>) -> Option<Seq<char>> {
    match t {
        Some(id) => Some(id.view()),
        None => None,
    }
}

/// The interaction that asks `approver` for the `attempt`-th time: only that
/// approver may answer, in the approval's chat and thread, before its
/// deadline, with the approval prompt bound to `nonce` and the subject.
pub fn approver_request(
    request: &ApprovalRequest,
    approval_id: &str,
    approver: &OpenId,
    nonce: &str,
    attempt: usize,
    prior_invalid_artifact: Option<&str>,
) -> (r: HumanInteractionRequest)
    ensures
        r.allowed_senders@.len() == 1,
        r.allowed_senders@[0].view() == approver.view(),
        r.prompt@ == spec_approval_prompt(request.prompt@, request.gate@, request.subject.sha256@, nonce@),
        r.effect_key@ == spec_approval_effect_key(
            approval_id@,
            approver.view(),
            attempt as nat,
            match prior_invalid_artifact {
                Some(a) => Some(a@),
                None => None,
            },
        ),
        r.chat_id.view() == request.chat_id.view(),
        spec_thread_text(r.thread_id) == spec_thread_text(request.thread_id),
        r.deadline_ms == request.deadline_ms,
        r.sensitivity == ContentSensitivity::NonSensitive,
{
    let effect_key = approval_interaction_effect(approval_id, approver.as_str(), attempt, prior_invalid_artifact);
    let prompt = approval_prompt(request, nonce);
    let thread_id = match &request.thread_id {
        Some(t) => Some(t.duplicate()),
        None => None,
    };
    let mut allowed_senders: Vec<OpenId> = Vec::new();
    allowed_senders.push(approver.duplicate());
    HumanInteractionRequest {
        effect_key,
        prompt,
        chat_id: request.chat_id.duplicate(),
        thread_id,
        allowed_senders,
        deadline_ms: request.deadline_ms,
        sensitivity: ContentSensitivity::NonSensitive,
    }
}

// ---------------------------------------------------------------- replies

/// A stored reply to an approval interaction.
#[derive(Clone, Debug, PartialEq, Eq)]
pub struct ApprovalReply {
    pub message_id: String,
    pub sender_id: String,
    pub created_at_ms: i64,
    pub text: String,
}

/// What asking one approver gave.
#[derive(Clone, Debug, PartialEq, Eq)]
pub enum ApproverPoll {
    Waiting(String),
    Cancelled,
    NeedsOperator(String),
    Decision(WorkflowApprovalDecisionRecord),
    /// The reply stored as this artifact was not a valid decision: ask again.
    Invalid(String),
}

/// What an interaction outcome means for the approver; `None` for a resolved
/// interaction, whose reply is read and judged next.
pub fn poll_of_interaction(outcome: &HumanInteractionOutcome) -> (r: Option<ApproverPoll>)
    ensures
        match *outcome {
            HumanInteractionOutcome::Waiting { interaction_id: i } => r matches Some(
                ApproverPoll::Waiting(x),
            ) && x@ == i@,
            HumanInteractionOutcome::TimedOut { interaction_id: i } => r matches Some(
                ApproverPoll::Waiting(x),
            ) && x@ == i@,
            HumanInteractionOutcome::Cancelled { .. } => r == Some(ApproverPoll::Cancelled),
            HumanInteractionOutcome::NeedsOperator { reason, .. } => r matches Some(
                ApproverPoll::NeedsOperator(x),
            ) && x@ == reason@,
            HumanInteractionOutcome::Resolved { .. } => r is None,
        },
{
    match outcome {
        HumanInteractionOutcome::Waiting { interaction_id }
        | HumanInteractionOutcome::TimedOut { interaction_id } => Some(
            ApproverPoll::Waiting(owned(interaction_id.as_str())),
        ),
        HumanInteractionOutcome::Cancelled { .. } => Some(ApproverPoll::Cancelled),
        HumanInteractionOutcome::NeedsOperator { reason, .. } => Some(
            ApproverPoll::NeedsOperator(owned(reason.as_str())),
        ),
        HumanInteractionOutcome::Resolved { .. } => None,
    }
}

/// `r` is the judgement of the reply stored as `artifact_id` from `approver`:
/// another sender needs an operator, an unparsable reply is invalid, and a
/// decision is recorded with its fingerprint, message, artifact and reason.
pub open spec fn spec_judge_reply(
    approval_id: Seq<char>,
    approver: Seq<char>,
    nonce: Seq<char>,
    subject_sha256: Seq<char>,
    artifact_id: Seq<char>,
    reply: ApprovalReply,
    r: ApproverPoll,
) -> bool {
    &&& reply.sender_id@ != approver ==> (r matches ApproverPoll::NeedsOperator(x) && x@
            == "approval_sender_mismatch"@)
    &&& reply.sender_id@ == approver ==> match spec_parse_decision(reply.text@, nonce, subject_sha256) {
            None => (r matches ApproverPoll::Invalid(a) && a@ == artifact_id),
            Some((d, reason)) => (r matches ApproverPoll::Decision(rec) && {
                &&& rec.decision_id@ == spec_content_sha256(
                    approval_id + seq!['\0'] + reply.message_id@ + seq!['\0'] + reply.sender_id@,
                )
                &&& rec.approval_id@ == approval_id
                &&& rec.sender_id@ == reply.sender_id@
                &&& rec.message_id matches Some(m) && m@ == reply.message_id@
                &&& rec.response_artifact_id matches Some(a) && a@ == artifact_id
                &&& rec.decision@ == spec_decision_name(d)
                &&& spec_opt_str(rec.reason) == reason
                &&& rec.created_at_ms == reply.created_at_ms
            }),
        }
}

/// Judges the reply stored as `artifact_id` from `approver`.
pub fn judge_reply(
    approval_id: &str,
    approver: &str,
    nonce: &str,
    subject_sha256: &str,
    artifact_id: &str,
    reply: &ApprovalReply,
) -> (r: ApproverPoll)
    ensures
        spec_judge_reply(approval_id@, approver@, nonce@, subject_sha256@, artifact_id@, *reply, r),
{
    if !str_eq(reply.sender_id.as_str(), approver) {
        return ApproverPoll::NeedsOperator(owned("approval_sender_mismatch"));
    }
    match parse_decision(reply.text.as_str(), nonce, subject_sha256) {
        None => ApproverPoll::Invalid(owned(artifact_id)),
        Some((decision, reason)) => {
            let mut input = owned(approval_id);
            push_char(&mut input, '\0');
            push_str(&mut input, reply.message_id.as_str());
            push_char(&mut input, '\0');
            push_str(&mut input, reply.sender_id.as_str());
            assert(input@ == approval_id@ + seq!['\0'] + reply.message_id@ + seq!['\0'] + reply.sender_id@);
            let decision_id = content_sha256(input.as_str());
            ApproverPoll::Decision(
                WorkflowApprovalDecisionRecord {
                    decision_id,
                    approval_id: owned(approval_id),
                    sender_id: owned(reply.sender_id.as_str()),
                    message_id: Some(owned(reply.message_id.as_str())),
                    response_artifact_id: Some(owned(artifact_id)),
                    decision: owned(decision_name(decision)),
                    reason,
                    created_at_ms: reply.created_at_ms,
                },
            )
        },
    }
}

/// After an invalid reply at `attempt`, the next attempt, if any is left.
pub fn next_attempt(attempt: usize) -> (r: Option<usize>)
    ensures
        r == (if attempt < MAX_INVALID_RESPONSES_PER_APPROVER {
            Some((attempt + 1) as usize)
        } else {
            None::<usize>
        }),
{
    if attempt < MAX_INVALID_RESPONSES_PER_APPROVER {
        Some(attempt + 1)
    } else {
        None
    }
}

/// The fingerprint input of a revocation.
pub open spec fn spec_revocation_input(approval_id: Seq<char>, actor: Seq<char>, reason: Seq<char>) -> Seq<char> {
    approval_id + seq!['\0'] + actor + seq!['\0'] + reason + seq!['\0'] + "revoke"@
}

fn is_allowed(allowed_approvers: &Vec<String>, actor: &str) -> (r: bool)
    ensures
        r == exists|i: int| 0 <= i < allowed_approvers.len() && #[trigger] allowed_approvers@[i]@ == actor@,
{
    let mut i: usize = 0;
    while i < allowed_approvers.len()
        invariant
            i <= allowed_approvers.len(),
            forall|j: int| 0 <= j < i ==> allowed_approvers@[j]@ != actor@,
        decreases allowed_approvers.len() - i,
    {
        if str_eq(allowed_approvers[i].as_str(), actor) {
            return true;
        }
        i += 1;
    }
    false
}

/// An explicit revocation by `actor`, who must be an allowed approver.
pub fn revocation(
    approval_id: &str,
    allowed_approvers: &Vec<String>,
    actor: &str,
    reason: &str,
    now_ms: i64,
) -> (r: Result<WorkflowApprovalDecisionRecord, WorkflowApprovalError>)
    ensures
        (exists|i: int| 0 <= i < allowed_approvers.len() && #[trigger] allowed_approvers@[i]@ == actor@)
            <==> r is Ok,
        r is Err ==> r == Err::<WorkflowApprovalDecisionRecord, WorkflowApprovalError>(
            WorkflowApprovalError::UnauthorizedApprover,
        ),
        match r {
            Ok(rec) => {
                let fp = spec_content_sha256(spec_revocation_input(approval_id@, actor@, reason@));
                &&& rec.decision_id@ == fp
                &&& rec.approval_id@ == approval_id@
                &&& rec.sender_id@ == actor@
                &&& rec.message_id matches Some(m) && m@ == "revocation:"@ + fp.take(32)
                &&& rec.response_artifact_id is None
                &&& rec.decision@ == "revoke"@
                &&& rec.reason matches Some(x) && x@ == reason@
                &&& rec.created_at_ms == now_ms
            },
            Err(_) => true,
        },
{
    let allowed = is_allowed(allowed_approvers, actor);
    if !allowed {
        return Err(WorkflowApprovalError::UnauthorizedApprover);
    }
    let mut input = owned(approval_id);
    push_char(&mut input, '\0');
    push_str(&mut input, actor);
    push_char(&mut input, '\0');
    push_str(&mut input, reason);
    push_char(&mut input, '\0');
    push_str(&mut input, "revoke");
    proof {
        reveal_strlit("revoke");
        reveal_strlit("revocation:");
    }
    assert(input@ == spec_revocation_input(approval_id@, actor@, reason@));
    let fingerprint = content_sha256(input.as_str());
    let mut message_id = owned("revocation:");
    let p = prefix_chars(fingerprint.as_str(), 32);
    push_str(&mut message_id, p.as_str());
    proof {
        reveal_strlit("revoke");
    }
    Ok(
        WorkflowApprovalDecisionRecord {
            decision_id: fingerprint,
            approval_id: owned(approval_id),
            sender_id: owned(actor),
            message_id: Some(message_id),
            response_artifact_id: None,
            decision: owned("revoke"),
            reason: Some(owned(reason)),
            created_at_ms: now_ms,
        },
    )
}

} // verus!
