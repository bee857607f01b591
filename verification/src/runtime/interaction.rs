//! Durable human interactions over Lark: the request checks, the correlation
//! tokens that tie a reply to its request, which replies count, and how the
//! stored interaction state is reported.
use vstd::prelude::*;

use crate::digest::sha256_hex;
use crate::integrations::lark::error::LarkCliError;
use crate::integrations::lark::events::LarkEvent;
use crate::integrations::lark::identity::ChatId;
use crate::integrations::lark::identity::OpenId;
use crate::integrations::lark::identity::ThreadId;
use crate::integrations::lark::types::ContentSensitivity;
use crate::integrations::lark::types::MessageTarget;
use crate::integrations::lark::messages::MessageBody;
use crate::integrations::lark::messages::MessageSendRequest;
use crate::json::JsonValue;
use crate::json::spec_get_str;
use crate::runtime::document_update::spec_content_sha256;
use crate::runtime::records::WorkflowEffectState;
use crate::text::contains_sub;
use crate::text::owned;
use crate::text::prefix_chars;
use crate::text::push_char;
use crate::text::push_str;
use crate::text::spec_contains_sub;
use crate::text::str_eq;

verus! {

/// Ask a human in a Lark chat and wait for a correlated reply.
#[derive(Clone, Debug, PartialEq, Eq)]
pub struct HumanInteractionRequest {
    pub effect_key: String,
    pub chat_id: ChatId,
    pub thread_id: Option<ThreadId>,
    pub allowed_senders: Vec<OpenId>,
    pub deadline_ms: i64,
    pub prompt: String,
    pub sensitivity: ContentSensitivity,
}

/// Where a human interaction stands.
#[derive(Clone, Debug, PartialEq, Eq)]
pub enum HumanInteractionOutcome {
    Waiting { interaction_id: String },
    Resolved { interaction_id: String, artifact_id: String },
    TimedOut { interaction_id: String },
    Cancelled { interaction_id: String },
    NeedsOperator { interaction_id: String, reason: String },
}

/// Durable state of one interaction.
#[derive(Clone, Copy, Debug, PartialEq, Eq, Structural)]
pub enum WorkflowInteractionState {
    Planned,
    Waiting,
    Resolved,
    TimedOut,
    Cancelled,
}

#[derive(Clone, Debug, PartialEq, Eq)]
pub enum LarkInteractionError {
    InvalidRequest,
    ConcurrentMutation,
    MissingEffect,
    MissingInteraction,
    MissingArtifact,
    Lark(LarkCliError),
    State(String),
    Artifact(String),
    Identifier(String),
    Json(String),
}

/// A waiting Lark interaction that an incoming message may answer.
#[derive(Clone, Debug, PartialEq, Eq)]
pub struct LarkInteractionCandidate {
    pub interaction_id: String,
    pub run_id: String,
    pub correlation_token: String,
    pub watermark_ms: i64,
    pub allowed_senders: Vec<String>,
    pub thread_id: Option<String>,
}

/// What to do with the request effect of an interaction.
#[derive(Clone, Copy, Debug, PartialEq, Eq, Structural)]
pub enum SendPhase {
    /// The request was sent: report the interaction's current state.
    Refresh,
    /// The request may or may not have been sent: an operator decides.
    NeedsOperator,
    /// The request is being sent: look for it, else send it.
    Send,
}

/// Refuses sensitive prompts, requests without allowed senders, and deadlines not after the epoch.
pub fn validate_interaction(request: &HumanInteractionRequest) -> (r: Result<(), LarkInteractionError>)
    ensures
        request.sensitivity == ContentSensitivity::Sensitive ==> r == Err::<(), LarkInteractionError>(
            LarkInteractionError::Lark(LarkCliError::SensitiveArgv),
        ),
        request.sensitivity != ContentSensitivity::Sensitive && (request.allowed_senders@.len() == 0
            || request.deadline_ms <= 0) ==> r == Err::<(), LarkInteractionError>(
            LarkInteractionError::InvalidRequest,
        ),
        r is Ok <==> request.sensitivity != ContentSensitivity::Sensitive
            && request.allowed_senders@.len() > 0 && request.deadline_ms > 0,
{
    if request.sensitivity == ContentSensitivity::Sensitive {
        return Err(LarkInteractionError::Lark(LarkCliError::SensitiveArgv));
    }
    if request.allowed_senders.len() == 0 || request.deadline_ms <= 0 {
        return Err(LarkInteractionError::InvalidRequest);
    }
    Ok(())
}

/// `run_id`, NUL, `effect_key`, NUL, then `suffix`.
pub open spec fn spec_keyed(run_id: Seq<char>, effect_key: Seq<char>, suffix: Seq<char>) -> Seq<char> {
    run_id + seq!['\0'] + effect_key + seq!['\0'] + suffix
}

fn keyed_digest(run_id: &str, effect_key: &str, suffix: &str) -> (r: String)
    ensures
        r@ == spec_content_sha256(spec_keyed(run_id@, effect_key@, suffix@)),
        r@.len() == 64,
{
    let mut text = String::new();
    push_str(&mut text, run_id);
    push_char(&mut text, '\0');
    push_str(&mut text, effect_key);
    push_char(&mut text, '\0');
    push_str(&mut text, suffix);
    assert(text@ == spec_keyed(run_id@, effect_key@, suffix@));
    sha256_hex(text.as_str())
}

/// The token that marks replies to one interaction: 24 hex digits of a keyed digest.
pub fn correlation_token(run_id: &str, effect_key: &str) -> (r: String)
    ensures
        r@ == spec_content_sha256(spec_keyed(run_id@, effect_key@, "lark-correlation"@)).take(24),
{
    let d = keyed_digest(run_id, effect_key, "lark-correlation");
    prefix_chars(d.as_str(), 24)
}

/// The idempotency key of the request message: `wf-` and 48 hex digits of a keyed digest.
pub fn message_idempotency_key(run_id: &str, effect_key: &str) -> (r: String)
    ensures
        r@ == "wf-"@ + spec_content_sha256(spec_keyed(run_id@, effect_key@, "lark-send"@)).take(48),
{
    let d = keyed_digest(run_id, effect_key, "lark-send");
    let mut out = owned("wf-");
    let p = prefix_chars(d.as_str(), 48);
    push_str(&mut out, p.as_str());
    out
}

/// `[wf:<token>]`, the marker a reply must carry.
pub open spec fn spec_marker(token: Seq<char>) -> Seq<char> {
    "[wf:"@ + token + "]"@
}

pub fn marker(token: &str) -> (r: String)
    ensures
        r@ == spec_marker(token@),
{
    let mut out = owned("[wf:");
    push_str(&mut out, token);
    push_str(&mut out, "]");
    out
}

/// The message sent: the prompt, a blank line, then the marker.
pub fn prompt_text(prompt: &str, token: &str) -> (r: String)
    ensures
        r@ == prompt@ + "\n\n"@ + spec_marker(token@),
{
    let mut out = owned(prompt);
    push_str(&mut out, "\n\n");
    let m = marker(token);
    push_str(&mut out, m.as_str());
    out
}

/// The request message of an interaction: sent to its chat as text that ends
/// in the correlation marker, under an idempotency key that every retry of
/// the same run and effect reuses, and never as sensitive content.
pub fn send_request(run_id: &str, request: &HumanInteractionRequest) -> (r: MessageSendRequest)
    ensures
        r.target matches MessageTarget::Chat(c) && c.view() == request.chat_id.view(),
        r.body matches MessageBody::Text(t) && t@ == request.prompt@ + "\n\n"@ + spec_marker(
            spec_content_sha256(spec_keyed(run_id@, request.effect_key@, "lark-correlation"@)).take(24),
        ),
        r.idempotency_key@ == "wf-"@ + spec_content_sha256(
            spec_keyed(run_id@, request.effect_key@, "lark-send"@),
        ).take(48),
        r.sensitivity == ContentSensitivity::NonSensitive,
{
    let token = correlation_token(run_id, request.effect_key.as_str());
    let text = prompt_text(request.prompt.as_str(), token.as_str());
    let idempotency_key = message_idempotency_key(run_id, request.effect_key.as_str());
    MessageSendRequest {
        target: MessageTarget::Chat(request.chat_id.duplicate()),
        body: MessageBody::Text(text),
        idempotency_key,
        sensitivity: ContentSensitivity::NonSensitive,
    }
}

/// How to continue given the state of the request effect.
pub fn send_phase(state: WorkflowEffectState) -> (r: SendPhase)
    ensures
        r == (if state == WorkflowEffectState::Applied {
            SendPhase::Refresh
        } else if state == WorkflowEffectState::Dispatched {
            SendPhase::Send
        } else {
            SendPhase::NeedsOperator
        }),
{
    if state == WorkflowEffectState::Applied {
        SendPhase::Refresh
    } else if state == WorkflowEffectState::Dispatched {
        SendPhase::Send
    } else {
        SendPhase::NeedsOperator
    }
}

/// Whether `event` answers `candidate`: it carries the marker, is not older
/// than the watermark, comes from an allowed sender, stays in the thread when
/// there is one, and is not past the deadline.
pub open spec fn spec_event_answers(
    event: LarkEvent,
    candidate: LarkInteractionCandidate,
    deadline_ms: Option<i64>,
) -> bool {
    &&& spec_contains_sub(event.text@, spec_marker(candidate.correlation_token@))
    &&& event.created_at_ms >= candidate.watermark_ms
    &&& exists|i: int| 0 <= i < candidate.allowed_senders.len()
        && #[trigger] candidate.allowed_senders@[i]@ == event.sender_id@
    &&& match candidate.thread_id {
        Some(t) => event.thread_id matches Some(et) && et@ == t@,
        None => true,
    }
    &&& match deadline_ms {
        Some(d) => event.created_at_ms <= d,
        None => true,
    }
}

fn sender_allowed(allowed: &Vec<String>, sender: &str) -> (r: bool)
    ensures
        r == exists|i: int| 0 <= i < allowed.len() && #[trigger] allowed@[i]@ == sender@,
{
    let mut i: usize = 0;
    while i < allowed.len()
        invariant
            i <= allowed.len(),
            forall|j: int| 0 <= j < i ==> allowed@[j]@ != sender@,
        decreases allowed.len() - i,
    {
        if str_eq(allowed[i].as_str(), sender) {
            return true;
        }
        i += 1;
    }
    false
}

/// Whether an incoming message answers a waiting interaction whose deadline is `deadline_ms`.
pub fn event_answers(
    event: &LarkEvent,
    candidate: &LarkInteractionCandidate,
    deadline_ms: Option<i64>,
) -> (r: bool)
    ensures
        r == spec_event_answers(*event, *candidate, deadline_ms),
{
    let m = marker(candidate.correlation_token.as_str());
    if !contains_sub(event.text.as_str(), m.as_str()) {
        return false;
    }
    if event.created_at_ms < candidate.watermark_ms {
        return false;
    }
    if !sender_allowed(&candidate.allowed_senders, event.sender_id.as_str()) {
        return false;
    }
    match &candidate.thread_id {
        Some(t) => match &event.thread_id {
            Some(et) => {
                if !str_eq(et.as_str(), t.as_str()) {
                    return false;
                }
            },
            None => return false,
        },
        None => {},
    }
    match deadline_ms {
        Some(d) => event.created_at_ms <= d,
        None => true,
    }
}

/// Reports a stored interaction state.
pub fn interaction_outcome(
    interaction_id: &str,
    state: WorkflowInteractionState,
    response_artifact_id: &Option<String>,
) -> (r: Result<HumanInteractionOutcome, LarkInteractionError>)
    ensures
        match state {
            WorkflowInteractionState::Planned | WorkflowInteractionState::Waiting => r matches Ok(
                HumanInteractionOutcome::Waiting { interaction_id: i },
            ) && i@ == interaction_id@,
            WorkflowInteractionState::Resolved => match response_artifact_id {
                Some(a) => r matches Ok(HumanInteractionOutcome::Resolved { interaction_id: i, artifact_id: x })
                    && i@ == interaction_id@ && x@ == a@,
                None => r == Err::<HumanInteractionOutcome, LarkInteractionError>(
                    LarkInteractionError::MissingArtifact,
                ),
            },
            WorkflowInteractionState::TimedOut => r matches Ok(
                HumanInteractionOutcome::TimedOut { interaction_id: i },
            ) && i@ == interaction_id@,
            WorkflowInteractionState::Cancelled => r matches Ok(
                HumanInteractionOutcome::Cancelled { interaction_id: i },
            ) && i@ == interaction_id@,
        },
{
    match state {
        WorkflowInteractionState::Planned | WorkflowInteractionState::Waiting => Ok(
            HumanInteractionOutcome::Waiting { interaction_id: owned(interaction_id) },
        ),
        WorkflowInteractionState::Resolved => match response_artifact_id {
            Some(a) => Ok(
                HumanInteractionOutcome::Resolved {
                    interaction_id: owned(interaction_id),
                    artifact_id: owned(a.as_str()),
                },
            ),
            None => Err(LarkInteractionError::MissingArtifact),
        },
        WorkflowInteractionState::TimedOut => Ok(
            HumanInteractionOutcome::TimedOut { interaction_id: owned(interaction_id) },
        ),
        WorkflowInteractionState::Cancelled => Ok(
            HumanInteractionOutcome::Cancelled { interaction_id: owned(interaction_id) },
        ),
    }
}

/// Terminal interaction states are reported without polling again.
pub fn is_settled(state: WorkflowInteractionState) -> (r: bool)
    ensures
        r == (state == WorkflowInteractionState::Resolved || state
            == WorkflowInteractionState::TimedOut || state == WorkflowInteractionState::Cancelled),
{
    match state {
        WorkflowInteractionState::Resolved | WorkflowInteractionState::TimedOut
        | WorkflowInteractionState::Cancelled => true,
        _ => false,
    }
}

/// Where the reply to an interaction is stored: `interactions/<id>/<message id>.json`.
pub fn reply_artifact_path(interaction_id: &str, message_id: &str) -> (r: String)
    ensures
        r@ == "interactions/"@ + interaction_id@ + "/"@ + message_id@ + ".json"@,
{
    let mut out = owned("interactions/");
    push_str(&mut out, interaction_id);
    push_str(&mut out, "/");
    push_str(&mut out, message_id);
    push_str(&mut out, ".json");
    out
}

/// The interaction id an applied interaction effect recorded.
pub fn effect_interaction_id(response: &Option<JsonValue>) -> (r: Result<String, LarkInteractionError>)
    ensures
        match response {
            Some(v) => match spec_get_str(*v, "interaction_id"@) {
                Some(id) => r matches Ok(x) && x@ == id,
                None => r == Err::<String, LarkInteractionError>(LarkInteractionError::MissingInteraction),
            },
            None => r == Err::<String, LarkInteractionError>(LarkInteractionError::MissingInteraction),
        },
{
    match response {
        Some(v) => match v.get_str("interaction_id") {
            Some(id) => Ok(owned(id)),
            None => Err(LarkInteractionError::MissingInteraction),
        },
        None => Err(LarkInteractionError::MissingInteraction),
    }
}

} // verus!
