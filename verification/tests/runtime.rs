use codex_workflow::digest::hex_lower;
use codex_workflow::digest::sha256_hex;
use codex_workflow::integrations::lark::identity::LarkIdentity;
use codex_workflow::integrations::lark::types::ContentSensitivity;
use codex_workflow::integrations::lark::types::DocumentSnapshot;
use codex_workflow::json::JsonValue;
use codex_workflow::runtime::approval::decision_name;
use codex_workflow::runtime::approval::parse_decision;
use codex_workflow::runtime::approval::ApprovalDecision;
use codex_workflow::runtime::document_update::content_sha256;
use codex_workflow::runtime::document_update::dispatch_attempts;
use codex_workflow::runtime::document_update::dispatch_response;
use codex_workflow::runtime::document_update::observation_response;
use codex_workflow::runtime::document_update::observe_step;
use codex_workflow::runtime::document_update::settle_step;
use codex_workflow::runtime::document_update::JournalWrite;
use codex_workflow::runtime::document_update::OwnedDocumentUpdateOutcome;
use codex_workflow::runtime::document_update::OwnedDocumentUpdateRequest;
use codex_workflow::runtime::failure_injection::FailureInjector;
use codex_workflow::runtime::failure_injection::FailurePoint;
use codex_workflow::runtime::failure_injection::InjectedFailure;
use codex_workflow::runtime::graph::WorkflowDependencyRecord;
use codex_workflow::runtime::interaction::effect_interaction_id;
use codex_workflow::runtime::interaction::LarkInteractionError;
use codex_workflow::runtime::graph::WorkflowNodeRecord;
use codex_workflow::runtime::graph::WorkflowNodeStatus;
use codex_workflow::runtime::records::WorkflowEffectRecord;
use codex_workflow::runtime::records::WorkflowEffectState;
use codex_workflow::runtime::recovery::decode_hash;
use codex_workflow::runtime::recovery::WorkflowRecoveryError;
use codex_workflow::runtime::retry::BackoffPolicy;
use codex_workflow::runtime::retry::RetryClassification;
use codex_workflow::runtime::retry::RetryDecision;
use codex_workflow::runtime::retry::RetryPlanner;
use codex_workflow::runtime::retry::RetryPolicy;
use codex_workflow::runtime::retry::RetrySession;
use codex_workflow::runtime::scheduler::plan_schedule;
use codex_workflow::runtime::scheduler::SchedulerError;

const ABC_SHA256: &str = "ba7816bf8f01cfea414140de5dae2223b00361a396177a9cb410ff61f20015ad";

#[test]
fn sha256_hex_is_the_lower_case_digest() {
    assert_eq!(sha256_hex("abc"), ABC_SHA256);
    assert_eq!(
        sha256_hex(""),
        "e3b0c44298fc1c149afbf4c8996fb92427ae41e4649b934ca495991b7852b855"
    );
    assert_eq!(hex_lower(&[0x00, 0x0f, 0xa0, 0xff]), "000fa0ff");
}

#[test]
fn input_hash_round_trips_through_hex() {
    let text = sha256_hex("abc");
    let bytes = decode_hash(&text).unwrap();
    assert_eq!(hex_lower(&bytes), text);
    let upper = text.to_uppercase();
    assert_eq!(decode_hash(&upper).unwrap(), bytes);
    assert_eq!(decode_hash("abcd"), Err(WorkflowRecoveryError::InvalidHash));
    let mut bad = text.clone();
    bad.replace_range(0..1, "g");
    assert_eq!(decode_hash(&bad), Err(WorkflowRecoveryError::InvalidHash));
}

fn policy(backoff: BackoffPolicy) -> RetryPolicy {
    RetryPolicy {
        maximum_attempts: 3,
        retry_on: vec![RetryClassification::Transient],
        backoff,
        session: RetrySession::FreshThread,
    }
}

#[test]
fn retry_decisions_follow_the_policy() {
    let fixed = policy(BackoffPolicy::Fixed { delay_ms: 250 });
    assert_eq!(
        RetryPlanner::decide_with_unit(&fixed, 1, RetryClassification::Transient, 0, 1000, None),
        RetryDecision::RetryAt { retry_at_ms: 1250, session: RetrySession::FreshThread }
    );
    assert_eq!(
        RetryPlanner::decide_with_unit(&fixed, 3, RetryClassification::Transient, 0, 1000, None),
        RetryDecision::Fail
    );
    assert_eq!(
        RetryPlanner::decide_with_unit(&fixed, 1, RetryClassification::Timeout, 0, 1000, None),
        RetryDecision::Fail
    );
    assert_eq!(
        RetryPlanner::decide_with_unit(&fixed, 1, RetryClassification::Transient, 0, 1000, Some(1200)),
        RetryDecision::Fail
    );
    assert_eq!(
        RetryPlanner::decide_with_unit(&fixed, 1, RetryClassification::Transient, 0, 1000, Some(1250)),
        RetryDecision::RetryAt { retry_at_ms: 1250, session: RetrySession::FreshThread }
    );
}

#[test]
fn exponential_backoff_doubles_and_is_capped() {
    let exp = policy(BackoffPolicy::Exponential {
        initial_delay_ms: 100,
        maximum_delay_ms: 300,
        jitter_percent: 0,
    });
    let mut p = exp.clone();
    p.maximum_attempts = 10;
    assert_eq!(
        RetryPlanner::decide_with_unit(&p, 2, RetryClassification::Transient, 0, 0, None),
        RetryDecision::RetryAt { retry_at_ms: 200, session: RetrySession::FreshThread }
    );
    assert_eq!(
        RetryPlanner::decide_with_unit(&p, 5, RetryClassification::Transient, 0, 0, None),
        RetryDecision::RetryAt { retry_at_ms: 300, session: RetrySession::FreshThread }
    );
    let jittered = policy(BackoffPolicy::Exponential {
        initial_delay_ms: 1000,
        maximum_delay_ms: 100_000,
        jitter_percent: 10,
    });
    assert_eq!(
        RetryPlanner::decide_with_unit(&jittered, 1, RetryClassification::Transient, 7, 0, None),
        RetryDecision::RetryAt { retry_at_ms: 907, session: RetrySession::FreshThread }
    );
    let a = RetryPlanner::decide(&jittered, 1, RetryClassification::Transient, "attempt-1", 0, None);
    let b = RetryPlanner::decide(&jittered, 1, RetryClassification::Transient, "attempt-1", 0, None);
    assert_eq!(a, b);
    match a {
        RetryDecision::RetryAt { retry_at_ms, .. } => assert!((900..=1100).contains(&retry_at_ms)),
        RetryDecision::Fail => panic!("expected a retry"),
    }
}

#[test]
fn failure_injector_fails_once_at_the_configured_visit() {
    let mut injector = FailureInjector::fail_on(FailurePoint::AfterDbWrite, 2);
    assert_eq!(injector.checkpoint(FailurePoint::AfterDbWrite), Ok(()));
    assert_eq!(injector.checkpoint(FailurePoint::BeforeDbWrite), Ok(()));
    assert_eq!(
        injector.checkpoint(FailurePoint::AfterDbWrite),
        Err(InjectedFailure { point: FailurePoint::AfterDbWrite })
    );
    assert_eq!(injector.checkpoint(FailurePoint::AfterDbWrite), Ok(()));
    assert_eq!(injector.visits(FailurePoint::AfterDbWrite), 3);
    assert_eq!(injector.visits(FailurePoint::BeforeDbWrite), 1);
    let mut zero = FailureInjector::fail_on(FailurePoint::AfterReplyCommit, 0);
    assert!(zero.checkpoint(FailurePoint::AfterReplyCommit).is_err());
    let mut disabled = FailureInjector::disabled();
    assert_eq!(disabled.checkpoint(FailurePoint::AfterReplyCommit), Ok(()));
}

fn node(id: &str, status: WorkflowNodeStatus) -> WorkflowNodeRecord {
    WorkflowNodeRecord {
        node_id: id.to_string(),
        status,
        failure_policy: "fail_fast".to_string(),
        retry_at_ms: None,
        row_version: 1,
    }
}

fn edge(node_id: &str, upstream: &str) -> WorkflowDependencyRecord {
    WorkflowDependencyRecord {
        node_id: node_id.to_string(),
        depends_on_node_id: upstream.to_string(),
        policy: "all_succeeded".to_string(),
        at_least: None,
    }
}

#[test]
fn scheduler_launches_ready_nodes_within_capacity() {
    let nodes = vec![
        node("d", WorkflowNodeStatus::Running),
        node("c", WorkflowNodeStatus::Pending),
        node("b", WorkflowNodeStatus::Pending),
        node("a", WorkflowNodeStatus::Succeeded),
        node("e", WorkflowNodeStatus::Ready),
    ];
    let deps = vec![edge("b", "a"), edge("c", "a"), edge("e", "d")];
    let plan = plan_schedule(false, nodes, deps, 0, 2);
    assert!(plan.stop.is_none());
    let summary: Vec<(String, WorkflowNodeStatus, bool, bool)> = plan
        .steps
        .iter()
        .map(|s| (s.node_id.clone(), s.status, s.write, s.launch))
        .collect();
    assert_eq!(
        summary,
        vec![
            ("b".to_string(), WorkflowNodeStatus::Ready, true, true),
            ("c".to_string(), WorkflowNodeStatus::Ready, true, false),
            ("e".to_string(), WorkflowNodeStatus::Blocked, true, false),
        ]
    );
    let cancelled = plan_schedule(true, vec![node("a", WorkflowNodeStatus::Pending)], vec![], 0, 2);
    assert!(cancelled.steps.is_empty());
}

#[test]
fn scheduler_stops_on_fail_fast_and_graph_errors() {
    let nodes = vec![node("a", WorkflowNodeStatus::Failed), node("b", WorkflowNodeStatus::Pending)];
    let plan = plan_schedule(false, nodes, vec![edge("b", "a")], 0, 4);
    assert_eq!(plan.stop, Some(SchedulerError::FailFast("b".to_string())));
    assert!(plan.steps.iter().all(|s| !s.launch));
    let cycle = plan_schedule(
        false,
        vec![node("a", WorkflowNodeStatus::Pending), node("b", WorkflowNodeStatus::Pending)],
        vec![edge("a", "b"), edge("b", "a")],
        0,
        4,
    );
    assert!(matches!(cycle.stop, Some(SchedulerError::Graph(_))));
    assert!(cycle.steps.is_empty());
}

fn update_request() -> OwnedDocumentUpdateRequest {
    OwnedDocumentUpdateRequest {
        effect_key: "doc-1".to_string(),
        identity: LarkIdentity::Bot,
        document: "doc123".to_string(),
        expected_revision_id: "r1".to_string(),
        expected_sha256: content_sha256("old"),
        desired_markdown: "new".to_string(),
        sensitivity: ContentSensitivity::NonSensitive,
    }
}

fn effect(state: WorkflowEffectState, response: Option<JsonValue>) -> WorkflowEffectRecord {
    WorkflowEffectRecord {
        effect_key: "doc-1".to_string(),
        kind: "lark.document.update".to_string(),
        state,
        request: JsonValue::Null,
        response,
        error_code: None,
    }
}

fn snapshot(revision: &str, markdown: &str) -> DocumentSnapshot {
    DocumentSnapshot {
        doc_id: "doc123".to_string(),
        doc_url: "https://example.invalid/doc123".to_string(),
        revision_id: revision.to_string(),
        markdown: markdown.to_string(),
    }
}

#[test]
fn document_update_dispatches_once_then_applies() {
    let request = update_request();
    let step = observe_step(&request, &effect(WorkflowEffectState::Planned, None), Some(&snapshot("r1", "old")))
        .unwrap();
    assert_eq!(step.write, Some(JournalWrite::Dispatch { attempts: 1 }));
    assert!(step.outcome.is_none());
    let after = settle_step(&request, 0, false, Some(&snapshot("r2", "new")));
    match (&after.write, &after.outcome) {
        (Some(JournalWrite::Apply(e)), Some(OwnedDocumentUpdateOutcome::Applied(o))) => {
            assert_eq!(e, o);
            assert_eq!(e.revision_id, "r2");
            assert_eq!(e.sha256, content_sha256("new"));
            assert!(!e.reconciled);
        }
        other => panic!("unexpected step {other:?}"),
    }
}

#[test]
fn document_update_never_rewrites_desired_content() {
    let request = update_request();
    let step = observe_step(&request, &effect(WorkflowEffectState::Dispatched, Some(dispatch_response(1))), Some(&snapshot("r2", "new")))
        .unwrap();
    match (&step.write, &step.outcome) {
        (Some(JournalWrite::Apply(e)), Some(OwnedDocumentUpdateOutcome::Applied(_))) => {
            assert!(e.reconciled);
            assert_eq!(e.sha256, content_sha256("new"));
        }
        other => panic!("unexpected step {other:?}"),
    }
}

#[test]
fn document_update_escalates_drift_and_exhausted_retries() {
    let request = update_request();
    let drift = observe_step(&request, &effect(WorkflowEffectState::Planned, None), Some(&snapshot("r9", "other")))
        .unwrap();
    match &drift.outcome {
        Some(OwnedDocumentUpdateOutcome::NeedsOperator { reason, observed_revision_id, .. }) => {
            assert_eq!(reason, "unexpected_revision_drift");
            assert_eq!(observed_revision_id.as_deref(), Some("r9"));
        }
        other => panic!("unexpected outcome {other:?}"),
    }
    let exhausted = observe_step(
        &request,
        &effect(WorkflowEffectState::Dispatched, Some(dispatch_response(3))),
        Some(&snapshot("r1", "old")),
    )
    .unwrap();
    match &exhausted.outcome {
        Some(OwnedDocumentUpdateOutcome::NeedsOperator { reason, .. }) => {
            assert_eq!(reason, "document_update_retry_exhausted")
        }
        other => panic!("unexpected outcome {other:?}"),
    }
    let unread = observe_step(&request, &effect(WorkflowEffectState::Planned, None), None).unwrap();
    assert_eq!(unread.write, None);
    assert_eq!(
        unread.outcome,
        Some(OwnedDocumentUpdateOutcome::Retryable { reason: "document_observation_unavailable".to_string() })
    );
}

#[test]
fn dispatch_counter_reads_back_what_was_written() {
    for n in [0u64, 1, 2, 3, 17] {
        assert_eq!(dispatch_attempts(&Some(dispatch_response(n))), n);
    }
    assert_eq!(dispatch_attempts(&None), 0);
}

#[test]
fn approval_decisions_parse_bound_to_nonce_and_digest() {
    assert_eq!(decision_name(ApprovalDecision::Approve), "approve");
    assert_eq!(decision_name(ApprovalDecision::ChangesRequested), "changes_requested");
    assert_eq!(decision_name(ApprovalDecision::Revoke), "revoke");
    let text = format!("[wf:token] APPROVE n1 {}", ABC_SHA256.to_uppercase());
    assert_eq!(parse_decision(&text, "n1", ABC_SHA256), Some((ApprovalDecision::Approve, None)));
    let changes = format!("CHANGES_REQUESTED n1 {ABC_SHA256}  fix   the title");
    assert_eq!(
        parse_decision(&changes, "n1", ABC_SHA256),
        Some((ApprovalDecision::ChangesRequested, Some("fix the title".to_string())))
    );
    assert_eq!(parse_decision(&format!("APPROVE n2 {ABC_SHA256}"), "n1", ABC_SHA256), None);
    assert_eq!(parse_decision(&format!("APPROVE n1 {ABC_SHA256} extra"), "n1", ABC_SHA256), None);
    assert_eq!(parse_decision(&format!("REVOKE n1 {ABC_SHA256}"), "n1", ABC_SHA256), None);
}

#[test]
fn escalations_record_what_was_observed() {
    let response = observation_response(2, &Some("r7".to_string()), &None);
    assert_eq!(dispatch_attempts(&Some(response)), 2);
    let response = observation_response(2, &Some("r7".to_string()), &None);
    assert_eq!(response.get("observed_revision_id"), Some(&JsonValue::Str("r7".to_string())));
    assert_eq!(response.get("observed_sha256"), Some(&JsonValue::Null));
}

#[test]
fn applied_interactions_name_their_interaction() {
    let response = Some(JsonValue::Object(vec![(
        "interaction_id".to_string(),
        JsonValue::Str("int_1".to_string()),
    )]));
    assert_eq!(effect_interaction_id(&response), Ok("int_1".to_string()));
    assert_eq!(effect_interaction_id(&None), Err(LarkInteractionError::MissingInteraction));
    assert_eq!(
        effect_interaction_id(&Some(JsonValue::Null)),
        Err(LarkInteractionError::MissingInteraction)
    );
}
