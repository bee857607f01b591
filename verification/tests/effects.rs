use codex_workflow::integrations::fornax::bridge_config::FornaxBridgeError;
use codex_workflow::integrations::fornax::bridge_http::check_credential;
use codex_workflow::integrations::fornax::bridge_http::classify_remote;
use codex_workflow::integrations::fornax::bridge_http::declared_too_large;
use codex_workflow::integrations::fornax::bridge_http::finish_path;
use codex_workflow::integrations::fornax::bridge_http::operation_path;
use codex_workflow::integrations::fornax::bridge_http::records_path;
use codex_workflow::integrations::fornax::bridge_http::span_status_path;
use codex_workflow::integrations::fornax::bridge_http::transport_error;
use codex_workflow::integrations::fornax::bridge_http::validate_endpoint;
use codex_workflow::integrations::fornax::bridge_http::BridgeErrorEnvelope;
use codex_workflow::integrations::fornax::bridge_http::BridgeRemoteError;
use codex_workflow::integrations::fornax::bridge_http::CredentialFile;
use codex_workflow::integrations::fornax::bridge_protocol::RetryDisposition;
use codex_workflow::integrations::fornax::durable_trace_write::applied_response;
use codex_workflow::integrations::fornax::durable_trace_write::error_code;
use codex_workflow::integrations::fornax::durable_trace_write::failure_plan;
use codex_workflow::integrations::fornax::durable_trace_write::mutation_kind;
use codex_workflow::integrations::fornax::durable_trace_write::mutation_target;
use codex_workflow::integrations::fornax::durable_trace_write::prepared_state;
use codex_workflow::integrations::fornax::durable_trace_write::success_outcome;
use codex_workflow::integrations::fornax::durable_trace_write::success_update;
use codex_workflow::integrations::fornax::durable_trace_write::DurableFornaxTraceError;
use codex_workflow::integrations::fornax::durable_trace_write::FornaxSpanCorrelation;
use codex_workflow::integrations::fornax::durable_trace_write::TraceMutation;
use codex_workflow::integrations::fornax::redaction::Redactor;
use codex_workflow::integrations::lark::identity::ChatId;
use codex_workflow::integrations::lark::identity::MessageId;
use codex_workflow::integrations::lark::identity::ThreadId;
use codex_workflow::integrations::lark::messages::LarkMessage;
use codex_workflow::json::JsonValue;
use codex_workflow::runtime::audit::append_result;
use codex_workflow::runtime::audit::audit_request;
use codex_workflow::runtime::audit::audit_step;
use codex_workflow::runtime::audit::AuditStep;
use codex_workflow::runtime::audit::WorkflowAuditError;
use codex_workflow::runtime::audit::WorkflowAuditRecord;
use codex_workflow::runtime::cancellation::already_cancelled;
use codex_workflow::runtime::cancellation::attempt_cancellation;
use codex_workflow::runtime::cancellation::grace_expired;
use codex_workflow::runtime::cancellation::interrupted;
use codex_workflow::runtime::cancellation::AttemptCancellation;
use codex_workflow::runtime::cancellation::CancellationTally;
use codex_workflow::runtime::cancellation_signal::CancellationSignals;
use codex_workflow::runtime::interaction_poll::created_at_ms;
use codex_workflow::runtime::interaction_poll::find_marked_message;
use codex_workflow::runtime::interaction_poll::message_text;
use codex_workflow::runtime::interaction_poll::poll_event;
use codex_workflow::runtime::outbox::dispatch_claimed;
use codex_workflow::runtime::outbox::outbox_start;
use codex_workflow::runtime::outbox::reconcile_outcome;
use codex_workflow::runtime::outbox::OutboxError;
use codex_workflow::runtime::outbox::OutboxStart;
use codex_workflow::runtime::records::WorkflowEffectState;
use codex_workflow::runtime::records::WorkflowFornaxTraceState;
use codex_workflow::runtime::records::WorkflowNodeAttemptRecord;
use codex_workflow::runtime::records::WorkflowNodeAttemptStatus;
use codex_workflow::runtime::records::WorkflowRunRecord;
use codex_workflow::runtime::records::WorkflowRunStatus;
use codex_workflow::runtime::skill_policy::apply_initial_skill_invocations;
use codex_workflow::runtime::skill_policy::ResolvedSkill;
use codex_workflow::runtime::skill_policy::SkillInitialInvocation;
use codex_workflow::runtime::skill_policy::UserInput;

const ID: u128 = 0x0123_4567_89ab_cdef_0011_2233_4455_6677;
const ID_TEXT: &str = "01234567-89ab-cdef-0011-223344556677";

#[test]
fn bridge_endpoint_is_plain_http_on_loopback() {
    assert_eq!(validate_endpoint("http://127.0.0.1:4318/"), Ok(4318));
    assert_eq!(validate_endpoint("http://127.0.0.1:4318"), Ok(4318));
    for refused in [
        "https://127.0.0.1:4318/",
        "http://127.0.0.1/",
        "http://localhost:4318/",
        "http://127.0.0.1:4318/v1",
        "http://user:pw@127.0.0.1:4318/",
        "http://127.0.0.1:4318/?q=1",
        "http://127.0.0.1:4318/#top",
        "not a url",
    ] {
        assert_eq!(validate_endpoint(refused), Err(FornaxBridgeError::InsecureDescriptor), "{refused}");
    }
}

fn credential(token: &str) -> CredentialFile {
    CredentialFile {
        in_state_dir: true,
        file_name: Some("credential.json".to_string()),
        is_file: true,
        is_symlink: false,
        mode: 0o600,
        uid: 501,
        state_dir_uid: 501,
        token: Some(token.to_string()),
    }
}

#[test]
fn bridge_credential_must_be_private_and_long_enough() {
    let token = "a".repeat(43);
    assert_eq!(check_credential(credential(&token)), Ok(token.clone()));
    assert_eq!(check_credential(credential(&"a".repeat(42))), Err(FornaxBridgeError::InsecureDescriptor));
    let mut shared = credential(&token);
    shared.mode = 0o640;
    assert_eq!(check_credential(shared), Err(FornaxBridgeError::InsecureDescriptor));
    let mut linked = credential(&token);
    linked.is_symlink = true;
    assert_eq!(check_credential(linked), Err(FornaxBridgeError::InsecureDescriptor));
    let mut foreign = credential(&token);
    foreign.uid = 0;
    assert_eq!(check_credential(foreign), Err(FornaxBridgeError::InsecureDescriptor));
    let mut renamed = credential(&token);
    renamed.file_name = Some("token.json".to_string());
    assert_eq!(check_credential(renamed), Err(FornaxBridgeError::InsecureDescriptor));
}

#[test]
fn bridge_responses_are_bounded_and_transport_failures_classified() {
    assert!(!declared_too_large(None));
    assert!(!declared_too_large(Some(262_144)));
    assert!(declared_too_large(Some(262_145)));
    assert_eq!(transport_error(None), FornaxBridgeError::Transport);
    assert_eq!(transport_error(Some(7)), FornaxBridgeError::AmbiguousMutation { operation_id: 7 });
}

fn remote(code: &str, operation_id: Option<u128>, retry: RetryDisposition) -> Option<BridgeErrorEnvelope> {
    Some(BridgeErrorEnvelope {
        error: BridgeRemoteError { code: code.to_string(), message: "m".to_string(), operation_id, retry },
    })
}

#[test]
fn bridge_error_envelopes_map_to_failures() {
    assert_eq!(classify_remote(500, None, Some(1)), FornaxBridgeError::InvalidResponse);
    assert_eq!(classify_remote(503, remote("queueFull", None, RetryDisposition::Safe), None), FornaxBridgeError::QueueFull);
    assert_eq!(
        classify_remote(401, remote("localAuthentication", None, RetryDisposition::Never), None),
        FornaxBridgeError::LocalAuthentication
    );
    assert_eq!(
        classify_remote(409, remote("ambiguousMutation", None, RetryDisposition::Never), Some(9)),
        FornaxBridgeError::AmbiguousMutation { operation_id: 9 }
    );
    assert_eq!(
        classify_remote(409, remote("ambiguousMutation", Some(3), RetryDisposition::Never), Some(9)),
        FornaxBridgeError::AmbiguousMutation { operation_id: 3 }
    );
    assert_eq!(
        classify_remote(409, remote("ambiguousMutation", None, RetryDisposition::Never), None),
        FornaxBridgeError::InvalidResponse
    );
    assert_eq!(
        classify_remote(500, remote("other", Some(4), RetryDisposition::AfterStatusCheck), None),
        FornaxBridgeError::AmbiguousMutation { operation_id: 4 }
    );
    assert_eq!(
        classify_remote(408, remote("other", None, RetryDisposition::Safe), Some(5)),
        FornaxBridgeError::Remote {
            code: "other".to_string(),
            operation_id: Some(5),
            retry: RetryDisposition::AfterStatusCheck
        }
    );
    assert_eq!(
        classify_remote(500, remote("other", None, RetryDisposition::Safe), None),
        FornaxBridgeError::Remote { code: "other".to_string(), operation_id: None, retry: RetryDisposition::Safe }
    );
}

#[test]
fn bridge_paths_name_spans_and_operations_by_uuid() {
    assert_eq!(records_path(ID), format!("v1/spans/{ID_TEXT}/records"));
    assert_eq!(finish_path(ID), format!("v1/spans/{ID_TEXT}/finish"));
    assert_eq!(span_status_path(ID), format!("v1/spans/{ID_TEXT}"));
    assert_eq!(operation_path(1), "v1/operations/00000000-0000-0000-0000-000000000001");
}

fn correlation() -> FornaxSpanCorrelation {
    FornaxSpanCorrelation {
        span_handle_id: ID,
        trace_context_id: 2,
        trace_id: "trace".to_string(),
        span_id: "span".to_string(),
    }
}

#[test]
fn durable_trace_successes_move_the_correlation_forward() {
    assert_eq!(mutation_kind(TraceMutation::Start), "fornax.trace.start");
    assert_eq!(mutation_kind(TraceMutation::Record), "fornax.trace.record");
    assert_eq!(mutation_kind(TraceMutation::Finish), "fornax.trace.finish");
    assert_eq!(mutation_target(TraceMutation::Finish), WorkflowFornaxTraceState::Finished);
    assert_eq!(prepared_state(WorkflowEffectState::Planned), (true, WorkflowEffectState::Dispatched));
    assert_eq!(prepared_state(WorkflowEffectState::Applied), (false, WorkflowEffectState::Applied));
    assert_eq!(applied_response(Some(JsonValue::Null)), Ok(JsonValue::Null));
    assert_eq!(
        applied_response(None),
        Err(DurableFornaxTraceError::InvalidAppliedResponse("missing response".to_string()))
    );
    assert_eq!(success_outcome(true), Ok(()));
    assert_eq!(success_outcome(false), Err(DurableFornaxTraceError::StaleCorrelation));

    let c = correlation();
    assert_eq!(
        success_update("run", "fx", WorkflowFornaxTraceState::Live, WorkflowFornaxTraceState::Live, &c, "b", 5),
        None
    );
    let update = success_update("run", "fx", WorkflowFornaxTraceState::Planned, WorkflowFornaxTraceState::Live, &c, "b", 5)
        .unwrap();
    assert_eq!(update.run_id, "run");
    assert_eq!(update.expected_state, WorkflowFornaxTraceState::Planned);
    assert_eq!(update.state, WorkflowFornaxTraceState::Live);
    assert_eq!(update.span_handle_id.as_deref(), Some(ID_TEXT));
    assert_eq!(update.trace_context_id.as_deref(), Some("00000000-0000-0000-0000-000000000002"));
    assert_eq!(update.trace_id.as_deref(), Some("trace"));
    assert_eq!(update.bridge_instance_id.as_deref(), Some("b"));
    assert_eq!(update.error_code, None);
    assert_eq!(update.updated_at_ms, 5);
}

#[test]
fn durable_trace_failures_record_the_error_code() {
    assert_eq!(error_code(&FornaxBridgeError::Transport), "fornax_bridge");
    assert_eq!(
        failure_plan("run", "fx", WorkflowFornaxTraceState::Planned, ID, &FornaxBridgeError::QueueFull, "b", 1),
        None
    );
    let ambiguous = FornaxBridgeError::AmbiguousMutation { operation_id: ID };
    let plan = failure_plan("run", "fx", WorkflowFornaxTraceState::Planned, ID, &ambiguous, "b", 1).unwrap();
    assert_eq!(plan.effect_error_code, format!("ambiguous_mutation:{ID_TEXT}"));
    let update = plan.trace_update.unwrap();
    assert_eq!(update.state, WorkflowFornaxTraceState::Ambiguous);
    assert_eq!(update.error_code.as_deref(), Some("ambiguous_mutation"));
    assert_eq!(update.span_handle_id, None);
    let plan = failure_plan("run", "fx", WorkflowFornaxTraceState::Live, ID, &FornaxBridgeError::ShuttingDown, "b", 1)
        .unwrap();
    assert_eq!(plan.effect_error_code, format!("shutting_down:{ID_TEXT}"));
    assert_eq!(plan.trace_update, None);
    let plan = failure_plan("run", "fx", WorkflowFornaxTraceState::Planned, ID, &FornaxBridgeError::OrphanedSpan, "b", 1)
        .unwrap();
    assert_eq!(plan.trace_update.unwrap().state, WorkflowFornaxTraceState::Failed);
}

#[test]
fn outbox_replays_applied_effects_and_dispatches_planned_ones() {
    assert_eq!(
        outbox_start(WorkflowEffectState::Applied, Some(JsonValue::Bool(true))),
        Ok(OutboxStart::Replay(JsonValue::Bool(true)))
    );
    assert_eq!(outbox_start(WorkflowEffectState::Applied, None), Err(OutboxError::MissingResponse));
    assert_eq!(outbox_start(WorkflowEffectState::Planned, None), Ok(OutboxStart::Dispatch));
    assert_eq!(
        outbox_start(WorkflowEffectState::Dispatched, None),
        Err(OutboxError::RequiresReconciliation(WorkflowEffectState::Dispatched))
    );
    assert_eq!(dispatch_claimed(true), Ok(()));
    assert_eq!(
        dispatch_claimed(false),
        Err(OutboxError::RequiresReconciliation(WorkflowEffectState::Dispatched))
    );
    assert_eq!(reconcile_outcome(true, None), Ok(()));
    assert_eq!(reconcile_outcome(false, None), Err(OutboxError::MissingEffect));
    assert_eq!(reconcile_outcome(false, Some(WorkflowEffectState::Applied)), Ok(()));
    assert_eq!(
        reconcile_outcome(false, Some(WorkflowEffectState::Failed)),
        Err(OutboxError::RequiresReconciliation(WorkflowEffectState::Failed))
    );
}

#[test]
fn audit_records_are_redacted_and_written_once() {
    let redactor = Redactor::new(vec!["hunter2".to_string()]);
    let record = WorkflowAuditRecord {
        effect_key: "audit:1".to_string(),
        kind: "approval".to_string(),
        subject_id: Some("user hunter2".to_string()),
        metadata: vec![
            ("a".to_string(), "1".to_string()),
            ("b".to_string(), "2".to_string()),
            ("a".to_string(), "pw hunter2".to_string()),
        ],
    };
    let request = audit_request(&redactor, &record);
    assert_eq!(request.get("kind"), Some(&JsonValue::Str("approval".to_string())));
    assert_eq!(request.get("subject_id"), Some(&JsonValue::Str("user [REDACTED]".to_string())));
    let metadata = request.get("metadata").unwrap();
    assert_eq!(metadata.get("a"), Some(&JsonValue::Str("pw [REDACTED]".to_string())));
    assert_eq!(metadata.get("b"), Some(&JsonValue::Str("2".to_string())));

    let anonymous = WorkflowAuditRecord { subject_id: None, metadata: vec![], ..record.clone() };
    assert_eq!(audit_request(&redactor, &anonymous).get("subject_id"), Some(&JsonValue::Null));
    let broken = WorkflowAuditRecord { metadata: vec![("k".to_string(), "token=".to_string())], ..record };
    let kept = audit_request(&redactor, &broken);
    assert_eq!(kept.get("metadata").unwrap().get("k"), Some(&JsonValue::Str("token=".to_string())));

    assert_eq!(audit_step(WorkflowEffectState::Applied), AuditStep::Recorded);
    assert_eq!(audit_step(WorkflowEffectState::Planned), AuditStep::Record);
    assert_eq!(audit_step(WorkflowEffectState::Dispatched), AuditStep::Conflict);
    assert_eq!(append_result(AuditStep::Recorded, false), Ok(()));
    assert_eq!(append_result(AuditStep::Record, true), Ok(()));
    assert_eq!(append_result(AuditStep::Record, false), Err(WorkflowAuditError::ConcurrentMutation));
    assert_eq!(append_result(AuditStep::Conflict, true), Err(WorkflowAuditError::ConcurrentMutation));
}

fn run(status: WorkflowRunStatus) -> WorkflowRunRecord {
    WorkflowRunRecord {
        run_id: "run".to_string(),
        status,
        cancellation_requested: true,
        deadline_ms: None,
        updated_at_ms: 0,
    }
}

fn attempt(status: WorkflowNodeAttemptStatus, turn_id: Option<&str>) -> WorkflowNodeAttemptRecord {
    WorkflowNodeAttemptRecord {
        attempt_id: "att".to_string(),
        status,
        thread_id: None,
        submission_id: "sub".to_string(),
        turn_id: turn_id.map(|t| t.to_string()),
        input_hash: "h".to_string(),
    }
}

#[test]
fn cancellation_interrupts_live_turns_and_counts_them() {
    let done = already_cancelled(run(WorkflowRunStatus::Cancelled)).unwrap();
    assert_eq!((done.interrupted_turns, done.ambiguous_turns), (0, 0));
    assert_eq!(already_cancelled(run(WorkflowRunStatus::Running)), Err(run(WorkflowRunStatus::Running)));

    assert_eq!(
        attempt_cancellation(&attempt(WorkflowNodeAttemptStatus::Succeeded, Some("t")), 1),
        AttemptCancellation::Leave
    );
    assert_eq!(
        attempt_cancellation(&attempt(WorkflowNodeAttemptStatus::Running, Some("t")), 1),
        AttemptCancellation::Interrupt { turn_id: "t".to_string() }
    );
    match attempt_cancellation(&attempt(WorkflowNodeAttemptStatus::Prepared, None), 9) {
        AttemptCancellation::CancelBeforeSubmission(t) => {
            assert_eq!(t.expected_status, WorkflowNodeAttemptStatus::Prepared);
            assert_eq!(t.status, WorkflowNodeAttemptStatus::Cancelled);
            assert_eq!(t.error_code.as_deref(), Some("cancelled_before_submission"));
            assert_eq!(t.updated_at_ms, 9);
        }
        other => panic!("unexpected {other:?}"),
    }
    assert!(interrupted(true, true));
    assert!(!interrupted(true, false));
    assert!(!interrupted(false, true));
    assert_eq!(grace_expired(&attempt(WorkflowNodeAttemptStatus::Cancelled, None), 1), None);
    let t = grace_expired(&attempt(WorkflowNodeAttemptStatus::Running, Some("t")), 4).unwrap();
    assert_eq!(t.status, WorkflowNodeAttemptStatus::Ambiguous);
    assert_eq!(t.turn_id.as_deref(), Some("t"));
    assert_eq!(t.error_code.as_deref(), Some("cancellation_grace_expired"));

    let mut tally = CancellationTally::new();
    tally.record(true);
    tally.record(false);
    tally.record(true);
    let report = tally.report(run(WorkflowRunStatus::Cancelled));
    assert_eq!((report.interrupted_turns, report.ambiguous_turns), (2, 1));
}

#[test]
fn cancellation_requests_stay_raised_until_released() {
    let mut signals = CancellationSignals::new();
    assert!(!signals.signal("a", false));
    signals.request("a");
    assert!(signals.signal("a", false));
    assert!(!signals.signal("b", false));
    signals.release("a");
    assert!(!signals.signal("a", false));
}

fn skill(name: &str, initial: SkillInitialInvocation) -> ResolvedSkill {
    ResolvedSkill { name: name.to_string(), invocation_path: format!("/skills/{name}"), initial_invocation: initial }
}

#[test]
fn initial_skills_are_added_once() {
    let skills = vec![
        skill("plan", SkillInitialInvocation::InvokeOnInitialTurn),
        skill("lookup", SkillInitialInvocation::OnDemand),
        skill("review", SkillInitialInvocation::InvokeOnInitialTurn),
    ];
    let input = vec![
        UserInput::Text { text: "go".to_string() },
        UserInput::Skill { name: "review".to_string(), path: "/skills/review".to_string() },
    ];
    let once = apply_initial_skill_invocations(input, &skills);
    assert_eq!(
        once,
        vec![
            UserInput::Text { text: "go".to_string() },
            UserInput::Skill { name: "review".to_string(), path: "/skills/review".to_string() },
            UserInput::Skill { name: "plan".to_string(), path: "/skills/plan".to_string() },
        ]
    );
    assert_eq!(apply_initial_skill_invocations(once.clone(), &skills), once);
}

fn ada() -> JsonValue {
    JsonValue::Object(vec![("open_id".to_string(), JsonValue::Str("ou_ada".to_string()))])
}

fn message(id: &str, sender: JsonValue, text: &str) -> LarkMessage {
    LarkMessage {
        message_id: MessageId::parse(id.to_string()).unwrap(),
        msg_type: "text".to_string(),
        create_time: "1700000000000".to_string(),
        sender,
        content: JsonValue::Object(vec![("text".to_string(), JsonValue::Str(text.to_string()))]),
        deleted: false,
        updated: false,
        thread_id: Some(ThreadId::parse("omt_1".to_string()).unwrap()),
    }
}

#[test]
fn polling_finds_the_marked_reply_and_builds_its_event() {
    assert_eq!(message_text(&JsonValue::Str("plain".to_string())), "plain");
    assert_eq!(message_text(&JsonValue::Null), "");
    let messages = vec![
        message("om_1", ada(), "unrelated"),
        message("om_2", ada(), "yes [wf:tok]"),
        message("om_3", ada(), "again [wf:tok]"),
    ];
    assert_eq!(find_marked_message(&messages, "tok"), Some(1));
    assert_eq!(find_marked_message(&messages, "other"), None);
    assert_eq!(created_at_ms("1700000000000"), 1_700_000_000_000);
    assert_eq!(created_at_ms("soon"), 0);

    let chat = ChatId::parse("oc_room".to_string()).unwrap();
    let event = poll_event(&messages[1], &chat, 42).unwrap();
    assert_eq!(event.event_id, "poll:om_2");
    assert_eq!(event.event_type, "im.message.receive_v1");
    assert_eq!(event.created_at_ms, 42);
    assert_eq!(event.chat_id.as_str(), "oc_room");
    assert_eq!(event.thread_id.as_deref(), Some("omt_1"));
    assert_eq!(event.sender_id.as_str(), "ou_ada");
    assert_eq!(event.text, "yes [wf:tok]");
    let bot = JsonValue::Object(vec![("id".to_string(), JsonValue::Str("cli_bot".to_string()))]);
    assert_eq!(poll_event(&message("om_4", bot, "x"), &chat, 1), None);
}
