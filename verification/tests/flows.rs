use codex_workflow::integrations::lark::document_search::search_begin;
use codex_workflow::integrations::lark::document_search::search_step;
use codex_workflow::integrations::lark::document_search::DocumentSearchPage;
use codex_workflow::integrations::lark::document_search::DocumentSearchResult;
use codex_workflow::integrations::lark::document_search::SearchAction;
use codex_workflow::integrations::lark::document_search::SearchEvent;
use codex_workflow::integrations::lark::error::LarkCliError;
use codex_workflow::integrations::lark::identity::ChatId;
use codex_workflow::integrations::lark::identity::LarkIdentity;
use codex_workflow::integrations::lark::identity::OpenId;
use codex_workflow::integrations::lark::identity::ThreadId;
use codex_workflow::integrations::lark::member_listing::member_list_begin;
use codex_workflow::integrations::lark::member_listing::member_list_step;
use codex_workflow::integrations::lark::member_listing::ChatMemberPage;
use codex_workflow::integrations::lark::member_listing::MemberListAction;
use codex_workflow::integrations::lark::messages::MessageBody;
use codex_workflow::integrations::lark::types::ChatMember;
use codex_workflow::integrations::lark::types::ContentSensitivity;
use codex_workflow::integrations::lark::types::DocumentMatch;
use codex_workflow::integrations::lark::types::DocumentSnapshot;
use codex_workflow::integrations::lark::types::DocumentUpdateMode;
use codex_workflow::integrations::lark::types::MessageTarget;
use codex_workflow::json::JsonValue;
use codex_workflow::runtime::approval::ApprovalRequest;
use codex_workflow::runtime::approval::ApprovalSubject;
use codex_workflow::runtime::approval_flow::approval_interaction_effect;
use codex_workflow::runtime::approval_flow::approval_prompt;
use codex_workflow::runtime::approval_flow::approver_request;
use codex_workflow::runtime::cancellation::cancel_begin;
use codex_workflow::runtime::cancellation::cancel_step;
use codex_workflow::runtime::cancellation::CancelAction;
use codex_workflow::runtime::cancellation::CancelEvent;
use codex_workflow::runtime::cancellation::CancellationReport;
use codex_workflow::runtime::cancellation::NodeAttempt;
use codex_workflow::runtime::document_update::content_sha256;
use codex_workflow::runtime::document_update::overwrite_request;
use codex_workflow::runtime::document_update::OwnedDocumentUpdateRequest;
use codex_workflow::runtime::driver::drive_start;
use codex_workflow::runtime::driver::drive_step;
use codex_workflow::runtime::driver::DriveAction;
use codex_workflow::runtime::driver::DriveError;
use codex_workflow::runtime::driver::DriveEvent;
use codex_workflow::runtime::driver::DriveOutcome;
use codex_workflow::runtime::failure_injection::FailureInjector;
use codex_workflow::runtime::failure_injection::FailurePoint;
use codex_workflow::runtime::failure_injection::InjectedFailure;
use codex_workflow::runtime::interaction::correlation_token;
use codex_workflow::runtime::interaction::message_idempotency_key;
use codex_workflow::runtime::interaction::send_request;
use codex_workflow::runtime::interaction::HumanInteractionRequest;
use codex_workflow::runtime::node_ensure::applied_response;
use codex_workflow::runtime::node_ensure::ensure_step;
use codex_workflow::runtime::node_ensure::EnsureAction;
use codex_workflow::runtime::node_ensure::EnsureEvent;
use codex_workflow::runtime::node_ensure::EnsurePhase;
use codex_workflow::runtime::outbox::outbox_begin;
use codex_workflow::runtime::outbox::outbox_step;
use codex_workflow::runtime::outbox::OutboxAction;
use codex_workflow::runtime::outbox::OutboxError;
use codex_workflow::runtime::outbox::OutboxEvent;
use codex_workflow::runtime::records::WorkflowEffectState;
use codex_workflow::runtime::records::WorkflowNodeAttemptRecord;
use codex_workflow::runtime::records::WorkflowNodeAttemptStatus;
use codex_workflow::runtime::records::WorkflowRunRecord;
use codex_workflow::runtime::records::WorkflowRunStatus;
use codex_workflow::runtime::retry::retry_delay;
use codex_workflow::runtime::retry::BackoffPolicy;

fn approval_request() -> ApprovalRequest {
    ApprovalRequest {
        effect_key: "approve-doc".to_string(),
        gate: "publish".to_string(),
        subject: ApprovalSubject {
            artifact_id: "art".to_string(),
            sha256: "ab".repeat(32),
            document_id: None,
            document_revision: None,
        },
        prompt: "Please review".to_string(),
        chat_id: ChatId::parse("oc_chat".to_string()).unwrap(),
        thread_id: Some(ThreadId::parse("omt_t1".to_string()).unwrap()),
        allowed_approvers: vec![
            OpenId::parse("ou_a".to_string()).unwrap(),
            OpenId::parse("ou_b".to_string()).unwrap(),
        ],
        quorum: 1,
        deadline_ms: 5_000,
    }
}

#[test]
fn each_approver_request_lets_only_that_approver_answer() {
    let request = approval_request();
    let approver = OpenId::parse("ou_b".to_string()).unwrap();
    let asked = approver_request(&request, "appr-1", &approver, "nonce123", 1, Some("art-invalid"));
    assert_eq!(asked.allowed_senders, vec![approver.clone()]);
    assert_eq!(asked.prompt, approval_prompt(&request, "nonce123"));
    assert!(asked.prompt.starts_with("Please review\n\nApproval gate: publish\n"));
    assert_eq!(asked.effect_key, approval_interaction_effect("appr-1", "ou_b", 1, Some("art-invalid")));
    assert_ne!(asked.effect_key, approval_interaction_effect("appr-1", "ou_b", 0, None));
    assert_eq!(asked.chat_id.as_str(), "oc_chat");
    assert_eq!(asked.thread_id.as_ref().map(|t| t.as_str()), Some("omt_t1"));
    assert_eq!(asked.deadline_ms, 5_000);
    assert_eq!(asked.sensitivity, ContentSensitivity::NonSensitive);
}

#[test]
fn a_document_dispatch_overwrites_with_the_desired_markdown() {
    let request = OwnedDocumentUpdateRequest {
        effect_key: "doc".to_string(),
        identity: LarkIdentity::Bot,
        document: "doxcn1".to_string(),
        expected_revision_id: "7".to_string(),
        expected_sha256: "0".repeat(64),
        desired_markdown: "# New".to_string(),
        sensitivity: ContentSensitivity::NonSensitive,
    };
    let update = overwrite_request(&request);
    assert_eq!(update.identity, LarkIdentity::Bot);
    assert_eq!(update.document, "doxcn1");
    assert_eq!(update.mode, DocumentUpdateMode::Overwrite);
    assert_eq!(update.markdown.as_deref(), Some("# New"));
    assert_eq!(update.selection, None);
    assert_eq!(update.new_title, None);
    assert_eq!(update.sensitivity, ContentSensitivity::NonSensitive);
}

#[test]
fn an_interaction_is_sent_to_its_chat_with_marker_and_stable_key() {
    let request = HumanInteractionRequest {
        effect_key: "ask".to_string(),
        chat_id: ChatId::parse("oc_room".to_string()).unwrap(),
        thread_id: None,
        allowed_senders: vec![OpenId::parse("ou_a".to_string()).unwrap()],
        deadline_ms: 10,
        prompt: "Ready?".to_string(),
        sensitivity: ContentSensitivity::NonSensitive,
    };
    let sent = send_request("run-1", &request);
    let token = correlation_token("run-1", "ask");
    assert_eq!(token.len(), 24);
    match &sent.target {
        MessageTarget::Chat(chat) => assert_eq!(chat.as_str(), "oc_room"),
        other => panic!("unexpected target {other:?}"),
    }
    assert_eq!(sent.body, MessageBody::Text(format!("Ready?\n\n[wf:{token}]")));
    assert_eq!(sent.idempotency_key, message_idempotency_key("run-1", "ask"));
    assert!(sent.idempotency_key.starts_with("wf-"));
    assert_eq!(sent.idempotency_key.len(), 51);
    assert_eq!(send_request("run-1", &request).idempotency_key, sent.idempotency_key);
    assert_ne!(send_request("run-2", &request).idempotency_key, sent.idempotency_key);
    assert_eq!(sent.sensitivity, ContentSensitivity::NonSensitive);
}

#[test]
fn outbox_claims_runs_once_journals_then_answers() {
    let mut injector = FailureInjector::disabled();
    let (s, a) = outbox_step(
        outbox_begin(),
        OutboxEvent::Planned { state: WorkflowEffectState::Planned, response: None },
        &mut injector,
    );
    assert_eq!(a, OutboxAction::Claim);
    let (s, a) = outbox_step(s, OutboxEvent::Claimed { updated: true }, &mut injector);
    assert_eq!(a, OutboxAction::RunOperation);
    let (s, a) = outbox_step(s, OutboxEvent::Operated(Ok(JsonValue::Bool(true))), &mut injector);
    assert_eq!(a, OutboxAction::WriteApplied);
    let (s, a) = outbox_step(s, OutboxEvent::AppliedWritten { updated: false }, &mut injector);
    assert_eq!(a, OutboxAction::ReadEffect);
    let (_, a) = outbox_step(s, OutboxEvent::Reread(Some(WorkflowEffectState::Applied)), &mut injector);
    assert_eq!(a, OutboxAction::Finish(Ok(JsonValue::Bool(true))));
    assert_eq!(injector.visits(FailurePoint::BeforeExternalDispatch), 1);
    assert_eq!(injector.visits(FailurePoint::AfterExternalDispatch), 1);
}

#[test]
fn outbox_replays_applied_and_refuses_other_states() {
    let mut injector = FailureInjector::disabled();
    let (_, a) = outbox_step(
        outbox_begin(),
        OutboxEvent::Planned { state: WorkflowEffectState::Applied, response: Some(JsonValue::Null) },
        &mut injector,
    );
    assert_eq!(a, OutboxAction::Finish(Ok(JsonValue::Null)));
    let (_, a) = outbox_step(
        outbox_begin(),
        OutboxEvent::Planned { state: WorkflowEffectState::Applied, response: None },
        &mut injector,
    );
    assert_eq!(a, OutboxAction::Finish(Err(OutboxError::MissingResponse)));
    let (_, a) = outbox_step(
        outbox_begin(),
        OutboxEvent::Planned { state: WorkflowEffectState::Dispatched, response: None },
        &mut injector,
    );
    assert_eq!(
        a,
        OutboxAction::Finish(Err(OutboxError::RequiresReconciliation(WorkflowEffectState::Dispatched)))
    );
    let (s, _) = outbox_step(
        outbox_begin(),
        OutboxEvent::Planned { state: WorkflowEffectState::Planned, response: None },
        &mut injector,
    );
    let (_, a) = outbox_step(s, OutboxEvent::Claimed { updated: false }, &mut injector);
    assert_eq!(
        a,
        OutboxAction::Finish(Err(OutboxError::RequiresReconciliation(WorkflowEffectState::Dispatched)))
    );
}

#[test]
fn outbox_stops_at_an_injected_dispatch_failure() {
    let mut injector = FailureInjector::fail_on(FailurePoint::BeforeExternalDispatch, 1);
    let (s, _) = outbox_step(
        outbox_begin(),
        OutboxEvent::Planned { state: WorkflowEffectState::Planned, response: None },
        &mut injector,
    );
    let (_, a) = outbox_step(s, OutboxEvent::Claimed { updated: true }, &mut injector);
    assert_eq!(
        a,
        OutboxAction::Finish(Err(OutboxError::Injected(InjectedFailure {
            point: FailurePoint::BeforeExternalDispatch
        })))
    );
}

fn node_attempt(node: &str, status: WorkflowNodeAttemptStatus, turn: Option<&str>) -> NodeAttempt {
    NodeAttempt {
        node_id: node.to_string(),
        attempt: WorkflowNodeAttemptRecord {
            attempt_id: format!("{node}-att"),
            status,
            thread_id: None,
            submission_id: "sub".to_string(),
            turn_id: turn.map(str::to_string),
            input_hash: "h".to_string(),
        },
    }
}

fn run_record(status: WorkflowRunStatus) -> WorkflowRunRecord {
    WorkflowRunRecord {
        run_id: "run".to_string(),
        status,
        cancellation_requested: true,
        deadline_ms: None,
        updated_at_ms: 3,
    }
}

#[test]
fn cancellation_counts_every_open_turn_once() {
    let (s, a) = cancel_step(9, cancel_begin(), CancelEvent::Requested(run_record(WorkflowRunStatus::Cancelling)));
    assert_eq!(a, CancelAction::ListAttempts);
    let attempts = vec![
        node_attempt("n1", WorkflowNodeAttemptStatus::Succeeded, Some("t0")),
        node_attempt("n1", WorkflowNodeAttemptStatus::Prepared, None),
        node_attempt("n2", WorkflowNodeAttemptStatus::Running, Some("t2")),
        node_attempt("n3", WorkflowNodeAttemptStatus::Submitted, Some("t3")),
    ];
    let (s, a) = cancel_step(9, s, CancelEvent::Listed(attempts));
    match a {
        CancelAction::CancelBeforeSubmission { index, transition } => {
            assert_eq!(index, 1);
            assert_eq!(transition.status, WorkflowNodeAttemptStatus::Cancelled);
            assert_eq!(transition.error_code.as_deref(), Some("cancelled_before_submission"));
            assert_eq!(transition.updated_at_ms, 9);
        }
        other => panic!("unexpected {other:?}"),
    }
    let (s, a) = cancel_step(9, s, CancelEvent::Cancelled);
    assert_eq!(a, CancelAction::Interrupt { index: 2, node_id: "n2".to_string(), turn_id: "t2".to_string() });
    let (s, a) = cancel_step(9, s, CancelEvent::Settled { accepted: true, settled_within_grace: true });
    assert_eq!(a, CancelAction::Interrupt { index: 3, node_id: "n3".to_string(), turn_id: "t3".to_string() });
    let (s, a) = cancel_step(9, s, CancelEvent::Settled { accepted: true, settled_within_grace: false });
    match a {
        CancelAction::MarkAmbiguous { index, transition } => {
            assert_eq!(index, 3);
            assert_eq!(transition.status, WorkflowNodeAttemptStatus::Ambiguous);
            assert_eq!(transition.turn_id.as_deref(), Some("t3"));
            assert_eq!(transition.error_code.as_deref(), Some("cancellation_grace_expired"));
        }
        other => panic!("unexpected {other:?}"),
    }
    let (s, a) = cancel_step(9, s, CancelEvent::MarkedAmbiguous);
    assert_eq!(a, CancelAction::FinishRun);
    let finished = run_record(WorkflowRunStatus::Cancelled);
    let (_, a) = cancel_step(9, s, CancelEvent::Finished(finished.clone()));
    assert_eq!(
        a,
        CancelAction::Report(CancellationReport { run: finished, interrupted_turns: 1, ambiguous_turns: 1 })
    );
}

#[test]
fn an_already_cancelled_run_reports_nothing_interrupted() {
    let done = run_record(WorkflowRunStatus::Cancelled);
    let (_, a) = cancel_step(1, cancel_begin(), CancelEvent::Requested(done.clone()));
    assert_eq!(a, CancelAction::Report(CancellationReport { run: done, interrupted_turns: 0, ambiguous_turns: 0 }));
}

#[test]
fn a_drive_without_the_lease_is_busy() {
    let (_, a) = drive_step(100, 3, drive_start(), DriveEvent::LeaseAcquired(false));
    assert_eq!(a, DriveAction::Finish(Ok(DriveOutcome::Busy)));
}

#[test]
fn a_drive_stops_at_its_step_limit_and_releases_the_lease() {
    let (s, a) = drive_step(100, 2, drive_start(), DriveEvent::LeaseAcquired(true));
    assert_eq!(a, DriveAction::Step { heartbeat_ms: 100 });
    let (s, a) = drive_step(100, 2, s, DriveEvent::Stepped(Ok(DriveOutcome::Continued)));
    assert_eq!(a, DriveAction::RenewLease { heartbeat_ms: 100 });
    let (s, a) = drive_step(100, 2, s, DriveEvent::Renewed(Ok(true)));
    assert_eq!(a, DriveAction::Step { heartbeat_ms: 101 });
    let (s, a) = drive_step(100, 2, s, DriveEvent::Stepped(Ok(DriveOutcome::Continued)));
    assert_eq!(a, DriveAction::RenewLease { heartbeat_ms: 101 });
    let (s, a) = drive_step(100, 2, s, DriveEvent::Renewed(Ok(true)));
    assert_eq!(a, DriveAction::ReleaseLease);
    let (_, a) = drive_step(100, 2, s, DriveEvent::Released(Ok(())));
    assert_eq!(a, DriveAction::Finish(Ok(DriveOutcome::StepLimitReached)));
}

#[test]
fn a_drive_returns_the_first_blocking_outcome_or_error() {
    let (s, _) = drive_step(0, 5, drive_start(), DriveEvent::LeaseAcquired(true));
    let (s, a) = drive_step(0, 5, s, DriveEvent::Stepped(Ok(DriveOutcome::Waiting)));
    assert_eq!(a, DriveAction::ReleaseLease);
    let (_, a) = drive_step(0, 5, s, DriveEvent::Released(Ok(())));
    assert_eq!(a, DriveAction::Finish(Ok(DriveOutcome::Waiting)));

    let (s, _) = drive_step(0, 5, drive_start(), DriveEvent::LeaseAcquired(true));
    let (s, _) = drive_step(0, 5, s, DriveEvent::Stepped(Ok(DriveOutcome::Continued)));
    let (s, a) = drive_step(0, 5, s, DriveEvent::Renewed(Ok(false)));
    assert_eq!(a, DriveAction::ReleaseLease);
    let (_, a) = drive_step(0, 5, s, DriveEvent::Released(Err("gone".to_string())));
    assert_eq!(a, DriveAction::Finish(Err(DriveError::StaleWrite)));

    let (s, _) = drive_step(0, 5, drive_start(), DriveEvent::LeaseAcquired(true));
    let (s, _) = drive_step(0, 5, s, DriveEvent::Stepped(Ok(DriveOutcome::Completed)));
    let (_, a) = drive_step(0, 5, s, DriveEvent::Released(Err("db".to_string())));
    assert_eq!(a, DriveAction::Finish(Err(DriveError::Store("db".to_string()))));
}

fn result(title: &str, kind: &str, url: &str) -> DocumentSearchResult {
    DocumentSearchResult { title_highlighted: title.to_string(), doc_types: kind.to_string(), url: url.to_string() }
}

fn snapshot(url: &str, markdown: &str) -> DocumentSnapshot {
    DocumentSnapshot {
        doc_id: url.to_string(),
        doc_url: url.to_string(),
        revision_id: "1".to_string(),
        markdown: markdown.to_string(),
    }
}

#[test]
fn document_reconciliation_reads_every_page_and_candidate() {
    let digest = content_sha256("body");
    let (ctx, s, a) = search_begin(LarkIdentity::User, "Plan 7".to_string(), digest.clone()).unwrap();
    assert_eq!(a, SearchAction::Search { page_token: None });
    let page1 = DocumentSearchPage {
        results: vec![
            result("<h>Plan</h> 7", "DOCX", "u1"),
            result("Plan 7", "SHEET", "u2"),
            result("Plan 70", "DOCX", "u3"),
        ],
        has_more: true,
        page_token: Some("p2".to_string()),
    };
    let (s, a) = search_step(&ctx, s, SearchEvent::Page(page1));
    assert_eq!(a, SearchAction::Fetch { url: "u1".to_string() });
    let (s, a) = search_step(&ctx, s, SearchEvent::Fetched(snapshot("u1", "body")));
    assert_eq!(a, SearchAction::Search { page_token: Some("p2".to_string()) });
    let page2 = DocumentSearchPage {
        results: vec![result("Plan <hb>7</hb>", "DOCX", "u4"), result("Plan 7", "DOCX", "u5")],
        has_more: false,
        page_token: None,
    };
    let (s, a) = search_step(&ctx, s, SearchEvent::Page(page2));
    assert_eq!(a, SearchAction::Fetch { url: "u4".to_string() });
    let (s, a) = search_step(&ctx, s, SearchEvent::Fetched(snapshot("u4", "other")));
    assert_eq!(a, SearchAction::Fetch { url: "u5".to_string() });
    let (_, a) = search_step(&ctx, s, SearchEvent::Fetched(snapshot("u5", "body")));
    assert_eq!(
        a,
        SearchAction::Finish(Ok(DocumentMatch::Ambiguous(vec![snapshot("u1", "body"), snapshot("u5", "body")])))
    );
}

#[test]
fn document_reconciliation_refuses_bad_requests_and_duplicate_urls() {
    let digest = content_sha256("body");
    assert_eq!(
        search_begin(LarkIdentity::Bot, "T".to_string(), digest.clone()).err(),
        Some(LarkCliError::InvalidRequest {
            message: "document search reconciliation requires user identity".to_string()
        })
    );
    assert_eq!(
        search_begin(LarkIdentity::User, "  ".to_string(), digest.clone()).err(),
        Some(LarkCliError::InvalidRequest { message: "document reconciliation title or SHA-256 is invalid".to_string() })
    );
    let (ctx, s, _) = search_begin(LarkIdentity::User, "T".to_string(), digest).unwrap();
    let page = DocumentSearchPage {
        results: vec![result("T", "DOCX", "u1"), result("T", "DOCX", "u1")],
        has_more: false,
        page_token: None,
    };
    let (s, _) = search_step(&ctx, s, SearchEvent::Page(page));
    let (_, a) = search_step(&ctx, s, SearchEvent::Fetched(snapshot("u1", "none")));
    assert_eq!(
        a,
        SearchAction::Finish(Err(LarkCliError::InvalidResponse {
            message: "document search returned an empty or duplicate URL".to_string()
        }))
    );
}

#[test]
fn document_reconciliation_without_matches_is_missing() {
    let (ctx, s, _) = search_begin(LarkIdentity::User, "T".to_string(), content_sha256("x")).unwrap();
    let page = DocumentSearchPage { results: vec![], has_more: true, page_token: None };
    let (_, a) = search_step(&ctx, s, SearchEvent::Page(page));
    assert_eq!(
        a,
        SearchAction::Finish(Err(LarkCliError::InvalidResponse {
            message: "document search page omitted its continuation token".to_string()
        }))
    );
    let (ctx, s, _) = search_begin(LarkIdentity::User, "T".to_string(), content_sha256("x")).unwrap();
    let page = DocumentSearchPage { results: vec![result("T", "DOCX", "u")], has_more: false, page_token: None };
    let (s, _) = search_step(&ctx, s, SearchEvent::Page(page));
    let (_, a) = search_step(&ctx, s, SearchEvent::Fetched(snapshot("u", "y")));
    assert_eq!(a, SearchAction::Finish(Ok(DocumentMatch::Missing)));
}

fn member(id: &str) -> ChatMember {
    ChatMember {
        member_id: OpenId::parse(id.to_string()).unwrap(),
        member_id_type: "open_id".to_string(),
        name: id.to_string(),
        tenant_key: None,
    }
}

#[test]
fn member_listing_concatenates_pages_and_checks_the_total() {
    let (s, a) = member_list_begin();
    assert_eq!(a, MemberListAction::FetchPage { page_token: None });
    let (s, a) = member_list_step(
        s,
        ChatMemberPage { items: vec![member("ou_a"), member("ou_b")], member_total: 3, has_more: true, page_token: Some("n".to_string()) },
    );
    assert_eq!(a, MemberListAction::FetchPage { page_token: Some("n".to_string()) });
    let (_, a) = member_list_step(
        s,
        ChatMemberPage { items: vec![member("ou_c")], member_total: 3, has_more: false, page_token: None },
    );
    match a {
        MemberListAction::Finish(Ok(listed)) => {
            assert_eq!(listed.members, vec![member("ou_a"), member("ou_b"), member("ou_c")]);
            assert_eq!(listed.member_total, 3);
        }
        other => panic!("unexpected {other:?}"),
    }
}

#[test]
fn member_listing_refuses_duplicates_gaps_and_loops() {
    let response = |message: &str| {
        MemberListAction::Finish(Err(LarkCliError::InvalidResponse { message: message.to_string() }))
    };
    let (s, _) = member_list_begin();
    let (_, a) = member_list_step(
        s,
        ChatMemberPage { items: vec![member("ou_a"), member("ou_a")], member_total: 2, has_more: false, page_token: None },
    );
    assert_eq!(a, response("chat member pagination returned a duplicate"));
    let (s, _) = member_list_begin();
    let (_, a) = member_list_step(
        s,
        ChatMemberPage { items: vec![member("ou_a")], member_total: 2, has_more: false, page_token: None },
    );
    assert_eq!(a, response("chat member pagination was incomplete"));
    let (s, _) = member_list_begin();
    let (s, _) = member_list_step(
        s,
        ChatMemberPage { items: vec![], member_total: 0, has_more: true, page_token: Some("x".to_string()) },
    );
    let (_, a) = member_list_step(
        s,
        ChatMemberPage { items: vec![], member_total: 0, has_more: true, page_token: Some("x".to_string()) },
    );
    assert_eq!(a, response("chat member pagination looped"));
    let (s, _) = member_list_begin();
    let (_, a) = member_list_step(
        s,
        ChatMemberPage { items: vec![], member_total: 0, has_more: true, page_token: None },
    );
    assert_eq!(a, response("chat member page omitted its continuation token"));
}

#[test]
fn ensuring_again_returns_the_recorded_node() {
    let response = applied_response("node-9", &Some("thr".to_string()));
    assert_eq!(response.get_str("node_id"), Some("node-9"));
    assert_eq!(response.get_str("thread_id"), Some("thr"));
    let (phase, action) = ensure_step(
        EnsurePhase::AwaitPlan,
        EnsureEvent::Planned { state: WorkflowEffectState::Applied, response: Some(response) },
    );
    assert_eq!(phase, EnsurePhase::Done);
    assert_eq!(action, EnsureAction::GetNode { node_id: "node-9".to_string() });
    let bare = applied_response("n", &None);
    assert_eq!(bare.get("thread_id"), Some(&JsonValue::Null));
}

#[test]
fn retry_delay_doubles_spreads_and_caps() {
    let policy = BackoffPolicy::Exponential { initial_delay_ms: 100, maximum_delay_ms: 1000, jitter_percent: 10 };
    assert_eq!(retry_delay(&policy, 3, 5), 365);
    assert_eq!(retry_delay(&policy, 10, 0), 900);
    assert_eq!(retry_delay(&BackoffPolicy::Fixed { delay_ms: 7 }, 4, 99), 7);
    assert_eq!(retry_delay(&BackoffPolicy::Immediate, 4, 99), 0);
}
