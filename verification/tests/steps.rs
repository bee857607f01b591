use codex_workflow::integrations::fornax::bridge_protocol::json_record;
use codex_workflow::integrations::fornax::bridge_protocol::plain_text_record;
use codex_workflow::integrations::fornax::bridge_protocol::RecordValue;
use codex_workflow::integrations::fornax::bridge_protocol::SpanRecord;
use codex_workflow::integrations::fornax::span_semantics::FornaxSpanInput;
use codex_workflow::integrations::fornax::span_semantics::FornaxSpanOutput;
use codex_workflow::integrations::fornax::span_semantics::FornaxSpanSemanticError;
use codex_workflow::integrations::fornax::span_semantics::TraceMessage;
use codex_workflow::json::JsonNumber;
use codex_workflow::json::JsonValue;
use codex_workflow::runtime::approval::ApprovalOutcome;
use codex_workflow::runtime::approval::WorkflowApprovalError;
use codex_workflow::runtime::approval_flow::ApprovalReply;
use codex_workflow::runtime::approval_flow::ApproverPoll;
use codex_workflow::runtime::approval_step::approval_start;
use codex_workflow::runtime::approval_step::approval_step;
use codex_workflow::runtime::approval_step::approver_start;
use codex_workflow::runtime::approval_step::approver_step;
use codex_workflow::runtime::approval_step::ApprovalAction;
use codex_workflow::runtime::approval_step::ApprovalContext;
use codex_workflow::runtime::approval_step::ApprovalEvent;
use codex_workflow::runtime::approval_step::ApprovalPhase;
use codex_workflow::runtime::approval_step::ApproverAction;
use codex_workflow::runtime::approval_step::ApproverContext;
use codex_workflow::runtime::approval_step::ApproverEvent;
use codex_workflow::runtime::driver::lease_start;
use codex_workflow::runtime::driver::lease_step;
use codex_workflow::runtime::driver::step_error_code;
use codex_workflow::runtime::driver::DriveOutcome;
use codex_workflow::runtime::driver::LeaseAction;
use codex_workflow::runtime::driver::LeaseEvent;
use codex_workflow::runtime::driver::StepResult;
use codex_workflow::runtime::interaction::HumanInteractionOutcome;
use codex_workflow::runtime::interaction::LarkInteractionError;
use codex_workflow::runtime::interaction_step::interaction_start;
use codex_workflow::runtime::interaction_step::interaction_step;
use codex_workflow::runtime::interaction_step::InteractionAction;
use codex_workflow::runtime::interaction_step::InteractionEvent;
use codex_workflow::runtime::node_client::NodeError;
use codex_workflow::runtime::node_ensure::ensure_step;
use codex_workflow::runtime::node_ensure::EnsureAction;
use codex_workflow::runtime::node_ensure::EnsureEvent;
use codex_workflow::runtime::node_ensure::EnsurePhase;
use codex_workflow::runtime::records::WorkflowEffectState;
use codex_workflow::runtime::records::WorkflowRunStatus;
use codex_workflow::runtime::recovery::AttemptRepair;
use codex_workflow::runtime::recovery::OperatorReason;
use codex_workflow::runtime::recovery::ReconcileOutcome;
use codex_workflow::runtime::recovery::RecoveryReport;
use codex_workflow::runtime::recovery::ThreadRepair;
use codex_workflow::runtime::recovery_step::reconcile_start;
use codex_workflow::runtime::recovery_step::reconcile_step;
use codex_workflow::runtime::recovery_step::ReconcileAction;
use codex_workflow::runtime::recovery_step::ReconcileEvent;
use codex_workflow::runtime::records::WorkflowNodeAttemptStatus;

const SHA: &str = "ba7816bf8f01cfea414140de5dae2223b00361a396177a9cb410ff61f20015ad";

fn message(role: &str, content: &str) -> TraceMessage {
    TraceMessage { role: role.to_string(), content: content.to_string() }
}

fn obj(members: Vec<(&str, JsonValue)>) -> JsonValue {
    JsonValue::Object(members.into_iter().map(|(k, v)| (k.to_string(), v)).collect())
}

fn s(text: &str) -> JsonValue {
    JsonValue::Str(text.to_string())
}

#[test]
fn span_outputs_carry_the_value_and_status_tags() {
    let failed = FornaxSpanOutput::Agent { output: "partial".to_string() }
        .into_records(2, Some("boom".to_string()))
        .unwrap();
    assert_eq!(
        failed,
        vec![
            SpanRecord::Output { value: RecordValue::PlainText("partial".to_string()) },
            SpanRecord::Tags {
                values: vec![
                    ("_status_code".to_string(), JsonValue::Number(JsonNumber::PosInt(2))),
                    ("error".to_string(), s("boom")),
                ],
            },
        ]
    );
    let ok = FornaxSpanOutput::Model { choices: vec![message("assistant", "hi")] }.into_records(0, None).unwrap();
    assert_eq!(
        ok[0],
        SpanRecord::Output {
            value: RecordValue::PlainTextJson(obj(vec![(
                "choices",
                JsonValue::Array(vec![obj(vec![("content", s("hi")), ("role", s("assistant"))])])
            )]))
        }
    );
    assert_eq!(
        ok[1],
        SpanRecord::Tags { values: vec![("_status_code".to_string(), JsonValue::Number(JsonNumber::PosInt(0)))] }
    );
    assert_eq!(
        FornaxSpanOutput::Model { choices: vec![] }.into_records(0, None),
        Err(FornaxSpanSemanticError::InvalidField("messages"))
    );
    assert_eq!(
        FornaxSpanOutput::Agent { output: "x".to_string() }.into_records(0, Some("e".to_string())),
        Err(FornaxSpanSemanticError::ErrorOnSuccess)
    );
}

#[test]
fn span_inputs_carry_each_message() {
    let records = FornaxSpanInput::Model {
        model_provider: "p".to_string(),
        model_name: "m".to_string(),
        messages: vec![message("user", "question"), message("system", "rules")],
    }
    .into_records()
    .unwrap();
    assert_eq!(
        records[1],
        SpanRecord::Input {
            value: RecordValue::PlainTextJson(obj(vec![(
                "messages",
                JsonValue::Array(vec![
                    obj(vec![("content", s("question")), ("role", s("user"))]),
                    obj(vec![("content", s("rules")), ("role", s("system"))]),
                ])
            )]))
        }
    );
}

#[test]
fn record_values_travel_in_their_envelope() {
    assert_eq!(
        plain_text_record("t".to_string()),
        obj(vec![
            ("classification", s("nonSensitive")),
            ("policyGrant", JsonValue::Bool(true)),
            ("type", s("plainText")),
            ("value", s("t")),
        ])
    );
    assert_eq!(json_record(JsonValue::Null).get("type"), Some(&s("json")));
}

#[test]
fn reconciling_a_run_escalates_and_tallies() {
    let s0 = reconcile_start(2, RecoveryReport::default());
    let (s1, a) = reconcile_step(s0, ReconcileEvent::InteractionChecked { settled: false });
    assert_eq!(a, ReconcileAction::Precheck);
    let (s2, a) = reconcile_step(s1, ReconcileEvent::Prechecked { reason: None });
    assert_eq!(a, ReconcileAction::InspectNode(0));
    let (s3, a) = reconcile_step(s2, ReconcileEvent::NodeInspected { repair: ThreadRepair::BindPrimary("t1".to_string()) });
    assert_eq!(a, ReconcileAction::RepairThreads(ThreadRepair::BindPrimary("t1".to_string())));
    assert_eq!(s3.report.repaired_thread_bindings, 1);
    let finish = AttemptRepair::Finish { status: WorkflowNodeAttemptStatus::Succeeded, turn_id: "u".to_string(), failed: false };
    let (s4, _) = reconcile_step(s3, ReconcileEvent::AttemptInspected { repair: finish });
    assert_eq!(s4.report.reconciled_terminal_attempts, 1);
    let (s5, a) = reconcile_step(s4, ReconcileEvent::AttemptsDone);
    assert_eq!(a, ReconcileAction::InspectNode(1));
    let (s6, a) = reconcile_step(
        s5,
        ReconcileEvent::NodeInspected { repair: ThreadRepair::NeedsOperator(OperatorReason::OrphanThreadMapping) },
    );
    assert_eq!(a, ReconcileAction::Escalate(OperatorReason::OrphanThreadMapping));
    assert_eq!(s6.report.needs_operator_runs, 1);

    let (t1, _) = reconcile_step(reconcile_start(0, RecoveryReport::default()), ReconcileEvent::InteractionChecked { settled: false });
    let (t2, a) = reconcile_step(t1, ReconcileEvent::Prechecked { reason: None });
    assert_eq!(a, ReconcileAction::Settle);
    let (_, a) = reconcile_step(t2, ReconcileEvent::WakeChecked { status: WorkflowRunStatus::Waiting, wake_ready: false });
    assert_eq!(a, ReconcileAction::Finish(ReconcileOutcome::Waiting));
    let (_, a) = reconcile_step(
        reconcile_start(0, RecoveryReport::default()),
        ReconcileEvent::InteractionChecked { settled: true },
    );
    assert_eq!(a, ReconcileAction::Finish(ReconcileOutcome::ReadyToDrive));
}

#[test]
fn ensuring_a_node_reuses_an_applied_effect() {
    let applied = Some(obj(vec![("node_id", s("node-1"))]));
    let (_, a) = ensure_step(EnsurePhase::AwaitPlan, EnsureEvent::Planned { state: WorkflowEffectState::Applied, response: applied });
    assert_eq!(a, EnsureAction::GetNode { node_id: "node-1".to_string() });
    let (p, a) = ensure_step(EnsurePhase::AwaitPlan, EnsureEvent::Planned { state: WorkflowEffectState::Planned, response: None });
    assert_eq!(a, EnsureAction::ListNodes);
    let (p, a) = ensure_step(p, EnsureEvent::Listed { found: false });
    assert_eq!(a, EnsureAction::ResolveSpec);
    let (p, _) = ensure_step(p, EnsureEvent::Resolved);
    let (p, _) = ensure_step(p, EnsureEvent::Created);
    let (p, a) = ensure_step(p, EnsureEvent::Materialized);
    assert_eq!(a, EnsureAction::MarkApplied);
    let (p, a) = ensure_step(p, EnsureEvent::Applied { updated: false });
    assert_eq!(a, EnsureAction::ReadEffect);
    let (_, a) = ensure_step(p, EnsureEvent::EffectRead { current: Some(WorkflowEffectState::Ambiguous) });
    assert_eq!(
        a,
        EnsureAction::Fail(NodeError::InvalidState("node ensure effect lost its planned state".to_string()))
    );
}

fn approver() -> ApproverContext {
    ApproverContext {
        approval_id: "ap1".to_string(),
        approver: "ou_a".to_string(),
        nonce: "n1".to_string(),
        subject_sha256: SHA.to_string(),
    }
}

fn reply(text: &str) -> ApprovalReply {
    ApprovalReply { message_id: "om_1".to_string(), sender_id: "ou_a".to_string(), created_at_ms: 5, text: text.to_string() }
}

#[test]
fn an_approver_is_asked_again_after_invalid_replies_up_to_the_limit() {
    let ctx = approver();
    let (st, a) = approver_step(
        &ctx,
        approver_start(),
        ApproverEvent::Interaction(HumanInteractionOutcome::Resolved {
            interaction_id: "i".to_string(),
            artifact_id: "art".to_string(),
        }),
    );
    assert_eq!(a, ApproverAction::ReadReply { artifact_id: "art".to_string() });
    let (st, a) = approver_step(&ctx, st, ApproverEvent::Reply { artifact_id: "art".to_string(), reply: reply("maybe") });
    assert_eq!(a, ApproverAction::Ask);
    assert_eq!((st.attempt, st.prior_invalid.as_deref()), (1, Some("art")));
    let mut st = st;
    for _ in 0..2 {
        let (next, a) = approver_step(&ctx, st, ApproverEvent::Reply { artifact_id: "x".to_string(), reply: reply("no") });
        assert_eq!(a, ApproverAction::Ask);
        st = next;
    }
    let (_, a) = approver_step(&ctx, st, ApproverEvent::Reply { artifact_id: "x".to_string(), reply: reply("no") });
    assert_eq!(a, ApproverAction::Done(ApproverPoll::NeedsOperator("approval_invalid_response_limit".to_string())));
    let (_, a) = approver_step(
        &ctx,
        approver_start(),
        ApproverEvent::Reply { artifact_id: "art".to_string(), reply: reply(&format!("APPROVE n1 {SHA}")) },
    );
    match a {
        ApproverAction::Done(ApproverPoll::Decision(rec)) => {
            assert_eq!(rec.decision, "approve");
            assert_eq!(rec.response_artifact_id.as_deref(), Some("art"));
        }
        other => panic!("unexpected {other:?}"),
    }
}

#[test]
fn collecting_an_approval_asks_undecided_approvers_in_turn() {
    let ctx = ApprovalContext {
        approval_id: "ap1".to_string(),
        quorum: 1,
        deadline_ms: 1_000_000,
        now_ms: 10,
        allowed_approvers: vec!["ou_a".to_string(), "ou_b".to_string()],
    };
    let (st, a) = approval_step(&ctx, approval_start(), ApprovalEvent::Decisions(vec![]));
    assert_eq!(a, ApprovalAction::PollApprover(0));
    let (_, a) = approval_step(&ctx, st, ApprovalEvent::Polled(ApproverPoll::Waiting("int".to_string())));
    assert_eq!(
        a,
        ApprovalAction::Finish(ApprovalOutcome::Waiting { approval_id: "ap1".to_string(), interaction_id: "int".to_string() })
    );
    let none = ApprovalContext { allowed_approvers: vec![], ..ctx };
    let (st, a) = approval_step(&none, approval_start(), ApprovalEvent::Decisions(vec![]));
    assert_eq!(a, ApprovalAction::Fail(WorkflowApprovalError::InvalidState));
    assert_eq!(st.phase, ApprovalPhase::Done);
}

#[test]
fn requesting_an_interaction_looks_before_sending() {
    let (st, a) = interaction_step(
        interaction_start(),
        InteractionEvent::Planned { state: WorkflowEffectState::Planned, response: None },
    );
    assert_eq!(a, InteractionAction::Claim);
    let (st, a) = interaction_step(st, InteractionEvent::Claimed { updated: true });
    assert_eq!(a, InteractionAction::ReadEffect);
    let dispatched = Some((WorkflowEffectState::Dispatched, Some(obj(vec![("interaction_id", s("int"))]))));
    let (st, a) = interaction_step(st, InteractionEvent::Reread { effect: dispatched });
    assert_eq!(a, InteractionAction::EnsureRecords);
    let (st, a) = interaction_step(st, InteractionEvent::RecordsEnsured);
    assert_eq!(a, InteractionAction::FindMarker);
    let (st, a) = interaction_step(st, InteractionEvent::MarkerFound { message_id: None });
    assert_eq!(a, InteractionAction::Send);
    let (st, a) = interaction_step(st, InteractionEvent::Sent { message_id: None });
    assert_eq!(a, InteractionAction::FindMarker);
    let (st, a) = interaction_step(st, InteractionEvent::MarkerFound { message_id: None });
    assert_eq!(a, InteractionAction::MarkAmbiguous);
    let (_, a) = interaction_step(st, InteractionEvent::MarkedAmbiguous);
    assert_eq!(
        a,
        InteractionAction::Finish(HumanInteractionOutcome::NeedsOperator {
            interaction_id: "int".to_string(),
            reason: "lark_send_ambiguous".to_string(),
        })
    );
    let (_, a) = interaction_step(interaction_start(), InteractionEvent::Planned {
        state: WorkflowEffectState::Applied,
        response: None,
    });
    assert_eq!(a, InteractionAction::Fail(LarkInteractionError::MissingInteraction));
}

#[test]
fn a_leased_step_escalates_a_missing_definition_and_records_failures() {
    let (st, a) = lease_step(lease_start(), LeaseEvent::RunLoaded { status: WorkflowRunStatus::Running, cancellation_requested: false });
    assert_eq!(a, LeaseAction::ResolveDefinition);
    let (_, a) = lease_step(st, LeaseEvent::DefinitionResolved { available: false });
    assert_eq!(a, LeaseAction::Escalate(OperatorReason::DefinitionUnavailable));
    assert_eq!(OperatorReason::DefinitionUnavailable.code(), "definition_unavailable");
    let (st, _) = lease_step(st, LeaseEvent::DefinitionResolved { available: true });
    let (st, _) = lease_step(st, LeaseEvent::Stepped(StepResult::Failed));
    let (_, a) = lease_step(st, LeaseEvent::Committed);
    assert_eq!(a, LeaseAction::Finish { outcome: DriveOutcome::Failed, release: true });
    assert_eq!(step_error_code(StepResult::Failed), Some("workflow_step_failed"));
    assert_eq!(step_error_code(StepResult::Continue), None);
    let (_, a) = lease_step(lease_start(), LeaseEvent::RunLoaded { status: WorkflowRunStatus::Running, cancellation_requested: true });
    assert_eq!(a, LeaseAction::Finish { outcome: DriveOutcome::Cancelling, release: false });
}
