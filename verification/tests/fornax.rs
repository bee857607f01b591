use codex_workflow::integrations::fornax::bridge_config::FornaxBridgeConfig;
use codex_workflow::integrations::fornax::bridge_config::FornaxBridgeEnvironment;
use codex_workflow::integrations::fornax::bridge_config::FornaxBridgeError;
use codex_workflow::integrations::fornax::bridge_daemon::check_ensure_response;
use codex_workflow::integrations::fornax::bridge_daemon::ensure_command;
use codex_workflow::integrations::fornax::bridge_daemon::DiscoveryStatus;
use codex_workflow::integrations::fornax::bridge_daemon::EnsureResponse;
use codex_workflow::integrations::fornax::cli_version::FornaxCliCapabilities;
use codex_workflow::integrations::fornax::cli_version::FornaxCliVersion;
use codex_workflow::integrations::fornax::delivery::backlog_reports;
use codex_workflow::integrations::fornax::delivery::reconcile_plan;
use codex_workflow::integrations::fornax::delivery::FornaxDeliveryError;
use codex_workflow::integrations::fornax::delivery::FornaxDeliveryReport;
use codex_workflow::integrations::fornax::delivery::FornaxDeliveryState;
use codex_workflow::integrations::fornax::error::FornaxCliError;
use codex_workflow::integrations::fornax::evaluation::validate_experiment;
use codex_workflow::integrations::fornax::evaluation::validate_mapping;
use codex_workflow::integrations::fornax::evaluation::validate_model_status;
use codex_workflow::integrations::fornax::evaluation::validate_page;
use codex_workflow::integrations::fornax::evaluation::validate_scalar;
use codex_workflow::integrations::fornax::evaluation::validate_semver;
use codex_workflow::integrations::fornax::evaluation::validate_versioned_id;
use codex_workflow::integrations::fornax::evaluation::ExperimentEvaluatorOnlyRequest;
use codex_workflow::integrations::fornax::evaluation::FornaxPageRequest;
use codex_workflow::integrations::fornax::prompt::render_normal_prompt;
use codex_workflow::integrations::fornax::prompt::render_string;
use codex_workflow::integrations::fornax::prompt::PromptDraft;
use codex_workflow::integrations::fornax::prompt::PromptDraftValidationError;
use codex_workflow::integrations::fornax::prompt::PromptRenderError;
use codex_workflow::integrations::fornax::redaction::Redactor;
use codex_workflow::integrations::fornax::workflow_client::FornaxCapabilityError;
use codex_workflow::integrations::fornax::workflow_client::FornaxWorkflowClient;
use codex_workflow::json::JsonValue;
use codex_workflow::runtime::records::WorkflowFornaxDeliveryProofRecord;
use codex_workflow::runtime::records::WorkflowFornaxTraceRecord;
use codex_workflow::runtime::records::WorkflowFornaxTraceState;

const DIGEST: &str = "ba7816bf8f01cfea414140de5dae2223b00361a396177a9cb410ff61f20015ad";

fn invalid(message: &str) -> Result<(), FornaxCliError> {
    Err(FornaxCliError::InvalidRequest { message: message.to_string() })
}

#[test]
fn scalars_are_bounded_and_free_of_control_characters() {
    assert_eq!(validate_scalar("name", "ok"), Ok(()));
    assert_eq!(validate_scalar("name", ""), invalid("name must be a bounded scalar"));
    assert_eq!(validate_scalar("name", "a\nb"), invalid("name must be a bounded scalar"));
    assert_eq!(validate_scalar("name", &"é".repeat(256)), Ok(()));
    assert_eq!(validate_scalar("name", &"é".repeat(257)), invalid("name must be a bounded scalar"));
}

#[test]
fn pages_and_versions_are_checked() {
    assert_eq!(validate_page(&FornaxPageRequest { page_size: 200, page_token: None }), Ok(()));
    assert_eq!(
        validate_page(&FornaxPageRequest { page_size: 0, page_token: None }),
        invalid("page_size must be between 1 and 200")
    );
    assert_eq!(
        validate_page(&FornaxPageRequest { page_size: 10, page_token: Some(String::new()) }),
        invalid("page_token must be a bounded scalar")
    );
    assert_eq!(validate_semver("v", "1.2.3-rc.1+build"), Ok(()));
    assert_eq!(validate_semver("v", "1.2"), invalid("v must be semantic version"));
    assert_eq!(validate_versioned_id("evaluator", "abc:1.0.0"), Ok(()));
    assert_eq!(validate_versioned_id("evaluator", "abc"), invalid("evaluator must use id:version"));
    assert_eq!(validate_versioned_id("evaluator", ":1.0.0"), invalid("evaluator must be a bounded scalar"));
    assert_eq!(
        validate_versioned_id("evaluator", "abc:1.0.0:x"),
        invalid("evaluator_version must be semantic version")
    );
    assert_eq!(validate_model_status("Deploying"), Ok(()));
    assert_eq!(validate_model_status("deploying"), invalid("unsupported model status"));
}

#[test]
fn evaluator_mappings_split_at_the_last_colon() {
    assert_eq!(validate_mapping("ev:1.0.0:input=question"), Ok(()));
    assert_eq!(
        validate_mapping("nothing"),
        invalid("evaluator mapping must include evaluator id and version")
    );
    assert_eq!(
        validate_mapping("ev:1.0.0:input"),
        invalid("evaluator mapping must use field=eval_set_field")
    );
    assert_eq!(validate_mapping("ev:1.0.0:=question"), invalid("evaluator field must be a bounded scalar"));
    assert_eq!(validate_mapping("ev:1.0.0:input="), invalid("eval_set field must be a bounded scalar"));
    assert_eq!(validate_mapping("ev:input=question"), invalid("evaluator mapping must use id:version"));
}

fn experiment() -> ExperimentEvaluatorOnlyRequest {
    ExperimentEvaluatorOnlyRequest {
        name: "nightly".to_string(),
        eval_set_id: "set-1".to_string(),
        eval_set_version: "1.0.0".to_string(),
        evaluators: vec!["ev:1.0.0".to_string(), "ev2:2.0.0".to_string()],
        evaluator_mappings: vec!["ev:1.0.0:input=question".to_string()],
        item_retry_num: 10,
    }
}

#[test]
fn experiments_are_checked_in_order() {
    assert_eq!(validate_experiment(&experiment()), Ok(()));
    let mut r = experiment();
    r.evaluators.clear();
    assert_eq!(validate_experiment(&r), invalid("at least one evaluator id:version is required"));
    let mut r = experiment();
    r.item_retry_num = 11;
    assert_eq!(validate_experiment(&r), invalid("item_retry_num must be at most 10"));
    let mut r = experiment();
    r.evaluators.push("broken".to_string());
    r.evaluator_mappings.push("broken".to_string());
    assert_eq!(validate_experiment(&r), invalid("evaluator must use id:version"));
    let mut r = experiment();
    r.evaluator_mappings.push("ev:1.0.0:x".to_string());
    assert_eq!(validate_experiment(&r), invalid("evaluator mapping must use field=eval_set_field"));
    let mut r = experiment();
    r.eval_set_version = "one".to_string();
    assert_eq!(validate_experiment(&r), invalid("eval_set_version must be semantic version"));
}

#[test]
fn redactor_masks_secrets_and_credential_assignments() {
    let redactor = Redactor::new(vec!["hunter2".to_string(), String::new(), "hunter2".to_string()]);
    assert_eq!(redactor.redact("password hunter2 used"), "password [REDACTED] used");
    assert_eq!(redactor.redact("token=abc123 next"), "token=[REDACTED] next");
    assert_eq!(redactor.redact("Authorization:abc def"), "Authorization:[REDACTED] def");
    assert_eq!(redactor.redact("Authorization: Bearer"), "Authorization: Bearer");
    assert_eq!(redactor.redact("Authorization: Bearer abcdefghijk"), "Authorization: Bearer abcdefghijk");
    assert_eq!(redactor.redact("FORNAX_SK=xyz,other"), "FORNAX_SK=[REDACTED],other");
    assert_eq!(redactor.redact("no secrets here"), "no secrets here");
    assert_eq!(redactor.redact("token="), "token=");
    assert_eq!(Redactor::new(vec![]).redact("token= x"), "token= x");
}

#[test]
fn normal_strings_render_declared_variables() {
    let vars = vec![("name".to_string(), "Ada".to_string())];
    assert_eq!(render_string("Hi {{ name }}!", &vars), Ok("Hi Ada!".to_string()));
    assert_eq!(render_string("plain", &vars), Ok("plain".to_string()));
    assert_eq!(
        render_string("Hi {{other}}", &vars),
        Err(PromptRenderError::MissingVariable("other".to_string()))
    );
    assert_eq!(render_string("Hi {{name", &vars), Err(PromptRenderError::UnsupportedTemplate));
}

fn s(text: &str) -> JsonValue {
    JsonValue::Str(text.to_string())
}

fn obj(members: Vec<(&str, JsonValue)>) -> JsonValue {
    JsonValue::Object(members.into_iter().map(|(k, v)| (k.to_string(), v)).collect())
}

fn draft(messages: Vec<JsonValue>) -> JsonValue {
    obj(vec![(
        "detail",
        obj(vec![(
            "prompt_template",
            obj(vec![
                ("template_type", s("normal")),
                ("messages", JsonValue::Array(messages)),
                (
                    "variable_defs",
                    JsonValue::Array(vec![obj(vec![("key", s("topic")), ("type", s("string"))])]),
                ),
            ]),
        )]),
    )])
}

#[test]
fn prompt_drafts_are_validated_and_rendered() {
    let value = draft(vec![
        obj(vec![("role", s("system")), ("content", s("Be brief."))]),
        obj(vec![("role", s("user")), ("content", s("About {{topic}}"))]),
    ]);
    let draft_value = PromptDraft::new(value).unwrap();
    let vars = vec![("topic".to_string(), "rust".to_string())];
    let messages = render_normal_prompt(&draft_value, &vars).unwrap();
    assert_eq!(messages.len(), 2);
    assert_eq!(messages[1].role, "user");
    assert_eq!(messages[1].content, "About rust");
    let unknown = vec![("other".to_string(), "x".to_string())];
    assert_eq!(
        render_normal_prompt(&draft_value, &unknown),
        Err(PromptRenderError::UnsupportedVariable("other".to_string()))
    );
    assert_eq!(PromptDraft::new(JsonValue::Null).err(), Some(PromptDraftValidationError::Missing("object")));
    assert_eq!(
        PromptDraft::new(draft(vec![])).err(),
        Some(PromptDraftValidationError::Missing("detail.prompt_template.messages"))
    );
    assert_eq!(
        PromptDraft::new(draft(vec![obj(vec![("role", s("robot")), ("content", s("x"))])])).err(),
        Some(PromptDraftValidationError::Invalid {
            field: "detail.prompt_template.messages.role",
            message: "unsupported role".to_string(),
        })
    );
    let placeholder = PromptDraft::new(draft(vec![obj(vec![("role", s("placeholder")), ("content", s("x"))])])).unwrap();
    assert_eq!(
        render_normal_prompt(&placeholder, &vec![]),
        Err(PromptRenderError::UnsupportedMessage { index: 0 })
    );
}

#[test]
fn only_the_pinned_cli_version_is_accepted() {
    let version = FornaxCliVersion::parse(b"  fornax-cli v0.0.51\n").unwrap();
    let parts = version.as_version();
    assert_eq!((parts.major, parts.minor, parts.patch), (0, 0, 51));
    assert!(!FornaxCliCapabilities::for_version(&version).trace_write);
    assert_eq!(
        FornaxCliVersion::parse(b"fornax-cli v0.0.52").err(),
        Some(FornaxCliError::UnsupportedVersion { actual: "0.0.52".to_string(), expected: "0.0.51" })
    );
    assert_eq!(FornaxCliVersion::parse(b"fornax v0.0.51").err(), Some(FornaxCliError::MalformedVersion));
    assert_eq!(FornaxCliVersion::parse(&[0xff, 0xfe]).err(), Some(FornaxCliError::MalformedVersion));
}

fn bridge_config(state_dir: &str) -> FornaxBridgeConfig {
    FornaxBridgeConfig {
        executable: "/usr/bin/fornax-bridge".to_string(),
        cwd: "/work".to_string(),
        state_dir: state_dir.to_string(),
        environment: FornaxBridgeEnvironment {
            values: vec![("FORNAX_AK".to_string(), "ak".to_string())],
            redactions: vec!["ak".to_string()],
        },
        lifecycle_timeout_ms: 5000,
        connect_timeout_ms: 100,
        request_timeout_ms: 200,
    }
}

#[test]
fn bridge_lifecycle_command_needs_absolute_paths() {
    let (request, runner) = ensure_command(&bridge_config("/state")).unwrap();
    assert_eq!(request.args, vec!["daemon", "ensure", "--state-dir", "/state", "--format", "json"]);
    assert_eq!(request.env, vec![("FORNAX_AK".to_string(), "ak".to_string())]);
    assert_eq!(runner.stdout_limit(), 65536);
    assert_eq!(runner.stderr_limit(), 16384);
    assert_eq!(
        ensure_command(&bridge_config("state")).err(),
        Some(FornaxBridgeError::InvalidConfiguration("bridge state directory must be absolute".to_string()))
    );
}

fn ensure_response(bridge_version: &str, credential_file: &str) -> EnsureResponse {
    EnsureResponse {
        status: DiscoveryStatus::AlreadyRunning,
        protocol_version: 2,
        bridge_version: bridge_version.to_string(),
        sdk_version: "1.0.46".to_string(),
        instance_id: "i-1".to_string(),
        pid: 42,
        endpoint: "http://127.0.0.1:1".to_string(),
        credential_file: credential_file.to_string(),
    }
}

#[test]
fn bridge_discovery_must_match_versions_and_be_secure() {
    let discovery = check_ensure_response(ensure_response("0.2.0", "/state/cred")).unwrap();
    assert_eq!(discovery.status, DiscoveryStatus::AlreadyRunning);
    assert_eq!(discovery.instance_id, "i-1");
    assert_eq!(
        check_ensure_response(ensure_response("0.3.0", "/state/cred")).err(),
        Some(FornaxBridgeError::VersionMismatch)
    );
    assert_eq!(
        check_ensure_response(ensure_response("0.2.0", "cred")).err(),
        Some(FornaxBridgeError::InsecureDescriptor)
    );
}

fn trace(key: &str, state: WorkflowFornaxTraceState, code: Option<&str>) -> WorkflowFornaxTraceRecord {
    WorkflowFornaxTraceRecord {
        effect_key: key.to_string(),
        operation_id: format!("op-{key}"),
        request_hash: format!("hash-{key}"),
        state,
        error_code: code.map(str::to_string),
    }
}

fn delivery_proof(key: &str, span: &str) -> WorkflowFornaxDeliveryProofRecord {
    WorkflowFornaxDeliveryProofRecord {
        effect_key: key.to_string(),
        remote_trace_id: "t".to_string(),
        remote_span_id: span.to_string(),
        proof_kind: "read".to_string(),
        proof_digest: DIGEST.to_string(),
    }
}

#[test]
fn delivery_reports_claim_only_what_the_journal_supports() {
    let records = vec![
        trace("a", WorkflowFornaxTraceState::Live, None),
        trace("b", WorkflowFornaxTraceState::Failed, Some("sdk_authentication")),
        trace("c", WorkflowFornaxTraceState::Failed, Some("queue_full")),
        trace("d", WorkflowFornaxTraceState::Ambiguous, None),
        trace("e", WorkflowFornaxTraceState::Orphaned, None),
    ];
    let proofs = vec![delivery_proof("d", "s1"), delivery_proof("d", "s2")];
    let reports = backlog_reports(&records, &proofs);
    let states: Vec<FornaxDeliveryState> = reports.iter().map(|r| r.state).collect();
    assert_eq!(
        states,
        vec![
            FornaxDeliveryState::AcceptedLocal,
            FornaxDeliveryState::DeliveryFailedPermanent,
            FornaxDeliveryState::DeliveryFailedRetryable,
            FornaxDeliveryState::DeliveredRemote,
            FornaxDeliveryState::DeliveryFailedRetryable,
        ]
    );
    assert_eq!(reports[3].remote_span_id.as_deref(), Some("s2"));
    assert_eq!(reports[1].error_code.as_deref(), Some("sdk_authentication"));
    assert_eq!(FornaxDeliveryReport::from_record(&records[3]).state, FornaxDeliveryState::DeliveryAmbiguous);
}

#[test]
fn delivery_proofs_are_checked_and_bound_to_the_journal() {
    let correlation = trace("a", WorkflowFornaxTraceState::Finished, None);
    let plan = reconcile_plan("run", "a", "t", "s", "read", DIGEST, 7, Some(&correlation)).unwrap();
    assert_eq!(plan.operation_id, "op-a");
    assert_eq!(plan.request_hash, "hash-a");
    assert_eq!(plan.reconciled_at_ms, 7);
    assert_eq!(
        reconcile_plan("run", "a", "t", "s", "read", DIGEST, 7, None),
        Err(FornaxDeliveryError::CorrelationNotFound)
    );
    assert_eq!(
        reconcile_plan("run", "", "t", "s", "read", DIGEST, 7, Some(&correlation)),
        Err(FornaxDeliveryError::InvalidProof("effect_key".to_string()))
    );
    assert_eq!(
        reconcile_plan("run", "a", "t", "s", "read", &DIGEST.to_uppercase(), 7, Some(&correlation)),
        Err(FornaxDeliveryError::InvalidProof("proof_digest".to_string()))
    );
}

#[test]
fn trace_writing_needs_a_configured_writer() {
    let with: FornaxWorkflowClient<&str, u8> = FornaxWorkflowClient::new("cli", Some(3));
    assert_eq!(with.trace_writer(), Ok(&3));
    assert_eq!(*with.prompts(), "cli");
    let without: FornaxWorkflowClient<&str, u8> = FornaxWorkflowClient::new("cli", None);
    assert_eq!(without.trace_writer(), Err(FornaxCapabilityError::TraceWriteUnavailable));
}

#[test]
fn redaction_leaves_no_configured_secret() {
    let redactor = Redactor::new(vec!["hunter2".to_string(), "s3cr3t-value".to_string()]);
    let out = redactor.redact("a=hunter2 b=s3cr3t-value hunter2hunter2 token=hunter2");
    assert!(!out.contains("hunter2"));
    assert!(!out.contains("s3cr3t-value"));
    assert_eq!(out, "a=[REDACTED] b=[REDACTED] [REDACTED][REDACTED] token=[REDACTED]");
    // A secret found inside the mask itself is recreated by masking.
    let inside = Redactor::new(vec!["RED".to_string(), "xyz".to_string()]);
    assert_eq!(inside.redact("xyz"), "[REDACTED]");
    assert!(inside.redact("xyz").contains("RED"));
}
