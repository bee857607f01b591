use codex_workflow::integrations::environment::CliEnvironment;
use codex_workflow::integrations::fornax::bridge_config::FornaxBridgeError;
use codex_workflow::integrations::fornax::bridge_protocol::RecordValue;
use codex_workflow::integrations::fornax::bridge_protocol::SpanRecord;
use codex_workflow::integrations::fornax::cli_config::FornaxCli;
use codex_workflow::integrations::fornax::cli_config::FornaxCliConfig;
use codex_workflow::integrations::fornax::error::FornaxCliError;
use codex_workflow::integrations::fornax::prompt_read::save_draft_args;
use codex_workflow::integrations::fornax::skill::stage_precheck;
use codex_workflow::integrations::fornax::trace_read::trace_list_args;
use codex_workflow::integrations::fornax::trace_read::window_args;
use codex_workflow::integrations::fornax::trace_write::digest_record;
use codex_workflow::integrations::fornax::trace_write::live_delivery_gate;
use codex_workflow::integrations::fornax::trace_write::safe_tags;
use codex_workflow::integrations::fornax::types::TimeWindow;
use codex_workflow::integrations::fornax::types::TraceListRequest;
use codex_workflow::integrations::lark::config::LarkCli;
use codex_workflow::integrations::lark::config::LarkCliConfig;
use codex_workflow::integrations::lark::identity::ChatId;
use codex_workflow::integrations::lark::messages::chat_messages_args;
use codex_workflow::json::JsonNumber;
use codex_workflow::json::JsonValue;

fn strings(items: &[&str]) -> Vec<String> {
    items.iter().map(|s| s.to_string()).collect()
}

#[test]
fn environments_keep_the_last_value_and_remember_secrets() {
    let env = CliEnvironment::new()
        .with_value("A".to_string(), "1".to_string())
        .with_secret("KEY".to_string(), "s3cret".to_string())
        .with_value("A".to_string(), "2".to_string());
    assert_eq!(env.values, vec![("A".to_string(), "2".to_string()), ("KEY".to_string(), "s3cret".to_string())]);
    assert_eq!(env.redactions, strings(&["s3cret"]));
}

#[test]
fn fornax_requests_carry_the_configuration() {
    let cli = FornaxCli::new(FornaxCliConfig {
        executable: "/usr/bin/fornax-cli".to_string(),
        cwd: "/work".to_string(),
        environment: CliEnvironment::new().with_secret("FORNAX_SK".to_string(), "k".to_string()),
        timeout_ms: 1000,
        stdout_limit: 64,
        stderr_limit: 64,
    });
    let request = cli.json_request(strings(&["trace", "get"]));
    assert_eq!(request.executable, "/usr/bin/fornax-cli");
    assert_eq!(request.cwd, "/work");
    assert_eq!(request.args, strings(&["--format", "json", "trace", "get"]));
    assert_eq!(request.env, vec![("FORNAX_SK".to_string(), "k".to_string())]);
    assert_eq!(request.redactions, strings(&["k"]));
    assert_eq!(cli.version_request().args, strings(&["version"]));
    assert_eq!(cli.raw_request(strings(&["x"])).args, strings(&["x"]));
}

#[test]
fn lark_requests_and_listings_use_the_bot_identity() {
    let cli = LarkCli::new(LarkCliConfig {
        executable: "/usr/bin/lark-cli".to_string(),
        cwd: "/work".to_string(),
        environment: CliEnvironment::new(),
        timeout_ms: 1000,
        stdout_limit: 64,
        stderr_limit: 64,
    });
    assert_eq!(cli.cwd(), "/work");
    assert_eq!(cli.version_request().args, strings(&["--version"]));
    let chat = ChatId::parse("oc_room".to_string()).unwrap();
    assert_eq!(
        chat_messages_args(&chat, Some("p2")),
        strings(&[
            "im",
            "+chat-messages-list",
            "--as",
            "bot",
            "--chat-id",
            "oc_room",
            "--sort",
            "asc",
            "--page-size",
            "50",
            "--page-token",
            "p2",
            "--format",
            "json"
        ])
    );
}

fn invalid(message: &str) -> FornaxCliError {
    FornaxCliError::InvalidRequest { message: message.to_string() }
}

#[test]
fn trace_reads_check_windows_and_page_sizes() {
    assert_eq!(window_args(&TimeWindow::LastMinutes(15)), Ok(strings(&["--last-n-minutes", "15"])));
    assert_eq!(window_args(&TimeWindow::LastMinutes(0)), Err(invalid("time window must be positive")));
    assert_eq!(
        window_args(&TimeWindow::EpochMillis { start_ms: -5, end_ms: 10 }),
        Ok(strings(&["--start-ms", "-5", "--end-ms", "10"]))
    );
    assert_eq!(
        window_args(&TimeWindow::EpochMillis { start_ms: 10, end_ms: 10 }),
        Err(invalid("epoch window start must precede end"))
    );
    assert_eq!(
        window_args(&TimeWindow::Iso8601 { since: "2024-01-01".to_string(), until: String::new() }),
        Err(invalid("ISO-8601 window requires both bounds"))
    );
    let request = TraceListRequest {
        page_size: 20,
        trace_filter: Some("f".to_string()),
        span_filter: None,
        time_window: TimeWindow::LastMinutes(5),
    };
    assert_eq!(
        trace_list_args(&request),
        Ok(strings(&["trace", "list", "--page-size", "20", "--trace-filter-expr", "f", "--last-n-minutes", "5"]))
    );
    let too_large = TraceListRequest { page_size: 201, ..request };
    assert_eq!(trace_list_args(&too_large), Err(invalid("page size must be between 1 and 200")));
}

#[test]
fn skill_staging_and_prompt_drafts_name_their_inputs() {
    assert_eq!(stage_precheck(&vec![], "/tmp/stage"), Err(invalid("at least one skill key is required")));
    assert_eq!(
        save_draft_args("p1", "/tmp/draft.json"),
        strings(&["prompt", "draft", "save", "--prompt-id", "p1", "--draft-file", "/tmp/draft.json"])
    );
}

#[test]
fn trace_writing_records_digests_and_last_tag_values() {
    assert_eq!(live_delivery_gate(true), Ok(()));
    assert_eq!(live_delivery_gate(false), Err(FornaxBridgeError::LiveDeliveryNotApproved));
    match digest_record(b"abc", "prompt") {
        SpanRecord::Input { value: RecordValue::Json(record) } => {
            assert_eq!(record.get("type"), Some(&JsonValue::Str("digest".to_string())));
            assert_eq!(
                record.get("sha256"),
                Some(&JsonValue::Str(
                    "ba7816bf8f01cfea414140de5dae2223b00361a396177a9cb410ff61f20015ad".to_string()
                ))
            );
            assert_eq!(record.get("byteCount"), Some(&JsonValue::Number(JsonNumber::PosInt(3))));
            assert_eq!(record.get("classification"), Some(&JsonValue::Str("prompt".to_string())));
        }
        other => panic!("unexpected {other:?}"),
    }
    match safe_tags(vec![
        ("a".to_string(), JsonValue::Bool(true)),
        ("b".to_string(), JsonValue::Null),
        ("a".to_string(), JsonValue::Bool(false)),
    ]) {
        SpanRecord::Tags { values } => {
            let tags = JsonValue::Object(values);
            assert_eq!(tags.get("a"), Some(&JsonValue::Bool(false)));
            assert_eq!(tags.get("b"), Some(&JsonValue::Null));
        }
        other => panic!("unexpected {other:?}"),
    }
}
