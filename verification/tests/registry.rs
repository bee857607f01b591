use codex_workflow::json::JsonValue;
use codex_workflow::registry::capture_metadata;
use codex_workflow::registry::validate_schema;
use codex_workflow::registry::CapturedInterface;
use codex_workflow::registry::RegistryError;
use codex_workflow::registry::WorkflowCheckpoint;
use codex_workflow::registry::WorkflowError;
use codex_workflow::registry::WorkflowMetadata;
use codex_workflow::registry::WorkflowRegistryBuilder;
use codex_workflow::registry::WorkflowStability;
use codex_workflow::registry::WorkflowVersion;

fn v(major: u64, minor: u64, patch: u64) -> WorkflowVersion {
    WorkflowVersion { major, minor, patch }
}

fn meta(name: &str, version: WorkflowVersion, is_default: bool) -> WorkflowMetadata {
    WorkflowMetadata {
        name: name.to_string(),
        version,
        description: format!("{name} workflow"),
        is_default,
        stability: WorkflowStability::Stable,
    }
}

fn object(members: Vec<(&str, JsonValue)>) -> JsonValue {
    JsonValue::Object(members.into_iter().map(|(k, v)| (k.to_string(), v)).collect())
}

fn captured() -> CapturedInterface {
    CapturedInterface {
        state_schema_version: 1,
        argv_help: "help".to_string(),
        argument_schema: object(vec![("type", JsonValue::Str("object".to_string()))]),
        output_schema: object(vec![]),
    }
}

#[test]
fn registry_orders_by_name_then_version_and_resolves_defaults() {
    let mut builder = WorkflowRegistryBuilder::new();
    builder.register(meta("review", v(2, 0, 0), false), captured()).unwrap();
    builder.register(meta("review", v(1, 10, 0), true), captured()).unwrap();
    builder.register(meta("deploy", v(1, 0, 0), true), captured()).unwrap();
    builder.register(meta("review", v(1, 2, 0), false), captured()).unwrap();
    let registry = builder.build().unwrap();
    let keys: Vec<(String, WorkflowVersion)> = registry
        .definitions()
        .iter()
        .map(|d| (d.name().to_string(), d.version()))
        .collect();
    assert_eq!(
        keys,
        vec![
            ("deploy".to_string(), v(1, 0, 0)),
            ("review".to_string(), v(1, 2, 0)),
            ("review".to_string(), v(1, 10, 0)),
            ("review".to_string(), v(2, 0, 0)),
        ]
    );
    let default = registry.resolve("review", None).unwrap();
    assert_eq!(default.version(), v(1, 10, 0));
    assert!(default.is_default());
    let pinned = registry.resolve("review", Some(v(2, 0, 0))).unwrap();
    assert_eq!(pinned.version(), v(2, 0, 0));
    assert!(!pinned.is_default());
    assert_eq!(pinned.description(), "review workflow");
    assert_eq!(pinned.state_schema_version(), 1);
}

#[test]
fn registry_reports_unknown_names_and_versions() {
    let mut builder = WorkflowRegistryBuilder::new();
    builder.register(meta("review", v(1, 0, 0), true), captured()).unwrap();
    let registry = builder.build().unwrap();
    assert_eq!(
        registry.resolve("missing", None).unwrap_err(),
        RegistryError::UnknownWorkflow { name: "missing".to_string() }
    );
    assert_eq!(
        registry.resolve("missing", Some(v(1, 0, 0))).unwrap_err(),
        RegistryError::UnknownWorkflow { name: "missing".to_string() }
    );
    assert_eq!(
        registry.resolve("review", Some(v(9, 9, 9))).unwrap_err(),
        RegistryError::UnknownVersion { name: "review".to_string(), version: v(9, 9, 9) }
    );
}

#[test]
fn registry_refuses_duplicates_and_missing_defaults() {
    let mut builder = WorkflowRegistryBuilder::new();
    builder.register(meta("review", v(1, 0, 0), true), captured()).unwrap();
    assert_eq!(
        builder.register(meta("review", v(1, 0, 0), false), captured()).unwrap_err(),
        RegistryError::DuplicateVersion { name: "review".to_string(), version: v(1, 0, 0) }
    );
    assert_eq!(
        builder.register(meta("review", v(2, 0, 0), true), captured()).unwrap_err(),
        RegistryError::DuplicateDefault { name: "review".to_string() }
    );
    builder.register(meta("other", v(1, 0, 0), false), captured()).unwrap();
    assert_eq!(
        builder.build().err(),
        Some(RegistryError::MissingDefault { name: "other".to_string() })
    );
}

#[test]
fn registry_refuses_invalid_interfaces() {
    let mut builder = WorkflowRegistryBuilder::new();
    let mut blank = meta("blank", v(1, 0, 0), true);
    blank.description = "   ".to_string();
    assert_eq!(
        builder.register(blank, captured()).unwrap_err(),
        RegistryError::InvalidDescription { name: "blank".to_string(), version: v(1, 0, 0) }
    );
    let mut long = meta("long", v(1, 0, 0), true);
    long.description = "x".repeat(1025);
    assert!(matches!(
        builder.register(long, captured()).unwrap_err(),
        RegistryError::InvalidDescription { .. }
    ));
    let mut zero = captured();
    zero.state_schema_version = 0;
    assert_eq!(
        builder.register(meta("zero", v(1, 0, 0), true), zero).unwrap_err(),
        RegistryError::InvalidStateVersion { name: "zero".to_string(), version: v(1, 0, 0) }
    );
    let mut bad_args = captured();
    bad_args.argument_schema = JsonValue::Bool(true);
    assert_eq!(
        builder.register(meta("args", v(1, 0, 0), true), bad_args).unwrap_err(),
        RegistryError::InvalidSchema {
            name: "args".to_string(),
            version: v(1, 0, 0),
            target: "arguments",
            message: "root schema is not an object".to_string(),
        }
    );
    let mut bad_output = captured();
    bad_output.output_schema = object(vec![("$ref", JsonValue::Str("#/definitions/Missing".to_string()))]);
    assert_eq!(
        builder.register(meta("out", v(1, 0, 0), true), bad_output).unwrap_err(),
        RegistryError::InvalidSchema {
            name: "out".to_string(),
            version: v(1, 0, 0),
            target: "output",
            message: "unresolved local reference #/definitions/Missing".to_string(),
        }
    );
}

#[test]
fn schema_references_must_resolve_in_definitions() {
    let resolved = object(vec![
        (
            "properties",
            object(vec![("a", object(vec![("$ref", JsonValue::Str("#/definitions/A".to_string()))]))]),
        ),
        ("definitions", object(vec![("A", object(vec![]))])),
    ]);
    assert_eq!(validate_schema(&resolved), Ok(()));
    let dangling = object(vec![(
        "items",
        JsonValue::Array(vec![object(vec![("$ref", JsonValue::Str("#/definitions/B".to_string()))])]),
    )]);
    assert_eq!(
        validate_schema(&dangling),
        Err("unresolved local reference #/definitions/B".to_string())
    );
    let external = object(vec![("$ref", JsonValue::Str("https://example.com/s".to_string()))]);
    assert_eq!(validate_schema(&external), Ok(()));
    assert_eq!(
        validate_schema(&JsonValue::Null),
        Err("root schema is not an object".to_string())
    );
}

#[test]
fn checkpoints_resume_only_under_the_registered_schema_version() {
    let definition = capture_metadata(meta("review", v(1, 0, 0), true), captured()).unwrap();
    let current = WorkflowCheckpoint::new(1, JsonValue::Bool(true));
    assert_eq!(definition.validate_checkpoint(&current), Ok(()));
    let stale = WorkflowCheckpoint::new(2, JsonValue::Null);
    assert_eq!(
        definition.validate_checkpoint(&stale),
        Err(WorkflowError::UnsupportedStateVersion { expected: 1, actual: 2 })
    );
    assert_eq!(current.state_schema_version(), 1);
    assert_eq!(current.state(), &JsonValue::Bool(true));
    assert_eq!(current.into_state(1), Ok(JsonValue::Bool(true)));
    assert_eq!(
        stale.into_state(1),
        Err(WorkflowError::UnsupportedStateVersion { expected: 1, actual: 2 })
    );
}
