//! Plain values of the local Fornax bridge protocol.
use vstd::prelude::*;

use crate::json::JsonValue;
use crate::text::owned;

verus! {

/// Protocol revision spoken with the bridge.
pub const FORNAX_BRIDGE_PROTOCOL: u32 = 2;

/// Bridge build spoken with.
pub open spec fn spec_bridge_version() -> Seq<char> {
    "0.2.0"@
}

/// Fornax SDK build the bridge must embed.
pub open spec fn spec_sdk_version() -> Seq<char> {
    "1.0.46"@
}

pub fn fornax_bridge_version() -> (r: &'static str)
    ensures
        r@ == spec_bridge_version(),
{
    "0.2.0"
}

pub fn fornax_sdk_version() -> (r: &'static str)
    ensures
        r@ == spec_sdk_version(),
{
    "1.0.46"
}

/// Fornax span kinds.
#[derive(Clone, Copy, Debug, PartialEq, Eq, Structural)]
pub enum SpanType {
    Root,
    Prompt,
    Model,
    Agent,
    Tool,
    Retriever,
}

/// How a record's value is carried: plain text, plain text that is the JSON
/// text of a value (written out where the record is sent), or JSON.
#[derive(Debug, PartialEq)]
pub enum RecordValue {
    PlainText(String),
    PlainTextJson(JsonValue),
    Json(JsonValue),
}

/// One record appended to a live span.
#[derive(Debug, PartialEq)]
pub enum SpanRecord {
    Tags { values: Vec<(String, JsonValue)> },
    Baggage { values: Vec<(String, String)> },
    Input { value: RecordValue },
    Output { value: RecordValue },
    /// Unix time in milliseconds.
    FinishTime { unix_millis: u64 },
}

#[derive(Clone, Copy, Debug, PartialEq, Eq, Structural)]
pub enum RecordKind {
    Tags,
    Baggage,
    Input,
    Output,
    FinishTime,
}

#[derive(Clone, Copy, Debug, PartialEq, Eq, Structural)]
pub enum SpanState {
    Live,
    Finished,
    Orphaned,
}

#[derive(Clone, Copy, Debug, PartialEq, Eq, Structural)]
pub enum OperationState {
    NotDispatched,
    Queued,
    Running,
    Succeeded,
    Failed,
    Ambiguous,
}

/// Where a new span hangs: a new trace, a live span, or a persisted trace context.
#[derive(Clone, Copy, Debug, PartialEq, Eq, Structural)]
pub enum SpanParent {
    NewTrace,
    LiveSpan { span_handle_id: u128 },
    PersistedContext { trace_context_id: u128 },
}

/// Starts a span under an operation id.
#[derive(Clone, Debug, PartialEq, Eq)]
pub struct StartSpanRequest {
    pub operation_id: u128,
    pub name: String,
    pub span_type: SpanType,
    pub parent: SpanParent,
}

/// Appends one record to a live span.
#[derive(Debug, PartialEq)]
pub struct RecordSpanRequest {
    pub operation_id: u128,
    pub record: SpanRecord,
}

/// Finishes a live span.
#[derive(Clone, Copy, Debug, PartialEq, Eq, Structural)]
pub struct FinishSpanRequest {
    pub operation_id: u128,
}

/// What the bridge knows of one span.
#[derive(Clone, Debug, PartialEq, Eq)]
pub struct SpanStatus {
    pub span_handle_id: u128,
    pub trace_context_id: u128,
    pub trace_id: String,
    pub span_id: String,
    pub w3c: String,
    pub instance_id: String,
    pub state: SpanState,
    pub created_at_ms: u64,
    pub finished_at_ms: Option<u64>,
}

/// What the bridge knows of one mutation.
#[derive(Debug, PartialEq)]
pub struct OperationStatus {
    pub operation_id: u128,
    pub route: String,
    pub request_hash: String,
    pub state: OperationState,
    pub error_code: Option<String>,
    pub instance_id: String,
    pub created_at_ms: u64,
    pub updated_at_ms: u64,
    pub response: Option<JsonValue>,
}

/// The bridge's answer to starting a span.
#[derive(Clone, Debug, PartialEq, Eq)]
pub struct StartedSpan {
    pub protocol_version: u32,
    pub operation_id: u128,
    pub span_handle_id: u128,
    pub trace_context_id: u128,
    pub trace_id: String,
    pub span_id: String,
    pub w3c: String,
}

/// The bridge's answer to recording on a span.
#[derive(Clone, Debug, PartialEq, Eq)]
pub struct RecordedSpan {
    pub protocol_version: u32,
    pub operation_id: u128,
    pub span_handle_id: u128,
    pub recorded: RecordKind,
    pub trace_context_id: Option<u128>,
}

/// The bridge's answer to finishing a span.
#[derive(Clone, Debug, PartialEq, Eq)]
pub struct FinishedSpan {
    pub protocol_version: u32,
    pub operation_id: u128,
    pub span_handle_id: u128,
    pub trace_context_id: u128,
    pub trace_id: String,
    pub span_id: String,
    pub w3c: String,
    pub state: SpanState,
}

#[derive(Clone, Debug, PartialEq, Eq)]
pub struct BridgeHealth {
    pub bridge_version: String,
    pub protocol_version: u32,
    pub sdk_version: String,
    pub instance_id: String,
    pub status: HealthState,
    pub queue_depth: u32,
    pub active_span_count: u32,
    pub orphaned_span_count: u32,
}

#[derive(Clone, Copy, Debug, PartialEq, Eq, Structural)]
pub enum HealthState {
    Ready,
    Draining,
}

/// Whether the bridge says a failed request may be sent again.
#[derive(Clone, Copy, Debug, PartialEq, Eq, Structural)]
pub enum RetryDisposition {
    Safe,
    AfterStatusCheck,
    Never,
}

pub fn record_kind(record: &SpanRecord) -> (r: RecordKind)
    ensures
        r == (match *record {
            SpanRecord::Tags { .. } => RecordKind::Tags,
            SpanRecord::Baggage { .. } => RecordKind::Baggage,
            SpanRecord::Input { .. } => RecordKind::Input,
            SpanRecord::Output { .. } => RecordKind::Output,
            SpanRecord::FinishTime { .. } => RecordKind::FinishTime,
        }),
{
    match record {
        SpanRecord::Tags { .. } => RecordKind::Tags,
        SpanRecord::Baggage { .. } => RecordKind::Baggage,
        SpanRecord::Input { .. } => RecordKind::Input,
        SpanRecord::Output { .. } => RecordKind::Output,
        SpanRecord::FinishTime { .. } => RecordKind::FinishTime,
    }
}

/// The envelope of a record value sent to the bridge: `{"classification":
/// "nonSensitive", "policyGrant": true, "type": kind, "value": value}`.
pub open spec fn spec_envelope_is(r: JsonValue, kind: Seq<char>, value: JsonValue) -> bool {
    r matches JsonValue::Object(m) && m@.len() == 4 && m@[0].0@ == "classification"@ && (m@[0].1 matches JsonValue::Str(
        c,
    ) && c@ == "nonSensitive"@) && m@[1].0@ == "policyGrant"@ && m@[1].1 == JsonValue::Bool(true) && m@[2].0@
        == "type"@ && (m@[2].1 matches JsonValue::Str(t) && t@ == kind) && m@[3].0@ == "value"@ && m@[3].1 == value
}

fn envelope(kind: &str, value: JsonValue) -> (r: JsonValue)
    ensures
        spec_envelope_is(r, kind@, value),
{
    let mut m: Vec<(String, JsonValue)> = Vec::new();
    m.push((owned("classification"), JsonValue::Str(owned("nonSensitive"))));
    m.push((owned("policyGrant"), JsonValue::Bool(true)));
    m.push((owned("type"), JsonValue::Str(owned(kind))));
    m.push((owned("value"), value));
    JsonValue::Object(m)
}

/// A plain-text record value in its envelope.
pub fn plain_text_record(text: String) -> (r: JsonValue)
    ensures
        spec_envelope_is(r, "plainText"@, JsonValue::Str(text)),
{
    envelope("plainText", JsonValue::Str(text))
}

/// A JSON record value in its envelope.
pub fn json_record(value: JsonValue) -> (r: JsonValue)
    ensures
        spec_envelope_is(r, "json"@, value),
{
    envelope("json", value)
}

} // verus!
