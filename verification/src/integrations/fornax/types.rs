//! Request and record types of the pinned `fornax-cli` profile.
use vstd::prelude::*;

use crate::json::JsonValue;

verus! {

/// Explicit prompt identity and revision selection.
#[derive(Clone, Debug, PartialEq, Eq)]
pub enum PromptLookup {
    Key { key: String, version: Option<String>, with_draft: bool, commit_version: Option<String> },
    Id { prompt_id: String, with_draft: bool, commit_version: Option<String> },
}

/// One rendered prompt message.
#[derive(Clone, Debug, PartialEq, Eq)]
pub struct FornaxPromptMessage {
    pub role: String,
    pub content: String,
}

/// Skill lookup by one id, several ids, or several keys.
#[derive(Clone, Debug, PartialEq, Eq)]
pub enum SkillLookup {
    Id { skill_id: String, version: Option<String> },
    Ids { ids: Vec<String>, version: Option<String> },
    Keys { keys: Vec<String>, version: Option<String> },
}

/// The time range a trace query covers.
#[derive(Clone, Debug, PartialEq, Eq)]
pub enum TimeWindow {
    LastMinutes(u64),
    Iso8601 { since: String, until: String },
    EpochMillis { start_ms: i64, end_ms: i64 },
}

#[derive(Clone, Debug, PartialEq, Eq)]
pub struct TraceGetRequest {
    pub lookup: TraceLookup,
    pub span_ids: Vec<String>,
    pub time_window: Option<TimeWindow>,
    pub tree: bool,
}

#[derive(Clone, Debug, PartialEq, Eq)]
pub enum TraceLookup {
    TraceId(String),
    LogId(String),
}

#[derive(Clone, Debug, PartialEq, Eq)]
pub struct TraceListRequest {
    pub page_size: u32,
    pub trace_filter: Option<String>,
    pub span_filter: Option<String>,
    pub time_window: TimeWindow,
}

#[derive(Clone, Debug, PartialEq, Eq)]
pub struct SpanListRequest {
    pub page_size: u32,
    pub page_token: Option<String>,
    pub span_filter: Option<String>,
    pub time_window: TimeWindow,
}

#[derive(Clone, Debug, PartialEq, Eq)]
pub enum TrajectoryLookup {
    TraceIds(Vec<String>),
    ExperimentId(String),
    LogId(String),
}

/// Prompt metadata; the provider's other members are kept in order.
#[derive(Debug, PartialEq)]
pub struct FornaxPrompt {
    pub prompt_id: String,
    pub key: Option<String>,
    pub name: Option<String>,
    pub version: Option<String>,
    pub draft: Option<JsonValue>,
    pub commit: Option<JsonValue>,
    pub extra: Vec<(String, JsonValue)>,
}

/// Skill metadata; the provider's other members are kept in order.
#[derive(Debug, PartialEq)]
pub struct FornaxSkill {
    pub skill_id: Option<String>,
    pub skill_key: String,
    pub name: Option<String>,
    pub version: Option<String>,
    pub extra: Vec<(String, JsonValue)>,
}

/// One trace or span record with its correlation fields.
#[derive(Debug, PartialEq)]
pub struct FornaxSpan {
    pub trace_id: String,
    pub span_id: String,
    pub parent_span_id: Option<String>,
    pub span_name: Option<String>,
    pub span_type: Option<String>,
    pub extra: Vec<(String, JsonValue)>,
}

/// The spans a trace read returned.
#[derive(Debug, PartialEq)]
pub struct TracePage {
    pub spans: Vec<FornaxSpan>,
}

/// One page of the span index.
#[derive(Debug, PartialEq)]
pub struct SpanPage {
    pub spans: Vec<FornaxSpan>,
    pub next_page_token: Option<String>,
}

/// A provider trajectory, by the trace it belongs to where it names one.
#[derive(Debug, PartialEq)]
pub struct FornaxTrajectory {
    pub trace_id: Option<String>,
    pub detail: Vec<(String, JsonValue)>,
}

} // verus!
