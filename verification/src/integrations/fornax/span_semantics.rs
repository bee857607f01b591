//! Typed Fornax span semantics: which fields each span kind needs, their
//! bounds, and the tag, input and output records a span produces.
use vstd::prelude::*;

use crate::integrations::fornax::bridge_protocol::RecordValue;
use crate::integrations::fornax::bridge_protocol::SpanRecord;
use crate::integrations::fornax::bridge_protocol::SpanType;
use crate::json::JsonNumber;
use crate::json::JsonValue;
use crate::text::chars_of;
use crate::text::owned;
use crate::text::str_eq;
use vstd::string::StrSliceExecFns;

verus! {

/// Longest text carried in one span field, in bytes.
pub const MAX_TRACE_TEXT_BYTES: usize = 65536;

#[derive(Clone, Debug, PartialEq, Eq)]
pub struct TraceContent {
    pub content_type: String,
    pub text: String,
}

#[derive(Clone, Debug, PartialEq, Eq)]
pub struct TraceMessage {
    pub role: String,
    pub content: String,
}

#[derive(Clone, Debug, PartialEq, Eq)]
pub struct TracePromptArgument {
    pub key: String,
    pub value: String,
    pub source: TracePromptArgumentSource,
}

#[derive(Clone, Copy, Debug, PartialEq, Eq, Structural)]
pub enum TracePromptArgumentSource {
    Input,
    Partial,
}

#[derive(Clone, Debug, PartialEq, Eq)]
pub enum FornaxSpanInput {
    Root { contents: Vec<TraceContent> },
    Prompt {
        prompt_provider: String,
        prompt_key: String,
        prompt_version: String,
        templates: Vec<TraceMessage>,
        arguments: Vec<TracePromptArgument>,
    },
    Model { model_provider: String, model_name: String, messages: Vec<TraceMessage> },
    Tool { tool_name: String, input: String },
    Agent { agent_name: String, agent_run_id: String, input: String },
    Retriever { retriever_provider: String, query: String },
}

#[derive(Debug, PartialEq)]
pub enum FornaxSpanOutput {
    Root { contents: Vec<TraceContent> },
    Prompt { prompts: Vec<TraceMessage> },
    Model { choices: Vec<TraceMessage> },
    Tool { output: JsonValue },
    Agent { output: String },
    Retriever { documents: Vec<JsonValue> },
}

#[derive(Clone, Debug, PartialEq, Eq)]
pub enum FornaxSpanSemanticError {
    InvalidField(&'static str),
    ErrorOnSuccess,
    MissingError,
    Serialization,
}

// ---------------------------------------------------------------- field checks

/// A span text is non-empty, at most 64 KiB of UTF-8, and has no NUL.
pub open spec fn spec_text_ok(value: Seq<char>) -> bool {
    value.len() > 0 && vstd::utf8::encode_utf8(value).len() <= MAX_TRACE_TEXT_BYTES && !value.contains(
        '\0',
    )
}

fn text_ok(value: &str) -> (r: bool)
    ensures
        r == spec_text_ok(value@),
{
    let cs = chars_of(value);
    if cs.len() == 0 || value.as_bytes_vec().len() > MAX_TRACE_TEXT_BYTES {
        return false;
    }
    let mut i: usize = 0;
    while i < cs.len()
        invariant
            i <= cs.len(),
            cs@ == value@,
            forall|j: int| 0 <= j < i ==> cs@[j] != '\0',
        decreases cs.len() - i,
    {
        if cs[i] == '\0' {
            assert(value@.contains('\0')) by {
                assert(value@[i as int] == '\0');
            }
            return false;
        }
        i += 1;
    }
    true
}

fn checked(name: &'static str, value: &str) -> (r: Result<(), FornaxSpanSemanticError>)
    ensures
        spec_text_ok(value@) ==> r is Ok,
        !spec_text_ok(value@) ==> r == Err::<(), FornaxSpanSemanticError>(FornaxSpanSemanticError::InvalidField(name)),
{
    if !text_ok(value) {
        return Err(FornaxSpanSemanticError::InvalidField(name));
    }
    Ok(())
}

/// The first message field that fails, by name: `messages` when there are none.
pub open spec fn spec_messages_fault(ms: Seq<TraceMessage>) -> Option<Seq<char>> {
    if ms.len() == 0 {
        Some("messages"@)
    } else {
        spec_messages_fault_from(ms, 0)
    }
}

pub open spec fn spec_messages_fault_from(ms: Seq<TraceMessage>, i: int) -> Option<Seq<char>>
    decreases ms.len() - i,
{
    if i < 0 || i >= ms.len() {
        None
    } else if !spec_text_ok(ms[i].role@) {
        Some("message.role"@)
    } else if !spec_text_ok(ms[i].content@) {
        Some("message.content"@)
    } else {
        spec_messages_fault_from(ms, i + 1)
    }
}

fn checked_messages(ms: &Vec<TraceMessage>) -> (r: Result<(), FornaxSpanSemanticError>)
    ensures
        match spec_messages_fault(ms@) {
            None => r is Ok,
            Some(name) => r matches Err(FornaxSpanSemanticError::InvalidField(n)) && n@ == name,
        },
{
    proof {
        reveal_strlit("messages");
        reveal_strlit("message.role");
        reveal_strlit("message.content");
    }
    if ms.len() == 0 {
        return Err(FornaxSpanSemanticError::InvalidField("messages"));
    }
    let mut i: usize = 0;
    while i < ms.len()
        invariant
            i <= ms.len(),
            ms@.len() > 0,
            spec_messages_fault(ms@) == spec_messages_fault_from(ms@, i as int),
        decreases ms.len() - i,
    {
        checked("message.role", ms[i].role.as_str())?;
        checked("message.content", ms[i].content.as_str())?;
        i += 1;
    }
    Ok(())
}

/// The first content field that fails: `contents` when there are none,
/// `content_type` unless it is `text`.
pub open spec fn spec_contents_fault(cs: Seq<TraceContent>) -> Option<Seq<char>> {
    if cs.len() == 0 {
        Some("contents"@)
    } else {
        spec_contents_fault_from(cs, 0)
    }
}

pub open spec fn spec_contents_fault_from(cs: Seq<TraceContent>, i: int) -> Option<Seq<char>>
    decreases cs.len() - i,
{
    if i < 0 || i >= cs.len() {
        None
    } else if cs[i].content_type@ != "text"@ {
        Some("content_type"@)
    } else if !spec_text_ok(cs[i].text@) {
        Some("content.text"@)
    } else {
        spec_contents_fault_from(cs, i + 1)
    }
}

fn checked_contents(cs: &Vec<TraceContent>) -> (r: Result<(), FornaxSpanSemanticError>)
    ensures
        match spec_contents_fault(cs@) {
            None => r is Ok,
            Some(name) => r matches Err(FornaxSpanSemanticError::InvalidField(n)) && n@ == name,
        },
{
    proof {
        reveal_strlit("contents");
        reveal_strlit("content_type");
        reveal_strlit("content.text");
    }
    if cs.len() == 0 {
        return Err(FornaxSpanSemanticError::InvalidField("contents"));
    }
    let mut i: usize = 0;
    while i < cs.len()
        invariant
            i <= cs.len(),
            cs@.len() > 0,
            spec_contents_fault(cs@) == spec_contents_fault_from(cs@, i as int),
        decreases cs.len() - i,
    {
        if !str_eq(cs[i].content_type.as_str(), "text") {
            return Err(FornaxSpanSemanticError::InvalidField("content_type"));
        }
        checked("content.text", cs[i].text.as_str())?;
        i += 1;
    }
    Ok(())
}

pub open spec fn spec_arguments_fault_from(args: Seq<TracePromptArgument>, i: int) -> Option<Seq<char>>
    decreases args.len() - i,
{
    if i < 0 || i >= args.len() {
        None
    } else if !spec_text_ok(args[i].key@) {
        Some("argument.key"@)
    } else if !spec_text_ok(args[i].value@) {
        Some("argument.value"@)
    } else {
        spec_arguments_fault_from(args, i + 1)
    }
}

fn checked_arguments(args: &Vec<TracePromptArgument>) -> (r: Result<(), FornaxSpanSemanticError>)
    ensures
        match (if args@.len() == 0 { Some("arguments"@) } else { spec_arguments_fault_from(args@, 0) }) {
            None => r is Ok,
            Some(name) => r matches Err(FornaxSpanSemanticError::InvalidField(n)) && n@ == name,
        },
{
    proof {
        reveal_strlit("arguments");
        reveal_strlit("argument.key");
        reveal_strlit("argument.value");
    }
    if args.len() == 0 {
        return Err(FornaxSpanSemanticError::InvalidField("arguments"));
    }
    let mut i: usize = 0;
    while i < args.len()
        invariant
            i <= args.len(),
            spec_arguments_fault_from(args@, 0) == spec_arguments_fault_from(args@, i as int),
        decreases args.len() - i,
    {
        checked("argument.key", args[i].key.as_str())?;
        checked("argument.value", args[i].value.as_str())?;
        i += 1;
    }
    Ok(())
}

// ---------------------------------------------------------------- payloads

fn str_value(s: &str) -> (r: JsonValue)
    ensures
        r matches JsonValue::Str(x) && x@ == s@,
{
    JsonValue::Str(owned(s))
}

fn member(key: &str, value: JsonValue) -> (r: (String, JsonValue))
    ensures
        r.0@ == key@,
        r.1 == value,
{
    (owned(key), value)
}

/// `v` is the object `{"content_type": …, "text": …}` of `c`.
pub open spec fn spec_content_json(v: JsonValue, c: TraceContent) -> bool {
    v matches JsonValue::Object(m) && m@.len() == 2 && m@[0].0@ == "content_type"@ && spec_str_is(
        m@[0].1,
        c.content_type@,
    ) && m@[1].0@ == "text"@ && spec_str_is(m@[1].1, c.text@)
}

/// `v` is the object `{"content": …, "role": …}` of `msg`.
pub open spec fn spec_message_json(v: JsonValue, msg: TraceMessage) -> bool {
    v matches JsonValue::Object(m) && m@.len() == 2 && m@[0].0@ == "content"@ && spec_str_is(m@[0].1, msg.content@)
        && m@[1].0@ == "role"@ && spec_str_is(m@[1].1, msg.role@)
}

pub open spec fn spec_source_name(s: TracePromptArgumentSource) -> Seq<char> {
    match s {
        TracePromptArgumentSource::Input => "input"@,
        TracePromptArgumentSource::Partial => "partial"@,
    }
}

/// `v` is the object `{"key": …, "source": …, "value": …}` of `a`.
pub open spec fn spec_argument_json(v: JsonValue, a: TracePromptArgument) -> bool {
    v matches JsonValue::Object(m) && m@.len() == 3 && m@[0].0@ == "key"@ && spec_str_is(m@[0].1, a.key@)
        && m@[1].0@ == "source"@ && spec_str_is(m@[1].1, spec_source_name(a.source)) && m@[2].0@ == "value"@
        && spec_str_is(m@[2].1, a.value@)
}

/// `v` is the array of the contents' objects, in order.
pub open spec fn spec_contents_json(v: JsonValue, cs: Seq<TraceContent>) -> bool {
    v matches JsonValue::Array(a) && a@.len() == cs.len() && forall|i: int|
        0 <= i < cs.len() ==> spec_content_json(#[trigger] a@[i], cs[i])
}

/// `v` is the array of the messages' objects, in order.
pub open spec fn spec_messages_json(v: JsonValue, ms: Seq<TraceMessage>) -> bool {
    v matches JsonValue::Array(a) && a@.len() == ms.len() && forall|i: int|
        0 <= i < ms.len() ==> spec_message_json(#[trigger] a@[i], ms[i])
}

/// `v` is the array of the arguments' objects, in order.
pub open spec fn spec_arguments_json(v: JsonValue, args: Seq<TracePromptArgument>) -> bool {
    v matches JsonValue::Array(a) && a@.len() == args.len() && forall|i: int|
        0 <= i < args.len() ==> spec_argument_json(#[trigger] a@[i], args[i])
}

fn contents_json(cs: &Vec<TraceContent>) -> (r: JsonValue)
    ensures
        spec_contents_json(r, cs@),
{
    proof {
        reveal_strlit("content_type");
        reveal_strlit("text");
    }
    let mut items: Vec<JsonValue> = Vec::new();
    let mut i: usize = 0;
    while i < cs.len()
        invariant
            i <= cs.len(),
            items@.len() == i,
            forall|j: int| 0 <= j < i ==> spec_content_json(#[trigger] items@[j], cs@[j]),
        decreases cs.len() - i,
    {
        let mut m: Vec<(String, JsonValue)> = Vec::new();
        m.push(member("content_type", str_value(cs[i].content_type.as_str())));
        m.push(member("text", str_value(cs[i].text.as_str())));
        items.push(JsonValue::Object(m));
        i += 1;
    }
    JsonValue::Array(items)
}

fn messages_json(ms: &Vec<TraceMessage>) -> (r: JsonValue)
    ensures
        spec_messages_json(r, ms@),
{
    proof {
        reveal_strlit("content");
        reveal_strlit("role");
    }
    let mut items: Vec<JsonValue> = Vec::new();
    let mut i: usize = 0;
    while i < ms.len()
        invariant
            i <= ms.len(),
            items@.len() == i,
            forall|j: int| 0 <= j < i ==> spec_message_json(#[trigger] items@[j], ms@[j]),
        decreases ms.len() - i,
    {
        let mut m: Vec<(String, JsonValue)> = Vec::new();
        m.push(member("content", str_value(ms[i].content.as_str())));
        m.push(member("role", str_value(ms[i].role.as_str())));
        items.push(JsonValue::Object(m));
        i += 1;
    }
    JsonValue::Array(items)
}

fn arguments_json(args: &Vec<TracePromptArgument>) -> (r: JsonValue)
    ensures
        spec_arguments_json(r, args@),
{
    proof {
        reveal_strlit("key");
        reveal_strlit("source");
        reveal_strlit("value");
        reveal_strlit("input");
        reveal_strlit("partial");
    }
    let mut items: Vec<JsonValue> = Vec::new();
    let mut i: usize = 0;
    while i < args.len()
        invariant
            i <= args.len(),
            items@.len() == i,
            forall|j: int| 0 <= j < i ==> spec_argument_json(#[trigger] items@[j], args@[j]),
        decreases args.len() - i,
    {
        let source = match args[i].source {
            TracePromptArgumentSource::Input => "input",
            TracePromptArgumentSource::Partial => "partial",
        };
        let mut m: Vec<(String, JsonValue)> = Vec::new();
        m.push(member("key", str_value(args[i].key.as_str())));
        m.push(member("source", str_value(source)));
        m.push(member("value", str_value(args[i].value.as_str())));
        items.push(JsonValue::Object(m));
        i += 1;
    }
    JsonValue::Array(items)
}

fn object1(key: &str, value: JsonValue) -> (r: JsonValue)
    ensures
        r matches JsonValue::Object(m) && m@.len() == 1 && m@[0].0@ == key@ && m@[0].1 == value,
{
    let mut m: Vec<(String, JsonValue)> = Vec::new();
    m.push(member(key, value));
    JsonValue::Object(m)
}

// ---------------------------------------------------------------- span kinds

pub open spec fn spec_input_type(input: FornaxSpanInput) -> SpanType {
    match input {
        FornaxSpanInput::Root { .. } => SpanType::Root,
        FornaxSpanInput::Prompt { .. } => SpanType::Prompt,
        FornaxSpanInput::Model { .. } => SpanType::Model,
        FornaxSpanInput::Tool { .. } => SpanType::Tool,
        FornaxSpanInput::Agent { .. } => SpanType::Agent,
        FornaxSpanInput::Retriever { .. } => SpanType::Retriever,
    }
}

impl FornaxSpanInput {
    pub fn span_type(&self) -> (r: SpanType)
        ensures
            r == spec_input_type(*self),
    {
        match self {
            FornaxSpanInput::Root { .. } => SpanType::Root,
            FornaxSpanInput::Prompt { .. } => SpanType::Prompt,
            FornaxSpanInput::Model { .. } => SpanType::Model,
            FornaxSpanInput::Tool { .. } => SpanType::Tool,
            FornaxSpanInput::Agent { .. } => SpanType::Agent,
            FornaxSpanInput::Retriever { .. } => SpanType::Retriever,
        }
    }
}

/// The first field of a span input that fails its checks, by name.
pub open spec fn spec_input_fault(input: FornaxSpanInput) -> Option<Seq<char>> {
    match input {
        FornaxSpanInput::Root { contents } => spec_contents_fault(contents@),
        FornaxSpanInput::Prompt { prompt_provider, prompt_key, prompt_version, templates, arguments } => if !spec_text_ok(
            prompt_provider@,
        ) {
            Some("prompt_provider"@)
        } else if !spec_text_ok(prompt_key@) {
            Some("prompt_key"@)
        } else if !spec_text_ok(prompt_version@) {
            Some("prompt_version"@)
        } else if spec_messages_fault(templates@) is Some {
            spec_messages_fault(templates@)
        } else if arguments@.len() == 0 {
            Some("arguments"@)
        } else {
            spec_arguments_fault_from(arguments@, 0)
        },
        FornaxSpanInput::Model { model_provider, model_name, messages } => if !spec_text_ok(model_provider@) {
            Some("model_provider"@)
        } else if !spec_text_ok(model_name@) {
            Some("model_name"@)
        } else {
            spec_messages_fault(messages@)
        },
        FornaxSpanInput::Tool { tool_name, input } => if !spec_text_ok(tool_name@) {
            Some("tool_name"@)
        } else if !spec_text_ok(input@) {
            Some("input"@)
        } else {
            None
        },
        FornaxSpanInput::Agent { agent_name, agent_run_id, input } => if !spec_text_ok(agent_name@) {
            Some("agent_name"@)
        } else if !spec_text_ok(agent_run_id@) {
            Some("agent_run_id"@)
        } else if !spec_text_ok(input@) {
            Some("input"@)
        } else {
            None
        },
        FornaxSpanInput::Retriever { retriever_provider, query } => if !spec_text_ok(retriever_provider@) {
            Some("retriever_provider"@)
        } else if !spec_text_ok(query@) {
            Some("query"@)
        } else {
            None
        },
    }
}

/// The tags a span input carries, in key order.
pub open spec fn spec_input_tags(input: FornaxSpanInput) -> Seq<(Seq<char>, Seq<char>)> {
    match input {
        FornaxSpanInput::Root { .. } => Seq::empty(),
        FornaxSpanInput::Prompt { prompt_provider, prompt_key, prompt_version, .. } => seq![
            ("prompt_key"@, prompt_key@),
            ("prompt_provider"@, prompt_provider@),
            ("prompt_version"@, prompt_version@),
        ],
        FornaxSpanInput::Model { model_provider, model_name, .. } => seq![
            ("model_name"@, model_name@),
            ("model_provider"@, model_provider@),
        ],
        FornaxSpanInput::Tool { tool_name, .. } => seq![("tool_name"@, tool_name@)],
        FornaxSpanInput::Agent { agent_name, agent_run_id, .. } => seq![
            ("agent_name"@, agent_name@),
            ("agent_run_id"@, agent_run_id@),
        ],
        FornaxSpanInput::Retriever { retriever_provider, .. } => seq![
            ("retriever_provider"@, retriever_provider@),
        ],
    }
}

/// `values` are these string tags, in order.
pub open spec fn spec_tags_are(values: Seq<(String, JsonValue)>, tags: Seq<(Seq<char>, Seq<char>)>) -> bool {
    values.len() == tags.len() && forall|i: int|
        0 <= i < values.len() ==> (#[trigger] values[i]).0@ == tags[i].0 && spec_str_is(values[i].1, tags[i].1)
}

pub open spec fn spec_str_is(v: JsonValue, s: Seq<char>) -> bool {
    v matches JsonValue::Str(x) && x@ == s
}

pub open spec fn spec_array_len(v: JsonValue, n: nat) -> bool {
    v matches JsonValue::Array(a) && a@.len() == n
}

/// `v` is the JSON text of an object with exactly these member names.
pub open spec fn spec_payload_keys(v: RecordValue, keys: Seq<Seq<char>>) -> bool {
    v matches RecordValue::PlainTextJson(JsonValue::Object(m)) && m@.len() == keys.len() && forall|i: int|
        0 <= i < keys.len() ==> (#[trigger] m@[i]).0@ == keys[i]
}

pub open spec fn spec_payload_member(v: RecordValue, i: int) -> JsonValue {
    match v {
        RecordValue::PlainTextJson(JsonValue::Object(m)) => m@[i].1,
        _ => JsonValue::Null,
    }
}

/// The input value of a span: plain text for tools and agents, else the JSON
/// text of a payload object with one member per kind, each the JSON of its
/// source.
pub open spec fn spec_input_value_ok(input: FornaxSpanInput, v: RecordValue) -> bool {
    match input {
        FornaxSpanInput::Tool { input: text, .. } => v matches RecordValue::PlainText(s) && s@ == text@,
        FornaxSpanInput::Agent { input: text, .. } => v matches RecordValue::PlainText(s) && s@ == text@,
        FornaxSpanInput::Root { contents } => spec_payload_keys(v, seq!["contents"@]) && spec_contents_json(
            spec_payload_member(v, 0),
            contents@,
        ),
        FornaxSpanInput::Model { messages, .. } => spec_payload_keys(v, seq!["messages"@]) && spec_messages_json(
            spec_payload_member(v, 0),
            messages@,
        ),
        FornaxSpanInput::Prompt { templates, arguments, .. } => spec_payload_keys(v, seq!["arguments"@, "templates"@])
            && spec_arguments_json(spec_payload_member(v, 0), arguments@) && spec_messages_json(
            spec_payload_member(v, 1),
            templates@,
        ),
        FornaxSpanInput::Retriever { query, .. } => spec_payload_keys(v, seq!["query"@]) && spec_str_is(
            spec_payload_member(v, 0),
            query@,
        ),
    }
}

fn tag(key: &str, value: &str) -> (r: (String, JsonValue))
    ensures
        r.0@ == key@,
        r.1 matches JsonValue::Str(s) && s@ == value@,
{
    (owned(key), JsonValue::Str(owned(value)))
}

impl FornaxSpanInput {
    /// The span's tags (when it has any), then one input record.
    pub fn into_records(self) -> (r: Result<Vec<SpanRecord>, FornaxSpanSemanticError>)
        ensures
            match spec_input_fault(self) {
                Some(name) => r matches Err(FornaxSpanSemanticError::InvalidField(n)) && n@ == name,
                None => r matches Ok(records) && {
                    let tags = spec_input_tags(self);
                    if tags.len() == 0 {
                        records@.len() == 1 && (records@[0] matches SpanRecord::Input { value } && spec_input_value_ok(self, value))
                    } else {
                        &&& records@.len() == 2
                        &&& records@[0] matches SpanRecord::Tags { values } && spec_tags_are(values@, tags)
                        &&& records@[1] matches SpanRecord::Input { value } && spec_input_value_ok(self, value)
                    }
                },
            },
    {
        proof {
            reveal_strlit("prompt_provider");
            reveal_strlit("prompt_key");
            reveal_strlit("prompt_version");
            reveal_strlit("model_provider");
            reveal_strlit("model_name");
            reveal_strlit("tool_name");
            reveal_strlit("input");
            reveal_strlit("agent_name");
            reveal_strlit("agent_run_id");
            reveal_strlit("retriever_provider");
            reveal_strlit("query");
            reveal_strlit("arguments");
            reveal_strlit("templates");
            reveal_strlit("messages");
            reveal_strlit("contents");
        }
        let ghost me = self;
        let mut tags: Vec<(String, JsonValue)> = Vec::new();
        let value = match self {
            FornaxSpanInput::Root { contents } => {
                checked_contents(&contents)?;
                RecordValue::PlainTextJson(object1("contents", contents_json(&contents)))
            },
            FornaxSpanInput::Prompt { prompt_provider, prompt_key, prompt_version, templates, arguments } => {
                checked("prompt_provider", prompt_provider.as_str())?;
                checked("prompt_key", prompt_key.as_str())?;
                checked("prompt_version", prompt_version.as_str())?;
                checked_messages(&templates)?;
                checked_arguments(&arguments)?;
                tags.push(tag("prompt_key", prompt_key.as_str()));
                tags.push(tag("prompt_provider", prompt_provider.as_str()));
                tags.push(tag("prompt_version", prompt_version.as_str()));
                let mut m: Vec<(String, JsonValue)> = Vec::new();
                m.push(member("arguments", arguments_json(&arguments)));
                m.push(member("templates", messages_json(&templates)));
                RecordValue::PlainTextJson(JsonValue::Object(m))
            },
            FornaxSpanInput::Model { model_provider, model_name, messages } => {
                checked("model_provider", model_provider.as_str())?;
                checked("model_name", model_name.as_str())?;
                checked_messages(&messages)?;
                tags.push(tag("model_name", model_name.as_str()));
                tags.push(tag("model_provider", model_provider.as_str()));
                RecordValue::PlainTextJson(object1("messages", messages_json(&messages)))
            },
            FornaxSpanInput::Tool { tool_name, input } => {
                checked("tool_name", tool_name.as_str())?;
                checked("input", input.as_str())?;
                tags.push(tag("tool_name", tool_name.as_str()));
                RecordValue::PlainText(input)
            },
            FornaxSpanInput::Agent { agent_name, agent_run_id, input } => {
                checked("agent_name", agent_name.as_str())?;
                checked("agent_run_id", agent_run_id.as_str())?;
                checked("input", input.as_str())?;
                tags.push(tag("agent_name", agent_name.as_str()));
                tags.push(tag("agent_run_id", agent_run_id.as_str()));
                RecordValue::PlainText(input)
            },
            FornaxSpanInput::Retriever { retriever_provider, query } => {
                checked("retriever_provider", retriever_provider.as_str())?;
                checked("query", query.as_str())?;
                tags.push(tag("retriever_provider", retriever_provider.as_str()));
                RecordValue::PlainTextJson(object1("query", JsonValue::Str(query)))
            },
        };
        let mut records: Vec<SpanRecord> = Vec::new();
        if tags.len() > 0 {
            records.push(SpanRecord::Tags { values: tags });
        }
        records.push(SpanRecord::Input { value });
        Ok(records)
    }
}

// ---------------------------------------------------------------- outputs

pub open spec fn spec_output_type(output: FornaxSpanOutput) -> SpanType {
    match output {
        FornaxSpanOutput::Root { .. } => SpanType::Root,
        FornaxSpanOutput::Prompt { .. } => SpanType::Prompt,
        FornaxSpanOutput::Model { .. } => SpanType::Model,
        FornaxSpanOutput::Tool { .. } => SpanType::Tool,
        FornaxSpanOutput::Agent { .. } => SpanType::Agent,
        FornaxSpanOutput::Retriever { .. } => SpanType::Retriever,
    }
}

/// The fault of a span's outcome: an error on success, no error on failure,
/// an unbounded error, then the first failing output field.
pub open spec fn spec_output_fault(output: FornaxSpanOutput, status_code: i64, error: Option<String>) -> Option<
    FornaxSpanSemanticError,
> {
    if status_code == 0 && error is Some {
        Some(FornaxSpanSemanticError::ErrorOnSuccess)
    } else if status_code != 0 && error is None {
        Some(FornaxSpanSemanticError::MissingError)
    } else if status_code != 0 && !spec_text_ok(error->0@) {
        Some(FornaxSpanSemanticError::InvalidField("error"))
    } else {
        None
    }
}

/// The first output field that fails its checks, by name.
pub open spec fn spec_output_field_fault(output: FornaxSpanOutput) -> Option<Seq<char>> {
    match output {
        FornaxSpanOutput::Root { contents } => spec_contents_fault(contents@),
        FornaxSpanOutput::Prompt { prompts } => spec_messages_fault(prompts@),
        FornaxSpanOutput::Model { choices } => spec_messages_fault(choices@),
        FornaxSpanOutput::Tool { .. } => None,
        FornaxSpanOutput::Agent { output } => if spec_text_ok(output@) {
            None
        } else {
            Some("output"@)
        },
        FornaxSpanOutput::Retriever { documents } => if documents@.len() == 0 {
            Some("documents"@)
        } else {
            None
        },
    }
}

/// The output value of a span: the tool's JSON, the agent's text, else the
/// JSON text of a payload object whose one member is the JSON of its source.
pub open spec fn spec_output_value_ok(output: FornaxSpanOutput, v: RecordValue) -> bool {
    match output {
        FornaxSpanOutput::Root { contents } => spec_payload_keys(v, seq!["contents"@]) && spec_contents_json(
            spec_payload_member(v, 0),
            contents@,
        ),
        FornaxSpanOutput::Prompt { prompts } => spec_payload_keys(v, seq!["prompts"@]) && spec_messages_json(
            spec_payload_member(v, 0),
            prompts@,
        ),
        FornaxSpanOutput::Model { choices } => spec_payload_keys(v, seq!["choices"@]) && spec_messages_json(
            spec_payload_member(v, 0),
            choices@,
        ),
        FornaxSpanOutput::Tool { output } => v == RecordValue::Json(output),
        FornaxSpanOutput::Agent { output } => v matches RecordValue::PlainText(s) && s@ == output@,
        FornaxSpanOutput::Retriever { documents } => spec_payload_keys(v, seq!["documents"@]) && spec_payload_member(
            v,
            0,
        ) == JsonValue::Array(documents),
    }
}

/// The JSON number of a status code.
pub open spec fn spec_code_json(status_code: i64) -> JsonValue {
    JsonValue::Number(
        if status_code >= 0 {
            JsonNumber::PosInt(status_code as u64)
        } else {
            JsonNumber::NegInt(status_code)
        },
    )
}

/// The status tags: `_status_code`, then `error` where one is given.
pub open spec fn spec_status_tags(values: Seq<(String, JsonValue)>, status_code: i64, error: Option<String>) -> bool {
    &&& values.len() == (if error is Some { 2int } else { 1int })
    &&& values[0].0@ == "_status_code"@ && values[0].1 == spec_code_json(status_code)
    &&& error matches Some(e) ==> values[1].0@ == "error"@ && spec_str_is(values[1].1, e@)
}

impl FornaxSpanOutput {
    pub fn span_type(&self) -> (r: SpanType)
        ensures
            r == spec_output_type(*self),
    {
        match self {
            FornaxSpanOutput::Root { .. } => SpanType::Root,
            FornaxSpanOutput::Prompt { .. } => SpanType::Prompt,
            FornaxSpanOutput::Model { .. } => SpanType::Model,
            FornaxSpanOutput::Tool { .. } => SpanType::Tool,
            FornaxSpanOutput::Agent { .. } => SpanType::Agent,
            FornaxSpanOutput::Retriever { .. } => SpanType::Retriever,
        }
    }

    /// One output record, then the status tags: `_status_code` and, on
    /// failure, `error`.
    pub fn into_records(self, status_code: i64, error: Option<String>) -> (r: Result<
        Vec<SpanRecord>,
        FornaxSpanSemanticError,
    >)
        ensures
            match spec_output_fault(self, status_code, error) {
                Some(f) => r == Err::<Vec<SpanRecord>, FornaxSpanSemanticError>(f),
                None => match spec_output_field_fault(self) {
                    Some(name) => r matches Err(FornaxSpanSemanticError::InvalidField(n)) && n@ == name,
                    None => r matches Ok(records) && records@.len() == 2 && (records@[0] matches SpanRecord::Output {
                        value,
                    } && spec_output_value_ok(self, value)) && (records@[1] matches SpanRecord::Tags { values }
                        && spec_status_tags(values@, status_code, error)),
                },
            },
    {
        proof {
            reveal_strlit("error");
            reveal_strlit("_status_code");
            reveal_strlit("output");
            reveal_strlit("documents");
            reveal_strlit("prompts");
            reveal_strlit("choices");
            reveal_strlit("contents");
        }
        if status_code == 0 && error.is_some() {
            return Err(FornaxSpanSemanticError::ErrorOnSuccess);
        }
        if status_code != 0 {
            match &error {
                None => return Err(FornaxSpanSemanticError::MissingError),
                Some(e) => checked("error", e.as_str())?,
            }
        }
        let output = match self {
            FornaxSpanOutput::Root { contents } => {
                checked_contents(&contents)?;
                RecordValue::PlainTextJson(object1("contents", contents_json(&contents)))
            },
            FornaxSpanOutput::Prompt { prompts } => {
                checked_messages(&prompts)?;
                RecordValue::PlainTextJson(object1("prompts", messages_json(&prompts)))
            },
            FornaxSpanOutput::Model { choices } => {
                checked_messages(&choices)?;
                RecordValue::PlainTextJson(object1("choices", messages_json(&choices)))
            },
            FornaxSpanOutput::Tool { output } => RecordValue::Json(output),
            FornaxSpanOutput::Agent { output } => {
                checked("output", output.as_str())?;
                RecordValue::PlainText(output)
            },
            FornaxSpanOutput::Retriever { documents } => {
                if documents.len() == 0 {
                    return Err(FornaxSpanSemanticError::InvalidField("documents"));
                }
                RecordValue::PlainTextJson(object1("documents", JsonValue::Array(documents)))
            },
        };
        let code = if status_code >= 0 {
            JsonNumber::PosInt(status_code as u64)
        } else {
            JsonNumber::NegInt(status_code)
        };
        let mut values: Vec<(String, JsonValue)> = Vec::new();
        values.push(member("_status_code", JsonValue::Number(code)));
        match error {
            Some(e) => values.push(member("error", JsonValue::Str(e))),
            None => {},
        }
        let mut records: Vec<SpanRecord> = Vec::new();
        records.push(SpanRecord::Output { value: output });
        records.push(SpanRecord::Tags { values });
        Ok(records)
    }
}

} // verus!
