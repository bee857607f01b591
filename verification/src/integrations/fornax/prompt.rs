//! Complete prompt drafts: the structure a draft must have before it may
//! overwrite remote state, and local rendering of `normal` string templates.
use vstd::prelude::*;

use crate::integrations::fornax::types::FornaxPromptMessage;
use crate::json::spec_get;
use crate::json::spec_get_str;
use crate::json::JsonValue;
use crate::text::chars_of;
use crate::text::find_sub;
use crate::text::owned;
use crate::text::spec_find;
use crate::text::spec_trim;
use crate::text::str_eq;
use crate::text::string_of;
use crate::text::trim_range;
use crate::text::vec_eq;
use crate::text::push_str;

verus! {

/// Full-draft validation failures.
#[derive(Clone, Debug, PartialEq, Eq)]
pub enum PromptDraftValidationError {
    /// Required full-draft structure was absent.
    Missing(&'static str),
    /// A field used an unverified shape or value.
    Invalid { field: &'static str, message: String },
}

/// Limited local normal-string rendering failures.
#[derive(Clone, Debug, PartialEq, Eq)]
pub enum PromptRenderError {
    UnsupportedTemplate,
    UnsupportedMessage { index: usize },
    MissingVariable(String),
    UnsupportedVariable(String),
}

/// The first structural fault of a draft, in the order the checks run.
#[derive(Clone, Copy, Debug, PartialEq, Eq, Structural)]
pub enum DraftFault {
    NotObject,
    NoDetail,
    NoTemplate,
    TemplateType,
    NoMessages,
    MessageNotObject,
    MessageRole,
    MessageBody,
    DefinitionsNotArray,
    DefinitionNotObject,
    DefinitionShape,
    ToolsNotArray,
    ToolCallConfigNotObject,
    ModelConfigNotObject,
    SkillExecuteConfigNotObject,
    DraftInfoNotObject,
    BaseVersionNotString,
}

// ---------------------------------------------------------------- specs

pub open spec fn spec_is_object(v: JsonValue) -> bool {
    v is Object
}

pub open spec fn spec_is_array(v: JsonValue) -> bool {
    v is Array
}

/// The member `key` is present and is not an array.
pub open spec fn spec_bad_array(v: JsonValue, key: Seq<char>) -> bool {
    spec_get(v, key) matches Some(x) && !spec_is_array(x)
}

/// The member `key` is present and is not an object.
pub open spec fn spec_bad_object(v: JsonValue, key: Seq<char>) -> bool {
    spec_get(v, key) matches Some(x) && !spec_is_object(x)
}

pub open spec fn spec_message_fault(m: JsonValue) -> Option<DraftFault> {
    let role = spec_get_str(m, "role"@);
    if !spec_is_object(m) {
        Some(DraftFault::MessageNotObject)
    } else if !(role == Some("system"@) || role == Some("user"@) || role == Some("assistant"@)
        || role == Some("placeholder"@)) {
        Some(DraftFault::MessageRole)
    } else if spec_get_str(m, "content"@) is None && !(spec_get(m, "parts"@) matches Some(p)
        && spec_is_array(p)) {
        Some(DraftFault::MessageBody)
    } else {
        None
    }
}

pub open spec fn spec_definition_fault(d: JsonValue) -> Option<DraftFault> {
    let t = spec_get_str(d, "type"@);
    if !spec_is_object(d) {
        Some(DraftFault::DefinitionNotObject)
    } else if spec_get_str(d, "key"@) is None || !(t == Some("string"@) || t == Some("multi_part"@)
        || t == Some("placeholder"@)) {
        Some(DraftFault::DefinitionShape)
    } else {
        None
    }
}

/// The first fault among `items[i..]`, each judged by `fault`.
pub open spec fn spec_first_fault(
    items: Seq<JsonValue>,
    fault: spec_fn(JsonValue) -> Option<DraftFault>,
    i: int,
) -> Option<DraftFault>
    decreases items.len() - i,
{
    if i < 0 || i >= items.len() {
        None
    } else if fault(items[i]) is Some {
        fault(items[i])
    } else {
        spec_first_fault(items, fault, i + 1)
    }
}

/// The optional sections of `detail` and `draft_info`, checked last.
pub open spec fn spec_optional_fault(root: JsonValue, detail: JsonValue) -> Option<DraftFault> {
    if spec_bad_array(detail, "tools"@) {
        Some(DraftFault::ToolsNotArray)
    } else if spec_bad_object(detail, "tool_call_config"@) {
        Some(DraftFault::ToolCallConfigNotObject)
    } else if spec_bad_object(detail, "model_config"@) {
        Some(DraftFault::ModelConfigNotObject)
    } else if spec_bad_object(detail, "skill_execute_config"@) {
        Some(DraftFault::SkillExecuteConfigNotObject)
    } else {
        match spec_get(root, "draft_info"@) {
            Some(info) => if !spec_is_object(info) {
                Some(DraftFault::DraftInfoNotObject)
            } else if spec_get(info, "base_version"@) matches Some(b) && !(b is Str) {
                Some(DraftFault::BaseVersionNotString)
            } else {
                None
            },
            None => None,
        }
    }
}

/// The first structural fault of a complete draft, if any.
pub open spec fn spec_draft_fault(v: JsonValue) -> Option<DraftFault> {
    if !spec_is_object(v) {
        Some(DraftFault::NotObject)
    } else {
        match spec_get(v, "detail"@) {
            Some(detail) if spec_is_object(detail) => match spec_get(detail, "prompt_template"@) {
                Some(template) if spec_is_object(template) => if spec_get_str(
                    template,
                    "template_type"@,
                ) != Some("normal"@) {
                    Some(DraftFault::TemplateType)
                } else {
                    match spec_get(template, "messages"@) {
                        Some(JsonValue::Array(ms)) if ms@.len() > 0 => if spec_first_fault(
                            ms@,
                            |m: JsonValue| spec_message_fault(m),
                            0,
                        ) is Some {
                            spec_first_fault(ms@, |m: JsonValue| spec_message_fault(m), 0)
                        } else {
                            match spec_get(template, "variable_defs"@) {
                                Some(JsonValue::Array(ds)) => if spec_first_fault(
                                    ds@,
                                    |d: JsonValue| spec_definition_fault(d),
                                    0,
                                ) is Some {
                                    spec_first_fault(ds@, |d: JsonValue| spec_definition_fault(d), 0)
                                } else {
                                    spec_optional_fault(v, detail)
                                },
                                Some(_) => Some(DraftFault::DefinitionsNotArray),
                                None => spec_optional_fault(v, detail),
                            }
                        },
                        _ => Some(DraftFault::NoMessages),
                    }
                },
                _ => Some(DraftFault::NoTemplate),
            },
            _ => Some(DraftFault::NoDetail),
        }
    }
}

/// The error reported for a fault: the field path and, for an invalid field, the message.
pub open spec fn spec_fault_error(f: DraftFault, e: PromptDraftValidationError) -> bool {
    match f {
        DraftFault::NotObject => e matches PromptDraftValidationError::Missing(x) && x@ == "object"@,
        DraftFault::NoDetail => e matches PromptDraftValidationError::Missing(x) && x@ == "detail"@,
        DraftFault::NoTemplate => e matches PromptDraftValidationError::Missing(x) && x@
            == "detail.prompt_template"@,
        DraftFault::NoMessages => e matches PromptDraftValidationError::Missing(x) && x@
            == "detail.prompt_template.messages"@,
        _ => e matches PromptDraftValidationError::Invalid { field, message } && field@
            == spec_fault_field(f) && message@ == spec_fault_message(f),
    }
}

pub open spec fn spec_fault_field(f: DraftFault) -> Seq<char> {
    match f {
        DraftFault::TemplateType => "detail.prompt_template.template_type"@,
        DraftFault::MessageNotObject => "detail.prompt_template.messages"@,
        DraftFault::MessageRole => "detail.prompt_template.messages.role"@,
        DraftFault::MessageBody => "detail.prompt_template.messages"@,
        DraftFault::DefinitionsNotArray => "detail.prompt_template.variable_defs"@,
        DraftFault::DefinitionNotObject => "detail.prompt_template.variable_defs"@,
        DraftFault::DefinitionShape => "detail.prompt_template.variable_defs"@,
        DraftFault::ToolsNotArray => "tools"@,
        DraftFault::ToolCallConfigNotObject => "tool_call_config"@,
        DraftFault::ModelConfigNotObject => "model_config"@,
        DraftFault::SkillExecuteConfigNotObject => "skill_execute_config"@,
        DraftFault::DraftInfoNotObject => "draft_info"@,
        DraftFault::BaseVersionNotString => "draft_info.base_version"@,
        _ => Seq::empty(),
    }
}

pub open spec fn spec_fault_message(f: DraftFault) -> Seq<char> {
    match f {
        DraftFault::TemplateType => "only the verified `normal` kind is supported"@,
        DraftFault::MessageNotObject => "every message must be an object"@,
        DraftFault::MessageRole => "unsupported role"@,
        DraftFault::MessageBody => "message must contain string content or parts"@,
        DraftFault::DefinitionsNotArray => "must be an array"@,
        DraftFault::DefinitionNotObject => "every definition must be an object"@,
        DraftFault::DefinitionShape => "each definition needs a key and verified type"@,
        DraftFault::ToolsNotArray => "must be an array"@,
        DraftFault::ToolCallConfigNotObject => "must be an object"@,
        DraftFault::ModelConfigNotObject => "must be an object"@,
        DraftFault::SkillExecuteConfigNotObject => "must be an object"@,
        DraftFault::DraftInfoNotObject => "must be an object"@,
        DraftFault::BaseVersionNotString => "must be a string"@,
        _ => Seq::empty(),
    }
}

// ---------------------------------------------------------------- validation

fn opt_str_is(v: Option<&str>, lit: &str) -> (r: bool)
    ensures
        r == (match v {
            Some(s) => s@ == lit@,
            None => false,
        }),
{
    match v {
        Some(s) => str_eq(s, lit),
        None => false,
    }
}

fn message_fault(m: &JsonValue) -> (r: Option<DraftFault>)
    ensures
        r == spec_message_fault(*m),
{
    proof {
        reveal_strlit("role");
        reveal_strlit("content");
        reveal_strlit("parts");
        reveal_strlit("system");
        reveal_strlit("user");
        reveal_strlit("assistant");
        reveal_strlit("placeholder");
    }
    if !m.is_object() {
        return Some(DraftFault::MessageNotObject);
    }
    let role = m.get_str("role");
    if !(opt_str_is(role, "system") || opt_str_is(role, "user") || opt_str_is(role, "assistant")
        || opt_str_is(role, "placeholder")) {
        return Some(DraftFault::MessageRole);
    }
    let parts_array = match m.get("parts") {
        Some(JsonValue::Array(_)) => true,
        _ => false,
    };
    if m.get_str("content").is_none() && !parts_array {
        return Some(DraftFault::MessageBody);
    }
    None
}

fn definition_fault(d: &JsonValue) -> (r: Option<DraftFault>)
    ensures
        r == spec_definition_fault(*d),
{
    proof {
        reveal_strlit("type");
        reveal_strlit("key");
        reveal_strlit("string");
        reveal_strlit("multi_part");
        reveal_strlit("placeholder");
    }
    if !d.is_object() {
        return Some(DraftFault::DefinitionNotObject);
    }
    let t = d.get_str("type");
    if d.get_str("key").is_none() || !(opt_str_is(t, "string") || opt_str_is(t, "multi_part")
        || opt_str_is(t, "placeholder")) {
        return Some(DraftFault::DefinitionShape);
    }
    None
}

fn first_message_fault(items: &Vec<JsonValue>) -> (r: Option<DraftFault>)
    ensures
        r == spec_first_fault(items@, |m: JsonValue| spec_message_fault(m), 0),
{
    let ghost f = |m: JsonValue| spec_message_fault(m);
    let mut i: usize = 0;
    while i < items.len()
        invariant
            i <= items.len(),
            f == (|m: JsonValue| spec_message_fault(m)),
            spec_first_fault(items@, f, 0) == spec_first_fault(items@, f, i as int),
        decreases items.len() - i,
    {
        let x = message_fault(&items[i]);
        if x.is_some() {
            return x;
        }
        i += 1;
    }
    None
}

fn first_definition_fault(items: &Vec<JsonValue>) -> (r: Option<DraftFault>)
    ensures
        r == spec_first_fault(items@, |d: JsonValue| spec_definition_fault(d), 0),
{
    let ghost f = |d: JsonValue| spec_definition_fault(d);
    let mut i: usize = 0;
    while i < items.len()
        invariant
            i <= items.len(),
            f == (|d: JsonValue| spec_definition_fault(d)),
            spec_first_fault(items@, f, 0) == spec_first_fault(items@, f, i as int),
        decreases items.len() - i,
    {
        let x = definition_fault(&items[i]);
        if x.is_some() {
            return x;
        }
        i += 1;
    }
    None
}

fn bad_array(v: &JsonValue, key: &str) -> (r: bool)
    ensures
        r == spec_bad_array(*v, key@),
{
    match v.get(key) {
        Some(JsonValue::Array(_)) => false,
        Some(_) => true,
        None => false,
    }
}

fn bad_object(v: &JsonValue, key: &str) -> (r: bool)
    ensures
        r == spec_bad_object(*v, key@),
{
    match v.get(key) {
        Some(JsonValue::Object(_)) => false,
        Some(_) => true,
        None => false,
    }
}

fn optional_fault(root: &JsonValue, detail: &JsonValue) -> (r: Option<DraftFault>)
    ensures
        r == spec_optional_fault(*root, *detail),
{
    proof {
        reveal_strlit("tools");
        reveal_strlit("tool_call_config");
        reveal_strlit("model_config");
        reveal_strlit("skill_execute_config");
        reveal_strlit("draft_info");
        reveal_strlit("base_version");
    }
    if bad_array(detail, "tools") {
        return Some(DraftFault::ToolsNotArray);
    }
    if bad_object(detail, "tool_call_config") {
        return Some(DraftFault::ToolCallConfigNotObject);
    }
    if bad_object(detail, "model_config") {
        return Some(DraftFault::ModelConfigNotObject);
    }
    if bad_object(detail, "skill_execute_config") {
        return Some(DraftFault::SkillExecuteConfigNotObject);
    }
    match root.get("draft_info") {
        Some(info) => {
            if !info.is_object() {
                return Some(DraftFault::DraftInfoNotObject);
            }
            match info.get("base_version") {
                Some(JsonValue::Str(_)) => None,
                Some(_) => Some(DraftFault::BaseVersionNotString),
                None => None,
            }
        },
        None => None,
    }
}

/// The first structural fault of a draft.
pub fn draft_fault(value: &JsonValue) -> (r: Option<DraftFault>)
    ensures
        r == spec_draft_fault(*value),
{
    proof {
        reveal_strlit("detail");
        reveal_strlit("prompt_template");
        reveal_strlit("template_type");
        reveal_strlit("normal");
        reveal_strlit("messages");
        reveal_strlit("variable_defs");
    }
    if !value.is_object() {
        return Some(DraftFault::NotObject);
    }
    let detail = match value.get("detail") {
        Some(d) => d,
        None => return Some(DraftFault::NoDetail),
    };
    if !detail.is_object() {
        return Some(DraftFault::NoDetail);
    }
    let template = match detail.get("prompt_template") {
        Some(t) => t,
        None => return Some(DraftFault::NoTemplate),
    };
    if !template.is_object() {
        return Some(DraftFault::NoTemplate);
    }
    if !opt_str_is(template.get_str("template_type"), "normal") {
        return Some(DraftFault::TemplateType);
    }
    let messages = match template.get("messages") {
        Some(JsonValue::Array(ms)) => ms,
        _ => return Some(DraftFault::NoMessages),
    };
    if messages.len() == 0 {
        return Some(DraftFault::NoMessages);
    }
    let mf = first_message_fault(messages);
    if mf.is_some() {
        return mf;
    }
    match template.get("variable_defs") {
        Some(JsonValue::Array(ds)) => {
            let df = first_definition_fault(ds);
            if df.is_some() {
                return df;
            }
        },
        Some(_) => return Some(DraftFault::DefinitionsNotArray),
        None => {},
    }
    optional_fault(value, detail)
}

/// The error reported for a fault.
pub fn fault_error(f: DraftFault) -> (e: PromptDraftValidationError)
    ensures
        spec_fault_error(f, e),
{
    match f {
        DraftFault::NotObject => PromptDraftValidationError::Missing("object"),
        DraftFault::NoDetail => PromptDraftValidationError::Missing("detail"),
        DraftFault::NoTemplate => PromptDraftValidationError::Missing("detail.prompt_template"),
        DraftFault::NoMessages => PromptDraftValidationError::Missing("detail.prompt_template.messages"),
        DraftFault::TemplateType => PromptDraftValidationError::Invalid {
            field: "detail.prompt_template.template_type",
            message: owned("only the verified `normal` kind is supported"),
        },
        DraftFault::MessageNotObject => PromptDraftValidationError::Invalid {
            field: "detail.prompt_template.messages",
            message: owned("every message must be an object"),
        },
        DraftFault::MessageRole => PromptDraftValidationError::Invalid {
            field: "detail.prompt_template.messages.role",
            message: owned("unsupported role"),
        },
        DraftFault::MessageBody => PromptDraftValidationError::Invalid {
            field: "detail.prompt_template.messages",
            message: owned("message must contain string content or parts"),
        },
        DraftFault::DefinitionsNotArray => PromptDraftValidationError::Invalid {
            field: "detail.prompt_template.variable_defs",
            message: owned("must be an array"),
        },
        DraftFault::DefinitionNotObject => PromptDraftValidationError::Invalid {
            field: "detail.prompt_template.variable_defs",
            message: owned("every definition must be an object"),
        },
        DraftFault::DefinitionShape => PromptDraftValidationError::Invalid {
            field: "detail.prompt_template.variable_defs",
            message: owned("each definition needs a key and verified type"),
        },
        DraftFault::ToolsNotArray => PromptDraftValidationError::Invalid {
            field: "tools",
            message: owned("must be an array"),
        },
        DraftFault::ToolCallConfigNotObject => PromptDraftValidationError::Invalid {
            field: "tool_call_config",
            message: owned("must be an object"),
        },
        DraftFault::ModelConfigNotObject => PromptDraftValidationError::Invalid {
            field: "model_config",
            message: owned("must be an object"),
        },
        DraftFault::SkillExecuteConfigNotObject => PromptDraftValidationError::Invalid {
            field: "skill_execute_config",
            message: owned("must be an object"),
        },
        DraftFault::DraftInfoNotObject => PromptDraftValidationError::Invalid {
            field: "draft_info",
            message: owned("must be an object"),
        },
        DraftFault::BaseVersionNotString => PromptDraftValidationError::Invalid {
            field: "draft_info.base_version",
            message: owned("must be a string"),
        },
    }
}

/// Validates a complete draft object before it can overwrite remote state.
pub fn validate_draft(value: &JsonValue) -> (r: Result<(), PromptDraftValidationError>)
    ensures
        match spec_draft_fault(*value) {
            None => r is Ok,
            Some(f) => r matches Err(e) && spec_fault_error(f, e),
        },
{
    match draft_fault(value) {
        None => Ok(()),
        Some(f) => Err(fault_error(f)),
    }
}

/// A complete prompt draft accepted by the pinned CLI save contract.
#[derive(Debug, PartialEq)]
pub struct PromptDraft(JsonValue);

impl PromptDraft {
    pub closed spec fn value(&self) -> JsonValue {
        self.0
    }

    /// Validates a complete draft object before it can overwrite remote state.
    pub fn new(value: JsonValue) -> (r: Result<Self, PromptDraftValidationError>)
        ensures
            match spec_draft_fault(value) {
                None => r matches Ok(d) && d.value() == value,
                Some(f) => r matches Err(e) && spec_fault_error(f, e),
            },
    {
        validate_draft(&value)?;
        Ok(PromptDraft(value))
    }

    /// Returns the complete provider draft object.
    pub fn as_value(&self) -> (r: &JsonValue)
        ensures
            *r == self.value(),
    {
        &self.0
    }
}

// ---------------------------------------------------------------- rendering

/// The value of the first variable named `key`.
pub open spec fn spec_lookup(vars: Seq<(String, String)>, key: Seq<char>, i: int) -> Option<Seq<char>>
    decreases vars.len() - i,
{
    if i < 0 || i >= vars.len() {
        None
    } else if vars[i].0@ == key {
        Some(vars[i].1@)
    } else {
        spec_lookup(vars, key, i + 1)
    }
}

/// Renders `{{name}}` placeholders (names trimmed) from `vars`; `Err(None)`
/// for an unclosed placeholder, `Err(Some(name))` for an unknown name.
pub open spec fn spec_render_string(t: Seq<char>, vars: Seq<(String, String)>) -> Result<
    Seq<char>,
    Option<Seq<char>>,
>
    decreases t.len(),
{
    match spec_find(t, "{{"@) {
        None => Ok(t),
        Some(s) => {
            let after = t.skip(s + 2);
            match spec_find(after, "}}"@) {
                None => Err(None),
                Some(e) => {
                    let key = spec_trim(after.take(e));
                    match spec_lookup(vars, key, 0) {
                        None => Err(Some(key)),
                        Some(v) => if 0 <= s && s + 2 <= t.len() && 0 <= e && e + 2 <= after.len() {
                            match spec_render_string(after.skip(e + 2), vars) {
                                Ok(rest) => Ok(t.take(s) + v + rest),
                                Err(x) => Err(x),
                            }
                        } else {
                            Err(None)
                        },
                    }
                },
            }
        },
    }
}

fn lookup(vars: &Vec<(String, String)>, key: &Vec<char>) -> (r: Option<String>)
    ensures
        match r {
            Some(v) => spec_lookup(vars@, key@, 0) == Some(v@),
            None => spec_lookup(vars@, key@, 0) is None,
        },
{
    let mut i: usize = 0;
    while i < vars.len()
        invariant
            i <= vars.len(),
            spec_lookup(vars@, key@, 0) == spec_lookup(vars@, key@, i as int),
        decreases vars.len() - i,
    {
        if vec_eq(key, vars[i].0.as_str()) {
            return Some(owned(vars[i].1.as_str()));
        }
        i += 1;
    }
    None
}

fn slice(v: &Vec<char>, lo: usize, hi: usize) -> (r: Vec<char>)
    requires
        lo <= hi <= v.len(),
    ensures
        r@ == v@.subrange(lo as int, hi as int),
{
    let mut out: Vec<char> = Vec::new();
    let mut k = lo;
    while k < hi
        invariant
            lo <= k <= hi <= v.len(),
            out@ == v@.subrange(lo as int, k as int),
        decreases hi - k,
    {
        out.push(v[k]);
        assert(v@.subrange(lo as int, k + 1) == v@.subrange(lo as int, k as int).push(v@[k as int]));
        k += 1;
    }
    out
}

proof fn lemma_find_bound(t: Seq<char>, pat: Seq<char>, i: int)
    requires
        spec_find_from_is_some(t, pat, i),
    ensures
        ({
            let s = crate::text::spec_find_from(t, pat, i)->0;
            i <= s && s + pat.len() <= t.len()
        }),
    decreases t.len() + 1 - i,
{
    if !(i < 0 || i + pat.len() > t.len()) && !crate::text::spec_occurs_at(t, pat, i) {
        lemma_find_bound(t, pat, i + 1);
    }
}

pub open spec fn spec_find_from_is_some(t: Seq<char>, pat: Seq<char>, i: int) -> bool {
    crate::text::spec_find_from(t, pat, i) is Some
}

/// Variables as a sorted map holds them: keys strictly increasing, so each
/// key once.
pub open spec fn spec_sorted_variables(vars: Seq<(String, String)>) -> bool {
    forall|a: int, b: int| 0 <= a < b < vars.len() ==> crate::text::spec_str_lt(#[trigger] vars[a].0@, #[trigger] vars[b].0@)
}

/// Renders `{{name}}` placeholders of a template from `vars`.
pub fn render_string(template: &str, vars: &Vec<(String, String)>) -> (r: Result<String, PromptRenderError>)
    requires
        spec_sorted_variables(vars@),
    ensures
        match spec_render_string(template@, vars@) {
            Ok(s) => r matches Ok(x) && x@ == s,
            Err(None) => r == Err::<String, PromptRenderError>(PromptRenderError::UnsupportedTemplate),
            Err(Some(k)) => r matches Err(PromptRenderError::MissingVariable(x)) && x@ == k,
        },
{
    let open = chars_of("{{");
    let close = chars_of("}}");
    proof {
        reveal_strlit("{{");
        reveal_strlit("}}");
    }
    let mut rendered = String::new();
    let mut rem = chars_of(template);
    loop
        invariant
            open@ == "{{"@,
            close@ == "}}"@,
            "{{"@.len() == 2,
            "}}"@.len() == 2,
            match spec_render_string(template@, vars@) {
                Ok(s) => match spec_render_string(rem@, vars@) {
                    Ok(rest) => s == rendered@ + rest,
                    Err(_) => false,
                },
                Err(x) => spec_render_string(rem@, vars@) == Err::<Seq<char>, Option<Seq<char>>>(x),
            },
        decreases rem@.len(),
    {
        let ghost t = rem@;
        match find_sub(&rem, &open) {
            None => {
                push_str(&mut rendered, string_of(&rem).as_str());
                return Ok(rendered);
            },
            Some(s) => {
                proof {
                    lemma_find_bound(t, "{{"@, 0);
                    assert(spec_find(t, "{{"@) == Some(s as int));
                    assert(s + 2 <= t.len());
                }
                let n = rem.len();
                let after = slice(&rem, s + 2, n);
                assert(after@ == t.skip(s + 2));
                match find_sub(&after, &close) {
                    None => return Err(PromptRenderError::UnsupportedTemplate),
                    Some(e) => {
                        proof {
                            lemma_find_bound(after@, "}}"@, 0);
                        }
                        let key = trim_range(&after, 0, e);
                        assert(after@.subrange(0, e as int) == after@.take(e as int));
                        match lookup(vars, &key) {
                            None => return Err(PromptRenderError::MissingVariable(string_of(&key))),
                            Some(v) => {
                                let head = slice(&rem, 0, s);
                                assert(head@ == t.take(s as int));
                                push_str(&mut rendered, string_of(&head).as_str());
                                push_str(&mut rendered, v.as_str());
                                rem = slice(&after, e + 2, after.len());
                                assert(rem@ == after@.skip(e + 2));
                            },
                        }
                    },
                }
            },
        }
    }
}

/// A rendering failure: kind 0 unsupported template, 1 unsupported message
/// (at the index), 2 missing variable, 3 undeclared variable (by name).
pub open spec fn spec_render_error_is(e: PromptRenderError, f: (int, Seq<char>, int)) -> bool {
    if f.0 == 0 {
        e == PromptRenderError::UnsupportedTemplate
    } else if f.0 == 1 {
        e == PromptRenderError::UnsupportedMessage { index: f.2 as usize }
    } else if f.0 == 2 {
        e matches PromptRenderError::MissingVariable(x) && x@ == f.1
    } else {
        e matches PromptRenderError::UnsupportedVariable(x) && x@ == f.1
    }
}

/// `draft["detail"]["prompt_template"]`, when it is an object.
pub open spec fn spec_template_of(draft: JsonValue) -> Option<JsonValue> {
    let detail = match spec_get(draft, "detail"@) {
        Some(d) => d,
        None => JsonValue::Null,
    };
    match spec_get(detail, "prompt_template"@) {
        Some(t) => if spec_is_object(t) {
            Some(t)
        } else {
            None
        },
        None => None,
    }
}

/// `k` is declared as a string variable.
pub open spec fn spec_declared(defs: Seq<JsonValue>, k: Seq<char>) -> bool {
    exists|i: int| 0 <= i < defs.len() && {
        let d = #[trigger] defs[i];
        spec_is_object(d) && spec_get_str(d, "type"@) == Some("string"@) && spec_get_str(d, "key"@)
            == Some(k)
    }
}

/// The first supplied variable, from `i` on, that is not declared.
pub open spec fn spec_first_undeclared(vars: Seq<(String, String)>, defs: Seq<JsonValue>, i: int) -> Option<int>
    decreases vars.len() - i,
{
    if i < 0 || i >= vars.len() {
        None
    } else if !spec_declared(defs, vars[i].0@) {
        Some(i)
    } else {
        spec_first_undeclared(vars, defs, i + 1)
    }
}

/// The role and rendered content of message `index`.
pub open spec fn spec_message_result(m: JsonValue, index: int, vars: Seq<(String, String)>) -> Result<
    (Seq<char>, Seq<char>),
    (int, Seq<char>, int),
> {
    if !spec_is_object(m) || spec_get(m, "parts"@) is Some || spec_get_str(m, "role"@) == Some(
        "placeholder"@,
    ) {
        Err((1, Seq::empty(), index))
    } else {
        match (spec_get_str(m, "role"@), spec_get_str(m, "content"@)) {
            (Some(role), Some(content)) => match spec_render_string(content, vars) {
                Ok(text) => Ok((role, text)),
                Err(None) => Err((0, Seq::empty(), 0)),
                Err(Some(k)) => Err((2, k, 0)),
            },
            _ => Err((1, Seq::empty(), index)),
        }
    }
}

/// The messages from `i` on, rendered in order; the first failure wins.
pub open spec fn spec_messages_result(ms: Seq<JsonValue>, vars: Seq<(String, String)>, i: int) -> Result<
    Seq<(Seq<char>, Seq<char>)>,
    (int, Seq<char>, int),
>
    decreases ms.len() - i,
{
    if i < 0 || i >= ms.len() {
        Ok(Seq::empty())
    } else {
        match spec_message_result(ms[i], i, vars) {
            Err(f) => Err(f),
            Ok(x) => match spec_messages_result(ms, vars, i + 1) {
                Ok(rest) => Ok(seq![x] + rest),
                Err(f) => Err(f),
            },
        }
    }
}

/// What rendering a draft with `vars` gives.
pub open spec fn spec_render_prompt(draft: JsonValue, vars: Seq<(String, String)>) -> Result<
    Seq<(Seq<char>, Seq<char>)>,
    (int, Seq<char>, int),
> {
    match spec_template_of(draft) {
        None => Err((0, Seq::empty(), 0)),
        Some(t) => if spec_get_str(t, "template_type"@) != Some("normal"@) {
            Err((0, Seq::empty(), 0))
        } else {
            let defs = match spec_get(t, "variable_defs"@) {
                Some(JsonValue::Array(d)) => d@,
                _ => Seq::empty(),
            };
            match spec_first_undeclared(vars, defs, 0) {
                Some(i) => Err((3, vars[i].0@, 0)),
                None => match spec_get(t, "messages"@) {
                    Some(JsonValue::Array(ms)) => spec_messages_result(ms@, vars, 0),
                    _ => Err((0, Seq::empty(), 0)),
                },
            }
        },
    }
}

fn declared(defs: &Vec<JsonValue>, k: &str) -> (r: bool)
    ensures
        r == spec_declared(defs@, k@),
{
    proof {
        reveal_strlit("type");
        reveal_strlit("key");
        reveal_strlit("string");
    }
    let mut i: usize = 0;
    while i < defs.len()
        invariant
            i <= defs.len(),
            forall|j: int| 0 <= j < i ==> !({
                let d = #[trigger] defs@[j];
                spec_is_object(d) && spec_get_str(d, "type"@) == Some("string"@) && spec_get_str(
                    d,
                    "key"@,
                ) == Some(k@)
            }),
        decreases defs.len() - i,
    {
        let d = &defs[i];
        if d.is_object() && opt_str_is(d.get_str("type"), "string") && opt_str_is(d.get_str("key"), k) {
            return true;
        }
        i += 1;
    }
    false
}

fn render_message(m: &JsonValue, index: usize, vars: &Vec<(String, String)>) -> (r: Result<
    FornaxPromptMessage,
    PromptRenderError,
>)
    requires
        spec_sorted_variables(vars@),
    ensures
        match spec_message_result(*m, index as int, vars@) {
            Ok((role, content)) => r matches Ok(x) && x.role@ == role && x.content@ == content,
            Err(f) => r matches Err(e) && spec_render_error_is(e, f),
        },
{
    proof {
        reveal_strlit("parts");
        reveal_strlit("role");
        reveal_strlit("content");
        reveal_strlit("placeholder");
    }
    if !m.is_object() || m.get("parts").is_some() || opt_str_is(m.get_str("role"), "placeholder") {
        return Err(PromptRenderError::UnsupportedMessage { index });
    }
    match (m.get_str("role"), m.get_str("content")) {
        (Some(role), Some(content)) => {
            let text = render_string(content, vars)?;
            Ok(FornaxPromptMessage { role: owned(role), content: text })
        },
        _ => Err(PromptRenderError::UnsupportedMessage { index }),
    }
}

pub open spec fn spec_messages_match(out: Seq<FornaxPromptMessage>, expected: Seq<(Seq<char>, Seq<char>)>) -> bool {
    out.len() == expected.len() && forall|i: int| 0 <= i < out.len() ==> #[trigger] out[i].role@ == expected[i].0
        && out[i].content@ == expected[i].1
}

proof fn lemma_messages_prefix(ms: Seq<JsonValue>, vars: Seq<(String, String)>, i: int)
    requires
        0 <= i <= ms.len(),
        forall|j: int| 0 <= j < i ==> #[trigger] spec_message_result(ms[j], j, vars) is Ok,
    ensures
        spec_messages_result(ms, vars, 0) == (match spec_messages_result(ms, vars, i) {
            Ok(rest) => Ok(Seq::new(i as nat, |j: int| spec_message_result(ms[j], j, vars)->Ok_0) + rest),
            Err(f) => Err(f),
        }),
    decreases i,
{
    if i > 0 {
        lemma_messages_prefix(ms, vars, i - 1);
        assert(spec_message_result(ms[i - 1], i - 1, vars) is Ok);
        match spec_messages_result(ms, vars, i) {
            Ok(rest) => {
                assert(Seq::new((i - 1) as nat, |j: int| spec_message_result(ms[j], j, vars)->Ok_0) + (
                seq![spec_message_result(ms[i - 1], i - 1, vars)->Ok_0] + rest) =~= Seq::new(
                    i as nat,
                    |j: int| spec_message_result(ms[j], j, vars)->Ok_0,
                ) + rest);
            },
            Err(f) => {},
        }
    } else {
        assert(Seq::new(0, |j: int| spec_message_result(ms[j], j, vars)->Ok_0) =~= Seq::<(Seq<char>, Seq<char>)>::empty());
        match spec_messages_result(ms, vars, 0) {
            Ok(rest) => {
                assert(Seq::<(Seq<char>, Seq<char>)>::empty() + rest =~= rest);
            },
            Err(f) => {},
        }
    }
}

/// Renders only verified `normal` string messages with `{{variable}}`
/// placeholders; `variables` are given in key order.
#[verifier::loop_isolation(false)]
pub fn render_normal_prompt(draft: &PromptDraft, variables: &Vec<(String, String)>) -> (r: Result<
    Vec<FornaxPromptMessage>,
    PromptRenderError,
>)
    requires
        spec_sorted_variables(variables@),
    ensures
        match spec_render_prompt(draft.value(), variables@) {
            Ok(expected) => r matches Ok(out) && spec_messages_match(out@, expected),
            Err(f) => r matches Err(e) && spec_render_error_is(e, f),
        },
{
    proof {
        reveal_strlit("detail");
        reveal_strlit("prompt_template");
        reveal_strlit("template_type");
        reveal_strlit("normal");
        reveal_strlit("variable_defs");
        reveal_strlit("messages");
    }
    let root = draft.as_value();
    let template = match root.get("detail") {
        Some(d) => d.get("prompt_template"),
        None => None,
    };
    let template = match template {
        Some(t) => t,
        None => return Err(PromptRenderError::UnsupportedTemplate),
    };
    if !template.is_object() {
        return Err(PromptRenderError::UnsupportedTemplate);
    }
    if !opt_str_is(template.get_str("template_type"), "normal") {
        return Err(PromptRenderError::UnsupportedTemplate);
    }
    let empty: Vec<JsonValue> = Vec::new();
    let defs: &Vec<JsonValue> = match template.get("variable_defs") {
        Some(JsonValue::Array(d)) => d,
        _ => &empty,
    };
    let mut i: usize = 0;
    while i < variables.len()
        invariant
            i <= variables.len(),
            spec_first_undeclared(variables@, defs@, 0) == spec_first_undeclared(variables@, defs@, i as int),
        decreases variables.len() - i,
    {
        if !declared(defs, variables[i].0.as_str()) {
            return Err(PromptRenderError::UnsupportedVariable(owned(variables[i].0.as_str())));
        }
        i += 1;
    }
    let messages = match template.get("messages") {
        Some(JsonValue::Array(ms)) => ms,
        _ => return Err(PromptRenderError::UnsupportedTemplate),
    };
    let mut out: Vec<FornaxPromptMessage> = Vec::new();
    let mut k: usize = 0;
    while k < messages.len()
        invariant
            k <= messages.len(),
            out.len() == k,
            forall|j: int| 0 <= j < k ==> #[trigger] spec_message_result(messages@[j], j, variables@) is Ok,
            forall|j: int| 0 <= j < k ==> {
                let x = #[trigger] out@[j];
                let e = spec_message_result(messages@[j], j, variables@)->Ok_0;
                x.role@ == e.0 && x.content@ == e.1
            },
        decreases messages.len() - k,
    {
        let m = render_message(&messages[k], k, variables);
        match m {
            Ok(x) => {
                out.push(x);
            },
            Err(e) => {
                proof {
                    lemma_messages_prefix(messages@, variables@, k as int);
                }
                return Err(e);
            },
        }
        k += 1;
    }
    proof {
        lemma_messages_prefix(messages@, variables@, k as int);
        let expected = Seq::new(k as nat, |j: int| spec_message_result(messages@[j], j, variables@)->Ok_0);
        assert(spec_messages_result(messages@, variables@, k as int) == Ok::<Seq<(Seq<char>, Seq<char>)>, (int, Seq<char>, int)>(Seq::empty()));
        assert(expected + Seq::<(Seq<char>, Seq<char>)>::empty() =~= expected);
        assert(spec_messages_match(out@, expected));
    }
    Ok(out)
}

} // verus!
