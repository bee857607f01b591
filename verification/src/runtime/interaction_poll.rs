//! Polling a chat for an interaction: the message that carries the request
//! marker, the text of a listed message, and the event a listed reply becomes.
use vstd::prelude::*;

use crate::integrations::lark::events::LarkEvent;
use crate::integrations::lark::events::parse_i64;
use crate::integrations::lark::events::spec_parse_i64;
use crate::integrations::lark::identity::ChatId;
use crate::integrations::lark::identity::OpenId;
use crate::integrations::lark::identity::spec_prefixed_id;
use crate::integrations::lark::messages::LarkMessage;
use crate::json::JsonValue;
use crate::json::spec_get;
use crate::runtime::interaction::marker;
use crate::runtime::interaction::spec_marker;
use crate::text::contains_sub;
use crate::text::owned;
use crate::text::push_str;
use crate::text::spec_contains_sub;

verus! {

/// Pages of chat messages read at most per poll.
pub const MAX_POLL_PAGES: usize = 10;

/// The text of a message: its `text` member, or its content when that is a
/// string, else empty.
pub open spec fn spec_message_text(content: JsonValue) -> Seq<char> {
    match spec_get(content, "text"@) {
        Some(JsonValue::Str(t)) => t@,
        _ => match content {
            JsonValue::Str(s) => s@,
            _ => Seq::empty(),
        },
    }
}

pub fn message_text(content: &JsonValue) -> (r: String)
    ensures
        r@ == spec_message_text(*content),
{
    match content.get("text") {
        Some(JsonValue::Str(t)) => t.clone(),
        _ => match content {
            JsonValue::Str(s) => s.clone(),
            _ => String::new(),
        },
    }
}

/// The first listed message whose text carries the marker of `token`.
pub fn find_marked_message(messages: &Vec<LarkMessage>, token: &str) -> (r: Option<usize>)
    ensures
        match r {
            Some(i) => i < messages@.len() && spec_contains_sub(
                spec_message_text(messages@[i as int].content),
                spec_marker(token@),
            ) && forall|j: int|
                0 <= j < i ==> !spec_contains_sub(
                    spec_message_text((#[trigger] messages@[j]).content),
                    spec_marker(token@),
                ),
            None => forall|j: int|
                0 <= j < messages@.len() ==> !spec_contains_sub(
                    spec_message_text((#[trigger] messages@[j]).content),
                    spec_marker(token@),
                ),
        },
{
    let m = marker(token);
    let mut i: usize = 0;
    while i < messages.len()
        invariant
            i <= messages@.len(),
            m@ == spec_marker(token@),
            forall|j: int|
                0 <= j < i ==> !spec_contains_sub(
                    spec_message_text((#[trigger] messages@[j]).content),
                    spec_marker(token@),
                ),
        decreases messages.len() - i,
    {
        let text = message_text(&messages[i].content);
        if contains_sub(text.as_str(), m.as_str()) {
            return Some(i);
        }
        i += 1;
    }
    None
}

/// When a listed message was created: its creation time, or zero when that
/// is not an integer.
pub fn created_at_ms(create_time: &str) -> (r: i64)
    ensures
        r == match spec_parse_i64(create_time@) {
            Some(n) => n,
            None => 0,
        },
{
    match parse_i64(create_time) {
        Some(n) => n,
        None => 0,
    }
}

/// The sender's open id: the `open_id` member, else the `id` member, when
/// it is a string.
pub open spec fn spec_sender_text(sender: JsonValue) -> Option<Seq<char>> {
    let member = match spec_get(sender, "open_id"@) {
        Some(v) => Some(v),
        None => spec_get(sender, "id"@),
    };
    match member {
        Some(JsonValue::Str(s)) => Some(s@),
        _ => None,
    }
}

fn sender_text(sender: &JsonValue) -> (r: Option<String>)
    ensures
        match r {
            Some(s) => spec_sender_text(*sender) == Some(s@),
            None => spec_sender_text(*sender) is None,
        },
{
    let member = match sender.get("open_id") {
        Some(v) => Some(v),
        None => sender.get("id"),
    };
    match member {
        Some(JsonValue::Str(s)) => Some(s.clone()),
        _ => None,
    }
}

/// A listed message as the event it answers with: `None` when its sender
/// has no valid open id.
pub fn poll_event(message: &LarkMessage, chat_id: &ChatId, created_at_ms: i64) -> (r: Option<LarkEvent>)
    ensures
        match spec_sender_text(message.sender) {
            Some(s) if spec_prefixed_id(s, "ou_"@) => r matches Some(ev) && {
                &&& ev.event_id@ == "poll:"@ + message.message_id.view()
                &&& ev.event_type@ == "im.message.receive_v1"@
                &&& ev.created_at_ms == created_at_ms
                &&& ev.message_id.view() == message.message_id.view()
                &&& ev.chat_id.view() == chat_id.view()
                &&& match (ev.thread_id, message.thread_id) {
                    (Some(a), Some(b)) => a@ == b.view(),
                    (None, None) => true,
                    _ => false,
                }
                &&& ev.sender_id.view() == s
                &&& ev.message_type == message.msg_type
                &&& ev.text@ == spec_message_text(message.content)
            },
            _ => r is None,
        },
{
    let sender = match sender_text(&message.sender) {
        Some(s) => s,
        None => return None,
    };
    let sender_id = match OpenId::parse(sender) {
        Ok(id) => id,
        Err(_) => return None,
    };
    let mut event_id = owned("poll:");
    push_str(&mut event_id, message.message_id.as_str());
    let thread_id = match &message.thread_id {
        Some(t) => Some(owned(t.as_str())),
        None => None,
    };
    Some(
        LarkEvent {
            event_id,
            event_type: owned("im.message.receive_v1"),
            created_at_ms,
            message_id: message.message_id.duplicate(),
            chat_id: chat_id.duplicate(),
            thread_id,
            sender_id,
            message_type: message.msg_type.clone(),
            text: message_text(&message.content),
        },
    )
}

} // verus!
