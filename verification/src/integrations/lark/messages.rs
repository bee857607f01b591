//! Sending, replying to and listing IM messages through `lark-cli`: the
//! argument vectors, and the checks made before anything is sent.
use vstd::prelude::*;

use crate::args::push_arg;
use crate::args::push_flag;
use crate::args::spec_option;
use crate::integrations::lark::cli::spec_valid_key;
use crate::integrations::lark::cli::validate_key;
use crate::integrations::lark::error::invalid;
use crate::integrations::lark::error::LarkCliError;
use crate::integrations::lark::identity::ChatId;
use crate::integrations::lark::identity::MessageId;
use crate::integrations::lark::identity::ThreadId;
use crate::integrations::lark::types::ContentSensitivity;
use crate::integrations::lark::types::MessageTarget;
use crate::json::JsonValue;
use crate::runtime::artifacts::spec_valid_relative_path;
use crate::runtime::artifacts::validate_relative_path;
use crate::text::chars_of;
use crate::text::owned;
use crate::text::spec_strs;

verus! {

/// What a message carries: text, a rich post (its JSON text), or an
/// artifact file by its path relative to the CLI's working directory.
#[derive(Clone, Debug, PartialEq, Eq)]
pub enum MessageBody {
    Text(String),
    RichPost { content: String },
    ArtifactFile(String),
}

#[derive(Clone, Debug, PartialEq, Eq)]
pub struct MessageSendRequest {
    pub target: MessageTarget,
    pub body: MessageBody,
    pub idempotency_key: String,
    pub sensitivity: ContentSensitivity,
}

#[derive(Clone, Debug, PartialEq, Eq)]
pub struct MessageReplyRequest {
    pub message_id: MessageId,
    pub body: MessageBody,
    pub in_thread: bool,
    pub idempotency_key: String,
    pub sensitivity: ContentSensitivity,
}

/// One listed message.
#[derive(Debug, PartialEq)]
pub struct LarkMessage {
    pub message_id: MessageId,
    pub msg_type: String,
    pub create_time: String,
    pub sender: JsonValue,
    pub content: JsonValue,
    pub deleted: bool,
    pub updated: bool,
    pub thread_id: Option<ThreadId>,
}

#[derive(Debug, PartialEq)]
pub struct MessagePage {
    pub messages: Vec<LarkMessage>,
    pub total: u64,
    pub has_more: bool,
    pub page_token: Option<String>,
}

/// What is known of an artifact file: `None` when it does not exist.
#[derive(Clone, Copy, Debug, PartialEq, Eq, Structural)]
pub struct FileFacts {
    pub is_file: bool,
    pub is_symlink: bool,
}

/// One `lark-cli` invocation: its arguments and the values to redact from
/// its diagnostics.
#[derive(Clone, Debug, PartialEq, Eq)]
pub struct LarkInvocation {
    pub args: Vec<String>,
    pub redactions: Vec<String>,
}

pub open spec fn spec_invalid(r: Result<LarkInvocation, LarkCliError>, m: Seq<char>) -> bool {
    r matches Err(LarkCliError::InvalidRequest { message }) && message@ == m
}

/// Why a body is refused, given what is known of its artifact file.
pub open spec fn spec_body_error(body: MessageBody, file: Option<FileFacts>) -> Option<Seq<char>> {
    match body {
        MessageBody::Text(t) => if t@.len() == 0 {
            Some("message text must not be empty"@)
        } else {
            None
        },
        MessageBody::RichPost { .. } => None,
        MessageBody::ArtifactFile(p) => if !spec_valid_relative_path(p@) {
            Some("artifact file must be a normalized relative path"@)
        } else {
            match file {
                None => Some("artifact file does not exist"@),
                Some(f) => if !f.is_file || f.is_symlink {
                    Some("artifact file must be a regular non-symlink file"@)
                } else {
                    None
                },
            }
        },
    }
}

/// The arguments a body adds, and what to redact.
pub open spec fn spec_body_args(body: MessageBody) -> (Seq<Seq<char>>, Seq<Seq<char>>) {
    match body {
        MessageBody::Text(t) => (seq!["--text"@, t@], seq![t@]),
        MessageBody::RichPost { content } => (seq!["--msg-type"@, "post"@, "--content"@, content@], seq![content@]),
        MessageBody::ArtifactFile(p) => (seq!["--file"@, p@], Seq::empty()),
    }
}

fn push_body(args: &mut Vec<String>, body: &MessageBody, file: Option<FileFacts>) -> (r: Result<Vec<String>, LarkCliError>)
    ensures
        match spec_body_error(*body, file) {
            Some(m) => r matches Err(LarkCliError::InvalidRequest { message }) && message@ == m,
            None => r matches Ok(red) && spec_strs(final(args)@) == spec_strs(old(args)@) + spec_body_args(*body).0
                && spec_strs(red@) == spec_body_args(*body).1,
        },
{
    match body {
        MessageBody::Text(text) => {
            if chars_of(text.as_str()).len() == 0 {
                return Err(invalid("message text must not be empty"));
            }
            push_flag(args, "--text", text.as_str());
            let mut red: Vec<String> = Vec::new();
            red.push(text.clone());
            assert(spec_strs(red@) =~= seq![text@]);
            Ok(red)
        },
        MessageBody::RichPost { content } => {
            push_flag(args, "--msg-type", "post");
            push_flag(args, "--content", content.as_str());
            let mut red: Vec<String> = Vec::new();
            red.push(content.clone());
            assert(spec_strs(red@) =~= seq![content@]);
            assert(spec_strs(args@) =~= spec_strs(old(args)@) + seq!["--msg-type"@, "post"@, "--content"@, content@]);
            Ok(red)
        },
        MessageBody::ArtifactFile(path) => {
            if validate_relative_path(path.as_str()).is_err() {
                return Err(invalid("artifact file must be a normalized relative path"));
            }
            match file {
                None => return Err(invalid("artifact file does not exist")),
                Some(f) => if !f.is_file || f.is_symlink {
                    return Err(invalid("artifact file must be a regular non-symlink file"));
                },
            }
            push_flag(args, "--file", path.as_str());
            let red: Vec<String> = Vec::new();
            assert(spec_strs(red@) =~= Seq::<Seq<char>>::empty());
            Ok(red)
        },
    }
}

pub open spec fn spec_target_args(target: MessageTarget) -> Seq<Seq<char>> {
    match target {
        MessageTarget::Chat(c) => seq!["--chat-id"@, c.view()],
        MessageTarget::User(u) => seq!["--user-id"@, u.view()],
    }
}

/// `im +messages-send --as bot <target> <body> --idempotency-key K --format json`,
/// refused for sensitive content, a malformed key or an unusable body.
pub fn send_invocation(request: &MessageSendRequest, file: Option<FileFacts>) -> (r: Result<LarkInvocation, LarkCliError>)
    ensures
        request.sensitivity == ContentSensitivity::Sensitive ==> r == Err::<LarkInvocation, LarkCliError>(
            LarkCliError::SensitiveArgv,
        ),
        request.sensitivity == ContentSensitivity::NonSensitive && !spec_valid_key(request.idempotency_key@) ==> spec_invalid(
            r,
            "invalid message idempotency key"@,
        ),
        request.sensitivity == ContentSensitivity::NonSensitive && spec_valid_key(request.idempotency_key@) ==> match spec_body_error(
            request.body,
            file,
        ) {
            Some(m) => spec_invalid(r, m),
            None => r matches Ok(inv) && spec_strs(inv.args@) == seq!["im"@, "+messages-send"@, "--as"@, "bot"@]
                + spec_target_args(request.target) + spec_body_args(request.body).0 + seq![
                "--idempotency-key"@,
                request.idempotency_key@,
                "--format"@,
                "json"@,
            ] && spec_strs(inv.redactions@) == spec_body_args(request.body).1,
        },
{
    request.sensitivity.require_argv_safe()?;
    validate_key(request.idempotency_key.as_str())?;
    let mut args: Vec<String> = Vec::new();
    push_arg(&mut args, "im");
    push_arg(&mut args, "+messages-send");
    push_arg(&mut args, "--as");
    push_arg(&mut args, "bot");
    match &request.target {
        MessageTarget::Chat(chat) => push_flag(&mut args, "--chat-id", chat.as_str()),
        MessageTarget::User(user) => push_flag(&mut args, "--user-id", user.as_str()),
    }
    let redactions = push_body(&mut args, &request.body, file)?;
    push_flag(&mut args, "--idempotency-key", request.idempotency_key.as_str());
    push_flag(&mut args, "--format", "json");
    assert(spec_strs(args@) =~= seq!["im"@, "+messages-send"@, "--as"@, "bot"@] + spec_target_args(request.target)
        + spec_body_args(request.body).0 + seq!["--idempotency-key"@, request.idempotency_key@, "--format"@, "json"@]);
    Ok(LarkInvocation { args, redactions })
}

/// `im +messages-reply --as bot --message-id M <body> [--reply-in-thread]
/// --idempotency-key K --format json`, with the same refusals as sending.
pub fn reply_invocation(request: &MessageReplyRequest, file: Option<FileFacts>) -> (r: Result<LarkInvocation, LarkCliError>)
    ensures
        request.sensitivity == ContentSensitivity::Sensitive ==> r == Err::<LarkInvocation, LarkCliError>(
            LarkCliError::SensitiveArgv,
        ),
        request.sensitivity == ContentSensitivity::NonSensitive && !spec_valid_key(request.idempotency_key@) ==> spec_invalid(
            r,
            "invalid message idempotency key"@,
        ),
        request.sensitivity == ContentSensitivity::NonSensitive && spec_valid_key(request.idempotency_key@) ==> match spec_body_error(
            request.body,
            file,
        ) {
            Some(m) => spec_invalid(r, m),
            None => r matches Ok(inv) && spec_strs(inv.args@) == seq![
                "im"@,
                "+messages-reply"@,
                "--as"@,
                "bot"@,
                "--message-id"@,
                request.message_id.view(),
            ] + spec_body_args(request.body).0 + (if request.in_thread {
                seq!["--reply-in-thread"@]
            } else {
                Seq::empty()
            }) + seq!["--idempotency-key"@, request.idempotency_key@, "--format"@, "json"@] && spec_strs(
                inv.redactions@,
            ) == spec_body_args(request.body).1,
        },
{
    request.sensitivity.require_argv_safe()?;
    validate_key(request.idempotency_key.as_str())?;
    let mut args: Vec<String> = Vec::new();
    push_arg(&mut args, "im");
    push_arg(&mut args, "+messages-reply");
    push_arg(&mut args, "--as");
    push_arg(&mut args, "bot");
    push_flag(&mut args, "--message-id", request.message_id.as_str());
    let redactions = push_body(&mut args, &request.body, file)?;
    let ghost mid = spec_strs(args@);
    if request.in_thread {
        push_arg(&mut args, "--reply-in-thread");
    }
    assert(spec_strs(args@) =~= mid + (if request.in_thread {
        seq!["--reply-in-thread"@]
    } else {
        Seq::<Seq<char>>::empty()
    }));
    push_flag(&mut args, "--idempotency-key", request.idempotency_key.as_str());
    push_flag(&mut args, "--format", "json");
    assert(spec_strs(args@) =~= seq!["im"@, "+messages-reply"@, "--as"@, "bot"@, "--message-id"@, request.message_id.view()]
        + spec_body_args(request.body).0 + (if request.in_thread {
        seq!["--reply-in-thread"@]
    } else {
        Seq::<Seq<char>>::empty()
    }) + seq!["--idempotency-key"@, request.idempotency_key@, "--format"@, "json"@]);
    Ok(LarkInvocation { args, redactions })
}

pub open spec fn spec_list_args(command: Seq<char>, flag: Seq<char>, id: Seq<char>, page_token: Option<Seq<char>>) -> Seq<
    Seq<char>,
> {
    seq!["im"@, command, "--as"@, "bot"@, flag, id, "--sort"@, "asc"@, "--page-size"@, "50"@] + spec_option(
        "--page-token"@,
        page_token,
    ) + seq!["--format"@, "json"@]
}

fn list_args(command: &str, flag: &str, id: &str, page_token: Option<&str>) -> (r: Vec<String>)
    ensures
        spec_strs(r@) == spec_list_args(command@, flag@, id@, match page_token { Some(t) => Some(t@), None => None }),
{
    let mut args: Vec<String> = Vec::new();
    push_arg(&mut args, "im");
    push_arg(&mut args, command);
    push_arg(&mut args, "--as");
    push_arg(&mut args, "bot");
    push_flag(&mut args, flag, id);
    push_flag(&mut args, "--sort", "asc");
    push_flag(&mut args, "--page-size", "50");
    let ghost mid = spec_strs(args@);
    match page_token {
        Some(t) => push_flag(&mut args, "--page-token", t),
        None => {},
    }
    assert(spec_strs(args@) =~= mid + spec_option("--page-token"@, match page_token { Some(t) => Some(t@), None => None }));
    push_flag(&mut args, "--format", "json");
    assert(spec_strs(args@) =~= spec_list_args(command@, flag@, id@, match page_token { Some(t) => Some(t@), None => None }));
    args
}

/// A page of a chat's messages, oldest first, fifty at a time.
pub fn chat_messages_args(chat_id: &ChatId, page_token: Option<&str>) -> (r: Vec<String>)
    ensures
        spec_strs(r@) == spec_list_args(
            "+chat-messages-list"@,
            "--chat-id"@,
            chat_id.view(),
            match page_token { Some(t) => Some(t@), None => None },
        ),
{
    list_args("+chat-messages-list", "--chat-id", chat_id.as_str(), page_token)
}

/// A page of a thread's messages, oldest first, fifty at a time.
pub fn thread_messages_args(thread_id: &ThreadId, page_token: Option<&str>) -> (r: Vec<String>)
    ensures
        spec_strs(r@) == spec_list_args(
            "+threads-messages-list"@,
            "--thread"@,
            thread_id.view(),
            match page_token { Some(t) => Some(t@), None => None },
        ),
{
    list_args("+threads-messages-list", "--thread", thread_id.as_str(), page_token)
}

} // verus!
