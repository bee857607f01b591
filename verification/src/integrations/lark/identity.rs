//! Server-issued Lark identities, validated by prefix and alphabet.
use vstd::prelude::*;

use crate::integrations::lark::error::invalid;
use crate::integrations::lark::error::LarkCliError;
use crate::text::chars_of;
use crate::text::spec_starts_with;
use crate::text::spec_word_chars;
use crate::text::starts_with;
use crate::text::word_chars_from;

verus! {

/// Identity used for one Lark CLI operation.
#[derive(Clone, Copy, Debug, PartialEq, Eq, Structural)]
pub enum LarkIdentity {
    User,
    Bot,
}

impl LarkIdentity {
    pub fn as_str(self) -> (r: &'static str)
        ensures
            r@ == (match self {
                LarkIdentity::User => "user"@,
                LarkIdentity::Bot => "bot"@,
            }),
    {
        match self {
            LarkIdentity::User => "user",
            LarkIdentity::Bot => "bot",
        }
    }
}

/// `value` is `prefix` followed by a non-empty run of ASCII letters, digits and `_`.
pub open spec fn spec_prefixed_id(value: Seq<char>, prefix: Seq<char>) -> bool {
    &&& spec_starts_with(value, prefix)
    &&& value.len() > prefix.len()
    &&& spec_word_chars(value.skip(prefix.len() as int))
}

/// A Lark thread id: `om_` (root message) or `omt_` (thread) followed by an id body.
pub open spec fn spec_thread_id(value: Seq<char>) -> bool {
    spec_prefixed_id(value, "om_"@) || spec_prefixed_id(value, "omt_"@)
}

fn check_prefixed(chars: &Vec<char>, prefix: &str) -> (r: bool)
    ensures
        r == spec_prefixed_id(chars@, prefix@),
{
    let n = chars_of(prefix).len();
    starts_with(chars, prefix) && chars.len() > n && word_chars_from(chars, n)
}

/// Lark user open id (`ou_…`).
#[derive(Debug, PartialEq, Eq)]
pub struct OpenId(String);

/// Lark chat id (`oc_…`).
#[derive(Debug, PartialEq, Eq)]
pub struct ChatId(String);

/// Lark message id (`om_…`).
#[derive(Debug, PartialEq, Eq)]
pub struct MessageId(String);

/// Server-issued Lark thread identity (`om_` root or `omt_` thread).
#[derive(Debug, PartialEq, Eq)]
pub struct ThreadId(String);

impl OpenId {
    pub closed spec fn view(&self) -> Seq<char> {
        self.0@
    }

    /// The text of every id passed its own `parse`.
    #[verifier::type_invariant]
    spec fn well_formed(&self) -> bool {
        spec_prefixed_id(self.0@, "ou_"@)
    }

    /// A copy of the identifier.
    pub fn duplicate(&self) -> (r: Self)
        ensures
            r.view() == self.view(),
    {
        proof {
            use_type_invariant(self);
        }
        OpenId(self.0.clone())
    }

    pub fn parse(value: String) -> (r: Result<Self, LarkCliError>)
        ensures
            match r {
                Ok(id) => spec_prefixed_id(value@, "ou_"@) && id.view() == value@,
                Err(e) => !spec_prefixed_id(value@, "ou_"@) && (e matches LarkCliError::InvalidRequest { message } && message@ == "invalid open_id"@),
            },
    {
        let chars = chars_of(value.as_str());
        if !check_prefixed(&chars, "ou_") {
            return Err(invalid("invalid open_id"));
        }
        Ok(OpenId(value))
    }

    pub fn as_str(&self) -> (r: &str)
        ensures
            r@ == self.view(),
            spec_prefixed_id(r@, "ou_"@),
    {
        proof {
            use_type_invariant(self);
        }
        self.0.as_str()
    }
}

impl From<OpenId> for String {
    fn from(value: OpenId) -> (r: String)
        ensures
            r@ == value.view(),
            spec_prefixed_id(r@, "ou_"@),
    {
        proof {
            use_type_invariant(&value);
        }
        value.0
    }
}

impl Clone for OpenId {
    fn clone(&self) -> (r: Self)
        ensures
            r.view() == self.view(),
    {
        self.duplicate()
    }
}

impl vstd::std_specs::convert::FromSpecImpl<OpenId> for String {
    open spec fn obeys_from_spec() -> bool {
        true
    }

    closed spec fn from_spec(v: OpenId) -> String {
        v.0
    }
}

impl ChatId {
    pub closed spec fn view(&self) -> Seq<char> {
        self.0@
    }

    /// The text of every id passed its own `parse`.
    #[verifier::type_invariant]
    spec fn well_formed(&self) -> bool {
        spec_prefixed_id(self.0@, "oc_"@)
    }

    /// A copy of the identifier.
    pub fn duplicate(&self) -> (r: Self)
        ensures
            r.view() == self.view(),
    {
        proof {
            use_type_invariant(self);
        }
        ChatId(self.0.clone())
    }

    pub fn parse(value: String) -> (r: Result<Self, LarkCliError>)
        ensures
            match r {
                Ok(id) => spec_prefixed_id(value@, "oc_"@) && id.view() == value@,
                Err(e) => !spec_prefixed_id(value@, "oc_"@) && (e matches LarkCliError::InvalidRequest { message } && message@ == "invalid chat_id"@),
            },
    {
        let chars = chars_of(value.as_str());
        if !check_prefixed(&chars, "oc_") {
            return Err(invalid("invalid chat_id"));
        }
        Ok(ChatId(value))
    }

    pub fn as_str(&self) -> (r: &str)
        ensures
            r@ == self.view(),
            spec_prefixed_id(r@, "oc_"@),
    {
        proof {
            use_type_invariant(self);
        }
        self.0.as_str()
    }
}

impl From<ChatId> for String {
    fn from(value: ChatId) -> (r: String)
        ensures
            r@ == value.view(),
            spec_prefixed_id(r@, "oc_"@),
    {
        proof {
            use_type_invariant(&value);
        }
        value.0
    }
}

impl Clone for ChatId {
    fn clone(&self) -> (r: Self)
        ensures
            r.view() == self.view(),
    {
        self.duplicate()
    }
}

impl vstd::std_specs::convert::FromSpecImpl<ChatId> for String {
    open spec fn obeys_from_spec() -> bool {
        true
    }

    closed spec fn from_spec(v: ChatId) -> String {
        v.0
    }
}

impl MessageId {
    pub closed spec fn view(&self) -> Seq<char> {
        self.0@
    }

    /// The text of every id passed its own `parse`.
    #[verifier::type_invariant]
    spec fn well_formed(&self) -> bool {
        spec_prefixed_id(self.0@, "om_"@)
    }

    /// A copy of the identifier.
    pub fn duplicate(&self) -> (r: Self)
        ensures
            r.view() == self.view(),
    {
        proof {
            use_type_invariant(self);
        }
        MessageId(self.0.clone())
    }

    pub fn parse(value: String) -> (r: Result<Self, LarkCliError>)
        ensures
            match r {
                Ok(id) => spec_prefixed_id(value@, "om_"@) && id.view() == value@,
                Err(e) => !spec_prefixed_id(value@, "om_"@) && (e matches LarkCliError::InvalidRequest { message } && message@ == "invalid message_id"@),
            },
    {
        let chars = chars_of(value.as_str());
        if !check_prefixed(&chars, "om_") {
            return Err(invalid("invalid message_id"));
        }
        Ok(MessageId(value))
    }

    pub fn as_str(&self) -> (r: &str)
        ensures
            r@ == self.view(),
            spec_prefixed_id(r@, "om_"@),
    {
        proof {
            use_type_invariant(self);
        }
        self.0.as_str()
    }
}

impl From<MessageId> for String {
    fn from(value: MessageId) -> (r: String)
        ensures
            r@ == value.view(),
            spec_prefixed_id(r@, "om_"@),
    {
        proof {
            use_type_invariant(&value);
        }
        value.0
    }
}

impl Clone for MessageId {
    fn clone(&self) -> (r: Self)
        ensures
            r.view() == self.view(),
    {
        self.duplicate()
    }
}

impl vstd::std_specs::convert::FromSpecImpl<MessageId> for String {
    open spec fn obeys_from_spec() -> bool {
        true
    }

    closed spec fn from_spec(v: MessageId) -> String {
        v.0
    }
}

impl ThreadId {
    pub closed spec fn view(&self) -> Seq<char> {
        self.0@
    }

    /// The text of every id passed its own `parse`.
    #[verifier::type_invariant]
    spec fn well_formed(&self) -> bool {
        spec_thread_id(self.0@)
    }

    /// A copy of the identifier.
    pub fn duplicate(&self) -> (r: Self)
        ensures
            r.view() == self.view(),
    {
        proof {
            use_type_invariant(self);
        }
        ThreadId(self.0.clone())
    }

    pub fn parse(value: String) -> (r: Result<Self, LarkCliError>)
        ensures
            match r {
                Ok(id) => spec_thread_id(value@) && id.view() == value@,
                Err(e) => !spec_thread_id(value@) && (e matches LarkCliError::InvalidRequest { message } && message@ == "invalid thread_id"@),
            },
    {
        let chars = chars_of(value.as_str());
        if !(check_prefixed(&chars, "om_") || check_prefixed(&chars, "omt_")) {
            return Err(invalid("invalid thread_id"));
        }
        Ok(ThreadId(value))
    }

    pub fn as_str(&self) -> (r: &str)
        ensures
            r@ == self.view(),
            spec_thread_id(r@),
    {
        proof {
            use_type_invariant(self);
        }
        self.0.as_str()
    }
}

impl From<ThreadId> for String {
    fn from(value: ThreadId) -> (r: String)
        ensures
            r@ == value.view(),
            spec_thread_id(r@),
    {
        proof {
            use_type_invariant(&value);
        }
        value.0
    }
}

impl Clone for ThreadId {
    fn clone(&self) -> (r: Self)
        ensures
            r.view() == self.view(),
    {
        self.duplicate()
    }
}

impl vstd::std_specs::convert::FromSpecImpl<ThreadId> for String {
    open spec fn obeys_from_spec() -> bool {
        true
    }

    closed spec fn from_spec(v: ThreadId) -> String {
        v.0
    }
}

} // verus!
