//! The `lark-cli` boundary: version pinning, failure classification,
//! response envelopes and message argument vectors.
use vstd::prelude::*;

use crate::integrations::lark::error::invalid;
use crate::integrations::lark::error::LarkCliError;
use crate::integrations::lark::identity::ChatId;
use crate::integrations::lark::identity::MessageId;
use crate::integrations::lark::identity::ThreadId;
use crate::integrations::lark::listing::spec_invalid_request;
use crate::integrations::lark::types::MessageTarget;
use crate::integrations::process::ProcessError;
use crate::integrations::version::read_version;
use crate::integrations::version::spec_parts;
use crate::integrations::version::spec_read_version;
use crate::integrations::version::spec_version_text;
use crate::integrations::version::SemverParts;
use crate::json::JsonValue;
use crate::text::chars_of;
use crate::text::contains_sub;
use crate::text::owned;
use crate::text::spec_contains_sub;
use crate::text::spec_lowercase;
use crate::text::to_ascii_lowercase;
use crate::text::str_eq;

verus! {

/// Parsed, pinned `lark-cli` version.
#[derive(Clone, Debug, PartialEq, Eq)]
pub struct LarkCliVersion(SemverParts);

impl LarkCliVersion {
    pub closed spec fn parts(&self) -> (u64, u64, u64, Seq<char>, Seq<char>) {
        spec_parts(self.0)
    }

    /// Accepts only `lark-cli version 1.0.0`.
    pub fn parse(stdout: &[u8]) -> (r: Result<Self, LarkCliError>)
        ensures
            match spec_read_version(stdout@, "lark-cli version "@) {
                None => r == Err::<Self, LarkCliError>(LarkCliError::MalformedVersion),
                Some(p) => if p == (1u64, 0u64, 0u64, Seq::<char>::empty(), Seq::<char>::empty()) {
                    r is Ok && r->Ok_0.parts() == p
                } else {
                    r is Err && (r->Err_0 matches LarkCliError::UnsupportedVersion { actual } && actual@
                        == spec_version_text(p))
                },
            },
    {
        let parts = match read_version(stdout, "lark-cli version ") {
            Some(p) => p,
            None => return Err(LarkCliError::MalformedVersion),
        };
        if !parts.is_exactly(1, 0, 0) {
            return Err(LarkCliError::UnsupportedVersion { actual: parts.to_text() });
        }
        Ok(LarkCliVersion(parts))
    }

    pub fn as_version(&self) -> (r: &SemverParts)
        ensures
            spec_parts(*r) == self.parts(),
    {
        &self.0
    }
}

pub open spec fn spec_mentions(d: Seq<char>, word: Seq<char>) -> bool {
    spec_contains_sub(spec_lowercase(d), word)
}

/// How a failed `lark-cli` exit is reported: missing scope or permission,
/// missing authentication, or the process failure itself.
pub open spec fn spec_classify(error: ProcessError) -> LarkCliError {
    match error {
        ProcessError::Exit { diagnostic, .. } => if spec_mentions(diagnostic@, "permission"@)
            || spec_mentions(diagnostic@, "scope"@) || spec_mentions(diagnostic@, "99991672"@)
            || spec_mentions(diagnostic@, "99991679"@) {
            LarkCliError::MissingScope
        } else if spec_mentions(diagnostic@, "auth"@) || spec_mentions(diagnostic@, "login"@)
            || spec_mentions(diagnostic@, "unauthorized"@) || spec_mentions(diagnostic@, "credential"@) {
            LarkCliError::MissingAuthentication
        } else {
            LarkCliError::Process(error)
        },
        _ => LarkCliError::Process(error),
    }
}

pub fn classify_process(error: ProcessError) -> (r: LarkCliError)
    ensures
        r == spec_classify(error),
{
    let lowered = match &error {
        ProcessError::Exit { diagnostic, .. } => Some(to_ascii_lowercase(diagnostic.as_str())),
        _ => None,
    };
    match lowered {
        Some(d) => {
            let d = d.as_str();
            if contains_sub(d, "permission") || contains_sub(d, "scope") || contains_sub(d, "99991672")
                || contains_sub(d, "99991679") {
                LarkCliError::MissingScope
            } else if contains_sub(d, "auth") || contains_sub(d, "login") || contains_sub(d, "unauthorized")
                || contains_sub(d, "credential") {
                LarkCliError::MissingAuthentication
            } else {
                LarkCliError::Process(error)
            }
        },
        None => LarkCliError::Process(error),
    }
}

/// The payload of a response: the `data` member of an object that has one
/// (null when it is absent), else the whole value.
pub fn unwrap_data(value: JsonValue) -> (r: JsonValue)
    ensures
        match value {
            JsonValue::Object(members) => match crate::json::spec_member_from(members@, "data"@, 0) {
                Some(d) => r == d,
                None => r == value,
            },
            _ => r == value,
        },
{
    proof {
        reveal_strlit("data");
    }
    if value.get("data").is_none() {
        return value;
    }
    match value {
        JsonValue::Object(members) => {
            let ghost all = members@;
            let mut rest = members;
            let mut i: usize = 0;
            let n = rest.len();
            while rest.len() > 0
                invariant
                    i <= n == all.len(),
                    rest@ == all.skip(i as int),
                    rest@.len() + i == n,
                    crate::json::spec_member_from(all, "data"@, 0) is Some,
                    value matches JsonValue::Object(m) && m@ == all,
                    crate::json::spec_member_from(all, "data"@, 0) == crate::json::spec_member_from(all, "data"@, i as int),
                decreases rest.len(),
            {
                let (k, v) = rest.remove(0);
                assert((k, v) == all[i as int]);
                if str_eq(k.as_str(), "data") {
                    assert(crate::json::spec_member_from(all, "data"@, i as int) == Some(all[i as int].1));
                    return v;
                }
                i += 1;
                assert(rest@ == all.skip(i as int));
            }
            JsonValue::Null
        },
        other => other,
    }
}

/// A bounded parser message: at most 256 characters.
pub fn bounded(message: &str) -> (r: String)
    ensures
        r@ == crate::text::spec_take_chars(message@, 256),
{
    crate::text::take_chars(message, 256)
}

// ---------------------------------------------------------------- messages

/// 1 to 128 ASCII letters, digits, `-` or `_`.
pub open spec fn spec_valid_key(key: Seq<char>) -> bool {
    0 < key.len() <= 128 && forall|i: int| 0 <= i < key.len() ==> (crate::text::spec_ascii_alnum(
        #[trigger] key[i],
    ) || key[i] == '-' || key[i] == '_')
}

/// A message idempotency key must be short and plain.
pub fn validate_key(key: &str) -> (r: Result<(), LarkCliError>)
    ensures
        r is Ok <==> spec_valid_key(key@),
        r is Err ==> spec_invalid_request(r->Err_0, "invalid message idempotency key"@),
{
    let cs = chars_of(key);
    if cs.len() == 0 || cs.len() > 128 {
        return Err(invalid("invalid message idempotency key"));
    }
    let mut i: usize = 0;
    while i < cs.len()
        invariant
            i <= cs.len(),
            cs@ == key@,
            forall|j: int| 0 <= j < i ==> (crate::text::spec_ascii_alnum(#[trigger] cs@[j]) || cs@[j] == '-'
                || cs@[j] == '_'),
        decreases cs.len() - i,
    {
        let c = cs[i];
        if !(crate::text::is_ascii_alnum(c) || c == '-' || c == '_') {
            return Err(invalid("invalid message idempotency key"));
        }
        i += 1;
    }
    Ok(())
}

} // verus!
