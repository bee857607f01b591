//! Typed failures at the `lark-cli` boundary.
use vstd::prelude::*;

use crate::integrations::process::ProcessError;
use crate::text::owned;

verus! {

#[derive(Clone, Debug, PartialEq, Eq)]
pub enum LarkCliError {
    UnsupportedVersion { actual: String },
    MalformedVersion,
    MissingAuthentication,
    MissingScope,
    InvalidResponse { message: String },
    InvalidRequest { message: String },
    SensitiveArgv,
    AmbiguousMutation,
    Process(ProcessError),
}

/// An invalid-request error carrying `message`.
pub fn invalid(message: &str) -> (e: LarkCliError)
    ensures
        e matches LarkCliError::InvalidRequest { message: m } && m@ == message@,
{
    LarkCliError::InvalidRequest { message: owned(message) }
}

} // verus!
