//! Typed failures at the `fornax-cli` boundary.
use vstd::prelude::*;

use crate::integrations::lark::cli::spec_mentions;
use crate::integrations::process::ProcessError;
use crate::text::contains_sub;
use crate::text::to_ascii_lowercase;

verus! {

#[derive(Clone, Debug, PartialEq, Eq)]
pub enum FornaxCliError {
    UnsupportedVersion { actual: String, expected: &'static str },
    MalformedVersion,
    MissingAuthentication,
    MissingWorkspace,
    InvalidResponse { message: String },
    InvalidRequest { message: String },
    DraftFile { message: String },
    Process(ProcessError),
}

pub open spec fn spec_invalid_request(e: FornaxCliError, message: Seq<char>) -> bool {
    e matches FornaxCliError::InvalidRequest { message: m } && m@ == message
}

/// How a failed `fornax-cli` exit is reported: missing authentication,
/// missing workspace, or the process failure itself.
pub open spec fn spec_classify(error: ProcessError) -> FornaxCliError {
    match error {
        ProcessError::Exit { diagnostic, .. } => if spec_mentions(diagnostic@, "auth"@) || spec_mentions(
            diagnostic@,
            "login"@,
        ) || spec_mentions(diagnostic@, "credential"@) || spec_mentions(diagnostic@, "unauthorized"@) {
            FornaxCliError::MissingAuthentication
        } else if spec_mentions(diagnostic@, "workspace"@) || spec_mentions(diagnostic@, "space id"@) {
            FornaxCliError::MissingWorkspace
        } else {
            FornaxCliError::Process(error)
        },
        _ => FornaxCliError::Process(error),
    }
}

pub fn classify_process(error: ProcessError) -> (r: FornaxCliError)
    ensures
        r == spec_classify(error),
{
    let lowered = match &error {
        ProcessError::Exit { diagnostic, .. } => Some(to_ascii_lowercase(diagnostic.as_str())),
        _ => None,
    };
    match lowered {
        Some(d) => {
            let d = d.as_str();
            if contains_sub(d, "auth") || contains_sub(d, "login") || contains_sub(d, "credential")
                || contains_sub(d, "unauthorized") {
                FornaxCliError::MissingAuthentication
            } else if contains_sub(d, "workspace") || contains_sub(d, "space id") {
                FornaxCliError::MissingWorkspace
            } else {
                FornaxCliError::Process(error)
            }
        },
        None => FornaxCliError::Process(error),
    }
}

} // verus!
