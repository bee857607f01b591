//! The pinned `fornax-cli` build and what it can do.
use vstd::prelude::*;

use crate::integrations::fornax::error::FornaxCliError;
use crate::integrations::version::read_version;
use crate::integrations::version::spec_parts;
use crate::integrations::version::spec_read_version;
use crate::integrations::version::spec_version_text;
use crate::integrations::version::SemverParts;

verus! {

/// Parsed, pinned `fornax-cli` version.
#[derive(Clone, Debug, PartialEq, Eq)]
pub struct FornaxCliVersion(SemverParts);

impl FornaxCliVersion {
    pub closed spec fn parts(&self) -> (u64, u64, u64, Seq<char>, Seq<char>) {
        spec_parts(self.0)
    }

    /// Accepts only `fornax-cli v0.0.51`.
    pub fn parse(stdout: &[u8]) -> (r: Result<Self, FornaxCliError>)
        ensures
            match spec_read_version(stdout@, "fornax-cli v"@) {
                None => r == Err::<Self, FornaxCliError>(FornaxCliError::MalformedVersion),
                Some(p) => if p == (0u64, 0u64, 51u64, Seq::<char>::empty(), Seq::<char>::empty()) {
                    r is Ok && r->Ok_0.parts() == p
                } else {
                    r is Err && (r->Err_0 matches FornaxCliError::UnsupportedVersion { actual, expected }
                        && actual@ == spec_version_text(p) && expected@ == "0.0.51"@)
                },
            },
    {
        let parts = match read_version(stdout, "fornax-cli v") {
            Some(p) => p,
            None => return Err(FornaxCliError::MalformedVersion),
        };
        if !parts.is_exactly(0, 0, 51) {
            return Err(FornaxCliError::UnsupportedVersion { actual: parts.to_text(), expected: "0.0.51" });
        }
        Ok(FornaxCliVersion(parts))
    }

    pub fn as_version(&self) -> (r: &SemverParts)
        ensures
            spec_parts(*r) == self.parts(),
    {
        &self.0
    }
}

/// Capabilities verified for the pinned CLI build.
#[derive(Clone, Copy, Debug, PartialEq, Eq, Structural)]
pub struct FornaxCliCapabilities {
    pub prompt_read: bool,
    pub prompt_draft_save: bool,
    pub skill_read_and_stage: bool,
    pub trace_read: bool,
    /// Trace writes are not present in `fornax-cli v0.0.51`.
    pub trace_write: bool,
}

impl FornaxCliCapabilities {
    /// The fixed capability set of the supported version: everything but trace writes.
    pub fn for_version(_version: &FornaxCliVersion) -> (r: Self)
        ensures
            r.prompt_read && r.prompt_draft_save && r.skill_read_and_stage && r.trace_read && !r.trace_write,
    {
        FornaxCliCapabilities {
            prompt_read: true,
            prompt_draft_save: true,
            skill_read_and_stage: true,
            trace_read: true,
            trace_write: false,
        }
    }
}

} // verus!
