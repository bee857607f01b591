//! Immutable run artifacts: the path and size rules, the manifest recorded for
//! each write, replay of a write that was already recorded, and the check of
//! stored bytes against their manifest.
use vstd::prelude::*;

use crate::digest::hex_lower;
use crate::digest::sha256;
use crate::digest::sha256_digest;
use crate::digest::spec_hex;
use crate::text::chars_of;
use crate::text::owned;
use crate::text::str_eq;

verus! {

/// The default size limit of one artifact: 256 MiB.
pub const DEFAULT_MAX_ARTIFACT_BYTES: u64 = 268435456;

/// Data-handling classification of an artifact.
#[derive(Clone, Copy, Debug, PartialEq, Eq, Structural)]
pub enum ArtifactClassification {
    Public,
    Internal,
    Sensitive,
}

/// Failure while validating, installing, or recording a workflow artifact.
#[derive(Clone, Debug, PartialEq, Eq)]
pub enum WorkflowArtifactStoreError {
    InvalidPath,
    TooLarge { actual: u64, maximum: u64 },
    AlreadyExists,
    NotFound,
    Corrupt,
    Io(String),
    State(String),
}

/// Inputs of one atomic artifact write.
pub struct WorkflowArtifactWrite<'a> {
    pub run_id: String,
    pub artifact_id: String,
    /// Normalized path relative to the run artifact root.
    pub relative_path: &'a str,
    pub classification: ArtifactClassification,
    pub media_type: &'a str,
    pub bytes: &'a [u8],
    /// Creation time in Unix epoch milliseconds.
    pub created_at_ms: i64,
}

/// Inputs of one run-scoped artifact write.
pub struct WorkflowArtifactClientWrite<'a> {
    pub artifact_id: String,
    pub relative_path: &'a str,
    pub classification: ArtifactClassification,
    pub media_type: &'a str,
    pub bytes: &'a [u8],
    pub created_at_ms: i64,
}

/// The immutable manifest of one artifact.
#[derive(Clone, Debug, PartialEq, Eq)]
pub struct ArtifactMetadata {
    pub artifact_id: String,
    pub run_id: String,
    pub relative_path: String,
    pub classification: ArtifactClassification,
    pub media_type: String,
    pub byte_count: u64,
    pub sha256: String,
    pub created_at_ms: i64,
}

/// `.` or `..` is the path segment that starts at `i`.
pub open spec fn spec_dot_segment_at(p: Seq<char>, i: int, dots: int) -> bool {
    &&& 0 <= i && i + dots <= p.len()
    &&& (i == 0 || p[i - 1] == '/')
    &&& forall|k: int| i <= k < i + dots ==> p[k] == '.'
    &&& (i + dots == p.len() || p[i + dots] == '/')
}

/// Non-empty, relative, not starting with `.`, and without a `..` segment:
/// every component is a plain name.
pub open spec fn spec_valid_relative_path(p: Seq<char>) -> bool {
    &&& p.len() > 0
    &&& p[0] != '/'
    &&& !spec_dot_segment_at(p, 0, 1)
    &&& !(exists|i: int| spec_dot_segment_at(p, i, 2))
}

fn dot_segment_at(p: &Vec<char>, i: usize, dots: usize) -> (r: bool)
    requires
        dots <= 2,
    ensures
        r == spec_dot_segment_at(p@, i as int, dots as int),
{
    if i > p.len() || dots > p.len() - i {
        return false;
    }
    if i > 0 && p[i - 1] != '/' {
        return false;
    }
    let mut k = i;
    while k < i + dots
        invariant
            i <= k <= i + dots <= p.len(),
            forall|j: int| i <= j < k ==> p@[j] == '.',
        decreases i + dots - k,
    {
        if p[k] != '.' {
            return false;
        }
        k += 1;
    }
    i + dots == p.len() || p[i + dots] == '/'
}

/// Accepts only normalized relative artifact paths.
pub fn validate_relative_path(path: &str) -> (r: Result<String, WorkflowArtifactStoreError>)
    ensures
        match r {
            Ok(p) => spec_valid_relative_path(path@) && p@ == path@,
            Err(e) => !spec_valid_relative_path(path@) && e == WorkflowArtifactStoreError::InvalidPath,
        },
{
    let p = chars_of(path);
    if p.len() == 0 || p[0] == '/' || dot_segment_at(&p, 0, 1) {
        return Err(WorkflowArtifactStoreError::InvalidPath);
    }
    let mut i: usize = 0;
    while i < p.len()
        invariant
            i <= p.len(),
            p@ == path@,
            forall|j: int| 0 <= j < i ==> !spec_dot_segment_at(p@, j, 2),
        decreases p.len() - i,
    {
        if dot_segment_at(&p, i, 2) {
            return Err(WorkflowArtifactStoreError::InvalidPath);
        }
        i += 1;
    }
    assert forall|j: int| !spec_dot_segment_at(p@, j, 2) by {
        if 0 <= j && j >= p.len() {
            assert(j + 2 > p@.len());
        }
    }
    Ok(owned(path))
}

/// Size check: an artifact over the limit is refused with both counts.
pub fn check_size(byte_count: usize, maximum: u64) -> (r: Result<u64, WorkflowArtifactStoreError>)
    ensures
        byte_count <= maximum ==> r == Ok::<u64, WorkflowArtifactStoreError>(byte_count as u64),
        byte_count > maximum ==> r == Err::<u64, WorkflowArtifactStoreError>(
            WorkflowArtifactStoreError::TooLarge { actual: byte_count as u64, maximum },
        ),
{
    let n = byte_count as u64;
    if n > maximum {
        Err(WorkflowArtifactStoreError::TooLarge { actual: n, maximum })
    } else {
        Ok(n)
    }
}

/// The manifest a write records: its identity, path, classification, media
/// type, size and lower-case hex SHA-256, after the size and path checks.
pub fn plan_write(write: &WorkflowArtifactWrite, maximum: u64) -> (r: Result<
    ArtifactMetadata,
    WorkflowArtifactStoreError,
>)
    ensures
        write.bytes@.len() > maximum ==> r == Err::<ArtifactMetadata, WorkflowArtifactStoreError>(
            WorkflowArtifactStoreError::TooLarge { actual: write.bytes@.len() as u64, maximum },
        ),
        write.bytes@.len() <= maximum && !spec_valid_relative_path(write.relative_path@) ==> r
            == Err::<ArtifactMetadata, WorkflowArtifactStoreError>(WorkflowArtifactStoreError::InvalidPath),
        write.bytes@.len() <= maximum && spec_valid_relative_path(write.relative_path@) ==> (r matches Ok(
            m,
        ) && {
            &&& m.artifact_id@ == write.artifact_id@
            &&& m.run_id@ == write.run_id@
            &&& m.relative_path@ == write.relative_path@
            &&& m.classification == write.classification
            &&& m.media_type@ == write.media_type@
            &&& m.byte_count == write.bytes@.len()
            &&& m.sha256@ == spec_hex(sha256_digest(write.bytes@))
            &&& m.created_at_ms == write.created_at_ms
        }),
{
    let byte_count = check_size(write.bytes.len(), maximum)?;
    let relative_path = validate_relative_path(write.relative_path)?;
    let digest = hex_lower(&sha256(write.bytes));
    Ok(
        ArtifactMetadata {
            artifact_id: owned(write.artifact_id.as_str()),
            run_id: owned(write.run_id.as_str()),
            relative_path,
            classification: write.classification,
            media_type: owned(write.media_type),
            byte_count,
            sha256: digest,
            created_at_ms: write.created_at_ms,
        },
    )
}

/// Two manifests describe the same artifact (creation times aside).
pub open spec fn spec_manifests_match(existing: ArtifactMetadata, replay: ArtifactMetadata) -> bool {
    existing.artifact_id@ == replay.artifact_id@ && existing.run_id@ == replay.run_id@
        && existing.relative_path@ == replay.relative_path@ && existing.classification
        == replay.classification && existing.media_type@ == replay.media_type@ && existing.byte_count
        == replay.byte_count && existing.sha256@ == replay.sha256@
}

pub fn manifests_match(existing: &ArtifactMetadata, replay: &ArtifactMetadata) -> (r: bool)
    ensures
        r == spec_manifests_match(*existing, *replay),
{
    str_eq(existing.artifact_id.as_str(), replay.artifact_id.as_str()) && str_eq(
        existing.run_id.as_str(),
        replay.run_id.as_str(),
    ) && str_eq(existing.relative_path.as_str(), replay.relative_path.as_str())
        && existing.classification == replay.classification && str_eq(
        existing.media_type.as_str(),
        replay.media_type.as_str(),
    ) && existing.byte_count == replay.byte_count && str_eq(
        existing.sha256.as_str(),
        replay.sha256.as_str(),
    )
}

/// A write whose manifest was already recorded succeeds when the recorded
/// manifest matches it, with the recorded creation time; otherwise the
/// duplicate is an error.
pub fn replay_duplicate(existing: Option<ArtifactMetadata>, planned: ArtifactMetadata) -> (r: Option<
    ArtifactMetadata,
>)
    ensures
        match existing {
            Some(e) => if spec_manifests_match(e, planned) {
                r == Some(ArtifactMetadata { created_at_ms: e.created_at_ms, ..planned })
            } else {
                r is None
            },
            None => r is None,
        },
{
    match existing {
        Some(e) => {
            if manifests_match(&e, &planned) {
                Some(ArtifactMetadata { created_at_ms: e.created_at_ms, ..planned })
            } else {
                None
            }
        },
        None => None,
    }
}

/// Stored bytes must match their manifest's size and digest.
pub fn verify_stored(manifest: &ArtifactMetadata, bytes: &[u8]) -> (r: Result<(), WorkflowArtifactStoreError>)
    ensures
        r is Ok <==> (bytes@.len() == manifest.byte_count && spec_hex(sha256_digest(bytes@))
            == manifest.sha256@),
        r is Err ==> r == Err::<(), WorkflowArtifactStoreError>(WorkflowArtifactStoreError::Corrupt),
{
    let digest = hex_lower(&sha256(bytes));
    if bytes.len() as u64 != manifest.byte_count || !str_eq(digest.as_str(), manifest.sha256.as_str()) {
        return Err(WorkflowArtifactStoreError::Corrupt);
    }
    Ok(())
}

/// A read finds only artifacts of the asking run.
pub fn owned_manifest(manifest: Option<ArtifactMetadata>, run_id: &str) -> (r: Result<
    ArtifactMetadata,
    WorkflowArtifactStoreError,
>)
    ensures
        match manifest {
            Some(m) => if m.run_id@ == run_id@ {
                r == Ok::<ArtifactMetadata, WorkflowArtifactStoreError>(m)
            } else {
                r == Err::<ArtifactMetadata, WorkflowArtifactStoreError>(WorkflowArtifactStoreError::NotFound)
            },
            None => r == Err::<ArtifactMetadata, WorkflowArtifactStoreError>(WorkflowArtifactStoreError::NotFound),
        },
{
    match manifest {
        Some(m) => {
            if str_eq(m.run_id.as_str(), run_id) {
                Ok(m)
            } else {
                Err(WorkflowArtifactStoreError::NotFound)
            }
        },
        None => Err(WorkflowArtifactStoreError::NotFound),
    }
}

/// The write a run-scoped client makes for its run.
pub fn client_write<'a>(run_id: &str, write: WorkflowArtifactClientWrite<'a>) -> (r: WorkflowArtifactWrite<'a>)
    ensures
        r.run_id@ == run_id@,
        r.artifact_id == write.artifact_id,
        r.relative_path == write.relative_path,
        r.classification == write.classification,
        r.media_type == write.media_type,
        r.bytes == write.bytes,
        r.created_at_ms == write.created_at_ms,
{
    WorkflowArtifactWrite {
        run_id: owned(run_id),
        artifact_id: write.artifact_id,
        relative_path: write.relative_path,
        classification: write.classification,
        media_type: write.media_type,
        bytes: write.bytes,
        created_at_ms: write.created_at_ms,
    }
}

} // verus!
