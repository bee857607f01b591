//! Redacting, idempotent audit records: every text field is redacted before
//! the record is journaled, and a journaled record is written once.
use vstd::prelude::*;

use crate::integrations::fornax::redaction::Redactor;
use crate::integrations::fornax::redaction::lemma_redact_some;
use crate::integrations::fornax::redaction::spec_redact;
use crate::json::JsonValue;
use crate::json::put_member;
use crate::json::spec_member_from;
use crate::runtime::records::WorkflowEffectState;
use crate::text::owned;

verus! {

/// One audit record a reducer asks to append.
#[derive(Clone, Debug, PartialEq, Eq)]
pub struct WorkflowAuditRecord {
    pub effect_key: String,
    pub kind: String,
    pub subject_id: Option<String>,
    pub metadata: Vec<(String, String)>,
}

#[derive(Clone, Debug, PartialEq, Eq)]
pub enum WorkflowAuditError {
    ConcurrentMutation,
    Store(String),
}

/// The redacted value of the last metadata entry whose redacted key is `k`.
pub open spec fn spec_metadata_value(secrets: Seq<Seq<char>>, pairs: Seq<(String, String)>, k: Seq<char>) -> Option<
    Seq<char>,
>
    decreases pairs.len(),
{
    if pairs.len() == 0 {
        None
    } else if spec_redact(secrets, pairs.last().0@) == Some(k) {
        spec_redact(secrets, pairs.last().1@)
    } else {
        spec_metadata_value(secrets, pairs.drop_last(), k)
    }
}

/// The members hold, for each key, exactly the text `value(k)`.
pub open spec fn spec_text_members(members: Seq<(String, JsonValue)>, value: spec_fn(Seq<char>) -> Option<Seq<char>>) -> bool {
    forall|k: Seq<char>|
        #![trigger spec_member_from(members, k, 0)]
        match spec_member_from(members, k, 0) {
            Some(JsonValue::Str(s)) => value(k) == Some(s@),
            Some(_) => false,
            None => value(k) is None,
        }
}

fn redacted_metadata(redactor: &Redactor, pairs: &Vec<(String, String)>) -> (r: Option<Vec<(String, JsonValue)>>)
    ensures
        match r {
            None => exists|i: int|
                0 <= i < pairs@.len() && !(spec_redact(redactor.secrets(), (#[trigger] pairs@[i]).0@) is Some
                    && spec_redact(redactor.secrets(), pairs@[i].1@) is Some),
            Some(m) => spec_text_members(m@, |k: Seq<char>| spec_metadata_value(redactor.secrets(), pairs@, k))
                && forall|i: int|
                0 <= i < pairs@.len() ==> spec_redact(redactor.secrets(), (#[trigger] pairs@[i]).0@) is Some
                    && spec_redact(redactor.secrets(), pairs@[i].1@) is Some,
        },
{
    let mut members: Vec<(String, JsonValue)> = Vec::new();
    let mut i: usize = 0;
    while i < pairs.len()
        invariant
            i <= pairs@.len(),
            spec_text_members(
                members@,
                |k: Seq<char>| spec_metadata_value(redactor.secrets(), pairs@.take(i as int), k),
            ),
            forall|j: int|
                0 <= j < i ==> spec_redact(redactor.secrets(), (#[trigger] pairs@[j]).0@) is Some && spec_redact(
                    redactor.secrets(),
                    pairs@[j].1@,
                ) is Some,
        decreases pairs.len() - i,
    {
        let key = match redactor.try_redact(pairs[i].0.as_str()) {
            Some(k) => k,
            None => return None,
        };
        let value = match redactor.try_redact(pairs[i].1.as_str()) {
            Some(v) => v,
            None => return None,
        };
        let ghost before = members@;
        let ghost kv = key@;
        let ghost vv = value@;
        put_member(&mut members, key, JsonValue::Str(value));
        proof {
            let pre = pairs@.take(i as int);
            let post = pairs@.take(i + 1);
            assert(post.drop_last() =~= pre);
            assert(post.last() == pairs@[i as int]);
            assert forall|k: Seq<char>| #![trigger spec_member_from(members@, k, 0)]
                match spec_member_from(members@, k, 0) {
                    Some(JsonValue::Str(s)) => spec_metadata_value(redactor.secrets(), post, k) == Some(s@),
                    Some(_) => false,
                    None => spec_metadata_value(redactor.secrets(), post, k) is None,
                } by {
                if k != kv {
                    assert(spec_member_from(before, k, 0) == spec_member_from(members@, k, 0));
                }
            }
        }
        i += 1;
    }
    proof {
        assert(pairs@.take(pairs@.len() as int) =~= pairs@);
    }
    Some(members)
}

/// The journaled request of an audit record: its kind, its redacted subject
/// (or null), and its metadata with keys and values redacted, a later entry
/// winning over an earlier one with the same redacted key.
pub fn audit_request(redactor: &Redactor, record: &WorkflowAuditRecord) -> (r: JsonValue)
    ensures
        r matches JsonValue::Object(members) && {
            &&& spec_member_from(members@, "kind"@, 0) matches Some(JsonValue::Str(k)) && k@ == record.kind@
            &&& match record.subject_id {
                Some(s) => spec_member_from(members@, "subject_id"@, 0) matches Some(JsonValue::Str(t))
                    && spec_redact(redactor.secrets(), s@) == Some(t@),
                None => spec_member_from(members@, "subject_id"@, 0) == Some(JsonValue::Null),
            }
            &&& spec_member_from(members@, "metadata"@, 0) matches Some(JsonValue::Object(m)) && spec_text_members(
                m@,
                |k: Seq<char>| spec_metadata_value(redactor.secrets(), record.metadata@, k),
            )
        },
{
    let subject = match &record.subject_id {
        Some(s) => JsonValue::Str(redactor.redact(s.as_str())),
        None => JsonValue::Null,
    };
    let metadata = match redacted_metadata(redactor, &record.metadata) {
        Some(m) => m,
        None => {
            proof {
                let i = choose|i: int|
                    0 <= i < record.metadata@.len() && !(spec_redact(redactor.secrets(), (#[trigger] record.metadata@[i]).0@)
                        is Some && spec_redact(redactor.secrets(), record.metadata@[i].1@) is Some);
                lemma_redact_some(redactor.secrets(), record.metadata@[i].0@);
                lemma_redact_some(redactor.secrets(), record.metadata@[i].1@);
            }
            Vec::new()
        },
    };
    let mut members: Vec<(String, JsonValue)> = Vec::new();
    members.push((owned("kind"), JsonValue::Str(record.kind.clone())));
    members.push((owned("subject_id"), subject));
    members.push((owned("metadata"), JsonValue::Object(metadata)));
    proof {
        reveal_strlit("kind");
        reveal_strlit("subject_id");
        reveal_strlit("metadata");
        assert("kind"@.len() == 4 && "subject_id"@.len() == 10 && "metadata"@.len() == 8);
        assert(members@[0].0@ != "subject_id"@);
        assert(members@[0].0@ != "metadata"@);
        assert(members@[1].0@ != "metadata"@);
        let ms = members@;
        assert(spec_member_from(ms, "kind"@, 0) == Some(ms[0].1));
        assert(spec_member_from(ms, "subject_id"@, 1) == Some(ms[1].1));
        assert(spec_member_from(ms, "subject_id"@, 0) == Some(ms[1].1));
        assert(spec_member_from(ms, "metadata"@, 2) == Some(ms[2].1));
        assert(spec_member_from(ms, "metadata"@, 1) == Some(ms[2].1));
        assert(spec_member_from(ms, "metadata"@, 0) == Some(ms[2].1));
    }
    JsonValue::Object(members)
}

/// What appending does with the journaled effect of a record.
#[derive(Clone, Copy, Debug, PartialEq, Eq, Structural)]
pub enum AuditStep {
    /// Already recorded: nothing to do.
    Recorded,
    /// Planned: record it with the fenced `Planned → Applied` write.
    Record,
    /// Any other state: someone else is changing it.
    Conflict,
}

pub fn audit_step(state: WorkflowEffectState) -> (r: AuditStep)
    ensures
        r == if state == WorkflowEffectState::Applied {
            AuditStep::Recorded
        } else if state == WorkflowEffectState::Planned {
            AuditStep::Record
        } else {
            AuditStep::Conflict
        },
{
    match state {
        WorkflowEffectState::Applied => AuditStep::Recorded,
        WorkflowEffectState::Planned => AuditStep::Record,
        _ => AuditStep::Conflict,
    }
}

/// The result of appending, from the step and whether its fenced write
/// changed the journal.
pub fn append_result(step: AuditStep, updated: bool) -> (r: Result<(), WorkflowAuditError>)
    ensures
        r is Ok <==> (step == AuditStep::Recorded || (step == AuditStep::Record && updated)),
        r is Err ==> r == Err::<(), WorkflowAuditError>(WorkflowAuditError::ConcurrentMutation),
{
    match step {
        AuditStep::Recorded => Ok(()),
        AuditStep::Record => if updated {
            Ok(())
        } else {
            Err(WorkflowAuditError::ConcurrentMutation)
        },
        AuditStep::Conflict => Err(WorkflowAuditError::ConcurrentMutation),
    }
}

} // verus!
