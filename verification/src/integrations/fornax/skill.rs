//! The argument vectors of `fornax-cli` skill reads and installation.
use vstd::prelude::*;

use crate::args::push_arg;
use crate::args::push_flag;
use crate::integrations::fornax::error::FornaxCliError;
use crate::integrations::fornax::trace_read::spec_outcome;
use crate::integrations::fornax::types::SkillLookup;
use crate::integrations::process::is_absolute;
use crate::integrations::process::spec_is_absolute;
use crate::text::has_control;
use crate::text::is_blank;
use crate::text::owned;
use crate::text::push_str;
use crate::text::spec_blank;
use crate::text::spec_has_control;
use crate::text::spec_opt_str;
use crate::text::spec_strs;

verus! {

/// A selector value must be non-blank and free of control characters.
pub open spec fn spec_value_ok(v: Seq<char>) -> bool {
    !spec_blank(v) && !spec_has_control(v)
}

pub open spec fn spec_value_error(field: Seq<char>) -> Seq<char> {
    field + " must be non-empty and contain no control characters"@
}

pub open spec fn spec_all_ok(values: Seq<String>) -> bool {
    forall|i: int| 0 <= i < values.len() ==> spec_value_ok((#[trigger] values[i])@)
}

/// `flag v` for each value, in order.
pub open spec fn spec_flagged(flag: Seq<char>, values: Seq<Seq<char>>) -> Seq<Seq<char>>
    decreases values.len(),
{
    if values.len() == 0 {
        Seq::empty()
    } else {
        spec_flagged(flag, values.drop_last()) + seq![flag, values.last()]
    }
}

pub(crate) fn refuse_field(field: &str) -> (r: Result<Vec<String>, FornaxCliError>)
    ensures
        r matches Err(FornaxCliError::InvalidRequest { message }) && message@ == spec_value_error(field@),
{
    let mut m = owned(field);
    push_str(&mut m, " must be non-empty and contain no control characters");
    Err(FornaxCliError::InvalidRequest { message: m })
}

pub(crate) fn value_ok(v: &str) -> (r: bool)
    ensures
        r == spec_value_ok(v@),
{
    !is_blank(v) && !has_control(v)
}

fn all_ok(values: &Vec<String>) -> (r: bool)
    ensures
        r == spec_all_ok(values@),
{
    let mut i: usize = 0;
    while i < values.len()
        invariant
            i <= values@.len(),
            forall|j: int| 0 <= j < i ==> spec_value_ok((#[trigger] values@[j])@),
        decreases values.len() - i,
    {
        if !value_ok(values[i].as_str()) {
            return false;
        }
        i += 1;
    }
    true
}

fn push_flagged(args: &mut Vec<String>, flag: &str, values: &Vec<String>)
    ensures
        spec_strs(final(args)@) == spec_strs(old(args)@) + spec_flagged(flag@, spec_strs(values@)),
{
    let mut i: usize = 0;
    while i < values.len()
        invariant
            i <= values@.len(),
            spec_strs(args@) == spec_strs(old(args)@) + spec_flagged(flag@, spec_strs(values@.take(i as int))),
        decreases values.len() - i,
    {
        push_flag(args, flag, values[i].as_str());
        proof {
            let pre = spec_strs(values@.take(i as int));
            let post = spec_strs(values@.take(i + 1));
            assert(post.drop_last() =~= pre);
            assert(post.last() == values@[i as int]@);
            assert(spec_strs(args@) =~= spec_strs(old(args)@) + spec_flagged(flag@, post));
        }
        i += 1;
    }
    assert(values@.take(values@.len() as int) =~= values@);
}

pub open spec fn spec_batch_args(
    command: Seq<char>,
    flag: Seq<char>,
    values: Seq<String>,
    version: Option<Seq<char>>,
) -> Result<Seq<Seq<char>>, Seq<char>> {
    if values.len() == 0 {
        Err("at least one skill selector is required"@)
    } else if !spec_all_ok(values) {
        Err(spec_value_error("skill_selector"@))
    } else {
        Ok(seq!["skill"@, command] + spec_flagged(flag, spec_strs(values)) + match version {
            Some(v) => seq!["--version"@, v],
            None => Seq::empty(),
        })
    }
}

pub open spec fn spec_skill_args(lookup: SkillLookup) -> Result<Seq<Seq<char>>, Seq<char>> {
    match lookup {
        SkillLookup::Id { skill_id, version } => if !spec_value_ok(skill_id@) {
            Err(spec_value_error("skill_id"@))
        } else {
            Ok(seq!["skill"@, "get"@, "--skill-id"@, skill_id@] + match version {
                Some(v) => seq!["--with-commit"@, "--commit-version"@, v@],
                None => Seq::empty(),
            })
        },
        SkillLookup::Ids { ids, version } => spec_batch_args(
            "batch-get-by-id"@,
            "--skill-id"@,
            ids@,
            spec_opt_str(version),
        ),
        SkillLookup::Keys { keys, version } => spec_batch_args(
            "batch-get-by-key"@,
            "--skill-key"@,
            keys@,
            spec_opt_str(version),
        ),
    }
}

fn batch_args(command: &str, flag: &str, values: &Vec<String>, version: &Option<String>) -> (r: Result<
    Vec<String>,
    FornaxCliError,
>)
    ensures
        spec_outcome(r, spec_batch_args(command@, flag@, values@, spec_opt_str(*version))),
{
    if values.len() == 0 {
        return Err(FornaxCliError::InvalidRequest { message: owned("at least one skill selector is required") });
    }
    if !all_ok(values) {
        return refuse_field("skill_selector");
    }
    let mut args: Vec<String> = Vec::new();
    push_arg(&mut args, "skill");
    push_arg(&mut args, command);
    push_flagged(&mut args, flag, values);
    let ghost mid = spec_strs(args@);
    match version {
        Some(v) => push_flag(&mut args, "--version", v.as_str()),
        None => {},
    }
    assert(spec_strs(args@) =~= seq!["skill"@, command@] + spec_flagged(flag@, spec_strs(values@)) + match *version {
        Some(v) => seq!["--version"@, v@],
        None => Seq::<Seq<char>>::empty(),
    });
    Ok(args)
}

/// The read of one skill (optionally at a committed version), or a batch
/// read by ids or keys (optionally at a version).
pub fn skill_args(lookup: &SkillLookup) -> (r: Result<Vec<String>, FornaxCliError>)
    ensures
        spec_outcome(r, spec_skill_args(*lookup)),
{
    match lookup {
        SkillLookup::Id { skill_id, version } => {
            if !value_ok(skill_id.as_str()) {
                return refuse_field("skill_id");
            }
            let mut args: Vec<String> = Vec::new();
            push_arg(&mut args, "skill");
            push_arg(&mut args, "get");
            push_flag(&mut args, "--skill-id", skill_id.as_str());
            match version {
                Some(v) => {
                    push_arg(&mut args, "--with-commit");
                    push_flag(&mut args, "--commit-version", v.as_str());
                },
                None => {},
            }
            assert(spec_strs(args@) =~= seq!["skill"@, "get"@, "--skill-id"@, skill_id@] + match *version {
                Some(v) => seq!["--with-commit"@, "--commit-version"@, v@],
                None => Seq::<Seq<char>>::empty(),
            });
            Ok(args)
        },
        SkillLookup::Ids { ids, version } => batch_args("batch-get-by-id", "--skill-id", ids, version),
        SkillLookup::Keys { keys, version } => batch_args("batch-get-by-key", "--skill-key", keys, version),
    }
}

/// The checks made before the staging directory is created: some key, and
/// an absolute directory.
pub fn stage_precheck(keys: &Vec<String>, staging_dir: &str) -> (r: Result<(), FornaxCliError>)
    ensures
        keys@.len() == 0 ==> (r matches Err(FornaxCliError::InvalidRequest { message }) && message@
            == "at least one skill key is required"@),
        keys@.len() > 0 && !spec_is_absolute(staging_dir@) ==> (r matches Err(
            FornaxCliError::InvalidRequest { message },
        ) && message@ == "skill staging directory must be absolute"@),
        r is Ok <==> keys@.len() > 0 && spec_is_absolute(staging_dir@),
{
    if keys.len() == 0 {
        return Err(FornaxCliError::InvalidRequest { message: owned("at least one skill key is required") });
    }
    if !is_absolute(staging_dir) {
        return Err(FornaxCliError::InvalidRequest { message: owned("skill staging directory must be absolute") });
    }
    Ok(())
}

pub open spec fn spec_stage_args(keys: Seq<String>, staging_dir: Seq<char>) -> Result<Seq<Seq<char>>, Seq<char>> {
    if !spec_all_ok(keys) {
        Err(spec_value_error("skill_key"@))
    } else {
        Ok(seq!["skill"@, "install"@] + spec_strs(keys) + seq!["--dir"@, staging_dir])
    }
}

/// `skill install KEY… --dir DIR`, once the directory exists.
pub fn stage_args(keys: &Vec<String>, staging_dir: &str) -> (r: Result<Vec<String>, FornaxCliError>)
    ensures
        spec_outcome(r, spec_stage_args(keys@, staging_dir@)),
{
    if !all_ok(keys) {
        return refuse_field("skill_key");
    }
    let mut args: Vec<String> = Vec::new();
    push_arg(&mut args, "skill");
    push_arg(&mut args, "install");
    let mut i: usize = 0;
    while i < keys.len()
        invariant
            i <= keys@.len(),
            spec_strs(args@) == seq!["skill"@, "install"@] + spec_strs(keys@.take(i as int)),
        decreases keys.len() - i,
    {
        push_arg(&mut args, keys[i].as_str());
        assert(spec_strs(keys@.take(i + 1)) =~= spec_strs(keys@.take(i as int)).push(keys@[i as int]@));
        assert(spec_strs(args@) =~= seq!["skill"@, "install"@] + spec_strs(keys@.take(i + 1)));
        i += 1;
    }
    assert(keys@.take(keys@.len() as int) =~= keys@);
    push_flag(&mut args, "--dir", staging_dir);
    Ok(args)
}

} // verus!
