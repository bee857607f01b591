//! The argument vectors of `fornax-cli` prompt reads and draft saves.
use vstd::prelude::*;

use crate::args::push_arg;
use crate::args::push_flag;
use crate::args::push_option;
use crate::args::spec_option;
use crate::integrations::fornax::error::FornaxCliError;
use crate::integrations::fornax::skill::refuse_field;
use crate::integrations::fornax::skill::spec_value_error;
use crate::integrations::fornax::skill::spec_value_ok;
use crate::integrations::fornax::skill::value_ok;
use crate::integrations::fornax::trace_read::spec_outcome;
use crate::integrations::fornax::types::PromptLookup;
use crate::text::spec_opt_str;
use crate::text::spec_strs;

verus! {

pub open spec fn spec_revision_flags(with_draft: bool, commit_version: Option<Seq<char>>) -> Seq<Seq<char>> {
    (if with_draft {
        seq!["--with-draft"@]
    } else {
        Seq::empty()
    }) + match commit_version {
        Some(v) => seq!["--with-commit"@, "--commit-version"@, v],
        None => Seq::empty(),
    }
}

pub open spec fn spec_prompt_lookup_args(lookup: PromptLookup) -> Result<Seq<Seq<char>>, Seq<char>> {
    match lookup {
        PromptLookup::Key { key, version, with_draft, commit_version } => if !spec_value_ok(key@) {
            Err(spec_value_error("key"@))
        } else {
            Ok(seq!["prompt"@, "get-by-key"@, "--key"@, key@] + spec_option("--version"@, spec_opt_str(version))
                + spec_revision_flags(with_draft, spec_opt_str(commit_version)))
        },
        PromptLookup::Id { prompt_id, with_draft, commit_version } => if !spec_value_ok(prompt_id@) {
            Err(spec_value_error("prompt_id"@))
        } else {
            Ok(seq!["prompt"@, "get-by-id"@, "--prompt-id"@, prompt_id@] + spec_revision_flags(
                with_draft,
                spec_opt_str(commit_version),
            ))
        },
    }
}

fn push_revision_flags(args: &mut Vec<String>, with_draft: bool, commit_version: &Option<String>)
    ensures
        spec_strs(final(args)@) == spec_strs(old(args)@) + spec_revision_flags(with_draft, spec_opt_str(*commit_version)),
{
    let ghost start = spec_strs(args@);
    if with_draft {
        push_arg(args, "--with-draft");
    }
    let ghost mid = spec_strs(args@);
    match commit_version {
        Some(v) => {
            push_arg(args, "--with-commit");
            push_flag(args, "--commit-version", v.as_str());
        },
        None => {},
    }
    assert(spec_strs(args@) =~= start + spec_revision_flags(with_draft, spec_opt_str(*commit_version)));
}

/// A prompt read by key (optionally at a version) or by id, with the draft
/// and a committed version when asked for.
pub fn prompt_lookup_args(lookup: &PromptLookup) -> (r: Result<Vec<String>, FornaxCliError>)
    ensures
        spec_outcome(r, spec_prompt_lookup_args(*lookup)),
{
    let mut args: Vec<String> = Vec::new();
    push_arg(&mut args, "prompt");
    match lookup {
        PromptLookup::Key { key, version, with_draft, commit_version } => {
            if !value_ok(key.as_str()) {
                return refuse_field("key");
            }
            push_arg(&mut args, "get-by-key");
            push_flag(&mut args, "--key", key.as_str());
            push_option(&mut args, "--version", version);
            push_revision_flags(&mut args, *with_draft, commit_version);
            assert(spec_strs(args@) =~= seq!["prompt"@, "get-by-key"@, "--key"@, key@] + spec_option(
                "--version"@,
                spec_opt_str(*version),
            ) + spec_revision_flags(*with_draft, spec_opt_str(*commit_version)));
        },
        PromptLookup::Id { prompt_id, with_draft, commit_version } => {
            if !value_ok(prompt_id.as_str()) {
                return refuse_field("prompt_id");
            }
            push_arg(&mut args, "get-by-id");
            push_flag(&mut args, "--prompt-id", prompt_id.as_str());
            push_revision_flags(&mut args, *with_draft, commit_version);
            assert(spec_strs(args@) =~= seq!["prompt"@, "get-by-id"@, "--prompt-id"@, prompt_id@] + spec_revision_flags(
                *with_draft,
                spec_opt_str(*commit_version),
            ));
        },
    }
    Ok(args)
}

/// The check made before a draft file is written: a usable prompt id.
pub fn save_draft_precheck(prompt_id: &str) -> (r: Result<(), FornaxCliError>)
    ensures
        spec_value_ok(prompt_id@) <==> r is Ok,
        r matches Err(e) ==> (e matches FornaxCliError::InvalidRequest { message } && message@ == spec_value_error(
            "prompt_id"@,
        )),
{
    if !value_ok(prompt_id) {
        return match refuse_field("prompt_id") {
            Err(e) => Err(e),
            Ok(_) => Ok(()),
        };
    }
    Ok(())
}

/// `prompt draft save --prompt-id ID --draft-file PATH`.
pub fn save_draft_args(prompt_id: &str, draft_file: &str) -> (r: Vec<String>)
    ensures
        spec_strs(r@) == seq!["prompt"@, "draft"@, "save"@, "--prompt-id"@, prompt_id@, "--draft-file"@, draft_file@],
{
    let mut args: Vec<String> = Vec::new();
    push_arg(&mut args, "prompt");
    push_arg(&mut args, "draft");
    push_arg(&mut args, "save");
    push_flag(&mut args, "--prompt-id", prompt_id);
    push_flag(&mut args, "--draft-file", draft_file);
    assert(spec_strs(args@) =~= seq![
        "prompt"@,
        "draft"@,
        "save"@,
        "--prompt-id"@,
        prompt_id@,
        "--draft-file"@,
        draft_file@,
    ]);
    args
}

} // verus!
