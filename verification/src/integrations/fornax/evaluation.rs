//! Request checks of the evaluation surface of `fornax-cli`: bounded scalars,
//! page sizes, semantic versions, `id:version` references and evaluator
//! field mappings.
use vstd::prelude::*;

use crate::integrations::fornax::error::FornaxCliError;
use crate::integrations::fornax::error::spec_invalid_request;
use crate::integrations::version::parse_semver;
use crate::integrations::version::semver_parse;
use crate::text::chars_of;
use crate::text::has_control;
use crate::text::owned;
use crate::text::push_str;
use crate::text::spec_has_control;
use crate::text::string_of;
use vstd::string::StrSliceExecFns;
use crate::args::join_commas;
use crate::args::push_arg;
use crate::args::push_flag;
use crate::args::spec_join_commas;
use crate::integrations::fornax::trace_read::spec_join;
use crate::integrations::fornax::trace_read::spec_outcome;
use crate::integrations::version::decimal_u64;
use crate::integrations::version::spec_decimal;
use crate::text::spec_opt_str;
use crate::text::spec_strs;

verus! {

#[derive(Clone, Debug, PartialEq, Eq)]
pub struct FornaxPageRequest {
    pub page_size: u32,
    pub page_token: Option<String>,
}

#[derive(Clone, Debug, PartialEq, Eq)]
pub struct ExperimentEvaluatorOnlyRequest {
    pub name: String,
    pub eval_set_id: String,
    pub eval_set_version: String,
    pub evaluators: Vec<String>,
    pub evaluator_mappings: Vec<String>,
    pub item_retry_num: u32,
}

/// Non-empty, at most 512 bytes, without control characters.
pub open spec fn spec_scalar_ok(v: Seq<char>) -> bool {
    v.len() > 0 && vstd::utf8::encode_utf8(v).len() <= 512 && !spec_has_control(v)
}

/// The message refusing `value` as the scalar `name`, if it is refused.
pub open spec fn spec_scalar_error(name: Seq<char>, v: Seq<char>) -> Option<Seq<char>> {
    if spec_scalar_ok(v) {
        None
    } else {
        Some(name + " must be a bounded scalar"@)
    }
}

pub open spec fn spec_refused(r: Result<(), FornaxCliError>, e: Option<Seq<char>>) -> bool {
    match e {
        None => r is Ok,
        Some(m) => r is Err && spec_invalid_request(r->Err_0, m),
    }
}

fn refuse(message: String) -> (r: Result<(), FornaxCliError>)
    ensures
        spec_refused(r, Some(message@)),
{
    Err(FornaxCliError::InvalidRequest { message })
}

fn with_suffix(name: &str, suffix: &str) -> (r: String)
    ensures
        r@ == name@ + suffix@,
{
    let mut m = owned(name);
    push_str(&mut m, suffix);
    m
}

pub fn scalar_ok(value: &str) -> (r: bool)
    ensures
        r == spec_scalar_ok(value@),
{
    !(chars_of(value).len() == 0 || value.as_bytes_vec().len() > 512 || has_control(value))
}

/// A bounded scalar argument.
pub fn validate_scalar(name: &str, value: &str) -> (r: Result<(), FornaxCliError>)
    ensures
        spec_refused(r, spec_scalar_error(name@, value@)),
{
    if !scalar_ok(value) {
        return refuse(with_suffix(name, " must be a bounded scalar"));
    }
    Ok(())
}

/// A page size from 1 to 200.
pub fn validate_page_size(value: u32) -> (r: Result<(), FornaxCliError>)
    ensures
        spec_refused(r, if 1 <= value <= 200 { None } else { Some("page_size must be between 1 and 200"@) }),
{
    if value < 1 || value > 200 {
        return refuse(owned("page_size must be between 1 and 200"));
    }
    Ok(())
}

/// A page: its size, then its token as a scalar.
pub fn validate_page(page: &FornaxPageRequest) -> (r: Result<(), FornaxCliError>)
    ensures
        spec_refused(
            r,
            if !(1 <= page.page_size <= 200) {
                Some("page_size must be between 1 and 200"@)
            } else {
                match page.page_token {
                    Some(t) => spec_scalar_error("page_token"@, t@),
                    None => None,
                }
            },
        ),
{
    validate_page_size(page.page_size)?;
    match &page.page_token {
        Some(t) => validate_scalar("page_token", t.as_str()),
        None => Ok(()),
    }
}

/// A scalar that is a semantic version.
pub open spec fn spec_semver_error(name: Seq<char>, v: Seq<char>) -> Option<Seq<char>> {
    if !spec_scalar_ok(v) {
        spec_scalar_error(name, v)
    } else if semver_parse(v) is None {
        Some(name + " must be semantic version"@)
    } else {
        None
    }
}

pub fn validate_semver(name: &str, value: &str) -> (r: Result<(), FornaxCliError>)
    ensures
        spec_refused(r, spec_semver_error(name@, value@)),
{
    validate_scalar(name, value)?;
    match parse_semver(value) {
        Some(_) => Ok(()),
        None => refuse(with_suffix(name, " must be semantic version")),
    }
}

/// The position of the first `c` in `s`, if any.
#[verifier::opaque]
pub open spec fn spec_first_index(s: Seq<char>, c: char) -> Option<int> {
    if exists|i: int| 0 <= i < s.len() && s[i] == c {
        Some(choose|i: int| 0 <= i < s.len() && s[i] == c && forall|j: int| 0 <= j < i ==> s[j] != c)
    } else {
        None
    }
}

/// The position of the last `c` in `s`, if any.
#[verifier::opaque]
pub open spec fn spec_last_index(s: Seq<char>, c: char) -> Option<int> {
    if exists|i: int| 0 <= i < s.len() && s[i] == c {
        Some(choose|i: int| 0 <= i < s.len() && s[i] == c && forall|j: int| i < j < s.len() ==> s[j] != c)
    } else {
        None
    }
}

proof fn lemma_first_index(s: Seq<char>, c: char, k: int)
    requires
        0 <= k <= s.len(),
        forall|j: int| 0 <= j < k ==> s[j] != c,
        k < s.len() ==> s[k] == c,
    ensures
        spec_first_index(s, c) == (if k < s.len() { Some(k) } else { None::<int> }),
{
    reveal(spec_first_index);
    if k < s.len() {
        assert(exists|i: int| 0 <= i < s.len() && s[i] == c);
        let x = choose|i: int| 0 <= i < s.len() && s[i] == c && forall|j: int| 0 <= j < i ==> s[j] != c;
        assert(0 <= k < s.len() && s[k] == c && forall|j: int| 0 <= j < k ==> s[j] != c);
        if x < k {
            assert(s[x] != c);
        }
        if x > k {
            assert(s[k] != c);
        }
    }
}

proof fn lemma_last_index(s: Seq<char>, c: char, k: int)
    requires
        -1 <= k < s.len(),
        forall|j: int| k < j < s.len() ==> s[j] != c,
        k >= 0 ==> s[k] == c,
    ensures
        spec_last_index(s, c) == (if k >= 0 { Some(k) } else { None::<int> }),
{
    reveal(spec_last_index);
    if k >= 0 {
        assert(exists|i: int| 0 <= i < s.len() && s[i] == c);
        let x = choose|i: int| 0 <= i < s.len() && s[i] == c && forall|j: int| i < j < s.len() ==> s[j] != c;
        assert(0 <= k < s.len() && s[k] == c && forall|j: int| k < j < s.len() ==> s[j] != c);
        if x < k {
            assert(s[k] != c);
        }
        if x > k {
            assert(s[x] != c);
        }
    }
}

fn first_index(cs: &Vec<char>, c: char) -> (r: Option<usize>)
    ensures
        match r {
            Some(i) => i < cs.len() && spec_first_index(cs@, c) == Some(i as int),
            None => spec_first_index(cs@, c) is None,
        },
{
    let mut k: usize = 0;
    while k < cs.len() && cs[k] != c
        invariant
            k <= cs.len(),
            forall|j: int| 0 <= j < k ==> cs@[j] != c,
        decreases cs.len() - k,
    {
        k += 1;
    }
    proof {
        lemma_first_index(cs@, c, k as int);
    }
    if k < cs.len() {
        Some(k)
    } else {
        None
    }
}

fn last_index(cs: &Vec<char>, c: char) -> (r: Option<usize>)
    ensures
        match r {
            Some(i) => i < cs.len() && spec_last_index(cs@, c) == Some(i as int),
            None => spec_last_index(cs@, c) is None,
        },
{
    let mut k: usize = cs.len();
    while k > 0 && cs[k - 1] != c
        invariant
            k <= cs.len(),
            forall|j: int| k <= j < cs.len() ==> cs@[j] != c,
        decreases k,
    {
        k -= 1;
    }
    proof {
        lemma_last_index(cs@, c, k - 1);
    }
    if k > 0 {
        Some(k - 1)
    } else {
        None
    }
}

fn slice_text(cs: &Vec<char>, lo: usize, hi: usize) -> (r: String)
    requires
        lo <= hi <= cs.len(),
    ensures
        r@ == cs@.subrange(lo as int, hi as int),
{
    let mut out: Vec<char> = Vec::new();
    let mut k = lo;
    while k < hi
        invariant
            lo <= k <= hi <= cs.len(),
            out@ == cs@.subrange(lo as int, k as int),
        decreases hi - k,
    {
        out.push(cs[k]);
        assert(cs@.subrange(lo as int, k + 1) == cs@.subrange(lo as int, k as int).push(cs@[k as int]));
        k += 1;
    }
    string_of(&out)
}

/// `id:version`, split at the first `:`.
pub open spec fn spec_versioned_id_error(name: Seq<char>, v: Seq<char>) -> Option<Seq<char>> {
    match spec_first_index(v, ':') {
        None => Some(name + " must use id:version"@),
        Some(k) => if !spec_scalar_ok(v.take(k)) {
            spec_scalar_error(name, v.take(k))
        } else {
            spec_semver_error("evaluator_version"@, v.skip(k + 1))
        },
    }
}

pub fn validate_versioned_id(name: &str, value: &str) -> (r: Result<(), FornaxCliError>)
    ensures
        spec_refused(r, spec_versioned_id_error(name@, value@)),
{
    let cs = chars_of(value);
    let k = match first_index(&cs, ':') {
        Some(k) => k,
        None => return refuse(with_suffix(name, " must use id:version")),
    };
    let id = slice_text(&cs, 0, k);
    let version = slice_text(&cs, k + 1, cs.len());
    assert(id@ == value@.take(k as int));
    assert(version@ == value@.skip(k + 1));
    validate_scalar(name, id.as_str())?;
    validate_semver("evaluator_version", version.as_str())
}

/// `id:version:field=eval_set_field`: the reference before the last `:`, then
/// the two fields split at the first `=`.
#[verifier::opaque]
pub open spec fn spec_mapping_error(v: Seq<char>) -> Option<Seq<char>> {
    match spec_last_index(v, ':') {
        None => Some("evaluator mapping must include evaluator id and version"@),
        Some(k) => if spec_versioned_id_error("evaluator mapping"@, v.take(k)) is Some {
            spec_versioned_id_error("evaluator mapping"@, v.take(k))
        } else {
            let fields = v.skip(k + 1);
            match spec_first_index(fields, '=') {
                None => Some("evaluator mapping must use field=eval_set_field"@),
                Some(e) => if !spec_scalar_ok(fields.take(e)) {
                    spec_scalar_error("evaluator field"@, fields.take(e))
                } else {
                    spec_scalar_error("eval_set field"@, fields.skip(e + 1))
                },
            }
        },
    }
}

pub fn validate_mapping(value: &str) -> (r: Result<(), FornaxCliError>)
    ensures
        spec_refused(r, spec_mapping_error(value@)),
{
    reveal(spec_mapping_error);
    let cs = chars_of(value);
    let k = match last_index(&cs, ':') {
        Some(k) => k,
        None => return refuse(owned("evaluator mapping must include evaluator id and version")),
    };
    let versioned = slice_text(&cs, 0, k);
    let fields = slice_text(&cs, k + 1, cs.len());
    assert(versioned@ == value@.take(k as int));
    assert(fields@ == value@.skip(k + 1));
    validate_versioned_id("evaluator mapping", versioned.as_str())?;
    let fs = chars_of(fields.as_str());
    let e = match first_index(&fs, '=') {
        Some(e) => e,
        None => return refuse(owned("evaluator mapping must use field=eval_set_field")),
    };
    let target = slice_text(&fs, 0, e);
    let source = slice_text(&fs, e + 1, fs.len());
    assert(target@ == fields@.take(e as int));
    assert(source@ == fields@.skip(e + 1));
    validate_scalar("evaluator field", target.as_str())?;
    validate_scalar("eval_set field", source.as_str())
}

/// The first refused evaluator reference, in order.
pub open spec fn spec_evaluators_error(s: Seq<String>) -> Option<Seq<char>>
    decreases s.len(),
{
    if s.len() == 0 {
        None
    } else {
        match spec_versioned_id_error("evaluator"@, s[0]@) {
            Some(m) => Some(m),
            None => spec_evaluators_error(s.drop_first()),
        }
    }
}

/// The first refused evaluator mapping, in order.
pub open spec fn spec_mappings_error(s: Seq<String>) -> Option<Seq<char>>
    decreases s.len(),
{
    if s.len() == 0 {
        None
    } else {
        match spec_mapping_error(s[0]@) {
            Some(m) => Some(m),
            None => spec_mappings_error(s.drop_first()),
        }
    }
}

/// The checks of an evaluator-only experiment, in order: name, eval set id
/// and version, at least one evaluator, at most ten item retries, then each
/// evaluator reference and each mapping.
pub open spec fn spec_experiment_error(request: ExperimentEvaluatorOnlyRequest) -> Option<Seq<char>> {
    if !spec_scalar_ok(request.name@) {
        spec_scalar_error("name"@, request.name@)
    } else if !spec_scalar_ok(request.eval_set_id@) {
        spec_scalar_error("eval_set_id"@, request.eval_set_id@)
    } else if spec_semver_error("eval_set_version"@, request.eval_set_version@) is Some {
        spec_semver_error("eval_set_version"@, request.eval_set_version@)
    } else if request.evaluators@.len() == 0 {
        Some("at least one evaluator id:version is required"@)
    } else if request.item_retry_num > 10 {
        Some("item_retry_num must be at most 10"@)
    } else if spec_evaluators_error(request.evaluators@) is Some {
        spec_evaluators_error(request.evaluators@)
    } else {
        spec_mappings_error(request.evaluator_mappings@)
    }
}

proof fn lemma_evaluators_step(s: Seq<String>, i: int)
    requires
        0 <= i < s.len(),
        spec_versioned_id_error("evaluator"@, s[i]@) is None,
    ensures
        spec_evaluators_error(s.skip(i)) == spec_evaluators_error(s.skip(i + 1)),
{
    assert(s.skip(i).drop_first() =~= s.skip(i + 1));
}

proof fn lemma_mappings_step(s: Seq<String>, i: int)
    requires
        0 <= i < s.len(),
        spec_mapping_error(s[i]@) is None,
    ensures
        spec_mappings_error(s.skip(i)) == spec_mappings_error(s.skip(i + 1)),
{
    assert(s.skip(i).drop_first() =~= s.skip(i + 1));
}

fn check_evaluators(evaluators: &Vec<String>) -> (r: Result<(), FornaxCliError>)
    ensures
        spec_refused(r, spec_evaluators_error(evaluators@)),
{
    let mut i: usize = 0;
    assert(evaluators@.skip(0) =~= evaluators@);
    while i < evaluators.len()
        invariant
            i <= evaluators@.len(),
            spec_evaluators_error(evaluators@) == spec_evaluators_error(evaluators@.skip(i as int)),
        decreases evaluators.len() - i,
    {
        let r = validate_versioned_id("evaluator", evaluators[i].as_str());
        if r.is_err() {
            assert(evaluators@.skip(i as int)[0] == evaluators@[i as int]);
            return r;
        }
        proof {
            lemma_evaluators_step(evaluators@, i as int);
        }
        i += 1;
    }
    Ok(())
}

fn check_mappings(mappings: &Vec<String>) -> (r: Result<(), FornaxCliError>)
    ensures
        spec_refused(r, spec_mappings_error(mappings@)),
{
    let mut i: usize = 0;
    assert(mappings@.skip(0) =~= mappings@);
    while i < mappings.len()
        invariant
            i <= mappings@.len(),
            spec_mappings_error(mappings@) == spec_mappings_error(mappings@.skip(i as int)),
        decreases mappings.len() - i,
    {
        let r = validate_mapping(mappings[i].as_str());
        if r.is_err() {
            assert(mappings@.skip(i as int)[0] == mappings@[i as int]);
            return r;
        }
        proof {
            lemma_mappings_step(mappings@, i as int);
        }
        i += 1;
    }
    Ok(())
}

pub fn validate_experiment(request: &ExperimentEvaluatorOnlyRequest) -> (r: Result<(), FornaxCliError>)
    ensures
        spec_refused(r, spec_experiment_error(*request)),
{
    validate_scalar("name", request.name.as_str())?;
    validate_scalar("eval_set_id", request.eval_set_id.as_str())?;
    validate_semver("eval_set_version", request.eval_set_version.as_str())?;
    if request.evaluators.len() == 0 {
        return refuse(owned("at least one evaluator id:version is required"));
    }
    if request.item_retry_num > 10 {
        return refuse(owned("item_retry_num must be at most 10"));
    }
    check_evaluators(&request.evaluators)?;
    check_mappings(&request.evaluator_mappings)
}

/// The model statuses a listing may filter on.
pub fn validate_model_status(status: &str) -> (r: Result<(), FornaxCliError>)
    ensures
        spec_refused(
            r,
            if status@ == "Available"@ || status@ == "Deploying"@ || status@ == "Unavailable"@ || status@
                == "Offlining"@ {
                None
            } else {
                Some("unsupported model status"@)
            },
        ),
{
    if crate::text::str_eq(status, "Available") || crate::text::str_eq(status, "Deploying")
        || crate::text::str_eq(status, "Unavailable") || crate::text::str_eq(status, "Offlining") {
        Ok(())
    } else {
        refuse(owned("unsupported model status"))
    }
}

// ---------------------------------------------------------------- arguments

/// `flag value` for a present value that is a bounded scalar.
pub open spec fn spec_opt_scalar(flag: Seq<char>, value: Option<Seq<char>>) -> Result<Seq<Seq<char>>, Seq<char>> {
    match value {
        None => Ok(Seq::empty()),
        Some(v) => if spec_scalar_ok(v) {
            Ok(seq![flag, v])
        } else {
            Err(flag + " must be a bounded scalar"@)
        },
    }
}

fn push_opt_scalar(args: &mut Vec<String>, flag: &str, value: Option<&str>) -> (r: Result<(), FornaxCliError>)
    ensures
        match spec_opt_scalar(flag@, match value { Some(v) => Some(v@), None => None }) {
            Ok(a) => r is Ok && spec_strs(final(args)@) == spec_strs(old(args)@) + a,
            Err(m) => spec_refused(r, Some(m)),
        },
{
    match value {
        Some(v) => {
            match validate_scalar(flag, v) {
                Ok(_) => {},
                Err(e) => {
                    return Err(e);
                },
            }
            push_flag(args, flag, v);
        },
        None => {
            assert(spec_strs(args@) =~= spec_strs(old(args)@) + Seq::<Seq<char>>::empty());
        },
    }
    Ok(())
}

pub open spec fn spec_opt_text(v: Option<&str>) -> Option<Seq<char>> {
    match v {
        Some(v) => Some(v@),
        None => None,
    }
}

pub open spec fn spec_list_datasets_args(name: Option<Seq<char>>, cursor: Option<Seq<char>>, limit: u32) -> Result<
    Seq<Seq<char>>,
    Seq<char>,
> {
    spec_join(
        spec_join(Ok(seq!["dataset"@, "list"@, "--limit"@, spec_decimal(limit as nat)]), spec_opt_scalar("--name"@, name)),
        spec_opt_scalar("--cursor"@, cursor),
    )
}

/// `dataset list --limit N [--name N] [--cursor C]`.
pub fn list_datasets_args(name: Option<&str>, cursor: Option<&str>, limit: u32) -> (r: Result<Vec<String>, FornaxCliError>)
    ensures
        spec_outcome(r, spec_list_datasets_args(spec_opt_text(name), spec_opt_text(cursor), limit)),
{
    let mut args: Vec<String> = Vec::new();
    push_arg(&mut args, "dataset");
    push_arg(&mut args, "list");
    push_flag(&mut args, "--limit", decimal_u64(limit as u64).as_str());
    match push_opt_scalar(&mut args, "--name", name) {
        Ok(_) => {},
        Err(e) => {
            return Err(e);
        },
    }
    let ghost a1 = spec_strs(args@);
    match push_opt_scalar(&mut args, "--cursor", cursor) {
        Ok(_) => {},
        Err(e) => {
            return Err(e);
        },
    }
    proof {
        let e1 = spec_opt_scalar("--name"@, spec_opt_text(name));
        let e2 = spec_opt_scalar("--cursor"@, spec_opt_text(cursor));
        assert(e1 is Ok && e2 is Ok);
        assert(spec_strs(args@) =~= seq!["dataset"@, "list"@, "--limit"@, spec_decimal(limit as nat)] + e1->Ok_0 + e2->Ok_0);
    }
    Ok(args)
}

pub open spec fn spec_list_eval_sets_args(name: Option<Seq<char>>, page: FornaxPageRequest) -> Result<Seq<Seq<char>>, Seq<char>> {
    if !(1 <= page.page_size <= 200) {
        Err("page_size must be between 1 and 200"@)
    } else if page.page_token matches Some(t) && !spec_scalar_ok(t@) {
        Err("page_token"@ + " must be a bounded scalar"@)
    } else {
        spec_join(
            spec_join(
                Ok(seq!["eval-set"@, "list"@, "--page-size"@, spec_decimal(page.page_size as nat)]),
                spec_opt_scalar("--name"@, name),
            ),
            spec_opt_scalar("--page-token"@, spec_opt_str(page.page_token)),
        )
    }
}

/// `eval-set list --page-size N [--name N] [--page-token T]`, after the page checks.
pub fn list_eval_sets_args(name: Option<&str>, page: &FornaxPageRequest) -> (r: Result<Vec<String>, FornaxCliError>)
    ensures
        spec_outcome(r, spec_list_eval_sets_args(spec_opt_text(name), *page)),
{
    match validate_page(page) {
        Ok(_) => {},
        Err(e) => {
            return Err(e);
        },
    }
    let mut args: Vec<String> = Vec::new();
    push_arg(&mut args, "eval-set");
    push_arg(&mut args, "list");
    push_flag(&mut args, "--page-size", decimal_u64(page.page_size as u64).as_str());
    match push_opt_scalar(&mut args, "--name", name) {
        Ok(_) => {},
        Err(e) => {
            return Err(e);
        },
    }
    let token = match &page.page_token {
        Some(t) => Some(t.as_str()),
        None => None,
    };
    match push_opt_scalar(&mut args, "--page-token", token) {
        Ok(_) => {},
        Err(e) => {
            return Err(e);
        },
    }
    proof {
        let e1 = spec_opt_scalar("--name"@, spec_opt_text(name));
        let e2 = spec_opt_scalar("--page-token"@, spec_opt_str(page.page_token));
        assert(spec_opt_text(token) == spec_opt_str(page.page_token));
        assert(e1 is Ok && e2 is Ok);
        assert(spec_strs(args@) =~= seq!["eval-set"@, "list"@, "--page-size"@, spec_decimal(page.page_size as nat)] + e1->Ok_0 + e2->Ok_0);
    }
    Ok(args)
}

pub open spec fn spec_list_evaluators_args(name: Option<Seq<char>>, page_size: u32) -> Result<Seq<Seq<char>>, Seq<char>> {
    if !(1 <= page_size <= 200) {
        Err("page_size must be between 1 and 200"@)
    } else {
        spec_join(
            Ok(seq!["evaluator"@, "list"@, "--with-version"@, "--page-size"@, spec_decimal(page_size as nat)]),
            spec_opt_scalar("--name"@, name),
        )
    }
}

/// `evaluator list --with-version --page-size N [--name N]`.
pub fn list_evaluators_args(name: Option<&str>, page_size: u32) -> (r: Result<Vec<String>, FornaxCliError>)
    ensures
        spec_outcome(r, spec_list_evaluators_args(spec_opt_text(name), page_size)),
{
    match validate_page_size(page_size) {
        Ok(_) => {},
        Err(e) => {
            return Err(e);
        },
    }
    let mut args: Vec<String> = Vec::new();
    push_arg(&mut args, "evaluator");
    push_arg(&mut args, "list");
    push_arg(&mut args, "--with-version");
    push_flag(&mut args, "--page-size", decimal_u64(page_size as u64).as_str());
    match push_opt_scalar(&mut args, "--name", name) {
        Ok(_) => {},
        Err(e) => {
            return Err(e);
        },
    }
    proof {
        let e1 = spec_opt_scalar("--name"@, spec_opt_text(name));
        assert(e1 is Ok);
        assert(spec_strs(args@) =~= seq!["evaluator"@, "list"@, "--with-version"@, "--page-size"@, spec_decimal(page_size as nat)] + e1->Ok_0);
    }
    Ok(args)
}

/// `experiment detail --experiment-id ID`.
pub fn experiment_detail_args(experiment_id: &str) -> (r: Result<Vec<String>, FornaxCliError>)
    ensures
        spec_outcome(
            r,
            if spec_scalar_ok(experiment_id@) {
                Ok(seq!["experiment"@, "detail"@, "--experiment-id"@, experiment_id@])
            } else {
                Err("experiment_id"@ + " must be a bounded scalar"@)
            },
        ),
{
    match validate_scalar("experiment_id", experiment_id) {
        Ok(_) => {},
        Err(e) => {
            return Err(e);
        },
    }
    let mut args: Vec<String> = Vec::new();
    push_arg(&mut args, "experiment");
    push_arg(&mut args, "detail");
    push_flag(&mut args, "--experiment-id", experiment_id);
    assert(spec_strs(args@) =~= seq!["experiment"@, "detail"@, "--experiment-id"@, experiment_id@]);
    Ok(args)
}

/// `flag v` for each value, in order.
pub open spec fn spec_each(flag: Seq<char>, values: Seq<Seq<char>>) -> Seq<Seq<char>>
    decreases values.len(),
{
    if values.len() == 0 {
        Seq::empty()
    } else {
        spec_each(flag, values.drop_last()) + seq![flag, values.last()]
    }
}

fn push_each(args: &mut Vec<String>, flag: &str, values: &Vec<String>)
    ensures
        spec_strs(final(args)@) == spec_strs(old(args)@) + spec_each(flag@, spec_strs(values@)),
{
    let mut i: usize = 0;
    while i < values.len()
        invariant
            i <= values@.len(),
            spec_strs(args@) == spec_strs(old(args)@) + spec_each(flag@, spec_strs(values@.take(i as int))),
        decreases values.len() - i,
    {
        push_flag(args, flag, values[i].as_str());
        proof {
            let post = spec_strs(values@.take(i + 1));
            assert(post.drop_last() =~= spec_strs(values@.take(i as int)));
            assert(post.last() == values@[i as int]@);
            assert(spec_strs(args@) =~= spec_strs(old(args)@) + spec_each(flag@, post));
        }
        i += 1;
    }
    assert(values@.take(values@.len() as int) =~= values@);
}

pub open spec fn spec_submit_args(r: ExperimentEvaluatorOnlyRequest) -> Seq<Seq<char>> {
    seq![
        "experiment"@,
        "submit"@,
        "--name"@,
        r.name@,
        "--eval-set-id"@,
        r.eval_set_id@,
        "--eval-set-version"@,
        r.eval_set_version@,
        "--skip-target"@,
        "--item-retry-num"@,
        spec_decimal(r.item_retry_num as nat),
    ] + spec_each("--evaluator"@, spec_strs(r.evaluators@)) + spec_each(
        "--evaluator-map-from-evalset"@,
        spec_strs(r.evaluator_mappings@),
    )
}

/// An evaluator-only experiment: it never constructs a target run.
pub fn submit_experiment_args(request: &ExperimentEvaluatorOnlyRequest) -> (r: Result<Vec<String>, FornaxCliError>)
    ensures
        spec_outcome(
            r,
            match spec_experiment_error(*request) {
                Some(m) => Err(m),
                None => Ok(spec_submit_args(*request)),
            },
        ),
{
    match validate_experiment(request) {
        Ok(_) => {},
        Err(e) => {
            return Err(e);
        },
    }
    let mut args: Vec<String> = Vec::new();
    push_arg(&mut args, "experiment");
    push_arg(&mut args, "submit");
    push_flag(&mut args, "--name", request.name.as_str());
    push_flag(&mut args, "--eval-set-id", request.eval_set_id.as_str());
    push_flag(&mut args, "--eval-set-version", request.eval_set_version.as_str());
    push_arg(&mut args, "--skip-target");
    push_flag(&mut args, "--item-retry-num", decimal_u64(request.item_retry_num as u64).as_str());
    push_each(&mut args, "--evaluator", &request.evaluators);
    push_each(&mut args, "--evaluator-map-from-evalset", &request.evaluator_mappings);
    assert(spec_strs(args@) =~= spec_submit_args(*request));
    Ok(args)
}

pub open spec fn spec_all_scalars(values: Seq<String>) -> bool {
    forall|i: int| 0 <= i < values.len() ==> spec_scalar_ok((#[trigger] values[i])@)
}

fn all_scalars(values: &Vec<String>) -> (r: bool)
    ensures
        r == spec_all_scalars(values@),
{
    let mut i: usize = 0;
    while i < values.len()
        invariant
            i <= values@.len(),
            forall|j: int| 0 <= j < i ==> spec_scalar_ok((#[trigger] values@[j])@),
        decreases values.len() - i,
    {
        if !scalar_ok(values[i].as_str()) {
            return false;
        }
        i += 1;
    }
    true
}

/// `synthesis list`, narrowed to job ids when some are given.
pub fn list_synthesis_jobs_args(job_ids: &Vec<String>) -> (r: Result<Vec<String>, FornaxCliError>)
    ensures
        spec_outcome(
            r,
            if job_ids@.len() == 0 {
                Ok(seq!["synthesis"@, "list"@])
            } else if !spec_all_scalars(job_ids@) {
                Err("job_id must be a bounded scalar"@)
            } else {
                Ok(seq!["synthesis"@, "list"@, "--job-ids"@, spec_join_commas(spec_strs(job_ids@))])
            },
        ),
{
    let mut args: Vec<String> = Vec::new();
    push_arg(&mut args, "synthesis");
    push_arg(&mut args, "list");
    if job_ids.len() > 0 {
        if !all_scalars(job_ids) {
            return refuse(owned("job_id must be a bounded scalar")).map(|_u: ()| Vec::new());
        }
        push_flag(&mut args, "--job-ids", join_commas(job_ids).as_str());
    }
    assert(spec_strs(args@) =~= if job_ids@.len() == 0 {
        seq!["synthesis"@, "list"@]
    } else {
        seq!["synthesis"@, "list"@, "--job-ids"@, spec_join_commas(spec_strs(job_ids@))]
    });
    Ok(args)
}

pub open spec fn spec_known_status(s: Seq<char>) -> bool {
    s == "Available"@ || s == "Deploying"@ || s == "Unavailable"@ || s == "Offlining"@
}

pub open spec fn spec_list_models_args(page_size: u32, statuses: Seq<String>) -> Result<Seq<Seq<char>>, Seq<char>> {
    if !(1 <= page_size <= 200) {
        Err("page_size must be between 1 and 200"@)
    } else if exists|i: int| 0 <= i < statuses.len() && !spec_known_status((#[trigger] statuses[i])@) {
        Err("unsupported model status"@)
    } else {
        Ok(seq!["model"@, "list"@, "--page-size"@, spec_decimal(page_size as nat)] + spec_each(
            "--status"@,
            spec_strs(statuses),
        ))
    }
}

/// `model list --page-size N [--status S]…` for the known statuses.
pub fn list_models_args(page_size: u32, statuses: &Vec<String>) -> (r: Result<Vec<String>, FornaxCliError>)
    ensures
        spec_outcome(r, spec_list_models_args(page_size, statuses@)),
{
    match validate_page_size(page_size) {
        Ok(_) => {},
        Err(e) => {
            return Err(e);
        },
    }
    let mut i: usize = 0;
    while i < statuses.len()
        invariant
            i <= statuses@.len(),
            1 <= page_size <= 200,
            forall|j: int| 0 <= j < i ==> spec_known_status((#[trigger] statuses@[j])@),
        decreases statuses.len() - i,
    {
        if validate_model_status(statuses[i].as_str()).is_err() {
            assert(!spec_known_status(statuses@[i as int]@));
            return Err(FornaxCliError::InvalidRequest { message: owned("unsupported model status") });
        }
        i += 1;
    }
    let mut args: Vec<String> = Vec::new();
    push_arg(&mut args, "model");
    push_arg(&mut args, "list");
    push_flag(&mut args, "--page-size", decimal_u64(page_size as u64).as_str());
    push_each(&mut args, "--status", statuses);
    assert(spec_strs(args@) =~= seq!["model"@, "list"@, "--page-size"@, spec_decimal(page_size as nat)] + spec_each(
        "--status"@,
        spec_strs(statuses@),
    ));
    assert(!(exists|j: int| 0 <= j < statuses@.len() && !spec_known_status((#[trigger] statuses@[j])@)));
    Ok(args)
}

/// `user get --ext-user-ids A,B,…` for at least one bounded id.
pub fn users_by_external_ids_args(external_user_ids: &Vec<String>) -> (r: Result<Vec<String>, FornaxCliError>)
    ensures
        spec_outcome(
            r,
            if external_user_ids@.len() == 0 {
                Err("at least one external user id is required"@)
            } else if !spec_all_scalars(external_user_ids@) {
                Err("external_user_id must be a bounded scalar"@)
            } else {
                Ok(seq!["user"@, "get"@, "--ext-user-ids"@, spec_join_commas(spec_strs(external_user_ids@))])
            },
        ),
{
    if external_user_ids.len() == 0 {
        return Err(FornaxCliError::InvalidRequest { message: owned("at least one external user id is required") });
    }
    if !all_scalars(external_user_ids) {
        return Err(FornaxCliError::InvalidRequest { message: owned("external_user_id must be a bounded scalar") });
    }
    let mut args: Vec<String> = Vec::new();
    push_arg(&mut args, "user");
    push_arg(&mut args, "get");
    push_flag(&mut args, "--ext-user-ids", join_commas(external_user_ids).as_str());
    assert(spec_strs(args@) =~= seq!["user"@, "get"@, "--ext-user-ids"@, spec_join_commas(spec_strs(external_user_ids@))]);
    Ok(args)
}

} // verus!
