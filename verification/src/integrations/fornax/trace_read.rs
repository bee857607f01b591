//! The argument vectors of `fornax-cli` trace, span and trajectory reads,
//! and the checks on their requests.
use vstd::prelude::*;

use crate::args::join_commas;
use crate::args::push_arg;
use crate::args::push_flag;
use crate::args::push_option;
use crate::args::spec_join_commas;
use crate::args::spec_option;
use crate::integrations::fornax::error::FornaxCliError;
use crate::integrations::fornax::types::SpanListRequest;
use crate::integrations::fornax::types::TimeWindow;
use crate::integrations::fornax::types::TraceGetRequest;
use crate::integrations::fornax::types::TraceListRequest;
use crate::integrations::fornax::types::TraceLookup;
use crate::integrations::fornax::types::TrajectoryLookup;
use crate::integrations::version::decimal_i64;
use crate::integrations::version::decimal_u64;
use crate::integrations::version::spec_decimal;
use crate::integrations::version::spec_int_text;
use crate::text::has_char;
use crate::text::has_control;
use crate::text::is_blank;
use crate::text::owned;
use crate::text::spec_blank;
use crate::text::spec_has_control;
use crate::text::spec_opt_str;
use crate::text::spec_strs;

verus! {

/// Arguments, or the message refusing the request.
pub open spec fn spec_outcome(r: Result<Vec<String>, FornaxCliError>, expected: Result<Seq<Seq<char>>, Seq<char>>) -> bool {
    match expected {
        Ok(a) => r matches Ok(v) && spec_strs(v@) == a,
        Err(m) => r matches Err(FornaxCliError::InvalidRequest { message }) && message@ == m,
    }
}

fn refuse(message: &str) -> (r: Result<Vec<String>, FornaxCliError>)
    ensures
        r matches Err(FornaxCliError::InvalidRequest { message: m }) && m@ == message@,
{
    Err(FornaxCliError::InvalidRequest { message: owned(message) })
}

pub open spec fn spec_window_args(w: TimeWindow) -> Result<Seq<Seq<char>>, Seq<char>> {
    match w {
        TimeWindow::LastMinutes(m) => if m > 0 {
            Ok(seq!["--last-n-minutes"@, spec_decimal(m as nat)])
        } else {
            Err("time window must be positive"@)
        },
        TimeWindow::Iso8601 { since, until } => if since@.len() > 0 && until@.len() > 0 {
            Ok(seq!["--since"@, since@, "--until"@, until@])
        } else {
            Err("ISO-8601 window requires both bounds"@)
        },
        TimeWindow::EpochMillis { start_ms, end_ms } => if start_ms < end_ms {
            Ok(seq!["--start-ms"@, spec_int_text(start_ms as int), "--end-ms"@, spec_int_text(end_ms as int)])
        } else {
            Err("epoch window start must precede end"@)
        },
    }
}

/// The arguments of a time window: a positive number of minutes, both ISO
/// bounds, or an epoch interval whose start precedes its end.
pub fn window_args(w: &TimeWindow) -> (r: Result<Vec<String>, FornaxCliError>)
    ensures
        spec_outcome(r, spec_window_args(*w)),
{
    let mut args: Vec<String> = Vec::new();
    match w {
        TimeWindow::LastMinutes(m) => {
            if *m == 0 {
                return refuse("time window must be positive");
            }
            push_flag(&mut args, "--last-n-minutes", decimal_u64(*m).as_str());
            assert(spec_strs(args@) =~= seq!["--last-n-minutes"@, spec_decimal(*m as nat)]);
        },
        TimeWindow::Iso8601 { since, until } => {
            if crate::text::chars_of(since.as_str()).len() == 0 || crate::text::chars_of(until.as_str()).len() == 0 {
                return refuse("ISO-8601 window requires both bounds");
            }
            push_flag(&mut args, "--since", since.as_str());
            push_flag(&mut args, "--until", until.as_str());
            assert(spec_strs(args@) =~= seq!["--since"@, since@, "--until"@, until@]);
        },
        TimeWindow::EpochMillis { start_ms, end_ms } => {
            if *start_ms >= *end_ms {
                return refuse("epoch window start must precede end");
            }
            push_flag(&mut args, "--start-ms", decimal_i64(*start_ms).as_str());
            push_flag(&mut args, "--end-ms", decimal_i64(*end_ms).as_str());
            assert(spec_strs(args@) =~= seq![
                "--start-ms"@,
                spec_int_text(*start_ms as int),
                "--end-ms"@,
                spec_int_text(*end_ms as int),
            ]);
        },
    }
    Ok(args)
}

/// The arguments of an optional time window.
pub open spec fn spec_window_opt(w: Option<TimeWindow>) -> Result<Seq<Seq<char>>, Seq<char>> {
    match w {
        Some(w) => spec_window_args(w),
        None => Ok(Seq::empty()),
    }
}

/// An identifier argument must be non-blank and free of control characters.
pub open spec fn spec_id_ok(v: Seq<char>) -> bool {
    !spec_blank(v) && !spec_has_control(v)
}

pub open spec fn spec_id_error() -> Seq<char> {
    "identifier must be non-empty and contain no controls"@
}

pub open spec fn spec_page_size_ok(n: u32) -> bool {
    1 <= n <= 200
}

pub open spec fn spec_no_commas(ids: Seq<String>) -> bool {
    forall|i: int| 0 <= i < ids.len() ==> !(#[trigger] ids[i])@.contains(',')
}

fn no_commas(ids: &Vec<String>) -> (r: bool)
    ensures
        r == spec_no_commas(ids@),
{
    let mut i: usize = 0;
    while i < ids.len()
        invariant
            i <= ids@.len(),
            forall|j: int| 0 <= j < i ==> !(#[trigger] ids@[j])@.contains(','),
        decreases ids.len() - i,
    {
        if has_char(ids[i].as_str(), ',') {
            return false;
        }
        i += 1;
    }
    true
}

fn id_ok(v: &str) -> (r: bool)
    ensures
        r == spec_id_ok(v@),
{
    !is_blank(v) && !has_control(v)
}

pub open spec fn spec_join(r: Result<Seq<Seq<char>>, Seq<char>>, more: Result<Seq<Seq<char>>, Seq<char>>) -> Result<
    Seq<Seq<char>>,
    Seq<char>,
> {
    match r {
        Err(m) => Err(m),
        Ok(a) => match more {
            Err(m) => Err(m),
            Ok(b) => Ok(a + b),
        },
    }
}

pub open spec fn spec_trace_get_args(r: TraceGetRequest) -> Result<Seq<Seq<char>>, Seq<char>> {
    let (flag, id) = match r.lookup {
        TraceLookup::TraceId(t) => ("--trace-id"@, t@),
        TraceLookup::LogId(l) => ("--log-id"@, l@),
    };
    if !spec_id_ok(id) {
        Err(spec_id_error())
    } else if r.span_ids@.len() > 0 && !spec_no_commas(r.span_ids@) {
        Err("span IDs must not contain commas"@)
    } else {
        let head = seq!["trace"@, "get"@, flag, id] + (if r.span_ids@.len() > 0 {
            seq!["--span-id"@, spec_join_commas(spec_strs(r.span_ids@))]
        } else {
            Seq::empty()
        });
        spec_join(Ok(head), spec_join(spec_window_opt(r.time_window), Ok(if r.tree { seq!["--tree"@] } else { Seq::empty() })))
    }
}

/// `trace get` by trace id or log id, optionally restricted to span ids,
/// a time window, and the tree shape.
pub fn trace_get_args(request: &TraceGetRequest) -> (r: Result<Vec<String>, FornaxCliError>)
    ensures
        spec_outcome(r, spec_trace_get_args(*request)),
{
    let mut args: Vec<String> = Vec::new();
    push_arg(&mut args, "trace");
    push_arg(&mut args, "get");
    let (flag, id) = match &request.lookup {
        TraceLookup::TraceId(t) => ("--trace-id", t.as_str()),
        TraceLookup::LogId(l) => ("--log-id", l.as_str()),
    };
    if !id_ok(id) {
        return refuse("identifier must be non-empty and contain no controls");
    }
    push_flag(&mut args, flag, id);
    let ghost base = spec_strs(args@);
    if request.span_ids.len() > 0 {
        if !no_commas(&request.span_ids) {
            return refuse("span IDs must not contain commas");
        }
        push_flag(&mut args, "--span-id", join_commas(&request.span_ids).as_str());
    }
    assert(spec_strs(args@) =~= seq!["trace"@, "get"@, flag@, id@] + (if request.span_ids@.len() > 0 {
        seq!["--span-id"@, spec_join_commas(spec_strs(request.span_ids@))]
    } else {
        Seq::<Seq<char>>::empty()
    }));
    let ghost head = spec_strs(args@);
    match &request.time_window {
        Some(w) => {
            let extra = window_args(w)?;
            let mut k: usize = 0;
            while k < extra.len()
                invariant
                    k <= extra@.len(),
                    spec_strs(args@) == head + spec_strs(extra@.take(k as int)),
                decreases extra.len() - k,
            {
                push_arg(&mut args, extra[k].as_str());
                assert(spec_strs(extra@.take(k + 1)) =~= spec_strs(extra@.take(k as int)).push(extra@[k as int]@));
                assert(spec_strs(args@) =~= head + spec_strs(extra@.take(k + 1)));
                k += 1;
            }
            assert(extra@.take(extra@.len() as int) =~= extra@);
        },
        None => {
            assert(spec_strs(args@) =~= head + Seq::<Seq<char>>::empty());
        },
    }
    let ghost mid = spec_strs(args@);
    if request.tree {
        push_arg(&mut args, "--tree");
    }
    assert(spec_strs(args@) =~= mid + (if request.tree { seq!["--tree"@] } else { Seq::<Seq<char>>::empty() }));
    proof {
        let w = spec_window_opt(request.time_window);
        let t = if request.tree { seq!["--tree"@] } else { Seq::<Seq<char>>::empty() };
        assert(w matches Ok(x) && mid == head + x);
        assert(spec_strs(args@) =~= head + (w->Ok_0 + t));
    }
    Ok(args)
}

fn append_all(args: &mut Vec<String>, extra: &Vec<String>)
    ensures
        spec_strs(final(args)@) == spec_strs(old(args)@) + spec_strs(extra@),
{
    let ghost head = spec_strs(args@);
    let mut k: usize = 0;
    while k < extra.len()
        invariant
            k <= extra@.len(),
            spec_strs(args@) == head + spec_strs(extra@.take(k as int)),
        decreases extra.len() - k,
    {
        push_arg(args, extra[k].as_str());
        assert(spec_strs(extra@.take(k + 1)) =~= spec_strs(extra@.take(k as int)).push(extra@[k as int]@));
        assert(spec_strs(args@) =~= head + spec_strs(extra@.take(k + 1)));
        k += 1;
    }
    assert(extra@.take(extra@.len() as int) =~= extra@);
}

pub open spec fn spec_trace_list_args(r: TraceListRequest) -> Result<Seq<Seq<char>>, Seq<char>> {
    if !spec_page_size_ok(r.page_size) {
        Err("page size must be between 1 and 200"@)
    } else {
        spec_join(
            Ok(seq!["trace"@, "list"@, "--page-size"@, spec_decimal(r.page_size as nat)] + spec_option(
                "--trace-filter-expr"@,
                spec_opt_str(r.trace_filter),
            ) + spec_option("--span-filter-expr"@, spec_opt_str(r.span_filter))),
            spec_window_args(r.time_window),
        )
    }
}

/// `trace list` of one page within a time window.
pub fn trace_list_args(request: &TraceListRequest) -> (r: Result<Vec<String>, FornaxCliError>)
    ensures
        spec_outcome(r, spec_trace_list_args(*request)),
{
    if request.page_size == 0 || request.page_size > 200 {
        return refuse("page size must be between 1 and 200");
    }
    let mut args: Vec<String> = Vec::new();
    push_arg(&mut args, "trace");
    push_arg(&mut args, "list");
    push_flag(&mut args, "--page-size", decimal_u64(request.page_size as u64).as_str());
    push_option(&mut args, "--trace-filter-expr", &request.trace_filter);
    push_option(&mut args, "--span-filter-expr", &request.span_filter);
    assert(spec_strs(args@) =~= seq!["trace"@, "list"@, "--page-size"@, spec_decimal(request.page_size as nat)] + spec_option("--trace-filter-expr"@, spec_opt_str(request.trace_filter)) + spec_option("--span-filter-expr"@, spec_opt_str(request.span_filter)));
    let extra = window_args(&request.time_window)?;
    append_all(&mut args, &extra);
    Ok(args)
}

pub open spec fn spec_span_list_args(r: SpanListRequest) -> Result<Seq<Seq<char>>, Seq<char>> {
    if !spec_page_size_ok(r.page_size) {
        Err("page size must be between 1 and 200"@)
    } else {
        spec_join(
            Ok(seq!["span"@, "list"@, "--page-size"@, spec_decimal(r.page_size as nat)] + spec_option(
                "--page-token"@,
                spec_opt_str(r.page_token),
            ) + spec_option("--span-filter-expr"@, spec_opt_str(r.span_filter))),
            spec_window_args(r.time_window),
        )
    }
}

/// `span list` of one page within a time window.
pub fn span_list_args(request: &SpanListRequest) -> (r: Result<Vec<String>, FornaxCliError>)
    ensures
        spec_outcome(r, spec_span_list_args(*request)),
{
    if request.page_size == 0 || request.page_size > 200 {
        return refuse("page size must be between 1 and 200");
    }
    let mut args: Vec<String> = Vec::new();
    push_arg(&mut args, "span");
    push_arg(&mut args, "list");
    push_flag(&mut args, "--page-size", decimal_u64(request.page_size as u64).as_str());
    push_option(&mut args, "--page-token", &request.page_token);
    push_option(&mut args, "--span-filter-expr", &request.span_filter);
    assert(spec_strs(args@) =~= seq!["span"@, "list"@, "--page-size"@, spec_decimal(request.page_size as nat)] + spec_option("--page-token"@, spec_opt_str(request.page_token)) + spec_option("--span-filter-expr"@, spec_opt_str(request.span_filter)));
    let extra = window_args(&request.time_window)?;
    append_all(&mut args, &extra);
    Ok(args)
}

pub open spec fn spec_trajectory_args(lookup: TrajectoryLookup, window: Option<TimeWindow>) -> Result<
    Seq<Seq<char>>,
    Seq<char>,
> {
    let selector: Result<Seq<Seq<char>>, Seq<char>> = match lookup {
        TrajectoryLookup::TraceIds(ids) => if ids@.len() == 0 || !spec_no_commas(ids@) {
            Err("trajectory trace IDs must be non-empty and contain no commas"@)
        } else {
            Ok(seq!["--trace-id"@, spec_join_commas(spec_strs(ids@))])
        },
        TrajectoryLookup::ExperimentId(e) => if spec_id_ok(e@) {
            Ok(seq!["--experiment-id"@, e@])
        } else {
            Err(spec_id_error())
        },
        TrajectoryLookup::LogId(l) => if spec_id_ok(l@) {
            Ok(seq!["--log-id"@, l@])
        } else {
            Err(spec_id_error())
        },
    };
    spec_join(
        spec_join(Ok(seq!["trajectory"@]), selector),
        spec_window_opt(window),
    )
}

/// `trajectory` by trace ids, experiment id or log id, optionally within a
/// time window.
pub fn trajectory_args(lookup: &TrajectoryLookup, window: Option<&TimeWindow>) -> (r: Result<Vec<String>, FornaxCliError>)
    ensures
        spec_outcome(r, spec_trajectory_args(*lookup, match window { Some(w) => Some(*w), None => None })),
{
    let mut args: Vec<String> = Vec::new();
    push_arg(&mut args, "trajectory");
    match lookup {
        TrajectoryLookup::TraceIds(ids) => {
            if ids.len() == 0 || !no_commas(ids) {
                return refuse("trajectory trace IDs must be non-empty and contain no commas");
            }
            push_flag(&mut args, "--trace-id", join_commas(ids).as_str());
            assert(spec_strs(args@) =~= seq!["trajectory"@] + seq!["--trace-id"@, spec_join_commas(spec_strs(ids@))]);
        },
        TrajectoryLookup::ExperimentId(e) => {
            if !id_ok(e.as_str()) {
                return refuse("identifier must be non-empty and contain no controls");
            }
            push_flag(&mut args, "--experiment-id", e.as_str());
            assert(spec_strs(args@) =~= seq!["trajectory"@] + seq!["--experiment-id"@, e@]);
        },
        TrajectoryLookup::LogId(l) => {
            if !id_ok(l.as_str()) {
                return refuse("identifier must be non-empty and contain no controls");
            }
            push_flag(&mut args, "--log-id", l.as_str());
            assert(spec_strs(args@) =~= seq!["trajectory"@] + seq!["--log-id"@, l@]);
        },
    }
    let ghost sel = spec_strs(args@);
    match window {
        Some(w) => {
            let extra = window_args(w)?;
            append_all(&mut args, &extra);
        },
        None => {
            assert(spec_strs(args@) =~= sel + Seq::<Seq<char>>::empty());
        },
    }
    Ok(args)
}

} // verus!
