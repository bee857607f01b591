//! Replaces configured secret values and credential assignments in diagnostics.
use vstd::prelude::*;

use crate::text::chars_of;
use crate::text::spec_ascii_lower;
use crate::text::spec_whitespace;
use crate::text::ascii_lower;
use crate::text::is_whitespace;
use crate::text::string_of;

verus! {

/// `pat` occurs in `s` at position `i`.
pub open spec fn spec_occurs_at(s: Seq<char>, pat: Seq<char>, i: int) -> bool {
    0 <= i && i + pat.len() <= s.len() && s.subrange(i, i + pat.len()) == pat
}

/// `str::replace` from position `i` on: non-overlapping, left to right.
pub open spec fn spec_replace_from(s: Seq<char>, pat: Seq<char>, rep: Seq<char>, i: int) -> Seq<char>
    decreases s.len() - i,
{
    if i < 0 || i >= s.len() || pat.len() == 0 {
        s.subrange(if i < 0 { 0 } else if i > s.len() { s.len() as int } else { i }, s.len() as int)
    } else if spec_occurs_at(s, pat, i) {
        rep + spec_replace_from(s, pat, rep, i + pat.len())
    } else {
        seq![s[i]] + spec_replace_from(s, pat, rep, i + 1)
    }
}

pub open spec fn spec_replace(s: Seq<char>, pat: Seq<char>, rep: Seq<char>) -> Seq<char> {
    spec_replace_from(s, pat, rep, 0)
}

/// Text that replaces a secret.
pub open spec fn spec_mask() -> Seq<char> {
    "[REDACTED]"@
}

/// The lower-case `marker` occurs case-insensitively at `i`.
pub open spec fn spec_marker_at(v: Seq<char>, marker: Seq<char>, i: int) -> bool {
    0 <= i && i + marker.len() <= v.len() && forall|k: int|
        0 <= k < marker.len() ==> spec_ascii_lower(#[trigger] v[i + k]) == marker[k]
}

/// First case-insensitive occurrence of `marker` at or after `from`.
pub open spec fn spec_find_marker(v: Seq<char>, marker: Seq<char>, from: int) -> Option<int>
    decreases v.len() - from,
{
    if from < 0 || from + marker.len() > v.len() {
        None
    } else if spec_marker_at(v, marker, from) {
        Some(from)
    } else {
        spec_find_marker(v, marker, from + 1)
    }
}

/// First `=` or `:` at or after `from`.
pub open spec fn spec_find_separator(v: Seq<char>, from: int) -> Option<int>
    decreases v.len() - from,
{
    if from < 0 || from >= v.len() {
        None
    } else if v[from] == '=' || v[from] == ':' {
        Some(from)
    } else {
        spec_find_separator(v, from + 1)
    }
}

/// Characters that end a credential value.
pub open spec fn spec_terminator(c: char) -> bool {
    spec_whitespace(c) || c == ',' || c == '}' || c == '"' || c == '\''
}

/// End of the value starting at `from`: the first terminator, or the end of text.
pub open spec fn spec_value_end(v: Seq<char>, from: int) -> int
    decreases v.len() - from,
{
    if from < 0 || from >= v.len() {
        v.len() as int
    } else if spec_terminator(v[from]) {
        from
    } else {
        spec_value_end(v, from + 1)
    }
}

/// UTF-8 length of one character.
pub open spec fn spec_utf8_len(c: char) -> int {
    if (c as u32) < 0x80 {
        1
    } else if (c as u32) < 0x800 {
        2
    } else if (c as u32) < 0x10000 {
        3
    } else {
        4
    }
}

/// The character position `n` UTF-8 bytes after `from`, if that is a boundary within the text.
pub open spec fn spec_advance_bytes(v: Seq<char>, from: int, n: int) -> Option<int>
    decreases v.len() - from,
{
    if n == 0 {
        Some(from)
    } else if n < 0 || from < 0 || from >= v.len() || spec_utf8_len(v[from]) > n {
        None
    } else {
        spec_advance_bytes(v, from + 1, n - spec_utf8_len(v[from]))
    }
}

pub proof fn lemma_find_marker_bounds(v: Seq<char>, marker: Seq<char>, from: int)
    ensures
        spec_find_marker(v, marker, from) matches Some(p) ==> from <= p && p + marker.len()
            <= v.len() && spec_marker_at(v, marker, p),
    decreases v.len() - from,
{
    if from >= 0 && from + marker.len() <= v.len() && !spec_marker_at(v, marker, from) {
        lemma_find_marker_bounds(v, marker, from + 1);
    }
}

pub proof fn lemma_find_separator_bounds(v: Seq<char>, from: int)
    ensures
        spec_find_separator(v, from) matches Some(p) ==> from <= p < v.len() && (v[p] == '='
            || v[p] == ':'),
    decreases v.len() - from,
{
    if 0 <= from < v.len() && !(v[from] == '=' || v[from] == ':') {
        lemma_find_separator_bounds(v, from + 1);
    }
}

pub proof fn lemma_value_end_bounds(v: Seq<char>, from: int)
    requires
        0 <= from <= v.len(),
    ensures
        from <= spec_value_end(v, from) <= v.len(),
    decreases v.len() - from,
{
    if from < v.len() && !spec_terminator(v[from]) {
        lemma_value_end_bounds(v, from + 1);
    }
}

pub proof fn lemma_advance_bounds(v: Seq<char>, from: int, n: int)
    requires
        n > 0,
    ensures
        spec_advance_bytes(v, from, n) matches Some(j) ==> from < j <= v.len(),
    decreases v.len() - from,
{
    if !(n < 0 || from < 0 || from >= v.len() || spec_utf8_len(v[from]) > n) {
        let m = n - spec_utf8_len(v[from]);
        if m > 0 {
            lemma_advance_bounds(v, from + 1, m);
        }
    }
}

/// Masks every `marker … =|: value` assignment from `from` on; the search
/// stops where it would resume inside a character or past the end of the text.
pub open spec fn spec_mask_assignments(v: Seq<char>, marker: Seq<char>, from: int) -> Option<Seq<char>>
    decreases v.len() - from,
{
    if from < 0 || from > v.len() || marker.len() == 0 {
        Some(v)
    } else {
        match spec_find_marker(v, marker, from) {
            None => Some(v),
            Some(start) => {
                let after = start + marker.len();
                proof {
                    lemma_find_marker_bounds(v, marker, from);
                }
                match spec_find_separator(v, after) {
                    None => spec_mask_assignments(v, marker, after),
                    Some(sep) => {
                        proof {
                            lemma_find_separator_bounds(v, after);
                        }
                        let s = sep + 1;
                        let e = spec_value_end(v, s);
                        proof {
                            lemma_value_end_bounds(v, s);
                        }
                        if e > s {
                            proof {
                                reveal_strlit("[REDACTED]");
                                assert(spec_mask().len() == 10);
                            }
                            spec_mask_assignments(
                                v.subrange(0, s) + spec_mask() + v.subrange(e, v.len() as int),
                                marker,
                                s + 10,
                            )
                        } else {
                            proof {
                                lemma_advance_bounds(v, s, 10);
                            }
                            match spec_advance_bytes(v, s, 10) {
                                None => Some(v),
                                Some(j) => spec_mask_assignments(v, marker, j),
                            }
                        }
                    },
                }
            },
        }
    }
}


/// UTF-8 byte length of a text.
pub open spec fn spec_byte_len(s: Seq<char>) -> nat {
    vstd::utf8::encode_utf8(s).len()
}

/// Stable insertion after every element at least as long.
pub open spec fn spec_insert_longest_first(sorted: Seq<Seq<char>>, x: Seq<char>) -> Seq<Seq<char>>
    decreases sorted.len(),
{
    if sorted.len() == 0 {
        seq![x]
    } else if spec_byte_len(sorted[0]) >= spec_byte_len(x) {
        seq![sorted[0]] + spec_insert_longest_first(sorted.drop_first(), x)
    } else {
        seq![x] + sorted
    }
}

/// Stable sort by decreasing byte length.
pub open spec fn spec_sort_longest_first(s: Seq<Seq<char>>) -> Seq<Seq<char>>
    decreases s.len(),
{
    if s.len() == 0 {
        Seq::empty()
    } else {
        spec_insert_longest_first(spec_sort_longest_first(s.drop_last()), s.last())
    }
}

/// Removes consecutive repeats.
pub open spec fn spec_dedup(s: Seq<Seq<char>>) -> Seq<Seq<char>>
    decreases s.len(),
{
    if s.len() == 0 {
        Seq::empty()
    } else {
        let d = spec_dedup(s.drop_last());
        if d.len() > 0 && d.last() == s.last() {
            d
        } else {
            d.push(s.last())
        }
    }
}

/// Secrets a redactor keeps: non-empty values, longest first, consecutive repeats removed.
pub open spec fn spec_prepare_secrets(s: Seq<Seq<char>>) -> Seq<Seq<char>> {
    spec_dedup(spec_sort_longest_first(s.filter(spec_nonempty())))
}

/// Keeps non-empty values.
pub open spec fn spec_nonempty() -> spec_fn(Seq<char>) -> bool {
    |x: Seq<char>| x.len() > 0
}

/// Replaces each secret in turn.
pub open spec fn spec_replace_secrets(secrets: Seq<Seq<char>>, v: Seq<char>) -> Seq<char>
    decreases secrets.len(),
{
    if secrets.len() == 0 {
        v
    } else {
        spec_replace(spec_replace_secrets(secrets.drop_last(), v), secrets.last(), spec_mask())
    }
}

/// Credential markers, matched case-insensitively, in the order they are applied.
pub open spec fn spec_markers() -> Seq<Seq<char>> {
    seq![
        "fornax_ak"@,
        "fornax_sk"@,
        "fornax_byted_jwt_token"@,
        "authorization"@,
        "token"@,
        "secret"@,
    ]
}

/// Masks assignments for each marker in turn.
pub open spec fn spec_mask_all(markers: Seq<Seq<char>>, v: Seq<char>) -> Option<Seq<char>>
    decreases markers.len(),
{
    if markers.len() == 0 {
        Some(v)
    } else {
        match spec_mask_all(markers.drop_last(), v) {
            None => None,
            Some(w) => spec_mask_assignments(w, markers.last(), 0),
        }
    }
}

/// The redaction of `v`; it always exists (`lemma_redact_some`).
pub open spec fn spec_redact(secrets: Seq<Seq<char>>, v: Seq<char>) -> Option<Seq<char>> {
    spec_mask_all(spec_markers(), spec_replace_secrets(secrets, v))
}

fn occurs_at(v: &Vec<char>, pat: &Vec<char>, i: usize) -> (r: bool)
    ensures
        r == spec_occurs_at(v@, pat@, i as int),
{
    if i > v.len() || pat.len() > v.len() - i {
        return false;
    }
    let n = v.len();
    let mut k: usize = 0;
    while k < pat.len()
        invariant
            k <= pat@.len(),
            n == v@.len(),
            i + pat@.len() <= v@.len(),
            forall|x: int| 0 <= x < k ==> v@[i + x] == pat@[x],
        decreases pat.len() - k,
    {
        if v[i + k] != pat[k] {
            assert(v@.subrange(i as int, i + pat@.len())[k as int] != pat@[k as int]);
            return false;
        }
        k += 1;
    }
    assert(v@.subrange(i as int, i + pat@.len()) =~= pat@);
    true
}

fn push_all(out: &mut Vec<char>, s: &Vec<char>)
    ensures
        final(out)@ == old(out)@ + s@,
{
    let mut k: usize = 0;
    while k < s.len()
        invariant
            k <= s@.len(),
            out@ == old(out)@ + s@.take(k as int),
        decreases s.len() - k,
    {
        out.push(s[k]);
        assert(s@.take(k + 1) == s@.take(k as int).push(s@[k as int]));
        k += 1;
    }
    assert(s@.take(s@.len() as int) == s@);
}

/// `str::replace` for a non-empty pattern.
pub fn replace_all(v: &Vec<char>, pat: &Vec<char>, rep: &Vec<char>) -> (r: Vec<char>)
    requires
        pat@.len() > 0,
    ensures
        r@ == spec_replace(v@, pat@, rep@),
{
    let mut out: Vec<char> = Vec::new();
    let mut i: usize = 0;
    while i < v.len()
        invariant
            i <= v@.len(),
            pat@.len() > 0,
            out@ + spec_replace_from(v@, pat@, rep@, i as int) == spec_replace(v@, pat@, rep@),
        decreases v.len() - i,
    {
        let ghost before = out@;
        if occurs_at(v, pat, i) {
            push_all(&mut out, rep);
            assert(out@ + spec_replace_from(v@, pat@, rep@, i + pat@.len()) =~= before + (rep@
                + spec_replace_from(v@, pat@, rep@, i + pat@.len())));
            i = i + pat.len();
        } else {
            out.push(v[i]);
            assert(out@ + spec_replace_from(v@, pat@, rep@, i + 1) =~= before + (seq![v@[i as int]]
                + spec_replace_from(v@, pat@, rep@, i + 1)));
            i = i + 1;
        }
    }
    assert(spec_replace_from(v@, pat@, rep@, i as int) =~= Seq::<char>::empty());
    assert(out@ =~= out@ + Seq::<char>::empty());
    out
}

fn marker_at(v: &Vec<char>, marker: &Vec<char>, i: usize) -> (r: bool)
    ensures
        r == spec_marker_at(v@, marker@, i as int),
{
    if i > v.len() || marker.len() > v.len() - i {
        return false;
    }
    let n = v.len();
    let mut k: usize = 0;
    while k < marker.len()
        invariant
            k <= marker@.len(),
            n == v@.len(),
            i + marker@.len() <= v@.len(),
            forall|x: int| 0 <= x < k ==> spec_ascii_lower(#[trigger] v@[i + x]) == marker@[x],
        decreases marker.len() - k,
    {
        if ascii_lower(v[i + k]) != marker[k] {
            return false;
        }
        k += 1;
    }
    true
}

fn find_marker(v: &Vec<char>, marker: &Vec<char>, from: usize) -> (r: Option<usize>)
    ensures
        match r {
            Some(p) => spec_find_marker(v@, marker@, from as int) == Some(p as int),
            None => spec_find_marker(v@, marker@, from as int) is None,
        },
{
    let mut i = from;
    while i <= v.len() && marker.len() <= v.len() - i
        invariant
            from <= i,
            spec_find_marker(v@, marker@, from as int) == spec_find_marker(v@, marker@, i as int),
        decreases v.len() + 1 - i,
    {
        if marker_at(v, marker, i) {
            return Some(i);
        }
        i += 1;
    }
    None
}

fn find_separator(v: &Vec<char>, from: usize) -> (r: Option<usize>)
    ensures
        match r {
            Some(p) => spec_find_separator(v@, from as int) == Some(p as int),
            None => spec_find_separator(v@, from as int) is None,
        },
{
    let mut i = from;
    while i < v.len()
        invariant
            from <= i,
            spec_find_separator(v@, from as int) == spec_find_separator(v@, i as int),
        decreases v.len() - i,
    {
        if v[i] == '=' || v[i] == ':' {
            return Some(i);
        }
        i += 1;
    }
    None
}

fn value_end(v: &Vec<char>, from: usize) -> (r: usize)
    requires
        from <= v@.len(),
    ensures
        r as int == spec_value_end(v@, from as int),
{
    let mut i = from;
    while i < v.len()
        invariant
            from <= i <= v@.len(),
            spec_value_end(v@, from as int) == spec_value_end(v@, i as int),
        decreases v.len() - i,
    {
        let c = v[i];
        if is_whitespace(c) || c == ',' || c == '}' || c == '"' || c == '\'' {
            return i;
        }
        i += 1;
    }
    i
}

fn utf8_len(c: char) -> (n: usize)
    ensures
        n as int == spec_utf8_len(c),
{
    let v = c as u32;
    if v < 0x80 {
        1
    } else if v < 0x800 {
        2
    } else if v < 0x10000 {
        3
    } else {
        4
    }
}

fn advance_bytes(v: &Vec<char>, from: usize, n: usize) -> (r: Option<usize>)
    ensures
        match r {
            Some(j) => spec_advance_bytes(v@, from as int, n as int) == Some(j as int),
            None => spec_advance_bytes(v@, from as int, n as int) is None,
        },
{
    let mut i = from;
    let mut left = n;
    while left > 0
        invariant
            from <= i,
            spec_advance_bytes(v@, from as int, n as int) == spec_advance_bytes(
                v@,
                i as int,
                left as int,
            ),
        decreases left,
    {
        if i >= v.len() {
            return None;
        }
        let w = utf8_len(v[i]);
        if w > left {
            return None;
        }
        left = left - w;
        i = i + 1;
    }
    Some(i)
}

fn mask_chars() -> (m: Vec<char>)
    ensures
        m@ == spec_mask(),
{
    chars_of("[REDACTED]")
}

/// Masks every `marker … =|: value` assignment.
fn mask_assignments(v: Vec<char>, marker: &Vec<char>) -> (r: Option<Vec<char>>)
    requires
        marker@.len() > 0,
    ensures
        match r {
            Some(x) => Some(x@) == spec_mask_assignments(v@, marker@, 0),
            None => spec_mask_assignments(v@, marker@, 0) is None,
        },
{
    let ghost goal = spec_mask_assignments(v@, marker@, 0);
    let mask = mask_chars();
    proof {
        reveal_strlit("[REDACTED]");
    }
    let mut cur = v;
    let mut from: usize = 0;
    loop
        invariant
            marker@.len() > 0,
            mask@ == spec_mask(),
            mask@.len() == 10,
            from <= cur@.len(),
            spec_mask_assignments(cur@, marker@, from as int) == goal,
            goal == spec_mask_assignments(v@, marker@, 0),
        decreases cur@.len() - from,
    {
        proof {
            lemma_find_marker_bounds(cur@, marker@, from as int);
        }
        let n = cur.len();
        let start = match find_marker(&cur, marker, from) {
            None => {
                assert(spec_mask_assignments(cur@, marker@, from as int) == Some(cur@));
                return Some(cur);
            },
            Some(p) => p,
        };
        let after = start + marker.len();
        proof {
            lemma_find_separator_bounds(cur@, after as int);
        }
        let sep = match find_separator(&cur, after) {
            None => {
                from = after;
                continue;
            },
            Some(p) => p,
        };
        let s = sep + 1;
        proof {
            lemma_value_end_bounds(cur@, s as int);
        }
        let e = value_end(&cur, s);
        if e > s {
            let mut next: Vec<char> = Vec::new();
            let mut k: usize = 0;
            while k < s
                invariant
                    k <= s,
                    s <= cur@.len(),
                    next@ == cur@.subrange(0, k as int),
                decreases s - k,
            {
                next.push(cur[k]);
                assert(cur@.subrange(0, k + 1) == cur@.subrange(0, k as int).push(cur@[k as int]));
                k += 1;
            }
            push_all(&mut next, &mask);
            let mut k: usize = e;
            let ghost mid = next@;
            while k < cur.len()
                invariant
                    e <= k <= cur@.len(),
                    next@ == mid + cur@.subrange(e as int, k as int),
                decreases cur.len() - k,
            {
                next.push(cur[k]);
                assert(cur@.subrange(e as int, k + 1) == cur@.subrange(e as int, k as int).push(
                    cur@[k as int],
                ));
                k += 1;
            }
            assert(next@ =~= cur@.subrange(0, s as int) + spec_mask() + cur@.subrange(
                e as int,
                cur@.len() as int,
            ));
            assert(next@.len() == s + 10 + (cur@.len() - e));
            let _next_len = next.len();
            cur = next;
            from = s + 10;
        } else {
            proof {
                lemma_advance_bounds(cur@, s as int, 10);
            }
            match advance_bytes(&cur, s, 10) {
                None => {
                    return Some(cur);
                },
                Some(j) => {
                    from = j;
                },
            }
        }
    }
}


proof fn lemma_mask_assignments_some(v: Seq<char>, marker: Seq<char>, from: int)
    ensures
        spec_mask_assignments(v, marker, from) is Some,
    decreases v.len() - from,
{
    if from < 0 || from > v.len() || marker.len() == 0 {
    } else {
        match spec_find_marker(v, marker, from) {
            None => {},
            Some(start) => {
                let after = start + marker.len();
                lemma_find_marker_bounds(v, marker, from);
                match spec_find_separator(v, after) {
                    None => {
                        lemma_mask_assignments_some(v, marker, after);
                    },
                    Some(sep) => {
                        lemma_find_separator_bounds(v, after);
                        let b = sep + 1;
                        let e = spec_value_end(v, b);
                        lemma_value_end_bounds(v, b);
                        if e > b {
                            reveal_strlit("[REDACTED]");
                            let w = v.subrange(0, b) + spec_mask() + v.subrange(e, v.len() as int);
                            lemma_mask_assignments_some(w, marker, b + 10);
                        } else {
                            lemma_advance_bounds(v, b, 10);
                            match spec_advance_bytes(v, b, 10) {
                                None => {},
                                Some(j) => {
                                    lemma_mask_assignments_some(v, marker, j);
                                },
                            }
                        }
                    },
                }
            },
        }
    }
}

proof fn lemma_mask_all_some(markers: Seq<Seq<char>>, v: Seq<char>)
    ensures
        spec_mask_all(markers, v) is Some,
    decreases markers.len(),
{
    if markers.len() > 0 {
        lemma_mask_all_some(markers.drop_last(), v);
        lemma_mask_assignments_some(spec_mask_all(markers.drop_last(), v)->0, markers.last(), 0);
    }
}

/// Every text has a redaction.
pub proof fn lemma_redact_some(secrets: Seq<Seq<char>>, v: Seq<char>)
    ensures
        spec_redact(secrets, v) is Some,
{
    lemma_mask_all_some(spec_markers(), spec_replace_secrets(secrets, v));
}

pub open spec fn spec_all_nonempty(s: Seq<Seq<char>>) -> bool {
    forall|i: int| 0 <= i < s.len() ==> (#[trigger] s[i]).len() > 0
}

proof fn lemma_insert_nonempty(sorted: Seq<Seq<char>>, x: Seq<char>)
    requires
        spec_all_nonempty(sorted),
        x.len() > 0,
    ensures
        spec_all_nonempty(spec_insert_longest_first(sorted, x)),
    decreases sorted.len(),
{
    if sorted.len() > 0 && spec_byte_len(sorted[0]) >= spec_byte_len(x) {
        let t = sorted.drop_first();
        assert(spec_all_nonempty(t)) by {
            assert forall|i: int| 0 <= i < t.len() implies (#[trigger] t[i]).len() > 0 by {
                assert(t[i] == sorted[i + 1]);
            }
        }
        lemma_insert_nonempty(t, x);
        let r = seq![sorted[0]] + spec_insert_longest_first(t, x);
        assert forall|i: int| 0 <= i < r.len() implies (#[trigger] r[i]).len() > 0 by {
            if i > 0 {
                assert(r[i] == spec_insert_longest_first(t, x)[i - 1]);
            }
        }
    } else if sorted.len() > 0 {
        let r = seq![x] + sorted;
        assert forall|i: int| 0 <= i < r.len() implies (#[trigger] r[i]).len() > 0 by {
            if i > 0 {
                assert(r[i] == sorted[i - 1]);
            }
        }
    }
}

proof fn lemma_sort_nonempty(s: Seq<Seq<char>>)
    requires
        spec_all_nonempty(s),
    ensures
        spec_all_nonempty(spec_sort_longest_first(s)),
    decreases s.len(),
{
    if s.len() > 0 {
        let t = s.drop_last();
        assert(spec_all_nonempty(t)) by {
            assert forall|i: int| 0 <= i < t.len() implies (#[trigger] t[i]).len() > 0 by {
                assert(t[i] == s[i]);
            }
        }
        lemma_sort_nonempty(t);
        lemma_insert_nonempty(spec_sort_longest_first(t), s.last());
    }
}

proof fn lemma_dedup_nonempty(s: Seq<Seq<char>>)
    requires
        spec_all_nonempty(s),
    ensures
        spec_all_nonempty(spec_dedup(s)),
    decreases s.len(),
{
    if s.len() > 0 {
        let t = s.drop_last();
        assert(spec_all_nonempty(t)) by {
            assert forall|i: int| 0 <= i < t.len() implies (#[trigger] t[i]).len() > 0 by {
                assert(t[i] == s[i]);
            }
        }
        lemma_dedup_nonempty(t);
    }
}

proof fn lemma_filter_take(s: Seq<Seq<char>>, i: int)
    requires
        0 <= i < s.len(),
    ensures
        s.take(i + 1).filter(spec_nonempty()) == if s[i].len() > 0 {
            s.take(i).filter(spec_nonempty()).push(s[i])
        } else {
            s.take(i).filter(spec_nonempty())
        },
{
    reveal(Seq::filter);
    assert(s.take(i + 1).drop_last() == s.take(i));
    assert(s.take(i + 1).last() == s[i]);
}

proof fn lemma_filter_nonempty(s: Seq<Seq<char>>)
    ensures
        spec_all_nonempty(s.filter(spec_nonempty())),
{
    s.filter_lemma(spec_nonempty());
}

proof fn lemma_insert_at(sorted: Seq<Seq<char>>, x: Seq<char>, p: int)
    requires
        0 <= p <= sorted.len(),
        forall|q: int| 0 <= q < p ==> spec_byte_len(#[trigger] sorted[q]) >= spec_byte_len(x),
        p < sorted.len() ==> spec_byte_len(sorted[p]) < spec_byte_len(x),
    ensures
        spec_insert_longest_first(sorted, x) == sorted.insert(p, x),
    decreases sorted.len(),
{
    if sorted.len() == 0 {
        assert(sorted.insert(p, x) =~= seq![x]);
    } else if p == 0 {
        assert(sorted.insert(0, x) =~= seq![x] + sorted);
    } else {
        let t = sorted.drop_first();
        assert forall|q: int| 0 <= q < p - 1 implies spec_byte_len(#[trigger] t[q]) >= spec_byte_len(x) by {
            assert(t[q] == sorted[q + 1]);
        }
        if p - 1 < t.len() {
            assert(t[p - 1] == sorted[p]);
        }
        lemma_insert_at(t, x, p - 1);
        assert(sorted.insert(p, x) =~= seq![sorted[0]] + t.insert(p - 1, x));
    }
}

proof fn lemma_mask_all_step(ms: Seq<Seq<char>>, v: Seq<char>, k: int)
    requires
        0 <= k < ms.len(),
    ensures
        spec_mask_all(ms.take(k + 1), v) == match spec_mask_all(ms.take(k), v) {
            None => None,
            Some(w) => spec_mask_assignments(w, ms[k], 0),
        },
{
    assert(ms.take(k + 1).drop_last() == ms.take(k));
    assert(ms.take(k + 1).last() == ms[k]);
}

proof fn lemma_mask_all_prefix(ms: Seq<Seq<char>>, v: Seq<char>, k: int)
    requires
        0 <= k <= ms.len(),
        spec_mask_all(ms, v) is Some,
    ensures
        spec_mask_all(ms.take(k), v) is Some,
    decreases ms.len() - k,
{
    if k == ms.len() {
        assert(ms.take(k) == ms);
    } else {
        lemma_mask_all_prefix(ms, v, k + 1);
        lemma_mask_all_step(ms, v, k);
    }
}

fn byte_len(s: &String) -> (n: usize)
    ensures
        n == spec_byte_len(s@),
{
    s.as_str().as_bytes().len()
}

/// Replaces configured secret values before external diagnostics cross the adapter boundary.
#[derive(Debug)]
pub struct Redactor {
    secrets: Vec<String>,
}

impl Clone for Redactor {
    fn clone(&self) -> (r: Self)
        ensures
            r.secrets() == self.secrets(),
    {
        proof {
            use_type_invariant(self);
        }
        let mut secrets: Vec<String> = Vec::new();
        let mut i: usize = 0;
        while i < self.secrets.len()
            invariant
                i <= self.secrets@.len(),
                secrets@.map_values(|s: String| s@) == self.secrets().take(i as int),
            decreases self.secrets.len() - i,
        {
            let ghost before = secrets@;
            let c = self.secrets[i].clone();
            assert(c@ == self.secrets@[i as int]@);
            secrets.push(c);
            assert(secrets@.map_values(|s: String| s@) =~= before.map_values(|s: String| s@).push(c@));
            assert(self.secrets().take(i + 1) =~= self.secrets().take(i as int).push(self.secrets()[i as int]));
            i += 1;
        }
        assert(self.secrets().take(self.secrets@.len() as int) == self.secrets());
        Redactor { secrets }
    }
}

impl Redactor {
    /// Secrets in the order they are replaced.
    pub closed spec fn secrets(&self) -> Seq<Seq<char>> {
        self.secrets@.map_values(|s: String| s@)
    }

    /// Creates a redactor. Empty values are ignored and longer values win first.
    pub fn new(secrets: Vec<String>) -> (r: Self)
        ensures
            r.secrets() == spec_prepare_secrets(secrets@.map_values(|s: String| s@)),
    {
        let ghost input = secrets@.map_values(|s: String| s@);
        let mut kept: Vec<String> = Vec::new();
        let mut i: usize = 0;
        while i < secrets.len()
            invariant
                i <= secrets@.len(),
                input == secrets@.map_values(|s: String| s@),
                kept@.map_values(|s: String| s@) == input.take(i as int).filter(spec_nonempty()),
            decreases secrets.len() - i,
        {
            proof {
                lemma_filter_take(input, i as int);
            }
            if !secrets[i].as_str().is_empty() {
                let ghost before = kept@;
                kept.push(secrets[i].clone());
                assert(kept@.map_values(|s: String| s@) =~= before.map_values(|s: String| s@).push(
                    input[i as int],
                ));
            }
            i += 1;
        }
        assert(input.take(secrets@.len() as int) == input);
        let ghost filtered = input.filter(spec_nonempty());
        let mut sorted: Vec<String> = Vec::new();
        let mut k: usize = 0;
        while k < kept.len()
            invariant
                k <= kept@.len(),
                kept@.map_values(|s: String| s@) == filtered,
                sorted@.map_values(|s: String| s@) == spec_sort_longest_first(filtered.take(k as int)),
            decreases kept.len() - k,
        {
            let x = kept[k].clone();
            let key = byte_len(&x);
            let ghost sv = sorted@.map_values(|s: String| s@);
            let mut p: usize = 0;
            while p < sorted.len() && byte_len(&sorted[p]) >= key
                invariant
                    p <= sorted@.len(),
                    key == spec_byte_len(x@),
                    sv == sorted@.map_values(|s: String| s@),
                    forall|q: int| 0 <= q < p ==> spec_byte_len(#[trigger] sv[q]) >= spec_byte_len(x@),
                decreases sorted.len() - p,
            {
                p += 1;
            }
            proof {
                lemma_insert_at(sv, x@, p as int);
                assert(filtered.take(k + 1).drop_last() == filtered.take(k as int));
                assert(filtered.take(k + 1).last() == x@);
            }
            sorted.insert(p, x);
            assert(sorted@.map_values(|s: String| s@) =~= sv.insert(p as int, x@));
            k += 1;
        }
        assert(filtered.take(kept@.len() as int) == filtered);
        let ghost sorted_view = spec_sort_longest_first(filtered);
        let mut out: Vec<String> = Vec::new();
        let mut j: usize = 0;
        while j < sorted.len()
            invariant
                j <= sorted@.len(),
                sorted@.map_values(|s: String| s@) == sorted_view,
                out@.map_values(|s: String| s@) == spec_dedup(sorted_view.take(j as int)),
            decreases sorted.len() - j,
        {
            proof {
                assert(sorted_view.take(j + 1).drop_last() == sorted_view.take(j as int));
                assert(sorted_view.take(j + 1).last() == sorted@[j as int]@);
            }
            let ghost before = out@;
            let n = out.len();
            if n == 0 || out[n - 1] != sorted[j] {
                out.push(sorted[j].clone());
                assert(out@.map_values(|s: String| s@) =~= before.map_values(|s: String| s@).push(
                    sorted@[j as int]@,
                ));
            }
            j += 1;
        }
        assert(sorted_view.take(sorted@.len() as int) == sorted_view);
        proof {
            lemma_filter_nonempty(input);
            lemma_sort_nonempty(filtered);
            lemma_dedup_nonempty(sorted_view);
        }
        Redactor { secrets: out }
    }

    /// Redacts exact configured values and common credential assignments.
    pub fn redact(&self, value: &str) -> (r: String)
        ensures
            Some(r@) == spec_redact(self.secrets(), value@),
    {
        proof {
            lemma_redact_some(self.secrets(), value@);
        }
        match self.try_redact(value) {
            Some(r) => r,
            None => {
                assert(false);
                String::new()
            },
        }
    }

    /// The redaction of `value`, which always exists.
    pub(crate) fn try_redact(&self, value: &str) -> (r: Option<String>)
        ensures
            match r {
                Some(x) => Some(x@) == spec_redact(self.secrets(), value@),
                None => spec_redact(self.secrets(), value@) is None,
            },
    {
        proof {
            use_type_invariant(self);
        }
        let mask = mask_chars();
        let mut cur = chars_of(value);
        let mut i: usize = 0;
        while i < self.secrets.len()
            invariant
                i <= self.secrets@.len(),
                mask@ == spec_mask(),
                spec_all_nonempty(self.secrets()),
                cur@ == spec_replace_secrets(self.secrets().take(i as int), value@),
            decreases self.secrets.len() - i,
        {
            let pat = chars_of(self.secrets[i].as_str());
            proof {
                assert(self.secrets()[i as int] == pat@);
                assert(self.secrets().take(i + 1).drop_last() == self.secrets().take(i as int));
                assert(self.secrets().take(i + 1).last() == pat@);
            }
            cur = replace_all(&cur, &pat, &mask);
            i += 1;
        }
        assert(self.secrets().take(self.secrets@.len() as int) == self.secrets());
        let ghost replaced = cur@;
        let mut markers: Vec<Vec<char>> = Vec::new();
        markers.push(chars_of("fornax_ak"));
        markers.push(chars_of("fornax_sk"));
        markers.push(chars_of("fornax_byted_jwt_token"));
        markers.push(chars_of("authorization"));
        markers.push(chars_of("token"));
        markers.push(chars_of("secret"));
        let ghost ms = spec_markers();
        assert(markers@.map_values(|m: Vec<char>| m@) =~= ms);
        proof {
            reveal_strlit("fornax_ak");
            reveal_strlit("fornax_sk");
            reveal_strlit("fornax_byted_jwt_token");
            reveal_strlit("authorization");
            reveal_strlit("token");
            reveal_strlit("secret");
            assert(ms.take(0) =~= Seq::<Seq<char>>::empty());
        }
        let mut k: usize = 0;
        while k < markers.len()
            invariant
                k <= markers@.len(),
                markers@.len() == 6,
                markers@.map_values(|m: Vec<char>| m@) == ms,
                forall|x: int| 0 <= x < 6 ==> (#[trigger] ms[x]).len() > 0,
                spec_mask_all(ms.take(k as int), replaced) == Some(cur@),
                ms == spec_markers(),
                replaced == spec_replace_secrets(self.secrets(), value@),
            decreases markers.len() - k,
        {
            proof {
                lemma_mask_all_step(ms, replaced, k as int);
                assert(markers@[k as int]@ == ms[k as int]);
            }
            match mask_assignments(cur, &markers[k]) {
                Some(next) => {
                    cur = next;
                },
                None => {
                    proof {
                        if spec_mask_all(ms, replaced) is Some {
                            lemma_mask_all_prefix(ms, replaced, k + 1);
                        }
                    }
                    return None;
                },
            }
            k += 1;
        }
        assert(ms.take(6) == ms);
        Some(string_of(&cur))
    }

    #[verifier::type_invariant]
    closed spec fn wf(&self) -> bool {
        spec_all_nonempty(self.secrets())
    }
}

} // verus!
