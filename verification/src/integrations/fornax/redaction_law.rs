//! What redaction guarantees of the configured secrets: none of them is left
//! in the redacted text, provided a secret holds no bracket and does not
//! occur inside the mask itself.
use vstd::prelude::*;

use crate::integrations::fornax::redaction::lemma_advance_bounds;
use crate::integrations::fornax::redaction::lemma_find_marker_bounds;
use crate::integrations::fornax::redaction::lemma_find_separator_bounds;
use crate::integrations::fornax::redaction::lemma_value_end_bounds;
use crate::integrations::fornax::redaction::spec_mask;
use crate::integrations::fornax::redaction::spec_mask_all;
use crate::integrations::fornax::redaction::spec_mask_assignments;
use crate::integrations::fornax::redaction::spec_occurs_at;
use crate::integrations::fornax::redaction::spec_redact;
use crate::integrations::fornax::redaction::spec_replace_from;
use crate::integrations::fornax::redaction::spec_replace_secrets;
use crate::integrations::fornax::redaction::spec_find_marker;
use crate::integrations::fornax::redaction::spec_find_separator;
use crate::integrations::fornax::redaction::spec_value_end;
use crate::integrations::fornax::redaction::spec_advance_bytes;
use crate::integrations::fornax::redaction::spec_dedup;
use crate::integrations::fornax::redaction::spec_insert_longest_first;
use crate::integrations::fornax::redaction::spec_nonempty;
use crate::integrations::fornax::redaction::spec_prepare_secrets;
use crate::integrations::fornax::redaction::spec_sort_longest_first;

verus! {

/// `s` occurs nowhere in `w`.
pub open spec fn spec_free_of(w: Seq<char>, s: Seq<char>) -> bool {
    forall|p: int| !#[trigger] spec_occurs_at(w, s, p)
}

/// A secret that masking cannot recreate: it is not empty, holds neither
/// `[` nor `]`, and does not occur inside `[REDACTED]`.
pub open spec fn spec_mask_safe(s: Seq<char>) -> bool {
    &&& s.len() > 0
    &&& forall|k: int| 0 <= k < s.len() ==> #[trigger] s[k] != '[' && s[k] != ']'
    &&& forall|k: int| !#[trigger] spec_occurs_at(spec_mask(), s, k)
}

proof fn lemma_mask_shape()
    ensures
        spec_mask().len() == 10,
        spec_mask()[0] == '[',
        spec_mask()[9] == ']',
{
    reveal_strlit("[REDACTED]");
}

/// A mask between two texts free of `s` creates no occurrence of it.
proof fn lemma_splice_free(x: Seq<char>, y: Seq<char>, s: Seq<char>)
    requires
        spec_free_of(x, s),
        spec_free_of(y, s),
        spec_mask_safe(s),
    ensures
        spec_free_of(x + spec_mask() + y, s),
{
    lemma_mask_shape();
    let m = spec_mask();
    let w = x + m + y;
    let a = x.len() as int;
    let n = s.len() as int;
    assert forall|p: int| !#[trigger] spec_occurs_at(w, s, p) by {
        if spec_occurs_at(w, s, p) {
            assert forall|k: int| 0 <= k < n implies w[p + k] == s[k] by {
                assert(w.subrange(p, p + n)[k] == s[k]);
            }
            if p + n <= a {
                assert(x.subrange(p, p + n) =~= s) by {
                    assert forall|k: int| 0 <= k < n implies x.subrange(p, p + n)[k] == s[k] by {
                        assert(w[p + k] == x[p + k]);
                    }
                }
                assert(spec_occurs_at(x, s, p));
            } else if p < a {
                assert(w[a] == '[');
                assert(s[a - p] == '[');
            } else if p < a + 10 {
                if p + n <= a + 10 {
                    assert(m.subrange(p - a, p - a + n) =~= s) by {
                        assert forall|k: int| 0 <= k < n implies m.subrange(p - a, p - a + n)[k] == s[k] by {
                            assert(w[p + k] == m[p - a + k]);
                        }
                    }
                    assert(spec_occurs_at(m, s, p - a));
                } else {
                    assert(w[a + 9] == ']');
                    assert(s[a + 9 - p] == ']');
                }
            } else {
                let q = p - a - 10;
                assert(y.subrange(q, q + n) =~= s) by {
                    assert forall|k: int| 0 <= k < n implies y.subrange(q, q + n)[k] == s[k] by {
                        assert(w[p + k] == y[q + k]);
                    }
                }
                assert(spec_occurs_at(y, s, q));
            }
        }
    }
}

/// A part of a text free of `s` is free of it too.
pub proof fn lemma_subrange_free(v: Seq<char>, s: Seq<char>, a: int, b: int)
    requires
        spec_free_of(v, s),
        0 <= a <= b <= v.len(),
    ensures
        spec_free_of(v.subrange(a, b), s),
{
    let u = v.subrange(a, b);
    assert forall|p: int| !#[trigger] spec_occurs_at(u, s, p) by {
        if spec_occurs_at(u, s, p) {
            assert(v.subrange(a + p, a + p + s.len()) =~= u.subrange(p, p + s.len()));
            assert(spec_occurs_at(v, s, a + p));
        }
    }
}

/// Up to its first `[`, the replaced text copies the text.
proof fn lemma_replace_prefix(v: Seq<char>, pat: Seq<char>, j: int, m: int)
    requires
        pat.len() > 0,
        0 <= j <= v.len(),
        0 <= m <= spec_replace_from(v, pat, spec_mask(), j).len(),
        forall|k: int| 0 <= k < m ==> #[trigger] spec_replace_from(v, pat, spec_mask(), j)[k] != '[',
    ensures
        j + m <= v.len(),
        spec_replace_from(v, pat, spec_mask(), j).subrange(0, m) == v.subrange(j, j + m),
    decreases v.len() - j,
{
    lemma_mask_shape();
    let r = spec_replace_from(v, pat, spec_mask(), j);
    if m == 0 {
        assert(r.subrange(0, 0) =~= v.subrange(j, j));
    } else if j >= v.len() {
        assert(r.len() == 0);
    } else if spec_occurs_at(v, pat, j) {
        assert(r[0] == '[');
    } else {
        let rest = spec_replace_from(v, pat, spec_mask(), j + 1);
        assert(r == seq![v[j]] + rest);
        assert forall|k: int| 0 <= k < m - 1 implies #[trigger] rest[k] != '[' by {
            assert(r[k + 1] == rest[k]);
        }
        lemma_replace_prefix(v, pat, j + 1, m - 1);
        assert(r.subrange(0, m) =~= v.subrange(j, j + m)) by {
            assert forall|k: int| 0 <= k < m implies r.subrange(0, m)[k] == v.subrange(j, j + m)[k] by {
                if k > 0 {
                    assert(r[k] == rest[k - 1]);
                    assert(rest.subrange(0, m - 1)[k - 1] == v.subrange(j + 1, j + m)[k - 1]);
                }
            }
        }
    }
}

/// Replacing `pat` by the mask leaves no `pat`, and creates no `s` that the
/// text did not hold from `i` on.
proof fn lemma_replace_free(v: Seq<char>, pat: Seq<char>, s: Seq<char>, i: int)
    requires
        pat.len() > 0,
        spec_mask_safe(s),
        0 <= i,
        s == pat || forall|p: int| p >= i ==> !#[trigger] spec_occurs_at(v, s, p),
    ensures
        spec_free_of(spec_replace_from(v, pat, spec_mask(), i), s),
    decreases v.len() - i,
{
    lemma_mask_shape();
    let r = spec_replace_from(v, pat, spec_mask(), i);
    let n = s.len() as int;
    if i >= v.len() {
        assert(r.len() == 0);
    } else if spec_occurs_at(v, pat, i) {
        let rest = spec_replace_from(v, pat, spec_mask(), i + pat.len());
        lemma_replace_free(v, pat, s, i + pat.len());
        lemma_splice_free(Seq::empty(), rest, s);
        assert(Seq::<char>::empty() + spec_mask() + rest =~= r);
    } else {
        let rest = spec_replace_from(v, pat, spec_mask(), i + 1);
        lemma_replace_free(v, pat, s, i + 1);
        assert(r == seq![v[i]] + rest);
        assert forall|p: int| !#[trigger] spec_occurs_at(r, s, p) by {
            if spec_occurs_at(r, s, p) {
                assert forall|k: int| 0 <= k < n implies r[p + k] == s[k] by {
                    assert(r.subrange(p, p + n)[k] == s[k]);
                }
                if p >= 1 {
                    assert(rest.subrange(p - 1, p - 1 + n) =~= s) by {
                        assert forall|k: int| 0 <= k < n implies rest.subrange(p - 1, p - 1 + n)[k] == s[k] by {
                            assert(r[p + k] == rest[p - 1 + k]);
                        }
                    }
                    assert(spec_occurs_at(rest, s, p - 1));
                } else {
                    assert forall|k: int| 0 <= k < n - 1 implies #[trigger] rest[k] != '[' by {
                        assert(r[k + 1] == rest[k]);
                        assert(s[k + 1] != '[');
                    }
                    lemma_replace_prefix(v, pat, i + 1, n - 1);
                    assert(v.subrange(i, i + n) =~= s) by {
                        assert forall|k: int| 0 <= k < n implies v.subrange(i, i + n)[k] == s[k] by {
                            if k > 0 {
                                assert(r[k] == rest[k - 1]);
                                assert(rest.subrange(0, n - 1)[k - 1] == v.subrange(i + 1, i + n)[k - 1]);
                            }
                        }
                    }
                    assert(spec_occurs_at(v, s, i));
                }
            }
        }
    }
}

/// After the secrets are replaced in turn, none of them is left.
proof fn lemma_replace_secrets_free(secrets: Seq<Seq<char>>, v: Seq<char>)
    requires
        forall|k: int| 0 <= k < secrets.len() ==> spec_mask_safe(#[trigger] secrets[k]),
    ensures
        forall|k: int| 0 <= k < secrets.len() ==> spec_free_of(spec_replace_secrets(secrets, v), #[trigger] secrets[k]),
    decreases secrets.len(),
{
    if secrets.len() > 0 {
        let earlier = secrets.drop_last();
        let prev = spec_replace_secrets(earlier, v);
        lemma_replace_secrets_free(earlier, v);
        assert forall|k: int| 0 <= k < secrets.len() implies spec_free_of(
            spec_replace_secrets(secrets, v),
            #[trigger] secrets[k],
        ) by {
            if k < secrets.len() - 1 {
                assert(earlier[k] == secrets[k]);
            }
            lemma_replace_free(prev, secrets.last(), secrets[k], 0);
        }
    }
}

/// Masking the assignments of one marker keeps a text free of `s`.
proof fn lemma_mask_assignments_free(v: Seq<char>, marker: Seq<char>, from: int, s: Seq<char>)
    requires
        spec_free_of(v, s),
        spec_mask_safe(s),
    ensures
        spec_mask_assignments(v, marker, from) matches Some(w) ==> spec_free_of(w, s),
    decreases v.len() - from,
{
    lemma_mask_shape();
    if from < 0 || from > v.len() || marker.len() == 0 {
    } else {
        match spec_find_marker(v, marker, from) {
            None => {},
            Some(start) => {
                let after = start + marker.len();
                lemma_find_marker_bounds(v, marker, from);
                match spec_find_separator(v, after) {
                    None => {
                        lemma_mask_assignments_free(v, marker, after, s);
                    },
                    Some(sep) => {
                        lemma_find_separator_bounds(v, after);
                        let b = sep + 1;
                        let e = spec_value_end(v, b);
                        lemma_value_end_bounds(v, b);
                        if e > b {
                            let w = v.subrange(0, b) + spec_mask() + v.subrange(e, v.len() as int);
                            lemma_subrange_free(v, s, 0, b);
                            lemma_subrange_free(v, s, e, v.len() as int);
                            lemma_splice_free(v.subrange(0, b), v.subrange(e, v.len() as int), s);
                            lemma_mask_assignments_free(w, marker, b + 10, s);
                        } else {
                            lemma_advance_bounds(v, b, 10);
                            match spec_advance_bytes(v, b, 10) {
                                None => {},
                                Some(j) => {
                                    lemma_mask_assignments_free(v, marker, j, s);
                                },
                            }
                        }
                    },
                }
            },
        }
    }
}

/// Masking the assignments of every marker keeps a text free of `s`.
proof fn lemma_mask_all_free(markers: Seq<Seq<char>>, v: Seq<char>, s: Seq<char>)
    requires
        spec_free_of(v, s),
        spec_mask_safe(s),
    ensures
        spec_mask_all(markers, v) matches Some(w) ==> spec_free_of(w, s),
    decreases markers.len(),
{
    if markers.len() > 0 {
        lemma_mask_all_free(markers.drop_last(), v, s);
        match spec_mask_all(markers.drop_last(), v) {
            None => {},
            Some(w) => {
                lemma_mask_assignments_free(w, markers.last(), 0, s);
            },
        }
    }
}

/// The redaction with `secrets` holds none of them, when each is mask-safe.
proof fn lemma_redaction_removes_secrets(secrets: Seq<Seq<char>>, v: Seq<char>)
    requires
        forall|k: int| 0 <= k < secrets.len() ==> spec_mask_safe(#[trigger] secrets[k]),
    ensures
        spec_redact(secrets, v) matches Some(out) ==> forall|k: int|
            0 <= k < secrets.len() ==> spec_free_of(out, #[trigger] secrets[k]),
{
    lemma_replace_secrets_free(secrets, v);
    let replaced = spec_replace_secrets(secrets, v);
    assert forall|k: int| 0 <= k < secrets.len() implies (spec_redact(secrets, v) matches Some(out) ==> spec_free_of(
        out,
        #[trigger] secrets[k],
    )) by {
        lemma_mask_all_free(crate::integrations::fornax::redaction::spec_markers(), replaced, secrets[k]);
    }
}

proof fn lemma_concat_contains(a: Seq<Seq<char>>, b: Seq<Seq<char>>, y: Seq<char>)
    ensures
        (a + b).contains(y) <==> a.contains(y) || b.contains(y),
{
    let c = a + b;
    if c.contains(y) {
        let i = choose|i: int| 0 <= i < c.len() && c[i] == y;
        if i < a.len() {
            assert(a[i] == y);
        } else {
            assert(b[i - a.len()] == y);
        }
    }
    if a.contains(y) {
        let i = choose|i: int| 0 <= i < a.len() && a[i] == y;
        assert(c[i] == y);
    }
    if b.contains(y) {
        let i = choose|i: int| 0 <= i < b.len() && b[i] == y;
        assert(c[i + a.len()] == y);
    }
}

proof fn lemma_single_contains(x: Seq<char>, y: Seq<char>)
    ensures
        seq![x].contains(y) <==> y == x,
{
    if y == x {
        assert(seq![x][0] == y);
    }
}

proof fn lemma_insert_contains(sorted: Seq<Seq<char>>, x: Seq<char>, y: Seq<char>)
    ensures
        spec_insert_longest_first(sorted, x).contains(y) <==> y == x || sorted.contains(y),
    decreases sorted.len(),
{
    lemma_single_contains(x, y);
    if sorted.len() == 0 {
    } else {
        let t = sorted.drop_first();
        assert(sorted =~= seq![sorted[0]] + t);
        lemma_single_contains(sorted[0], y);
        lemma_concat_contains(seq![sorted[0]], t, y);
        if spec_byte_len_ge(sorted[0], x) {
            lemma_insert_contains(t, x, y);
            lemma_concat_contains(seq![sorted[0]], spec_insert_longest_first(t, x), y);
        } else {
            lemma_concat_contains(seq![x], sorted, y);
        }
    }
}

spec fn spec_byte_len_ge(a: Seq<char>, b: Seq<char>) -> bool {
    crate::integrations::fornax::redaction::spec_byte_len(a) >= crate::integrations::fornax::redaction::spec_byte_len(b)
}

proof fn lemma_sort_contains(s: Seq<Seq<char>>, y: Seq<char>)
    ensures
        spec_sort_longest_first(s).contains(y) <==> s.contains(y),
    decreases s.len(),
{
    if s.len() > 0 {
        let t = s.drop_last();
        lemma_sort_contains(t, y);
        lemma_insert_contains(spec_sort_longest_first(t), s.last(), y);
        assert(s =~= t + seq![s.last()]);
        lemma_concat_contains(t, seq![s.last()], y);
        lemma_single_contains(s.last(), y);
    }
}

proof fn lemma_dedup_contains(s: Seq<Seq<char>>, y: Seq<char>)
    ensures
        spec_dedup(s).contains(y) <==> s.contains(y),
    decreases s.len(),
{
    if s.len() > 0 {
        let t = s.drop_last();
        let d = spec_dedup(t);
        lemma_dedup_contains(t, y);
        assert(s =~= t + seq![s.last()]);
        lemma_concat_contains(t, seq![s.last()], y);
        lemma_single_contains(s.last(), y);
        if d.len() > 0 && d.last() == s.last() {
            assert(d[d.len() - 1] == s.last());
        } else {
            assert(d.push(s.last()) =~= d + seq![s.last()]);
            lemma_concat_contains(d, seq![s.last()], y);
        }
    }
}

/// The secrets a redactor keeps are exactly the non-empty configured values.
proof fn lemma_prepare_contains(configured: Seq<Seq<char>>, y: Seq<char>)
    ensures
        spec_prepare_secrets(configured).contains(y) <==> configured.contains(y) && y.len() > 0,
{
    let f = configured.filter(spec_nonempty());
    lemma_dedup_contains(spec_sort_longest_first(f), y);
    lemma_sort_contains(f, y);
    if f.contains(y) {
        configured.lemma_filter_contains_rev(spec_nonempty(), y);
        let i = choose|i: int| 0 <= i < f.len() && f[i] == y;
        configured.lemma_filter_pred(spec_nonempty(), i);
    }
    if configured.contains(y) && y.len() > 0 {
        let i = choose|i: int| 0 <= i < configured.len() && configured[i] == y;
        configured.lemma_filter_contains(spec_nonempty(), i);
    }
}

/// No configured secret is left in a redacted text: when every non-empty
/// value a redactor is configured with holds no bracket and does not occur
/// inside `[REDACTED]`, the redaction of any text holds none of them.
pub proof fn law_redaction_removes_secrets(configured: Seq<Seq<char>>, v: Seq<char>)
    requires
        forall|k: int| 0 <= k < configured.len() && configured[k].len() > 0 ==> spec_mask_safe(#[trigger] configured[k]),
    ensures
        spec_redact(spec_prepare_secrets(configured), v) matches Some(out) ==> forall|k: int|
            0 <= k < configured.len() && configured[k].len() > 0 ==> spec_free_of(out, #[trigger] configured[k]),
{
    let secrets = spec_prepare_secrets(configured);
    assert forall|k: int| 0 <= k < secrets.len() implies spec_mask_safe(#[trigger] secrets[k]) by {
        lemma_prepare_contains(configured, secrets[k]);
        let i = choose|i: int| 0 <= i < configured.len() && configured[i] == secrets[k];
    }
    lemma_redaction_removes_secrets(secrets, v);
    assert forall|k: int| 0 <= k < configured.len() && configured[k].len() > 0 implies (spec_redact(secrets, v) matches Some(
        out,
    ) ==> spec_free_of(out, #[trigger] configured[k])) by {
        assert(configured.contains(configured[k]));
        lemma_prepare_contains(configured, configured[k]);
        let j = choose|j: int| 0 <= j < secrets.len() && secrets[j] == configured[k];
    }
}

} // verus!
