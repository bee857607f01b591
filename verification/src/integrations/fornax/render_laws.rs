//! What rendering a template does, stated over the template's text and the
//! variables.
use vstd::prelude::*;

use crate::integrations::fornax::prompt::spec_lookup;
use crate::integrations::fornax::prompt::spec_render_string;
use crate::text::spec_find;
use crate::text::spec_find_from;
use crate::text::spec_occurs_at;
use crate::text::spec_trim;

verus! {

/// No two adjacent characters of `s` are both `c`.
pub open spec fn spec_no_pair(s: Seq<char>, c: char) -> bool {
    forall|i: int| 0 <= i < s.len() - 1 ==> !(#[trigger] s[i] == c && s[i + 1] == c)
}

proof fn lemma_find_first_at(text: Seq<char>, pat: Seq<char>, p: int, i: int)
    requires
        0 <= i <= p,
        spec_occurs_at(text, pat, p),
        forall|q: int| 0 <= q < p ==> !#[trigger] spec_occurs_at(text, pat, q),
    ensures
        spec_find_from(text, pat, i) == Some(p),
    decreases p - i,
{
    if i < p {
        assert(!spec_occurs_at(text, pat, i));
        lemma_find_first_at(text, pat, p, i + 1);
    }
}

proof fn lemma_find_nowhere(text: Seq<char>, pat: Seq<char>, i: int)
    requires
        0 <= i,
        forall|q: int| 0 <= q ==> !#[trigger] spec_occurs_at(text, pat, q),
    ensures
        spec_find_from(text, pat, i) is None,
    decreases text.len() + 1 - i,
{
    if i + pat.len() <= text.len() {
        assert(!spec_occurs_at(text, pat, i));
        lemma_find_nowhere(text, pat, i + 1);
    }
}

/// In `x + [c, c] + y`, where `x` has no adjacent pair of `c` and does not
/// end in `c`, the pair first occurs right after `x`.
proof fn lemma_pair_after(x: Seq<char>, y: Seq<char>, c: char)
    requires
        spec_no_pair(x, c),
        x.len() == 0 || x.last() != c,
    ensures
        spec_find(x + seq![c, c] + y, seq![c, c]) == Some(x.len() as int),
{
    let t = x + seq![c, c] + y;
    let pat = seq![c, c];
    assert(t.subrange(x.len() as int, x.len() + 2int) =~= pat);
    assert forall|q: int| 0 <= q < x.len() implies !#[trigger] spec_occurs_at(t, pat, q) by {
        if spec_occurs_at(t, pat, q) {
            assert(t.subrange(q, q + 2)[0] == t[q]);
            assert(t.subrange(q, q + 2)[1] == t[q + 1]);
            assert(t[q] == x[q]);
            if q + 1 < x.len() {
                assert(t[q + 1] == x[q + 1]);
                assert(x[q] == c && x[q + 1] == c);
            } else {
                assert(x.last() == x[q]);
            }
        }
    }
    lemma_find_first_at(t, pat, x.len() as int, 0);
}

proof fn lemma_lookup_first(vars: Seq<(String, String)>, key: Seq<char>, j: int, i: int)
    requires
        0 <= i <= j < vars.len(),
        vars[j].0@ == key,
        forall|q: int| 0 <= q < j ==> (#[trigger] vars[q]).0@ != key,
    ensures
        spec_lookup(vars, key, i) == Some(vars[j].1@),
    decreases j - i,
{
    if i < j {
        assert(vars[i].0@ != key);
        lemma_lookup_first(vars, key, j, i + 1);
    }
}

proof fn lemma_lookup_absent(vars: Seq<(String, String)>, key: Seq<char>, i: int)
    requires
        0 <= i,
        forall|q: int| 0 <= q < vars.len() ==> (#[trigger] vars[q]).0@ != key,
    ensures
        spec_lookup(vars, key, i) is None,
    decreases vars.len() - i,
{
    if i < vars.len() {
        assert(vars[i].0@ != key);
        lemma_lookup_absent(vars, key, i + 1);
    }
}

/// Text without a `{{` is rendered as it is.
pub proof fn law_plain_text_renders_unchanged(text: Seq<char>, vars: Seq<(String, String)>)
    requires
        spec_no_pair(text, '{'),
    ensures
        spec_render_string(text, vars) == Ok::<Seq<char>, Option<Seq<char>>>(text),
{
    reveal_strlit("{{");
    let pat = "{{"@;
    assert forall|q: int| 0 <= q implies !#[trigger] spec_occurs_at(text, pat, q) by {
        if spec_occurs_at(text, pat, q) {
            assert(text.subrange(q, q + 2)[0] == text[q]);
            assert(text.subrange(q, q + 2)[1] == text[q + 1]);
        }
    }
    lemma_find_nowhere(text, pat, 0);
}

/// A placeholder `{{k}}` after placeholder-free text `a` is replaced by the
/// value of the first variable named like `k` without its surrounding white
/// space, and the rest of the template `b` renders on its own; a name that no
/// variable carries is reported.
pub proof fn law_placeholder_takes_its_variable(
    a: Seq<char>,
    k: Seq<char>,
    b: Seq<char>,
    vars: Seq<(String, String)>,
)
    requires
        spec_no_pair(a, '{'),
        a.len() == 0 || a.last() != '{',
        spec_no_pair(k, '}'),
        k.len() == 0 || k.last() != '}',
    ensures
        forall|j: int|
            0 <= j < vars.len() && (#[trigger] vars[j]).0@ == spec_trim(k) && (forall|q: int|
                0 <= q < j ==> (#[trigger] vars[q]).0@ != spec_trim(k)) ==> match spec_render_string(b, vars) {
                Ok(rest) => spec_render_string(a + "{{"@ + k + "}}"@ + b, vars) == Ok::<
                    Seq<char>,
                    Option<Seq<char>>,
                >(a + vars[j].1@ + rest),
                Err(x) => spec_render_string(a + "{{"@ + k + "}}"@ + b, vars) == Err::<Seq<char>, Option<Seq<char>>>(
                    x,
                ),
            },
        (forall|q: int| 0 <= q < vars.len() ==> (#[trigger] vars[q]).0@ != spec_trim(k)) ==> spec_render_string(
            a + "{{"@ + k + "}}"@ + b,
            vars,
        ) == Err::<Seq<char>, Option<Seq<char>>>(Some(spec_trim(k))),
{
    reveal_strlit("{{");
    reveal_strlit("}}");
    let open = "{{"@;
    let close = "}}"@;
    assert(open =~= seq!['{', '{']);
    assert(close =~= seq!['}', '}']);
    let t = a + open + k + close + b;
    let rest_t = k + close + b;
    assert(t =~= a + seq!['{', '{'] + rest_t);
    lemma_pair_after(a, rest_t, '{');
    let s = a.len() as int;
    let after = t.skip(s + 2);
    assert(after =~= rest_t);
    assert(rest_t =~= k + seq!['}', '}'] + b);
    lemma_pair_after(k, b, '}');
    let e = k.len() as int;
    assert(after.take(e) =~= k);
    assert(after.skip(e + 2) =~= b);
    assert(t.take(s) =~= a);
    assert forall|j: int|
        0 <= j < vars.len() && (#[trigger] vars[j]).0@ == spec_trim(k) && (forall|q: int|
            0 <= q < j ==> (#[trigger] vars[q]).0@ != spec_trim(k)) implies match spec_render_string(b, vars) {
        Ok(rest) => spec_render_string(t, vars) == Ok::<Seq<char>, Option<Seq<char>>>(a + vars[j].1@ + rest),
        Err(x) => spec_render_string(t, vars) == Err::<Seq<char>, Option<Seq<char>>>(x),
    } by {
        lemma_lookup_first(vars, spec_trim(k), j, 0);
    }
    if forall|q: int| 0 <= q < vars.len() ==> (#[trigger] vars[q]).0@ != spec_trim(k) {
        lemma_lookup_absent(vars, spec_trim(k), 0);
    }
}

} // verus!
