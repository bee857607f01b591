//! Character classes and string conversions shared by the validators.
use vstd::prelude::*;

verus! {

/// `char::is_ascii_alphanumeric`.
pub open spec fn spec_ascii_alnum(c: char) -> bool {
    ('a' <= c && c <= 'z') || ('A' <= c && c <= 'Z') || ('0' <= c && c <= '9')
}

/// `char::is_ascii_hexdigit`.
pub open spec fn spec_ascii_hex(c: char) -> bool {
    ('a' <= c && c <= 'f') || ('A' <= c && c <= 'F') || ('0' <= c && c <= '9')
}

/// Lower-case hexadecimal digit.
pub open spec fn spec_lower_hex(c: char) -> bool {
    ('a' <= c && c <= 'f') || ('0' <= c && c <= '9')
}

/// `char::is_control`: the Unicode `Cc` category.
pub open spec fn spec_control(c: char) -> bool {
    (c as u32) <= 0x1f || (0x7f <= (c as u32) && (c as u32) <= 0x9f)
}

/// `char::is_whitespace`: the Unicode `White_Space` property.
pub open spec fn spec_whitespace(c: char) -> bool {
    let v = c as u32;
    (0x09 <= v && v <= 0x0d) || v == 0x20 || v == 0x85 || v == 0xa0 || v == 0x1680 || (0x2000
        <= v && v <= 0x200a) || v == 0x2028 || v == 0x2029 || v == 0x202f || v == 0x205f || v
        == 0x3000
}

/// `s.trim().is_empty()`: every character is white space.
pub open spec fn spec_blank(s: Seq<char>) -> bool {
    forall|i: int| 0 <= i < s.len() ==> spec_whitespace(#[trigger] s[i])
}

/// Some character is a control character.
pub open spec fn spec_has_control(s: Seq<char>) -> bool {
    exists|i: int| 0 <= i < s.len() && spec_control(#[trigger] s[i])
}

/// Lexicographic order on code points, which is the byte order of UTF-8 strings.
pub open spec fn spec_str_lt(a: Seq<char>, b: Seq<char>) -> bool
    decreases a.len(),
{
    if a.len() == 0 {
        b.len() > 0
    } else if b.len() == 0 {
        false
    } else if a[0] == b[0] {
        spec_str_lt(a.drop_first(), b.drop_first())
    } else {
        a[0] < b[0]
    }
}

pub fn is_ascii_alnum(c: char) -> (r: bool)
    ensures
        r == spec_ascii_alnum(c),
{
    ('a' <= c && c <= 'z') || ('A' <= c && c <= 'Z') || ('0' <= c && c <= '9')
}

pub fn is_ascii_hex(c: char) -> (r: bool)
    ensures
        r == spec_ascii_hex(c),
{
    ('a' <= c && c <= 'f') || ('A' <= c && c <= 'F') || ('0' <= c && c <= '9')
}

pub fn is_control(c: char) -> (r: bool)
    ensures
        r == spec_control(c),
{
    let v = c as u32;
    v <= 0x1f || (0x7f <= v && v <= 0x9f)
}

pub fn is_whitespace(c: char) -> (r: bool)
    ensures
        r == spec_whitespace(c),
{
    let v = c as u32;
    (0x09 <= v && v <= 0x0d) || v == 0x20 || v == 0x85 || v == 0xa0 || v == 0x1680 || (0x2000
        <= v && v <= 0x200a) || v == 0x2028 || v == 0x2029 || v == 0x202f || v == 0x205f || v
        == 0x3000
}

/// Converts a string slice into its sequence of characters.
pub fn chars_of(s: &str) -> (out: Vec<char>)
    ensures
        out@ == s@,
{
    let mut out: Vec<char> = Vec::new();
    for c in it: s.chars()
        invariant
            out@ == it.seq().take(it.index() as int),
    {
        out.push(c);
    }
    out
}

/// Builds a string from characters.
pub fn string_of(chars: &Vec<char>) -> (out: String)
    ensures
        out@ == chars@,
{
    let mut out = String::new();
    let mut i: usize = 0;
    while i < chars.len()
        invariant
            i <= chars.len(),
            out@ == chars@.take(i as int),
        decreases chars.len() - i,
    {
        push_char(&mut out, chars[i]);
        assert(chars@.take(i + 1) == chars@.take(i as int).push(chars@[i as int]));
        i += 1;
    }
    assert(chars@.take(chars.len() as int) == chars@);
    out
}

/// Appends one character to a string.
#[verifier::external_body]
pub(crate) fn push_char(s: &mut String, c: char)
    ensures
        final(s)@ == old(s)@.push(c),
{
    s.push(c);
}

/// Appends a whole string slice.
pub fn push_str(s: &mut String, t: &str)
    ensures
        final(s)@ == old(s)@ + t@,
{
    let cs = chars_of(t);
    let mut i: usize = 0;
    while i < cs.len()
        invariant
            i <= cs.len(),
            cs@ == t@,
            s@ == old(s)@ + cs@.take(i as int),
        decreases cs.len() - i,
    {
        push_char(s, cs[i]);
        assert(cs@.take(i + 1) == cs@.take(i as int).push(cs@[i as int]));
        i += 1;
    }
    assert(cs@.take(cs.len() as int) == cs@);
}

/// Equality of two string slices.
pub fn str_eq(a: &str, b: &str) -> (r: bool)
    ensures
        r == (a@ == b@),
{
    let x = chars_of(a);
    let y = chars_of(b);
    if x.len() != y.len() {
        return false;
    }
    let mut i: usize = 0;
    while i < x.len()
        invariant
            i <= x.len(),
            x.len() == y.len(),
            x@ == a@,
            y@ == b@,
            forall|k: int| 0 <= k < i ==> x@[k] == y@[k],
        decreases x.len() - i,
    {
        if x[i] != y[i] {
            return false;
        }
        i += 1;
    }
    assert(x@ =~= y@);
    true
}

/// `s.trim().is_empty()`.
pub fn is_blank(s: &str) -> (r: bool)
    ensures
        r == spec_blank(s@),
{
    let cs = chars_of(s);
    let mut i: usize = 0;
    while i < cs.len()
        invariant
            i <= cs.len(),
            cs@ == s@,
            forall|k: int| 0 <= k < i ==> spec_whitespace(#[trigger] cs@[k]),
        decreases cs.len() - i,
    {
        if !is_whitespace(cs[i]) {
            return false;
        }
        i += 1;
    }
    true
}

/// `s.chars().any(char::is_control)`.
pub fn has_control(s: &str) -> (r: bool)
    ensures
        r == spec_has_control(s@),
{
    let cs = chars_of(s);
    let mut i: usize = 0;
    while i < cs.len()
        invariant
            i <= cs.len(),
            cs@ == s@,
            forall|k: int| 0 <= k < i ==> !spec_control(#[trigger] cs@[k]),
        decreases cs.len() - i,
    {
        if is_control(cs[i]) {
            return true;
        }
        i += 1;
    }
    false
}

/// Lexicographic comparison of two character sequences.
pub fn chars_lt(a: &Vec<char>, b: &Vec<char>) -> (r: bool)
    ensures
        r == spec_str_lt(a@, b@),
{
    let mut i: usize = 0;
    assert(a@.skip(0) == a@ && b@.skip(0) == b@);
    while i < a.len() && i < b.len() && a[i] == b[i]
        invariant
            i <= a.len(),
            i <= b.len(),
            spec_str_lt(a@, b@) == spec_str_lt(a@.skip(i as int), b@.skip(i as int)),
        decreases a.len() - i,
    {
        assert(a@.skip(i as int).drop_first() == a@.skip(i + 1));
        assert(b@.skip(i as int).drop_first() == b@.skip(i + 1));
        i += 1;
    }
    if i == a.len() {
        i < b.len()
    } else if i == b.len() {
        false
    } else {
        a[i] < b[i]
    }
}

/// Irreflexivity, trichotomy and transitivity of the string order.
pub proof fn lemma_str_lt_total(a: Seq<char>, b: Seq<char>)
    ensures
        !spec_str_lt(a, a),
        a != b ==> (spec_str_lt(a, b) || spec_str_lt(b, a)),
        !(spec_str_lt(a, b) && spec_str_lt(b, a)),
    decreases a.len(),
{
    if a.len() > 0 {
        lemma_str_lt_total(a.drop_first(), a.drop_first());
    }
    if a.len() > 0 && b.len() > 0 {
        lemma_str_lt_total(a.drop_first(), b.drop_first());
        if a != b && a[0] == b[0] {
            assert(a.drop_first() != b.drop_first()) by {
                if a.drop_first() == b.drop_first() {
                    assert(a =~= seq![a[0]] + a.drop_first());
                    assert(b =~= seq![b[0]] + b.drop_first());
                }
            }
        }
    } else if a.len() > 0 {
    } else if b.len() > 0 {
    } else {
        assert(a =~= b);
    }
}

pub proof fn lemma_str_lt_trans(a: Seq<char>, b: Seq<char>, c: Seq<char>)
    requires
        spec_str_lt(a, b),
        spec_str_lt(b, c),
    ensures
        spec_str_lt(a, c),
    decreases a.len(),
{
    if a.len() > 0 && b.len() > 0 && c.len() > 0 && a[0] == b[0] && b[0] == c[0] {
        lemma_str_lt_trans(a.drop_first(), b.drop_first(), c.drop_first());
    }
}

/// An owned copy of a string slice.
pub fn owned(s: &str) -> (r: String)
    ensures
        r@ == s@,
{
    let mut r = String::new();
    push_str(&mut r, s);
    r
}

/// `s` begins with `prefix`.
pub open spec fn spec_starts_with(s: Seq<char>, prefix: Seq<char>) -> bool {
    prefix.len() <= s.len() && s.take(prefix.len() as int) == prefix
}

/// `s.starts_with(prefix)` over character sequences.
pub fn starts_with(s: &Vec<char>, prefix: &str) -> (r: bool)
    ensures
        r == spec_starts_with(s@, prefix@),
{
    let p = chars_of(prefix);
    if p.len() > s.len() {
        return false;
    }
    let mut i: usize = 0;
    while i < p.len()
        invariant
            i <= p@.len(),
            p@.len() <= s@.len(),
            p@ == prefix@,
            forall|k: int| 0 <= k < i ==> s@[k] == p@[k],
        decreases p.len() - i,
    {
        if s[i] != p[i] {
            return false;
        }
        i += 1;
    }
    assert(s@.take(p@.len() as int) =~= p@);
    true
}

/// Every character from `start` on is an ASCII letter, digit or `_`.
pub open spec fn spec_word_chars(s: Seq<char>) -> bool {
    forall|i: int| 0 <= i < s.len() ==> spec_ascii_alnum(#[trigger] s[i]) || s[i] == '_'
}

pub fn word_chars_from(s: &Vec<char>, start: usize) -> (r: bool)
    requires
        start <= s@.len(),
    ensures
        r == spec_word_chars(s@.skip(start as int)),
{
    let mut i: usize = start;
    while i < s.len()
        invariant
            start <= i <= s@.len(),
            forall|k: int| start <= k < i ==> spec_ascii_alnum(#[trigger] s@[k]) || s@[k] == '_',
        decreases s.len() - i,
    {
        if !(is_ascii_alnum(s[i]) || s[i] == '_') {
            assert(s@.skip(start as int)[i - start] == s@[i as int]);
            return false;
        }
        i += 1;
    }
    assert forall|k: int| 0 <= k < s@.skip(start as int).len() implies spec_ascii_alnum(
        #[trigger] s@.skip(start as int)[k],
    ) || s@.skip(start as int)[k] == '_' by {
        assert(s@.skip(start as int)[k] == s@[start + k]);
    }
    true
}

/// Words of `s` separated by runs of white space, with `done` already found and
/// `cur` the word in progress.
pub open spec fn spec_words_acc(s: Seq<char>, done: Seq<Seq<char>>, cur: Seq<char>) -> Seq<Seq<char>>
    decreases s.len(),
{
    if s.len() == 0 {
        if cur.len() > 0 {
            done.push(cur)
        } else {
            done
        }
    } else if spec_whitespace(s[0]) {
        spec_words_acc(
            s.drop_first(),
            if cur.len() > 0 {
                done.push(cur)
            } else {
                done
            },
            Seq::empty(),
        )
    } else {
        spec_words_acc(s.drop_first(), done, cur.push(s[0]))
    }
}

/// `s.split_whitespace()`.
pub open spec fn spec_words(s: Seq<char>) -> Seq<Seq<char>> {
    spec_words_acc(s, Seq::empty(), Seq::empty())
}

/// Splits on white space, dropping empty pieces.
pub fn split_whitespace(s: &str) -> (words: Vec<Vec<char>>)
    ensures
        words@.map_values(|w: Vec<char>| w@) == spec_words(s@),
{
    let cs = chars_of(s);
    let mut words: Vec<Vec<char>> = Vec::new();
    let mut cur: Vec<char> = Vec::new();
    let mut i: usize = 0;
    assert(cs@.skip(0) == cs@);
    assert(words@.map_values(|w: Vec<char>| w@) =~= Seq::<Seq<char>>::empty());
    assert(cur@ =~= Seq::<char>::empty());
    while i < cs.len()
        invariant
            i <= cs@.len(),
            cs@ == s@,
            spec_words_acc(cs@.skip(i as int), words@.map_values(|w: Vec<char>| w@), cur@)
                == spec_words(s@),
        decreases cs.len() - i,
    {
        assert(cs@.skip(i as int).drop_first() == cs@.skip(i + 1));
        assert(cs@.skip(i as int)[0] == cs@[i as int]);
        let ghost before = words@;
        if is_whitespace(cs[i]) {
            if cur.len() > 0 {
                let w = cur;
                words.push(w);
                assert(words@.map_values(|w: Vec<char>| w@) =~= before.map_values(|w: Vec<char>| w@).push(w@));
            }
            cur = Vec::new();
        } else {
            cur.push(cs[i]);
        }
        i += 1;
    }
    assert(cs@.skip(i as int) =~= Seq::<char>::empty());
    if cur.len() > 0 {
        let ghost before = words@;
        let w = cur;
        words.push(w);
        assert(words@.map_values(|w: Vec<char>| w@) =~= before.map_values(|w: Vec<char>| w@).push(w@));
    }
    words
}

/// Words joined by single spaces.
pub open spec fn spec_join_spaces(words: Seq<Seq<char>>) -> Seq<char>
    decreases words.len(),
{
    if words.len() == 0 {
        Seq::empty()
    } else if words.len() == 1 {
        words[0]
    } else {
        spec_join_spaces(words.drop_last()) + seq![' '] + words.last()
    }
}

pub fn join_spaces(words: &Vec<Vec<char>>, from: usize) -> (s: String)
    requires
        from <= words@.len(),
    ensures
        s@ == spec_join_spaces(words@.map_values(|w: Vec<char>| w@).skip(from as int)),
{
    let ghost all = words@.map_values(|w: Vec<char>| w@).skip(from as int);
    let mut s = String::new();
    let mut i: usize = from;
    while i < words.len()
        invariant
            from <= i <= words@.len(),
            all == words@.map_values(|w: Vec<char>| w@).skip(from as int),
            s@ == spec_join_spaces(all.take(i - from)),
        decreases words.len() - i,
    {
        assert(all.take(i + 1 - from).drop_last() == all.take(i - from));
        assert(all.take(i + 1 - from).last() == words@[i as int]@);
        if i > from {
            push_char(&mut s, ' ');
        }
        let w = &words[i];
        let mut k: usize = 0;
        let ghost before = s@;
        while k < w.len()
            invariant
                k <= w@.len(),
                s@ == before + w@.take(k as int),
            decreases w.len() - k,
        {
            push_char(&mut s, w[k]);
            assert(w@.take(k + 1) == w@.take(k as int).push(w@[k as int]));
            k += 1;
        }
        assert(w@.take(w@.len() as int) == w@);
        i += 1;
    }
    assert(all.take(words@.len() - from) == all);
    s
}

/// `char::to_ascii_lowercase`.
pub open spec fn spec_ascii_lower(c: char) -> char {
    if 'A' <= c && c <= 'Z' {
        ((c as u32) + 32) as char
    } else {
        c
    }
}

/// `eq_ignore_ascii_case`.
pub open spec fn spec_eq_ignore_case(a: Seq<char>, b: Seq<char>) -> bool {
    a.len() == b.len() && forall|i: int| 0 <= i < a.len() ==> spec_ascii_lower(#[trigger] a[i]) == spec_ascii_lower(b[i])
}

pub fn ascii_lower(c: char) -> (r: char)
    ensures
        r == spec_ascii_lower(c),
{
    if 'A' <= c && c <= 'Z' {
        ((c as u32) + 32) as u8 as char
    } else {
        c
    }
}

pub fn eq_ignore_case(a: &Vec<char>, b: &Vec<char>) -> (r: bool)
    ensures
        r == spec_eq_ignore_case(a@, b@),
{
    if a.len() != b.len() {
        return false;
    }
    let mut i: usize = 0;
    while i < a.len()
        invariant
            i <= a@.len(),
            a@.len() == b@.len(),
            forall|k: int| 0 <= k < i ==> spec_ascii_lower(#[trigger] a@[k]) == spec_ascii_lower(b@[k]),
        decreases a.len() - i,
    {
        if ascii_lower(a[i]) != ascii_lower(b[i]) {
            return false;
        }
        i += 1;
    }
    true
}

pub fn vec_eq(a: &Vec<char>, b: &str) -> (r: bool)
    ensures
        r == (a@ == b@),
{
    let y = chars_of(b);
    if a.len() != y.len() {
        return false;
    }
    let mut i: usize = 0;
    while i < a.len()
        invariant
            i <= a@.len(),
            a@.len() == y@.len(),
            y@ == b@,
            forall|k: int| 0 <= k < i ==> a@[k] == y@[k],
        decreases a.len() - i,
    {
        if a[i] != y[i] {
            return false;
        }
        i += 1;
    }
    assert(a@ =~= y@);
    true
}

/// A copy of a character vector.
pub fn copy_chars(v: &Vec<char>) -> (r: Vec<char>)
    ensures
        r@ == v@,
{
    let mut r: Vec<char> = Vec::new();
    let mut i: usize = 0;
    while i < v.len()
        invariant
            i <= v@.len(),
            r@ == v@.take(i as int),
        decreases v.len() - i,
    {
        r.push(v[i]);
        assert(v@.take(i + 1) == v@.take(i as int).push(v@[i as int]));
        i += 1;
    }
    assert(v@.take(v@.len() as int) == v@);
    r
}

/// The text of an optional string.
pub open spec fn spec_opt_str(o: Option<String>) -> Option<Seq<char>> {
    match o {
        Some(s) => Some(s@),
        None => None,
    }
}

/// The texts of a list of strings.
pub open spec fn spec_strs(s: Seq<String>) -> Seq<Seq<char>> {
    s.map_values(|x: String| x@)
}

/// The texts of a list of string pairs.
pub open spec fn spec_pairs(s: Seq<(String, String)>) -> Seq<(Seq<char>, Seq<char>)> {
    s.map_values(|x: (String, String)| (x.0@, x.1@))
}

/// A copy of a list of strings.
pub fn copy_strings(v: &Vec<String>) -> (r: Vec<String>)
    ensures
        spec_strs(r@) == spec_strs(v@),
{
    let mut r: Vec<String> = Vec::new();
    let mut i: usize = 0;
    while i < v.len()
        invariant
            i <= v@.len(),
            spec_strs(r@) == spec_strs(v@.take(i as int)),
        decreases v.len() - i,
    {
        r.push(v[i].clone());
        assert(spec_strs(v@.take(i + 1)) =~= spec_strs(v@.take(i as int)).push(v@[i as int]@));
        i += 1;
    }
    assert(v@.take(v@.len() as int) == v@);
    r
}

/// A copy of a list of string pairs.
pub fn copy_pairs(v: &Vec<(String, String)>) -> (r: Vec<(String, String)>)
    ensures
        spec_pairs(r@) == spec_pairs(v@),
{
    let mut r: Vec<(String, String)> = Vec::new();
    let mut i: usize = 0;
    while i < v.len()
        invariant
            i <= v@.len(),
            spec_pairs(r@) == spec_pairs(v@.take(i as int)),
        decreases v.len() - i,
    {
        let (a, b) = &v[i];
        r.push((a.clone(), b.clone()));
        assert(spec_pairs(v@.take(i + 1)) =~= spec_pairs(v@.take(i as int)).push(
            (v@[i as int].0@, v@[i as int].1@),
        ));
        i += 1;
    }
    assert(v@.take(v@.len() as int) == v@);
    r
}

/// Whether `c` occurs in `s`.
pub fn has_char(s: &str, c: char) -> (r: bool)
    ensures
        r == s@.contains(c),
{
    let cs = chars_of(s);
    let mut i: usize = 0;
    while i < cs.len()
        invariant
            i <= cs@.len(),
            cs@ == s@,
            forall|j: int| 0 <= j < i ==> cs@[j] != c,
        decreases cs.len() - i,
    {
        if cs[i] == c {
            assert(s@[i as int] == c);
            return true;
        }
        i += 1;
    }
    false
}

/// `pat` occurs in `text` starting at position `i`.
pub open spec fn spec_occurs_at(text: Seq<char>, pat: Seq<char>, i: int) -> bool {
    0 <= i && i + pat.len() <= text.len() && text.subrange(i, i + pat.len()) == pat
}

/// `text.contains(pat)`.
pub open spec fn spec_contains_sub(text: Seq<char>, pat: Seq<char>) -> bool {
    exists|i: int| spec_occurs_at(text, pat, i)
}

fn occurs_at(text: &Vec<char>, pat: &Vec<char>, i: usize) -> (r: bool)
    requires
        i + pat.len() <= text.len(),
    ensures
        r == spec_occurs_at(text@, pat@, i as int),
{
    let mut k: usize = 0;
    while k < pat.len()
        invariant
            k <= pat.len(),
            i + pat.len() <= text.len(),
            forall|j: int| 0 <= j < k ==> text@[i + j] == pat@[j],
        decreases pat.len() - k,
    {
        if text[i + k] != pat[k] {
            assert(text@.subrange(i as int, i + pat.len())[k as int] != pat@[k as int]);
            return false;
        }
        k += 1;
    }
    assert(text@.subrange(i as int, i + pat.len()) =~= pat@);
    true
}

/// Whether `pat` occurs in `text`.
pub fn contains_sub(text: &str, pat: &str) -> (r: bool)
    ensures
        r == spec_contains_sub(text@, pat@),
{
    let t = chars_of(text);
    let p = chars_of(pat);
    if p.len() > t.len() {
        assert(!spec_contains_sub(text@, pat@));
        return false;
    }
    if p.len() == 0 {
        assert(text@.subrange(0, 0) =~= pat@);
        assert(spec_occurs_at(text@, pat@, 0));
        return true;
    }
    let mut i: usize = 0;
    let last = t.len() - p.len();
    while i <= last
        invariant
            t@ == text@,
            p@ == pat@,
            0 < p.len() <= t.len(),
            last == t.len() - p.len(),
            i <= last + 1,
            forall|j: int| 0 <= j < i ==> !spec_occurs_at(text@, pat@, j),
        decreases last + 1 - i,
    {
        if occurs_at(&t, &p, i) {
            return true;
        }
        i += 1;
    }
    assert forall|j: int| !spec_occurs_at(text@, pat@, j) by {
        if 0 <= j && j >= i {
            assert(j + pat@.len() > text@.len());
        }
    }
    false
}

/// The first `n` characters of `s`.
pub fn prefix_chars(s: &str, n: usize) -> (r: String)
    requires
        n <= s@.len(),
    ensures
        r@ == s@.take(n as int),
{
    let cs = chars_of(s);
    let mut out = String::new();
    let mut i: usize = 0;
    while i < n
        invariant
            i <= n,
            n <= cs.len(),
            cs@ == s@,
            out@ == cs@.take(i as int),
        decreases n - i,
    {
        push_char(&mut out, cs[i]);
        assert(cs@.take(i + 1) == cs@.take(i as int).push(cs@[i as int]));
        i += 1;
    }
    out
}

/// The first position, from `i` on, where `pat` occurs in `text`.
pub open spec fn spec_find_from(text: Seq<char>, pat: Seq<char>, i: int) -> Option<int>
    decreases text.len() + 1 - i,
{
    if i < 0 || i + pat.len() > text.len() {
        None
    } else if spec_occurs_at(text, pat, i) {
        Some(i)
    } else {
        spec_find_from(text, pat, i + 1)
    }
}

/// `text.find(pat)`, counted in characters.
pub open spec fn spec_find(text: Seq<char>, pat: Seq<char>) -> Option<int> {
    spec_find_from(text, pat, 0)
}

/// The first position where `pat` occurs in `text`.
pub fn find_sub(text: &Vec<char>, pat: &Vec<char>) -> (r: Option<usize>)
    ensures
        match r {
            Some(i) => spec_find(text@, pat@) == Some(i as int),
            None => spec_find(text@, pat@) is None,
        },
{
    if pat.len() > text.len() {
        return None;
    }
    let last = text.len() - pat.len();
    let mut i: usize = 0;
    while i <= last
        invariant
            pat.len() <= text.len(),
            last == text.len() - pat.len(),
            i <= last + 1,
            spec_find(text@, pat@) == spec_find_from(text@, pat@, i as int),
        decreases last + 1 - i,
    {
        if occurs_at(text, pat, i) {
            return Some(i);
        }
        if i == last {
            assert(spec_find_from(text@, pat@, i + 1) is None);
            return None;
        }
        i += 1;
    }
    None
}

pub open spec fn spec_trim_start(s: Seq<char>) -> Seq<char>
    decreases s.len(),
{
    if s.len() > 0 && spec_whitespace(s[0]) {
        spec_trim_start(s.drop_first())
    } else {
        s
    }
}

pub open spec fn spec_trim_end(s: Seq<char>) -> Seq<char>
    decreases s.len(),
{
    if s.len() > 0 && spec_whitespace(s.last()) {
        spec_trim_end(s.drop_last())
    } else {
        s
    }
}

/// `str::trim`: white space removed at both ends.
pub open spec fn spec_trim(s: Seq<char>) -> Seq<char> {
    spec_trim_end(spec_trim_start(s))
}

/// The characters of `cs[lo..hi]` without white space at either end.
pub fn trim_range(cs: &Vec<char>, lo: usize, hi: usize) -> (r: Vec<char>)
    requires
        lo <= hi <= cs.len(),
    ensures
        r@ == spec_trim(cs@.subrange(lo as int, hi as int)),
{
    let ghost s = cs@.subrange(lo as int, hi as int);
    let mut a = lo;
    while a < hi && is_whitespace(cs[a])
        invariant
            lo <= a <= hi <= cs.len(),
            s == cs@.subrange(lo as int, hi as int),
            spec_trim_start(s) == spec_trim_start(cs@.subrange(a as int, hi as int)),
        decreases hi - a,
    {
        assert(cs@.subrange(a as int, hi as int).drop_first() == cs@.subrange(a + 1, hi as int));
        a += 1;
    }
    let ghost t = cs@.subrange(a as int, hi as int);
    assert(spec_trim_start(s) == t);
    let mut b = hi;
    while b > a && is_whitespace(cs[b - 1])
        invariant
            lo <= a <= b <= hi <= cs.len(),
            t == cs@.subrange(a as int, hi as int),
            spec_trim_end(t) == spec_trim_end(cs@.subrange(a as int, b as int)),
        decreases b - a,
    {
        assert(cs@.subrange(a as int, b as int).drop_last() == cs@.subrange(a as int, b - 1));
        b -= 1;
    }
    let mut out: Vec<char> = Vec::new();
    let mut k = a;
    while k < b
        invariant
            a <= k <= b <= cs.len(),
            out@ == cs@.subrange(a as int, k as int),
        decreases b - k,
    {
        out.push(cs[k]);
        assert(cs@.subrange(a as int, k + 1) == cs@.subrange(a as int, k as int).push(cs@[k as int]));
        k += 1;
    }
    out
}

/// `str::to_ascii_lowercase`.
pub open spec fn spec_lowercase(s: Seq<char>) -> Seq<char> {
    s.map_values(|c: char| spec_ascii_lower(c))
}

pub fn to_ascii_lowercase(s: &str) -> (r: String)
    ensures
        r@ == spec_lowercase(s@),
{
    let cs = chars_of(s);
    let mut out: Vec<char> = Vec::new();
    let mut i: usize = 0;
    while i < cs.len()
        invariant
            i <= cs.len(),
            cs@ == s@,
            out@ == spec_lowercase(cs@.take(i as int)),
        decreases cs.len() - i,
    {
        out.push(ascii_lower(cs[i]));
        assert(spec_lowercase(cs@.take(i + 1)) =~= spec_lowercase(cs@.take(i as int)).push(spec_ascii_lower(cs@[i as int])));
        i += 1;
    }
    assert(cs@.take(cs.len() as int) == cs@);
    string_of(&out)
}

/// The first `n` characters of `s`, or all of them when it is shorter.
pub open spec fn spec_take_chars(s: Seq<char>, n: nat) -> Seq<char> {
    if s.len() <= n {
        s
    } else {
        s.take(n as int)
    }
}

/// `s.chars().take(n).collect()`.
pub fn take_chars(s: &str, n: usize) -> (r: String)
    ensures
        r@ == spec_take_chars(s@, n as nat),
{
    let cs = chars_of(s);
    if cs.len() <= n {
        return owned(s);
    }
    prefix_chars(s, n)
}

} // verus!
