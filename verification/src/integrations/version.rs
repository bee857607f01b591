//! Pinned CLI versions: reading `<prefix><semver>` from a `--version` output.
use vstd::prelude::*;

use crate::text::chars_of;
use crate::text::owned;
use crate::text::push_char;
use crate::text::push_str;
use crate::text::spec_starts_with;
use crate::text::spec_trim;
use crate::text::starts_with;
use crate::text::string_of;
use crate::text::trim_range;

verus! {

/// The parts of a semantic version: numbers, pre-release and build metadata.
#[derive(Clone, Debug, PartialEq, Eq)]
pub struct SemverParts {
    pub major: u64,
    pub minor: u64,
    pub patch: u64,
    pub pre: String,
    pub build: String,
}

/// What `semver::Version::parse` gives for `text`.
pub uninterp spec fn semver_parse(text: Seq<char>) -> Option<(u64, u64, u64, Seq<char>, Seq<char>)>;

pub open spec fn spec_parts(p: SemverParts) -> (u64, u64, u64, Seq<char>, Seq<char>) {
    (p.major, p.minor, p.patch, p.pre@, p.build@)
}

/// `semver::Version::parse`: the version's parts, or `None` where it is refused.
#[verifier::external_body]
pub(crate) fn parse_semver(text: &str) -> (r: Option<SemverParts>)
    ensures
        match r {
            Some(p) => semver_parse(text@) == Some(spec_parts(p)),
            None => semver_parse(text@) is None,
        },
{
    match semver::Version::parse(text) {
        Ok(v) => Some(
            SemverParts {
                major: v.major,
                minor: v.minor,
                patch: v.patch,
                pre: v.pre.as_str().to_string(),
                build: v.build.as_str().to_string(),
            },
        ),
        Err(_) => None,
    }
}

/// `std::str::from_utf8`: the text of `bytes` when they are valid UTF-8.
#[verifier::external_body]
fn utf8_text(bytes: &[u8]) -> (r: Option<String>)
    ensures
        r is Some <==> vstd::utf8::valid_utf8(bytes@),
        r matches Some(s) ==> s@ == vstd::utf8::decode_utf8(bytes@),
{
    match std::str::from_utf8(bytes) {
        Ok(s) => Some(s.to_string()),
        Err(_) => None,
    }
}

/// The version announced by `stdout`: valid UTF-8 that, trimmed, is `prefix`
/// followed by a semantic version.
pub open spec fn spec_read_version(stdout: Seq<u8>, prefix: Seq<char>) -> Option<(u64, u64, u64, Seq<char>, Seq<char>)> {
    if !vstd::utf8::valid_utf8(stdout) {
        None
    } else {
        let t = spec_trim(vstd::utf8::decode_utf8(stdout));
        if spec_starts_with(t, prefix) {
            semver_parse(t.skip(prefix.len() as int))
        } else {
            None
        }
    }
}

/// Reads the version announced by a `--version` output.
pub fn read_version(stdout: &[u8], prefix: &str) -> (r: Option<SemverParts>)
    ensures
        match r {
            Some(p) => spec_read_version(stdout@, prefix@) == Some(spec_parts(p)),
            None => spec_read_version(stdout@, prefix@) is None,
        },
{
    let text = match utf8_text(stdout) {
        Some(t) => t,
        None => return None,
    };
    let cs = chars_of(text.as_str());
    let n = cs.len();
    let t = trim_range(&cs, 0, n);
    assert(cs@.subrange(0, n as int) == cs@);
    if !starts_with(&t, prefix) {
        return None;
    }
    let p = chars_of(prefix).len();
    let mut rest: Vec<char> = Vec::new();
    let mut k = p;
    while k < t.len()
        invariant
            p <= k <= t.len(),
            rest@ == t@.subrange(p as int, k as int),
        decreases t.len() - k,
    {
        rest.push(t[k]);
        assert(t@.subrange(p as int, k + 1) == t@.subrange(p as int, k as int).push(t@[k as int]));
        k += 1;
    }
    assert(rest@ == t@.skip(p as int));
    parse_semver(string_of(&rest).as_str())
}

pub open spec fn spec_digit_char(d: nat) -> char {
    (('0' as nat) + d) as char
}

pub open spec fn spec_decimal(n: nat) -> Seq<char>
    decreases n,
{
    if n < 10 {
        seq![spec_digit_char(n)]
    } else {
        spec_decimal(n / 10).push(spec_digit_char(n % 10))
    }
}

pub fn decimal_u64(n: u64) -> (r: String)
    ensures
        r@ == spec_decimal(n as nat),
    decreases n,
{
    if n < 10 {
        let mut s = String::new();
        push_char(&mut s, (48u8 + n as u8) as char);
        s
    } else {
        let mut s = decimal_u64(n / 10);
        push_char(&mut s, (48u8 + (n % 10) as u8) as char);
        s
    }
}

/// A signed integer's decimal text: `-` before the magnitude of a negative one.
pub open spec fn spec_int_text(n: int) -> Seq<char> {
    if n < 0 {
        "-"@ + spec_decimal((-n) as nat)
    } else {
        spec_decimal(n as nat)
    }
}

pub fn decimal_i64(n: i64) -> (r: String)
    ensures
        r@ == spec_int_text(n as int),
{
    if n < 0 {
        let magnitude: u64 = ((-(n + 1)) as u64) + 1;
        let mut s = crate::text::owned("-");
        crate::text::push_str(&mut s, decimal_u64(magnitude).as_str());
        s
    } else {
        decimal_u64(n as u64)
    }
}

/// `Version`'s display: `major.minor.patch`, `-pre` and `+build` when present.
pub open spec fn spec_version_text(p: (u64, u64, u64, Seq<char>, Seq<char>)) -> Seq<char> {
    spec_decimal(p.0 as nat) + "."@ + spec_decimal(p.1 as nat) + "."@ + spec_decimal(p.2 as nat) + (if p.3.len()
        > 0 {
        "-"@ + p.3
    } else {
        Seq::empty()
    }) + (if p.4.len() > 0 {
        "+"@ + p.4
    } else {
        Seq::empty()
    })
}

impl SemverParts {
    /// The version as `semver` displays it.
    pub fn to_text(&self) -> (r: String)
        ensures
            r@ == spec_version_text(spec_parts(*self)),
    {
        let mut s = decimal_u64(self.major);
        push_str(&mut s, ".");
        push_str(&mut s, decimal_u64(self.minor).as_str());
        push_str(&mut s, ".");
        push_str(&mut s, decimal_u64(self.patch).as_str());
        let ghost head = s@;
        if chars_of(self.pre.as_str()).len() > 0 {
            push_str(&mut s, "-");
            push_str(&mut s, self.pre.as_str());
        }
        let ghost with_pre = s@;
        if chars_of(self.build.as_str()).len() > 0 {
            push_str(&mut s, "+");
            push_str(&mut s, self.build.as_str());
        }
        proof {
            reveal_strlit(".");
            reveal_strlit("-");
            reveal_strlit("+");
            assert(with_pre == head + (if self.pre@.len() > 0 { "-"@ + self.pre@ } else { Seq::empty() }));
            assert(s@ == with_pre + (if self.build@.len() > 0 { "+"@ + self.build@ } else { Seq::empty() }));
        }
        s
    }

    /// Exactly `major.minor.patch`, without pre-release or build metadata.
    pub fn is_exactly(&self, major: u64, minor: u64, patch: u64) -> (r: bool)
        ensures
            r == (spec_parts(*self) == (major, minor, patch, Seq::<char>::empty(), Seq::<char>::empty())),
    {
        let r = self.major == major && self.minor == minor && self.patch == patch && chars_of(self.pre.as_str()).len() == 0
            && chars_of(self.build.as_str()).len() == 0;
        proof {
            if self.pre@.len() == 0 {
                assert(self.pre@ =~= Seq::<char>::empty());
            }
            if self.build@.len() == 0 {
                assert(self.build@ =~= Seq::<char>::empty());
            }
        }
        r
    }
}

} // verus!
