//! The explicit, allow-listed environment handed to an external command,
//! and the secret values that must never reach its diagnostics.
use vstd::prelude::*;

use crate::text::str_eq;

verus! {

/// The value set for `name` in `values` at or after position `i`.
pub open spec fn spec_env_from(values: Seq<(String, String)>, name: Seq<char>, i: int) -> Option<Seq<char>>
    decreases values.len() - i,
{
    if i < 0 || i >= values.len() {
        None
    } else if values[i].0@ == name {
        Some(values[i].1@)
    } else {
        spec_env_from(values, name, i + 1)
    }
}

proof fn lemma_env_before(values: Seq<(String, String)>, name: Seq<char>, k: int, i: int)
    requires
        0 <= i <= k < values.len(),
        values[k].0@ == name,
        forall|m: int| 0 <= m < k ==> (#[trigger] values[m]).0@ != name,
    ensures
        spec_env_from(values, name, i) == Some(values[k].1@),
    decreases k - i,
{
    if i < k {
        lemma_env_before(values, name, k, i + 1);
    }
}

proof fn lemma_env_update_other(
    s: Seq<(String, String)>,
    t: Seq<(String, String)>,
    k: int,
    name: Seq<char>,
    i: int,
)
    requires
        s.len() == t.len(),
        0 <= k < s.len(),
        s[k].0@ == t[k].0@,
        s[k].0@ != name,
        forall|m: int| 0 <= m < s.len() && m != k ==> s[m] == t[m],
    ensures
        spec_env_from(t, name, i) == spec_env_from(s, name, i),
    decreases s.len() - i,
{
    if 0 <= i < s.len() {
        lemma_env_update_other(s, t, k, name, i + 1);
    }
}

proof fn lemma_env_push(s: Seq<(String, String)>, x: (String, String), name: Seq<char>, i: int)
    requires
        0 <= i <= s.len(),
    ensures
        spec_env_from(s.push(x), name, i) == match spec_env_from(s, name, i) {
            Some(v) => Some(v),
            None => if x.0@ == name { Some(x.1@) } else { None },
        },
    decreases s.len() - i,
{
    if i < s.len() {
        assert(s.push(x)[i] == s[i]);
        lemma_env_push(s, x, name, i + 1);
    } else {
        assert(s.push(x)[i] == x);
        assert(spec_env_from(s.push(x), name, i + 1) is None);
    }
}

proof fn lemma_env_found(s: Seq<(String, String)>, name: Seq<char>, i: int)
    requires
        spec_env_from(s, name, i) is Some,
    ensures
        exists|m: int| 0 <= m < s.len() && (#[trigger] s[m]).0@ == name,
    decreases s.len() - i,
{
    if 0 <= i < s.len() && s[i].0@ != name {
        lemma_env_found(s, name, i + 1);
    }
}

/// Environment values by name, and the values to redact.
#[derive(Clone, Debug)]
pub struct CliEnvironment {
    pub values: Vec<(String, String)>,
    pub redactions: Vec<String>,
}

impl CliEnvironment {
    /// The value the child sees for `name`.
    pub open spec fn value_of(&self, name: Seq<char>) -> Option<Seq<char>> {
        spec_env_from(self.values@, name, 0)
    }

    pub fn new() -> (r: Self)
        ensures
            forall|name: Seq<char>| r.value_of(name) is None,
            r.redactions@.len() == 0,
    {
        CliEnvironment { values: Vec::new(), redactions: Vec::new() }
    }

    fn put(&mut self, name: String, value: String)
        ensures
            forall|n: Seq<char>|
                #![trigger final(self).value_of(n)]
                final(self).value_of(n) == if n == name@ {
                    Some(value@)
                } else {
                    old(self).value_of(n)
                },
            final(self).redactions == old(self).redactions,
    {
        let mut i: usize = 0;
        while i < self.values.len()
            invariant
                i <= self.values@.len(),
                self.values@ == old(self).values@,
                self.redactions == old(self).redactions,
                forall|m: int| 0 <= m < i ==> (#[trigger] self.values@[m]).0@ != name@,
            decreases self.values.len() - i,
        {
            if str_eq(self.values[i].0.as_str(), name.as_str()) {
                let ghost before = self.values@;
                let ghost nv = name@;
                let ghost vv = value@;
                self.values.set(i, (name, value));
                proof {
                    assert forall|n: Seq<char>| #![trigger spec_env_from(self.values@, n, 0)]
                        spec_env_from(self.values@, n, 0) == if n == nv {
                            Some(vv)
                        } else {
                            spec_env_from(before, n, 0)
                        } by {
                        if n == nv {
                            assert forall|m: int| 0 <= m < i implies (#[trigger] self.values@[m]).0@ != n by {
                                assert(self.values@[m] == before[m]);
                            }
                            lemma_env_before(self.values@, n, i as int, 0);
                        } else {
                            lemma_env_update_other(before, self.values@, i as int, n, 0);
                        }
                    }
                }
                return;
            }
            i += 1;
        }
        let ghost before = self.values@;
        let ghost nv = name@;
        let ghost vv = value@;
        let ghost x = (name, value);
        self.values.push((name, value));
        proof {
            assert forall|n: Seq<char>| #![trigger spec_env_from(self.values@, n, 0)]
                spec_env_from(self.values@, n, 0) == if n == nv {
                    Some(vv)
                } else {
                    spec_env_from(before, n, 0)
                } by {
                lemma_env_push(before, x, n, 0);
                if n == nv {
                    if spec_env_from(before, n, 0) is Some {
                        lemma_env_found(before, n, 0);
                    }
                }
            }
        }
    }

    /// Adds a non-secret value; a later value for a name replaces an earlier one.
    pub fn with_value(self, name: String, value: String) -> (r: Self)
        ensures
            forall|n: Seq<char>|
                #![trigger r.value_of(n)]
                r.value_of(n) == if n == name@ {
                    Some(value@)
                } else {
                    self.value_of(n)
                },
            r.redactions == self.redactions,
    {
        let mut env = self;
        env.put(name, value);
        env
    }

    /// Adds a secret value and registers it for redaction.
    pub fn with_secret(self, name: String, value: String) -> (r: Self)
        ensures
            forall|n: Seq<char>|
                #![trigger r.value_of(n)]
                r.value_of(n) == if n == name@ {
                    Some(value@)
                } else {
                    self.value_of(n)
                },
            r.redactions@ == self.redactions@.push(value),
    {
        let mut env = self;
        env.redactions.push(value.clone());
        env.put(name, value);
        env
    }
}

} // verus!
