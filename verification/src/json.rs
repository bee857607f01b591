//! A plain model of JSON documents read and written by the runtime.
use vstd::prelude::*;

use crate::text::str_eq;

verus! {

/// A JSON number as `serde_json` classifies it.
#[derive(Clone, Debug, PartialEq, Eq)]
pub enum JsonNumber {
    PosInt(u64),
    NegInt(i64),
    /// Any other number, by its decimal text.
    Other(String),
}

/// One JSON value; objects keep their members in document order.
#[derive(Debug, PartialEq)]
pub enum JsonValue {
    Null,
    Bool(bool),
    Number(JsonNumber),
    Str(String),
    Array(Vec<JsonValue>),
    Object(Vec<(String, JsonValue)>),
}

/// The value of the first member named `key` at or after position `i`.
pub open spec fn spec_member_from(members: Seq<(String, JsonValue)>, key: Seq<char>, i: int) -> Option<
    JsonValue,
>
    decreases members.len() - i,
{
    if i < 0 || i >= members.len() {
        None
    } else if members[i].0@ == key {
        Some(members[i].1)
    } else {
        spec_member_from(members, key, i + 1)
    }
}

/// `value.get(key)`: the member `key` of an object.
pub open spec fn spec_get(value: JsonValue, key: Seq<char>) -> Option<JsonValue> {
    match value {
        JsonValue::Object(members) => spec_member_from(members@, key, 0),
        _ => None,
    }
}

/// `value.get(key).and_then(Value::as_str)`.
pub open spec fn spec_get_str(value: JsonValue, key: Seq<char>) -> Option<Seq<char>> {
    match spec_get(value, key) {
        Some(JsonValue::Str(s)) => Some(s@),
        _ => None,
    }
}

/// `value.get(key).and_then(Value::as_bool)`.
pub open spec fn spec_get_bool(value: JsonValue, key: Seq<char>) -> Option<bool> {
    match spec_get(value, key) {
        Some(JsonValue::Bool(b)) => Some(b),
        _ => None,
    }
}

/// `value.get(key).and_then(Value::as_u64)`.
pub open spec fn spec_get_u64(value: JsonValue, key: Seq<char>) -> Option<u64> {
    match spec_get(value, key) {
        Some(JsonValue::Number(JsonNumber::PosInt(n))) => Some(n),
        _ => None,
    }
}

proof fn lemma_member_update_other(
    s: Seq<(String, JsonValue)>,
    t: Seq<(String, JsonValue)>,
    i: int,
    k: Seq<char>,
    j: int,
)
    requires
        s.len() == t.len(),
        0 <= i < s.len(),
        s[i].0@ == t[i].0@,
        s[i].0@ != k,
        forall|m: int| 0 <= m < s.len() && m != i ==> s[m] == t[m],
    ensures
        spec_member_from(t, k, j) == spec_member_from(s, k, j),
    decreases s.len() - j,
{
    if 0 <= j < s.len() {
        lemma_member_update_other(s, t, i, k, j + 1);
    }
}

proof fn lemma_member_update_same(s: Seq<(String, JsonValue)>, i: int, k: Seq<char>, j: int)
    requires
        0 <= j <= i < s.len(),
        s[i].0@ == k,
        forall|m: int| 0 <= m < i ==> s[m].0@ != k,
    ensures
        spec_member_from(s, k, j) == Some(s[i].1),
    decreases i - j,
{
    if j < i {
        lemma_member_update_same(s, i, k, j + 1);
    }
}

proof fn lemma_member_push(s: Seq<(String, JsonValue)>, x: (String, JsonValue), k: Seq<char>, j: int)
    requires
        0 <= j <= s.len(),
    ensures
        spec_member_from(s.push(x), k, j) == match spec_member_from(s, k, j) {
            Some(v) => Some(v),
            None => if x.0@ == k { Some(x.1) } else { None },
        },
    decreases s.len() - j,
{
    if j < s.len() {
        assert(s.push(x)[j] == s[j]);
        lemma_member_push(s, x, k, j + 1);
    } else {
        assert(s.push(x)[j] == x);
        assert(spec_member_from(s.push(x), k, j + 1) is None);
    }
}

/// Sets member `key` of an object's members: the first member of that name
/// takes the value, or a new member is appended.
pub fn put_member(members: &mut Vec<(String, JsonValue)>, key: String, value: JsonValue)
    ensures
        forall|k: Seq<char>|
            #![trigger spec_member_from(final(members)@, k, 0)]
            spec_member_from(final(members)@, k, 0) == if k == key@ {
                Some(value)
            } else {
                spec_member_from(old(members)@, k, 0)
            },
{
    let mut i: usize = 0;
    while i < members.len()
        invariant
            i <= members@.len(),
            members@ == old(members)@,
            forall|m: int| 0 <= m < i ==> (#[trigger] members@[m]).0@ != key@,
        decreases members.len() - i,
    {
        if str_eq(members[i].0.as_str(), key.as_str()) {
            let ghost before = members@;
            let ghost kv = key@;
            members.set(i, (key, value));
            proof {
                assert forall|k: Seq<char>| #![trigger spec_member_from(members@, k, 0)]
                    spec_member_from(members@, k, 0) == if k == kv {
                        Some(value)
                    } else {
                        spec_member_from(before, k, 0)
                    } by {
                    if k == kv {
                        assert forall|m: int| 0 <= m < i implies members@[m].0@ != k by {
                            assert(members@[m] == before[m]);
                        }
                        lemma_member_update_same(members@, i as int, k, 0);
                    } else {
                        lemma_member_update_other(before, members@, i as int, k, 0);
                    }
                }
            }
            return;
        }
        i += 1;
    }
    let ghost before = members@;
    let ghost kv = key@;
    let ghost x = (key, value);
    members.push((key, value));
    proof {
        assert forall|k: Seq<char>| #![trigger spec_member_from(members@, k, 0)]
            spec_member_from(members@, k, 0) == if k == kv {
                Some(value)
            } else {
                spec_member_from(before, k, 0)
            } by {
            lemma_member_push(before, x, k, 0);
            if k == kv {
                assert(spec_member_from(before, k, 0) is None) by {
                    if spec_member_from(before, k, 0) is Some {
                        lemma_member_found(before, k, 0);
                    }
                }
            }
        }
    }
}

proof fn lemma_member_found(s: Seq<(String, JsonValue)>, k: Seq<char>, j: int)
    requires
        spec_member_from(s, k, j) is Some,
    ensures
        exists|m: int| j <= m < s.len() && 0 <= m && (#[trigger] s[m]).0@ == k,
    decreases s.len() - j,
{
    if 0 <= j < s.len() && s[j].0@ != k {
        lemma_member_found(s, k, j + 1);
    }
}

impl JsonValue {
    pub fn is_object(&self) -> (r: bool)
        ensures
            r == (*self is Object),
    {
        match self {
            JsonValue::Object(_) => true,
            _ => false,
        }
    }

    /// The member named `key` of an object, if there is one.
    pub fn get(&self, key: &str) -> (r: Option<&JsonValue>)
        ensures
            match r {
                Some(v) => spec_get(*self, key@) == Some(*v),
                None => spec_get(*self, key@) is None,
            },
    {
        match self {
            JsonValue::Object(members) => {
                let mut i: usize = 0;
                while i < members.len()
                    invariant
                        i <= members.len(),
                        *self == JsonValue::Object(*members),
                        spec_member_from(members@, key@, 0) == spec_member_from(members@, key@, i as int),
                    decreases members.len() - i,
                {
                    if str_eq(members[i].0.as_str(), key) {
                        assert(spec_member_from(members@, key@, i as int) == Some(members@[i as int].1));
                        return Some(&members[i].1);
                    }
                    i += 1;
                }
                None
            },
            _ => None,
        }
    }

    /// The string member named `key` of an object, if there is one.
    pub fn get_str(&self, key: &str) -> (r: Option<&str>)
        ensures
            match r {
                Some(s) => spec_get_str(*self, key@) == Some(s@),
                None => spec_get_str(*self, key@) is None,
            },
    {
        match self.get(key) {
            Some(JsonValue::Str(s)) => Some(s.as_str()),
            _ => None,
        }
    }

    /// The boolean member named `key` of an object, if there is one.
    pub fn get_bool(&self, key: &str) -> (r: Option<bool>)
        ensures
            r == spec_get_bool(*self, key@),
    {
        match self.get(key) {
            Some(JsonValue::Bool(b)) => Some(*b),
            _ => None,
        }
    }

    /// The unsigned integer member named `key` of an object, if there is one.
    pub fn get_u64(&self, key: &str) -> (r: Option<u64>)
        ensures
            r == spec_get_u64(*self, key@),
    {
        match self.get(key) {
            Some(JsonValue::Number(JsonNumber::PosInt(n))) => Some(*n),
            _ => None,
        }
    }
}

} // verus!
