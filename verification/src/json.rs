//! A JSON document as the price logic reads it.
use vstd::prelude::*;

verus! {

/// A JSON number: its value as a `u64` where it is a non-negative integer
/// that fits, and its value as a binary64 float rounded to the nearest
/// integer and saturated into `u64` (`f.round() as u64`).
#[derive(Debug, Clone, Copy, PartialEq, Eq, Structural)]
pub struct JsonNumber {
    pub as_u64: Option<u64>,
    pub rounded: u64,
}

/// A JSON value. An object keeps its members in document order; its keys are
/// distinct.
#[derive(Debug)]
pub enum JsonValue {
    Null,
    Bool(bool),
    Number(JsonNumber),
    Text(String),
    Array(Vec<JsonValue>),
    Object(Vec<(String, JsonValue)>),
}

/// The position of the first member named `key`.
pub open spec fn member_index(members: Seq<(String, JsonValue)>, key: Seq<char>) -> Option<int>
    decreases members.len(),
{
    if members.len() == 0 {
        None
    } else if members[0].0@ == key {
        Some(0)
    } else {
        match member_index(members.drop_first(), key) {
            Some(i) => Some(i + 1),
            None => None,
        }
    }
}

/// `value.get(key)`: the member named `key` of an object, nothing otherwise.
pub open spec fn json_get(v: JsonValue, key: Seq<char>) -> Option<JsonValue> {
    match v {
        JsonValue::Object(members) => match member_index(members@, key) {
            Some(i) => Some(members@[i].1),
            None => None,
        },
        _ => None,
    }
}

/// `value.as_u64()`.
pub open spec fn json_as_u64(v: JsonValue) -> Option<u64> {
    match v {
        JsonValue::Number(n) => n.as_u64,
        _ => None,
    }
}

/// `value.as_str()`.
pub open spec fn json_as_text(v: JsonValue) -> Option<Seq<char>> {
    match v {
        JsonValue::Text(s) => Some(s@),
        _ => None,
    }
}

/// The member of an optional value (`and_then(|v| v.get(key))`).
pub open spec fn json_get_opt(v: Option<JsonValue>, key: Seq<char>) -> Option<JsonValue> {
    match v {
        Some(x) => json_get(x, key),
        None => None,
    }
}

proof fn lemma_member_index_bounds(members: Seq<(String, JsonValue)>, key: Seq<char>)
    ensures
        member_index(members, key) matches Some(i) ==> 0 <= i < members.len() && members[i].0@ == key,
        member_index(members, key) is None ==> forall|i: int| 0 <= i < members.len() ==> (#[trigger] members[i]).0@ != key,
    decreases members.len(),
{
    if members.len() > 0 {
        lemma_member_index_bounds(members.drop_first(), key);
        if members[0].0@ != key {
            assert forall|i: int| 0 < i < members.len() implies #[trigger] members[i] == members.drop_first()[i - 1] by {}
        }
    }
}

proof fn lemma_member_index_first(members: Seq<(String, JsonValue)>, key: Seq<char>, i: int)
    requires
        0 <= i < members.len(),
        members[i].0@ == key,
        forall|j: int| 0 <= j < i ==> (#[trigger] members[j]).0@ != key,
    ensures
        member_index(members, key) == Some(i),
    decreases i,
{
    if i > 0 {
        assert forall|j: int| 0 <= j < i - 1 implies (#[trigger] members.drop_first()[j]).0@ != key by {
            assert(members.drop_first()[j] == members[j + 1]);
        }
        lemma_member_index_first(members.drop_first(), key, i - 1);
    }
}

impl JsonValue {
    /// `value.get(key)`: the member named `key` of an object.
    pub fn get(&self, key: &str) -> (r: Option<&JsonValue>)
        ensures
            r matches Some(x) ==> json_get(*self, key@) == Some(*x),
            r is None ==> json_get(*self, key@) is None,
    {
        match self {
            JsonValue::Object(members) => {
                let n = members.len();
                let mut i: usize = 0;
                while i < n
                    invariant
                        *self == JsonValue::Object(*members),
                        n == members@.len(),
                        i <= n,
                        forall|j: int| 0 <= j < i ==> (#[trigger] members@[j]).0@ != key@,
                    decreases n - i,
                {
                    if members[i].0 == owned_key(key) {
                        proof {
                            lemma_member_index_first(members@, key@, i as int);
                            assert(json_get(*self, key@) == Some(members@[i as int].1));
                        }
                        return Some(&members[i].1);
                    }
                    i = i + 1;
                }
                proof {
                    lemma_member_index_bounds(members@, key@);
                    if let Some(k) = member_index(members@, key@) {
                        assert(members@[k].0@ == key@);
                    }
                }
                None
            },
            _ => None,
        }
    }

    /// `value.as_u64()`.
    pub fn as_u64(&self) -> (r: Option<u64>)
        ensures
            r == json_as_u64(*self),
    {
        match self {
            JsonValue::Number(n) => n.as_u64,
            _ => None,
        }
    }

    /// `value.as_str()`.
    pub fn as_text(&self) -> (r: Option<&String>)
        ensures
            r matches Some(s) ==> json_as_text(*self) == Some(s@),
            r is None ==> json_as_text(*self) is None,
    {
        match self {
            JsonValue::Text(s) => Some(s),
            _ => None,
        }
    }
}

fn owned_key(key: &str) -> (r: String)
    ensures
        r@ == key@,
{
    String::from_str(key)
}

} // verus!
