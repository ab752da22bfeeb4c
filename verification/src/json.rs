//! JSON values.

use crate::scalar::Scalar;
use crate::text::str_eq;
use vstd::prelude::*;

verus! {

/// A JSON number.
#[derive(Clone, Copy, Debug, PartialEq, Eq, Structural)]
pub enum JsonNumber {
    /// A whole number that is not negative.
    PosInt(u64),
    /// A negative whole number.
    NegInt(i64),
    /// Any other number.
    Fraction(Scalar),
}

/// A JSON value.
///
/// An object keeps its members in the order in which they were written, and
/// where a name occurs twice the later member is the one that counts.
#[derive(Debug, PartialEq, Eq)]
pub enum JsonValue {
    Null,
    Bool(bool),
    Number(JsonNumber),
    String(String),
    Array(Vec<JsonValue>),
    Object(Vec<(String, JsonValue)>),
}

/// The value of the last of `members` whose name is `key`.
pub open spec fn last_member(members: Seq<(String, JsonValue)>, key: Seq<char>) -> Option<
    JsonValue,
>
    decreases members.len(),
{
    if members.len() == 0 {
        None
    } else if members.last().0@ == key {
        Some(members.last().1)
    } else {
        last_member(members.drop_last(), key)
    }
}

/// The member `key` of an object; `None` for a value that is no object or
/// has no such member.
pub open spec fn json_get(value: JsonValue, key: Seq<char>) -> Option<JsonValue> {
    match value {
        JsonValue::Object(members) => last_member(members@, key),
        _ => None,
    }
}

/// The text of a JSON string; `None` for any other value.
pub open spec fn json_as_str(value: JsonValue) -> Option<Seq<char>> {
    match value {
        JsonValue::String(text) => Some(text@),
        _ => None,
    }
}

impl JsonValue {
    /// The member `key` of an object; `None` for a value that is no object
    /// or has no such member.
    pub fn get(&self, key: &str) -> (member: Option<&JsonValue>)
        ensures
            match member {
                Some(found) => json_get(*self, key@) == Some(*found),
                None => json_get(*self, key@) is None,
            },
    {
        match self {
            JsonValue::Object(members) => {
                let mut i: usize = members.len();
                assert(members@.take(i as int) =~= members@);
                while i > 0
                    invariant
                        i <= members@.len(),
                        *self == JsonValue::Object(*members),
                        last_member(members@, key@) == last_member(members@.take(i as int), key@),
                    decreases i,
                {
                    let ghost prefix = members@.take(i as int);
                    assert(prefix.last() == members@[i - 1]);
                    assert(prefix.drop_last() =~= members@.take(i - 1));
                    if str_eq(members[i - 1].0.as_str(), key) {
                        assert(last_member(prefix, key@) == Some(prefix.last().1));
                        return Some(&members[i - 1].1);
                    }
                    i = i - 1;
                }
                assert(members@.take(0).len() == 0);
                None
            },
            _ => None,
        }
    }

    /// The text of a JSON string; `None` for any other value.
    pub fn as_str(&self) -> (text: Option<&str>)
        ensures
            match text {
                Some(t) => json_as_str(*self) == Some(t@),
                None => json_as_str(*self) is None,
            },
    {
        match self {
            JsonValue::String(text) => Some(text.as_str()),
            _ => None,
        }
    }
}

} // verus!
