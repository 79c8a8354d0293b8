//! A JSON document held as plain values.

use vstd::prelude::*;

use crate::text::str_equals;

verus! {

/// A JSON number as it was received. Integers are held exactly; any other
/// number is held by its textual form.
#[derive(Clone, Debug, PartialEq)]
pub enum JsonNumber {
    /// A non-negative integer that fits in `u64`.
    Unsigned(u64),
    /// A negative integer that fits in `i64`.
    Negative(i64),
    /// Any other number, by its textual form.
    NonInteger(String),
}

/// A JSON value. Members of an object keep the order in which they came.
#[derive(Debug, PartialEq)]
pub enum JsonValue {
    Null,
    Bool(bool),
    Number(JsonNumber),
    Str(String),
    Array(Vec<JsonValue>),
    Object(Vec<(String, JsonValue)>),
}

/// The value of the first member of `members` whose name is `key`.
pub open spec fn member(members: Seq<(String, JsonValue)>, key: Seq<char>) -> Option<JsonValue>
    decreases members.len(),
{
    if members.len() == 0 {
        None
    } else if members[0].0@ == key {
        Some(members[0].1)
    } else {
        member(members.drop_first(), key)
    }
}

/// `member` finds the earliest member with the name asked for, and finds
/// nothing only when no member has that name.
pub proof fn member_is_earliest_match(members: Seq<(String, JsonValue)>, key: Seq<char>)
    ensures
        match member(members, key) {
            Some(v) => exists|i: int|
                0 <= i < members.len() && #[trigger] members[i].0@ == key && members[i].1 == v
                    && forall|j: int| 0 <= j < i ==> members[j].0@ != key,
            None => forall|i: int| 0 <= i < members.len() ==> #[trigger] members[i].0@ != key,
        },
    decreases members.len(),
{
    if members.len() > 0 {
        let rest = members.drop_first();
        member_is_earliest_match(rest, key);
        if members[0].0@ == key {
            assert(members[0].0@ == key);
        } else {
            match member(rest, key) {
                Some(v) => {
                    let i = choose|i: int|
                        0 <= i < rest.len() && #[trigger] rest[i].0@ == key && rest[i].1 == v
                            && forall|j: int| 0 <= j < i ==> rest[j].0@ != key;
                    assert(members[i + 1] == rest[i]);
                    assert forall|j: int| 0 <= j < i + 1 implies members[j].0@ != key by {
                        if j > 0 {
                            assert(members[j] == rest[j - 1]);
                        }
                    }
                    assert(members[i + 1].0@ == key);
                },
                None => {
                    assert forall|i: int| 0 <= i < members.len() implies #[trigger] members[i].0@ != key by {
                        if i > 0 {
                            assert(members[i] == rest[i - 1]);
                        }
                    }
                },
            }
        }
    }
}

impl JsonValue {
    /// The member named `key` of an object; `None` for anything else.
    pub open spec fn field(self, key: Seq<char>) -> Option<JsonValue> {
        match self {
            JsonValue::Object(members) => member(members@, key),
            _ => None,
        }
    }

    /// The value as an unsigned integer, when it is one.
    pub open spec fn spec_as_u64(self) -> Option<u64> {
        match self {
            JsonValue::Number(JsonNumber::Unsigned(n)) => Some(n),
            _ => None,
        }
    }

    /// The characters of a string value.
    pub open spec fn spec_as_str(self) -> Option<Seq<char>> {
        match self {
            JsonValue::Str(s) => Some(s@),
            _ => None,
        }
    }

    /// The value as a boolean, when it is one.
    pub open spec fn spec_as_bool(self) -> Option<bool> {
        match self {
            JsonValue::Bool(b) => Some(b),
            _ => None,
        }
    }

    /// The member named `key`, when `self` is an object that has one.
    pub fn get(&self, key: &str) -> (res: Option<&JsonValue>)
        ensures
            match res {
                Some(v) => self.field(key@) == Some(*v),
                None => self.field(key@) is None,
            },
    {
        match self {
            JsonValue::Object(members) => {
                let n: usize = members.len();
                let mut i: usize = 0;
                assert(members@.skip(0) =~= members@);
                while i < n
                    invariant
                        n == members@.len(),
                        self.field(key@) == member(members@, key@),
                        i <= n,
                        member(members@, key@) == member(members@.skip(i as int), key@),
                    decreases n - i,
                {
                    assert(members@.skip(i as int).drop_first() =~= members@.skip(i + 1));
                    assert(members@.skip(i as int)[0] == members@[i as int]);
                    if str_equals(members[i].0.as_str(), key) {
                        return Some(&members[i].1);
                    }
                    i = i + 1;
                }
                None
            },
            _ => None,
        }
    }

    /// The value as an unsigned integer, when it is one.
    pub fn as_u64(&self) -> (res: Option<u64>)
        ensures
            res == self.spec_as_u64(),
    {
        match self {
            JsonValue::Number(JsonNumber::Unsigned(n)) => Some(*n),
            _ => None,
        }
    }

    /// The value as a string slice, when it is a string.
    pub fn as_str(&self) -> (res: Option<&str>)
        ensures
            match res {
                Some(s) => self.spec_as_str() == Some(s@),
                None => self.spec_as_str() is None,
            },
    {
        match self {
            JsonValue::Str(s) => Some(s.as_str()),
            _ => None,
        }
    }

    /// The value as a boolean, when it is one.
    pub fn as_bool(&self) -> (res: Option<bool>)
        ensures
            res == self.spec_as_bool(),
    {
        match self {
            JsonValue::Bool(b) => Some(*b),
            _ => None,
        }
    }
}

} // verus!
