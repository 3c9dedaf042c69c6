//! A JSON value model holding what the rule engine reads from a document.

use vstd::prelude::*;

verus! {

/// A JSON number, classified by what the document checks look at.
#[derive(Clone, Copy, Debug, PartialEq, Eq)]
pub enum JsonNumber {
    /// A non-negative integer that fits in `u64`.
    Unsigned(u64),
    /// A negative integer that fits in `i64`.
    Negative(i64),
    /// Any other number: only whether it has no fractional part and whether it is below zero.
    Real { integral: bool, negative: bool },
}

/// A JSON value. Object members keep their order.
#[derive(Debug)]
pub enum Json {
    Null,
    Bool(bool),
    Number(JsonNumber),
    Text(String),
    Array(Vec<Json>),
    Object(Vec<(String, Json)>),
}

/// The value of the first member named `key`.
pub open spec fn lookup(entries: Seq<(String, Json)>, key: Seq<char>) -> Option<Json>
    decreases entries.len(),
{
    if entries.len() == 0 {
        None
    } else if entries[0].0@ == key {
        Some(entries[0].1)
    } else {
        lookup(entries.drop_first(), key)
    }
}

/// Skipping members whose names differ from `key` does not change the lookup.
proof fn lemma_lookup_skip(entries: Seq<(String, Json)>, key: Seq<char>, i: int)
    requires
        0 <= i <= entries.len(),
        forall|j: int| 0 <= j < i ==> entries[j].0@ != key,
    ensures
        lookup(entries, key) == lookup(entries.subrange(i, entries.len() as int), key),
    decreases i,
{
    if i == 0 {
        assert(entries.subrange(0, entries.len() as int) =~= entries);
    } else {
        let rest = entries.drop_first();
        assert forall|j: int| 0 <= j < i - 1 implies rest[j].0@ != key by {
            assert(rest[j] == entries[j + 1]);
        }
        lemma_lookup_skip(rest, key, i - 1);
        assert(rest.subrange(i - 1, rest.len() as int) =~= entries.subrange(i, entries.len() as int));
    }
}

/// The value of the first member named `key`.
fn find_member<'a>(entries: &'a Vec<(String, Json)>, key: &str) -> (r: Option<&'a Json>)
    ensures
        match r {
            Some(v) => lookup(entries@, key@) == Some(*v),
            None => lookup(entries@, key@) is None,
        },
{
    let wanted = key.to_string();
    let mut i: usize = 0;
    while i < entries.len()
        invariant
            0 <= i <= entries.len(),
            wanted@ == key@,
            forall|j: int| 0 <= j < i ==> entries@[j].0@ != key@,
        decreases entries.len() - i,
    {
        if entries[i].0 == wanted {
            proof {
                lemma_lookup_skip(entries@, key@, i as int);
                let rest = entries@.subrange(i as int, entries@.len() as int);
                assert(rest[0] == entries@[i as int]);
            }
            return Some(&entries[i].1);
        }
        i += 1;
    }
    proof {
        lemma_lookup_skip(entries@, key@, i as int);
    }
    None
}

impl Json {
    /// The member named `key`, when this value is an object that has one.
    pub open spec fn field(self, key: Seq<char>) -> Option<Json> {
        match self {
            Json::Object(entries) => lookup(entries@, key),
            _ => None,
        }
    }

    /// The number, when this value is a non-negative integer that fits in `u64`.
    pub open spec fn u64_value(self) -> Option<u64> {
        match self {
            Json::Number(JsonNumber::Unsigned(n)) => Some(n),
            _ => None,
        }
    }

    /// Whether this value is a number without a fractional part.
    pub open spec fn is_integer(self) -> bool {
        match self {
            Json::Number(JsonNumber::Unsigned(_)) => true,
            Json::Number(JsonNumber::Negative(_)) => true,
            Json::Number(JsonNumber::Real { integral, .. }) => integral,
            _ => false,
        }
    }

    /// Whether this value is an integer that is at least zero.
    pub open spec fn is_nonneg_integer(self) -> bool {
        match self {
            Json::Number(JsonNumber::Unsigned(_)) => true,
            Json::Number(JsonNumber::Negative(i)) => i >= 0,
            Json::Number(JsonNumber::Real { integral, negative }) => integral && !negative,
            _ => false,
        }
    }

    /// The member named `key`, when this value is an object that has one.
    pub fn get(&self, key: &str) -> (r: Option<&Json>)
        ensures
            match r {
                Some(v) => self.field(key@) == Some(*v),
                None => self.field(key@) is None,
            },
    {
        match self {
            Json::Object(entries) => find_member(entries, key),
            _ => None,
        }
    }

    /// The number, when this value is a non-negative integer that fits in `u64`.
    pub fn as_u64(&self) -> (r: Option<u64>)
        ensures
            r == self.u64_value(),
    {
        match self {
            Json::Number(JsonNumber::Unsigned(n)) => Some(*n),
            _ => None,
        }
    }

    /// Whether this value is a number without a fractional part.
    pub fn check_integer(&self) -> (r: bool)
        ensures
            r == self.is_integer(),
    {
        match self {
            Json::Number(JsonNumber::Unsigned(_)) => true,
            Json::Number(JsonNumber::Negative(_)) => true,
            Json::Number(JsonNumber::Real { integral, .. }) => *integral,
            _ => false,
        }
    }

    /// Whether this value is an integer that is at least zero.
    pub fn check_nonneg_integer(&self) -> (r: bool)
        ensures
            r == self.is_nonneg_integer(),
    {
        match self {
            Json::Number(JsonNumber::Unsigned(_)) => true,
            Json::Number(JsonNumber::Negative(i)) => *i >= 0,
            Json::Number(JsonNumber::Real { integral, negative }) => *integral && !*negative,
            _ => false,
        }
    }
}

} // verus!
