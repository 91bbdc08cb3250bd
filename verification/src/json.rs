//! A JSON document as the library reads it.
//!
//! Numbers keep what the readers of a document ask of them: an integer that
//! fits `u64` or `i64` exactly, or, for any other number, the bits of its
//! `f64` value together with that value truncated to an `i64` (the `as` cast),
//! both worked out by whoever builds the document.
use vstd::prelude::*;
use crate::text::str_eq;

verus! {

#[derive(Debug, Clone, Copy)]
pub enum JsonNumber {
    /// A non-negative integer.
    PosInt(u64),
    /// A negative integer.
    NegInt(i64),
    /// Any other number: `bits` are those of its `f64` value, `truncated` is
    /// that value cast to `i64` (saturating, NaN to zero).
    Float { bits: u64, truncated: i64 },
}

#[derive(Debug)]
pub enum JsonValue {
    Null,
    Bool(bool),
    Number(JsonNumber),
    Str(String),
    Array(Vec<JsonValue>),
    /// Members in document order; a key occurs at most once.
    Object(Vec<(String, JsonValue)>),
}

/// The first member of `entries` named `key`.
pub open spec fn entries_get(entries: Seq<(String, JsonValue)>, key: Seq<char>) -> Option<
    JsonValue,
>
    decreases entries.len(),
{
    if entries.len() == 0 {
        None
    } else if entries[0].0@ == key {
        Some(entries[0].1)
    } else {
        entries_get(entries.drop_first(), key)
    }
}

/// Index of the first member of `entries` named `key`, or `entries.len()`.
pub open spec fn entries_index(entries: Seq<(String, JsonValue)>, key: Seq<char>) -> int
    decreases entries.len(),
{
    if entries.len() == 0 {
        0
    } else if entries[0].0@ == key {
        0
    } else {
        1 + entries_index(entries.drop_first(), key)
    }
}

pub proof fn lemma_entries_index(entries: Seq<(String, JsonValue)>, key: Seq<char>)
    ensures
        0 <= entries_index(entries, key) <= entries.len(),
        entries_index(entries, key) < entries.len() ==> entries_get(entries, key) == Some(
            entries[entries_index(entries, key)].1,
        ),
        entries_index(entries, key) == entries.len() ==> entries_get(entries, key).is_none(),
    decreases entries.len(),
{
    if entries.len() > 0 && entries[0].0@ != key {
        lemma_entries_index(entries.drop_first(), key);
    }
}

/// `Value::get` with a string key: the member of an object, `None` otherwise.
pub open spec fn json_get(v: JsonValue, key: Seq<char>) -> Option<JsonValue> {
    match v {
        JsonValue::Object(entries) => entries_get(entries@, key),
        _ => None,
    }
}

/// The value behind an optional reference.
pub open spec fn deref_opt(v: Option<&JsonValue>) -> Option<JsonValue> {
    match v {
        Some(x) => Some(*x),
        None => None,
    }
}

/// `Value::as_str`.
pub open spec fn json_as_str(v: JsonValue) -> Option<Seq<char>> {
    match v {
        JsonValue::Str(s) => Some(s@),
        _ => None,
    }
}

/// `Value::as_str` applied to an optional value.
pub open spec fn opt_str(v: Option<JsonValue>) -> Option<Seq<char>> {
    match v {
        Some(x) => json_as_str(x),
        None => None,
    }
}

/// `Number::as_i64`.
pub open spec fn number_as_i64(n: JsonNumber) -> Option<i64> {
    match n {
        JsonNumber::PosInt(u) => if u <= i64::MAX {
            Some(u as i64)
        } else {
            None
        },
        JsonNumber::NegInt(i) => Some(i),
        JsonNumber::Float { .. } => None,
    }
}

/// `Number::as_u64`.
pub open spec fn number_as_u64(n: JsonNumber) -> Option<u64> {
    match n {
        JsonNumber::PosInt(u) => Some(u),
        _ => None,
    }
}

/// `Number::as_f64` cast to `i64`: saturating for large integers, the
/// truncated value for other numbers.
pub open spec fn number_f64_as_i64(n: JsonNumber) -> i64 {
    match n {
        JsonNumber::PosInt(u) => if u <= i64::MAX {
            u as i64
        } else {
            i64::MAX
        },
        JsonNumber::NegInt(i) => i,
        JsonNumber::Float { truncated, .. } => truncated,
    }
}

/// The member named `key` of an object's members.
pub fn entries_lookup<'a>(entries: &'a Vec<(String, JsonValue)>, key: &str) -> (r: Option<
    &'a JsonValue,
>)
    ensures
        deref_opt(r) == entries_get(entries@, key@),
{
    let mut i: usize = 0;
    assert(entries@.skip(0) =~= entries@);
    while i < entries.len()
        invariant
            i <= entries@.len(),
            entries_get(entries@, key@) == entries_get(entries@.skip(i as int), key@),
        decreases entries@.len() - i,
    {
        assert(entries@.skip(i as int).drop_first() =~= entries@.skip(i + 1));
        if str_eq(entries[i].0.as_str(), key) {
            return Some(&entries[i].1);
        }
        i = i + 1;
    }
    None
}

/// `Value::get` with a string key.
pub fn get<'a>(v: &'a JsonValue, key: &str) -> (r: Option<&'a JsonValue>)
    ensures
        deref_opt(r) == json_get(*v, key@),
{
    match v {
        JsonValue::Object(entries) => entries_lookup(entries, key),
        _ => None,
    }
}

/// `Value::as_str`.
pub fn as_str(v: &JsonValue) -> (r: Option<&str>)
    ensures
        match r {
            Some(s) => json_as_str(*v) == Some(s@),
            None => json_as_str(*v).is_none(),
        },
{
    match v {
        JsonValue::Str(s) => Some(s.as_str()),
        _ => None,
    }
}

/// `Value::as_str` on an optional value.
pub fn opt_as_str(v: Option<&JsonValue>) -> (r: Option<&str>)
    ensures
        match r {
            Some(s) => opt_str(deref_opt(v)) == Some(s@),
            None => opt_str(deref_opt(v)).is_none(),
        },
{
    match v {
        Some(x) => as_str(x),
        None => None,
    }
}

/// The string member named `key`, if there is one.
pub fn get_str<'a>(v: &'a JsonValue, key: &str) -> (r: Option<&'a str>)
    ensures
        match r {
            Some(s) => opt_str(json_get(*v, key@)) == Some(s@),
            None => opt_str(json_get(*v, key@)).is_none(),
        },
{
    opt_as_str(get(v, key))
}

pub fn number_i64(n: &JsonNumber) -> (r: Option<i64>)
    ensures
        r == number_as_i64(*n),
{
    match n {
        JsonNumber::PosInt(u) => if *u <= 9223372036854775807u64 {
            Some(*u as i64)
        } else {
            None
        },
        JsonNumber::NegInt(i) => Some(*i),
        JsonNumber::Float { .. } => None,
    }
}

pub fn number_f64_i64(n: &JsonNumber) -> (r: i64)
    ensures
        r == number_f64_as_i64(*n),
{
    match n {
        JsonNumber::PosInt(u) => if *u <= 9223372036854775807u64 {
            *u as i64
        } else {
            9223372036854775807i64
        },
        JsonNumber::NegInt(i) => *i,
        JsonNumber::Float { truncated, .. } => *truncated,
    }
}

} // verus!
