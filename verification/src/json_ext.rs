//! Lookups that search a JSON value for the first usable field among a list
//! of candidate keys, directly or anywhere below it.

use vstd::prelude::*;
use crate::json::{JsonValue, JsonNumber, jget, ji64, opt_ref};
use crate::count::{count_string, parse_count_string};
use crate::text::{trim, is_blank, trim_str};

verus! {

/// Text of the first key in `keys` that holds a string in `v`.
pub open spec fn first_string_spec(v: JsonValue, keys: Seq<&str>) -> Option<Seq<char>>
    decreases keys.len(),
{
    if keys.len() == 0 {
        None
    } else {
        match jget(v, keys[0]@) {
            Some(JsonValue::String(s)) => Some(s@),
            _ => first_string_spec(v, keys.drop_first()),
        }
    }
}

/// The first non-blank `first_string_spec` met in a depth-first, in-order walk.
pub open spec fn string_deep(v: JsonValue, keys: Seq<&str>) -> Option<Seq<char>>
    decreases v,
{
    match first_string_spec(v, keys) {
        Some(s) if trim(s).len() > 0 => Some(s),
        _ => match v {
            JsonValue::Array(items) => string_deep_items(items@, keys),
            JsonValue::Object(es) => string_deep_entries(es@, keys),
            _ => None,
        },
    }
}

pub open spec fn string_deep_items(s: Seq<JsonValue>, keys: Seq<&str>) -> Option<Seq<char>>
    decreases s,
{
    if s.len() == 0 {
        None
    } else {
        match string_deep(s[0], keys) {
            Some(x) => Some(x),
            None => string_deep_items(s.drop_first(), keys),
        }
    }
}

pub open spec fn string_deep_entries(s: Seq<(String, JsonValue)>, keys: Seq<&str>) -> Option<Seq<char>>
    decreases s,
{
    if s.len() == 0 {
        None
    } else {
        match string_deep(s[0].1, keys) {
            Some(x) => Some(x),
            None => string_deep_entries(s.drop_first(), keys),
        }
    }
}

/// Value of the first key in `keys` that holds an integer fitting `i64`.
pub open spec fn first_i64_spec(v: JsonValue, keys: Seq<&str>) -> Option<i64>
    decreases keys.len(),
{
    if keys.len() == 0 {
        None
    } else {
        match jget(v, keys[0]@) {
            Some(x) if ji64(x) is Some => ji64(x),
            _ => first_i64_spec(v, keys.drop_first()),
        }
    }
}

pub open spec fn opt_string_view(r: Option<String>) -> Option<Seq<char>> {
    match r {
        Some(s) => Some(s@),
        None => None,
    }
}

/// The string held by the first of `keys` whose member is a string.
pub fn first_string(value: &JsonValue, keys: &[&str]) -> (r: Option<String>)
    ensures
        opt_string_view(r) == first_string_spec(*value, keys@),
{
    let mut i: usize = 0;
    assert(keys@.skip(0) =~= keys@);
    while i < keys.len()
        invariant
            i <= keys@.len(),
            first_string_spec(*value, keys@) == first_string_spec(*value, keys@.skip(i as int)),
        decreases keys@.len() - i,
    {
        proof {
            assert(keys@.skip(i as int).drop_first() =~= keys@.skip(i + 1));
            assert(keys@.skip(i as int)[0] == keys@[i as int]);
        }
        match value.get(keys[i]) {
            Some(JsonValue::String(s)) => {
                return Some(copy_string(s));
            },
            _ => {},
        }
        i += 1;
    }
    None
}

/// A copy of a string.
pub fn copy_string(s: &String) -> (r: String)
    ensures
        r@ == s@,
{
    s.clone()
}

/// `first_string` that skips blank text and otherwise searches every nested
/// array element and object member in order.
pub fn first_string_deep(value: &JsonValue, keys: &[&str]) -> (r: Option<String>)
    ensures
        opt_string_view(r) == string_deep(*value, keys@),
    decreases value,
{
    if let Some(s) = first_string(value, keys) {
        if !is_blank(s.as_str()) {
            return Some(s);
        }
    }
    match value {
        JsonValue::Array(items) => {
            let mut i: usize = 0;
            assert(items@.skip(0) =~= items@);
            while i < items.len()
                invariant
                    i <= items@.len(),
                    *value == JsonValue::Array(*items),
                    string_deep(*value, keys@) == string_deep_items(items@.skip(i as int), keys@),
                decreases items@.len() - i,
            {
                proof {
                    assert(items@.skip(i as int).drop_first() =~= items@.skip(i + 1));
                    assert(items@.skip(i as int)[0] == items@[i as int]);
                }
                let found = first_string_deep(&items[i], keys);
                if found.is_some() {
                    return found;
                }
                i += 1;
            }
            None
        },
        JsonValue::Object(es) => {
            let mut i: usize = 0;
            assert(es@.skip(0) =~= es@);
            while i < es.len()
                invariant
                    i <= es@.len(),
                    *value == JsonValue::Object(*es),
                    string_deep(*value, keys@) == string_deep_entries(es@.skip(i as int), keys@),
                decreases es@.len() - i,
            {
                proof {
                    assert(es@.skip(i as int).drop_first() =~= es@.skip(i + 1));
                    assert(es@.skip(i as int)[0] == es@[i as int]);
                }
                let found = first_string_deep(&es[i].1, keys);
                if found.is_some() {
                    return found;
                }
                i += 1;
            }
            None
        },
        _ => None,
    }
}

/// The first of `keys` whose member is an integer that fits `i64`.
pub fn first_i64(value: &JsonValue, keys: &[&str]) -> (r: Option<i64>)
    ensures
        r == first_i64_spec(*value, keys@),
{
    let mut i: usize = 0;
    assert(keys@.skip(0) =~= keys@);
    while i < keys.len()
        invariant
            i <= keys@.len(),
            first_i64_spec(*value, keys@) == first_i64_spec(*value, keys@.skip(i as int)),
        decreases keys@.len() - i,
    {
        proof {
            assert(keys@.skip(i as int).drop_first() =~= keys@.skip(i + 1));
            assert(keys@.skip(i as int)[0] == keys@[i as int]);
        }
        if let Some(x) = value.get(keys[i]) {
            if let Some(n) = x.as_i64() {
                return Some(n);
            }
        }
        i += 1;
    }
    None
}

/// A count read from a number, a count text, or (for an
/// object or array) the first count found inside it.
pub open spec fn count_value(v: JsonValue, keys: Seq<&str>) -> Option<u64>
    decreases v, 2int,
{
    match v {
        JsonValue::Number(JsonNumber::PosInt(n)) => Some(n),
        JsonValue::Number(JsonNumber::NegInt(n)) => if n >= 0 { Some(n as u64) } else { None },
        JsonValue::Number(JsonNumber::Float(f)) => f.rounded_count,
        JsonValue::String(s) => count_string(s@),
        JsonValue::Object(_) => count_deep(v, keys),
        JsonValue::Array(_) => count_deep(v, keys),
        _ => None,
    }
}

/// In an object, the count under the first of `keys` that
/// yields one, else the first count found in its members in order; in an
/// array, the first count found in its elements.
pub open spec fn count_deep(v: JsonValue, keys: Seq<&str>) -> Option<u64>
    decreases v, 1int,
{
    match v {
        JsonValue::Object(es) => match count_keys(es@, keys, keys) {
            Some(n) => Some(n),
            None => count_entries(es@, keys),
        },
        JsonValue::Array(items) => count_items(items@, keys),
        _ => None,
    }
}

/// The first of `ks` whose member in `es` yields a count.
pub open spec fn count_keys(es: Seq<(String, JsonValue)>, ks: Seq<&str>, keys: Seq<&str>) -> Option<u64>
    decreases es, ks.len() + 1,
{
    if ks.len() == 0 {
        None
    } else {
        match count_at_key(es, ks[0]@, keys) {
            Some(n) => Some(n),
            None => count_keys(es, ks.drop_first(), keys),
        }
    }
}

/// The count of the member of `es` named `key`.
pub open spec fn count_at_key(es: Seq<(String, JsonValue)>, key: Seq<char>, keys: Seq<&str>) -> Option<u64>
    decreases es, 0int,
{
    if es.len() == 0 {
        None
    } else if es[0].0@ == key {
        count_value(es[0].1, keys)
    } else {
        count_at_key(es.drop_first(), key, keys)
    }
}

pub open spec fn count_items(s: Seq<JsonValue>, keys: Seq<&str>) -> Option<u64>
    decreases s, 0int,
{
    if s.len() == 0 {
        None
    } else {
        match count_deep(s[0], keys) {
            Some(n) => Some(n),
            None => count_items(s.drop_first(), keys),
        }
    }
}

pub open spec fn count_entries(s: Seq<(String, JsonValue)>, keys: Seq<&str>) -> Option<u64>
    decreases s, 0int,
{
    if s.len() == 0 {
        None
    } else {
        match count_deep(s[0].1, keys) {
            Some(n) => Some(n),
            None => count_entries(s.drop_first(), keys),
        }
    }
}

/// The count of the first member of `es` named `key`.
fn count_at_key_exec(es: &Vec<(String, JsonValue)>, key: &str, keys: &[&str]) -> (r: Option<u64>)
    ensures
        r == count_at_key(es@, key@, keys@),
    decreases es, 0int,
{
    let k = crate::text::chars_of(key);
    let mut i: usize = 0;
    assert(es@.skip(0) =~= es@);
    while i < es.len()
        invariant
            i <= es@.len(),
            k@ == key@,
            count_at_key(es@, key@, keys@) == count_at_key(es@.skip(i as int), key@, keys@),
        decreases es@.len() - i,
    {
        proof {
            assert(es@.skip(i as int).drop_first() =~= es@.skip(i + 1));
            assert(es@.skip(i as int)[0] == es@[i as int]);
        }
        let ek = crate::text::chars_of(es[i].0.as_str());
        if crate::text::chars_eq(&ek, &k) {
            return parse_count_value(&es[i].1, keys);
        }
        i += 1;
    }
    None
}

/// A count read from a JSON number, from count text ("1.2万"), or, for an
/// object or array, the first count found inside it by `first_count`.
pub fn parse_count_value(value: &JsonValue, keys: &[&str]) -> (r: Option<u64>)
    ensures
        r == count_value(*value, keys@),
    decreases value, 2int,
{
    match value {
        JsonValue::Number(JsonNumber::PosInt(n)) => Some(*n),
        JsonValue::Number(JsonNumber::NegInt(n)) => if *n >= 0 { Some(*n as u64) } else { None },
        JsonValue::Number(JsonNumber::Float(f)) => f.rounded_count,
        JsonValue::String(s) => parse_count_string(s.as_str()),
        JsonValue::Object(_) => first_count(value, keys),
        JsonValue::Array(_) => first_count(value, keys),
        _ => None,
    }
}

/// The first count in `value`: in an object under the first of `keys` that
/// yields one, else in its members in order; in an array, in its elements.
pub fn first_count(value: &JsonValue, keys: &[&str]) -> (r: Option<u64>)
    ensures
        r == count_deep(*value, keys@),
    decreases value, 1int,
{
    match value {
        JsonValue::Object(es) => {
            let mut i: usize = 0;
            assert(keys@.skip(0) =~= keys@);
            while i < keys.len()
                invariant
                    i <= keys@.len(),
                    *value == JsonValue::Object(*es),
                    count_keys(es@, keys@, keys@) == count_keys(es@, keys@.skip(i as int), keys@),
                decreases keys@.len() - i,
            {
                proof {
                    assert(keys@.skip(i as int).drop_first() =~= keys@.skip(i + 1));
                    assert(keys@.skip(i as int)[0] == keys@[i as int]);
                }
                let found = count_at_key_exec(es, keys[i], keys);
                if found.is_some() {
                    return found;
                }
                i += 1;
            }
            let mut j: usize = 0;
            assert(es@.skip(0) =~= es@);
            while j < es.len()
                invariant
                    j <= es@.len(),
                    *value == JsonValue::Object(*es),
                    count_keys(es@, keys@, keys@) is None,
                    count_entries(es@, keys@) == count_entries(es@.skip(j as int), keys@),
                decreases es@.len() - j,
            {
                proof {
                    assert(es@.skip(j as int).drop_first() =~= es@.skip(j + 1));
                    assert(es@.skip(j as int)[0] == es@[j as int]);
                }
                let found = first_count(&es[j].1, keys);
                if found.is_some() {
                    return found;
                }
                j += 1;
            }
            None
        },
        JsonValue::Array(items) => {
            let mut i: usize = 0;
            assert(items@.skip(0) =~= items@);
            while i < items.len()
                invariant
                    i <= items@.len(),
                    *value == JsonValue::Array(*items),
                    count_items(items@, keys@) == count_items(items@.skip(i as int), keys@),
                decreases items@.len() - i,
            {
                proof {
                    assert(items@.skip(i as int).drop_first() =~= items@.skip(i + 1));
                    assert(items@.skip(i as int)[0] == items@[i as int]);
                }
                let found = first_count(&items[i], keys);
                if found.is_some() {
                    return found;
                }
                i += 1;
            }
            None
        },
        _ => None,
    }
}

} // verus!
