//! Field readers shared by several platform parsers: text and flags read
//! from loosely typed JSON members, searched for at any depth.

use vstd::prelude::*;
use crate::domain::strings_view;
use crate::json::{JsonValue, JsonNumber, jget, number_text, opt_ref};
use crate::json_ext::{first_string_deep, string_deep, opt_string_view};
use crate::strs::owned;
use crate::text::{is_blank, lower, lower_str, str_eq, trim, trim_str, str_contains, contains};

verus! {

/// Trimmed non-empty text, or a number's decimal text.
pub open spec fn value_to_text_spec(v: JsonValue) -> Option<Seq<char>> {
    match v {
        JsonValue::String(t) => if trim(t@).len() == 0 { None } else { Some(trim(t@)) },
        JsonValue::Number(n) => Some(number_text(n)),
        _ => None,
    }
}

/// Text of a field: its trimmed text when not empty, or a number's text.
pub fn value_to_text(value: &JsonValue) -> (r: Option<String>)
    ensures
        opt_string_view(r) == value_to_text_spec(*value),
{
    match value {
        JsonValue::String(t) => {
            if is_blank(t.as_str()) { None } else { Some(trim_str(t.as_str())) }
        },
        JsonValue::Number(n) => Some(n.to_text()),
        _ => None,
    }
}

/// A field's text; with `bools`, a boolean also reads as "true"/"false".
pub open spec fn field_text_spec(v: JsonValue, bools: bool) -> Option<Seq<char>> {
    match v {
        JsonValue::Bool(b) if bools => Some(if b { "true"@ } else { "false"@ }),
        _ => value_to_text_spec(v),
    }
}

fn field_text(value: &JsonValue, bools: bool) -> (r: Option<String>)
    ensures
        opt_string_view(r) == field_text_spec(*value, bools),
{
    match value {
        JsonValue::Bool(b) => if bools { Some(if *b { owned("true") } else { owned("false") }) } else { None },
        _ => value_to_text(value),
    }
}

/// A boolean, a number other than zero, or a yes/no word.
pub open spec fn value_to_bool_spec(v: JsonValue) -> Option<bool> {
    match v {
        JsonValue::Bool(b) => Some(b),
        JsonValue::Number(JsonNumber::PosInt(n)) => Some(n != 0),
        JsonValue::Number(JsonNumber::NegInt(n)) => Some(n != 0),
        JsonValue::Number(JsonNumber::Float(f)) => Some(f.above_epsilon),
        JsonValue::String(t) => {
            let l = lower(trim(t@));
            if l == "true"@ || l == "1"@ || l == "yes"@ || l == "y"@ {
                Some(true)
            } else if l == "false"@ || l == "0"@ || l == "no"@ || l == "n"@ {
                Some(false)
            } else {
                None
            }
        },
        _ => None,
    }
}

/// A flag read from a boolean, a number (true unless zero) or a word such
/// as "yes", "0" or "false".
pub fn value_to_bool(value: &JsonValue) -> (r: Option<bool>)
    ensures
        r == value_to_bool_spec(*value),
{
    match value {
        JsonValue::Bool(b) => Some(*b),
        JsonValue::Number(JsonNumber::PosInt(n)) => Some(*n != 0),
        JsonValue::Number(JsonNumber::NegInt(n)) => Some(*n != 0),
        JsonValue::Number(JsonNumber::Float(f)) => Some(f.above_epsilon),
        JsonValue::String(t) => {
            let l = lower_str(trim_str(t.as_str()).as_str());
            let l = l.as_str();
            if str_eq(l, "true") || str_eq(l, "1") || str_eq(l, "yes") || str_eq(l, "y") {
                Some(true)
            } else if str_eq(l, "false") || str_eq(l, "0") || str_eq(l, "no") || str_eq(l, "n") {
                Some(false)
            } else {
                None
            }
        },
        _ => None,
    }
}

/// The first of `ks` whose member of `v` reads as a flag.
pub open spec fn bool_keys(v: JsonValue, ks: Seq<&str>) -> Option<bool>
    decreases ks.len(),
{
    if ks.len() == 0 {
        None
    } else {
        match jget(v, ks[0]@) {
            Some(x) if value_to_bool_spec(x) is Some => value_to_bool_spec(x),
            _ => bool_keys(v, ks.drop_first()),
        }
    }
}

/// In an object, the flag under the first of `keys` that
/// holds one, else the first found in its members; in an array, the first
/// found in its elements.
pub open spec fn bool_deep(v: JsonValue, keys: Seq<&str>) -> Option<bool>
    decreases v, 1int,
{
    match v {
        JsonValue::Object(es) => match bool_keys(v, keys) {
            Some(b) => Some(b),
            None => bool_entries(es@, keys),
        },
        JsonValue::Array(items) => bool_items(items@, keys),
        _ => None,
    }
}

pub open spec fn bool_items(s: Seq<JsonValue>, keys: Seq<&str>) -> Option<bool>
    decreases s, 0int,
{
    if s.len() == 0 {
        None
    } else {
        match bool_deep(s[0], keys) {
            Some(b) => Some(b),
            None => bool_items(s.drop_first(), keys),
        }
    }
}

pub open spec fn bool_entries(s: Seq<(String, JsonValue)>, keys: Seq<&str>) -> Option<bool>
    decreases s, 0int,
{
    if s.len() == 0 {
        None
    } else {
        match bool_deep(s[0].1, keys) {
            Some(b) => Some(b),
            None => bool_entries(s.drop_first(), keys),
        }
    }
}

fn bool_keys_exec(value: &JsonValue, keys: &[&str]) -> (r: Option<bool>)
    ensures
        r == bool_keys(*value, keys@),
{
    let mut i: usize = 0;
    assert(keys@.skip(0) =~= keys@);
    while i < keys.len()
        invariant
            i <= keys@.len(),
            bool_keys(*value, keys@) == bool_keys(*value, keys@.skip(i as int)),
        decreases keys@.len() - i,
    {
        proof {
            assert(keys@.skip(i as int).drop_first() =~= keys@.skip(i + 1));
            assert(keys@.skip(i as int)[0] == keys@[i as int]);
        }
        if let Some(x) = value.get(keys[i]) {
            let b = value_to_bool(x);
            if b.is_some() {
                return b;
            }
        }
        i += 1;
    }
    None
}

/// The first flag found under one of `keys`, at any depth.
pub fn first_bool_deep(value: &JsonValue, keys: &[&str]) -> (r: Option<bool>)
    ensures
        r == bool_deep(*value, keys@),
    decreases value, 1int,
{
    match value {
        JsonValue::Object(es) => {
            let direct = bool_keys_exec(value, keys);
            if direct.is_some() {
                return direct;
            }
            let mut j: usize = 0;
            assert(es@.skip(0) =~= es@);
            while j < es.len()
                invariant
                    j <= es@.len(),
                    *value == JsonValue::Object(*es),
                    bool_keys(*value, keys@) is None,
                    bool_entries(es@, keys@) == bool_entries(es@.skip(j as int), keys@),
                decreases es@.len() - j,
            {
                proof {
                    assert(es@.skip(j as int).drop_first() =~= es@.skip(j + 1));
                    assert(es@.skip(j as int)[0] == es@[j as int]);
                }
                let found = first_bool_deep(&es[j].1, keys);
                if found.is_some() {
                    return found;
                }
                j += 1;
            }
            None
        },
        JsonValue::Array(items) => {
            let mut i: usize = 0;
            assert(items@.skip(0) =~= items@);
            while i < items.len()
                invariant
                    i <= items@.len(),
                    *value == JsonValue::Array(*items),
                    bool_items(items@, keys@) == bool_items(items@.skip(i as int), keys@),
                decreases items@.len() - i,
            {
                proof {
                    assert(items@.skip(i as int).drop_first() =~= items@.skip(i + 1));
                    assert(items@.skip(i as int)[0] == items@[i as int]);
                }
                let found = first_bool_deep(&items[i], keys);
                if found.is_some() {
                    return found;
                }
                i += 1;
            }
            None
        },
        _ => None,
    }
}

/// The first of `ks` whose member of `v` has a text.
pub open spec fn text_keys(v: JsonValue, ks: Seq<&str>, bools: bool) -> Option<Seq<char>>
    decreases ks.len(),
{
    if ks.len() == 0 {
        None
    } else {
        match jget(v, ks[0]@) {
            Some(x) if field_text_spec(x, bools) is Some => field_text_spec(x, bools),
            _ => text_keys(v, ks.drop_first(), bools),
        }
    }
}

/// A non-blank string found anywhere under
/// one of `keys`; else, in an object, the text of the first of `keys` that
/// has one, then the first found in its members; in an array, the first
/// found in its elements.
pub open spec fn text_deep(v: JsonValue, keys: Seq<&str>, bools: bool) -> Option<Seq<char>>
    decreases v, 1int,
{
    match string_deep(v, keys) {
        Some(s) if trim(s).len() > 0 => Some(s),
        _ => match v {
            JsonValue::Object(es) => match text_keys(v, keys, bools) {
                Some(t) => Some(t),
                None => text_entries(es@, keys, bools),
            },
            JsonValue::Array(items) => text_items(items@, keys, bools),
            _ => None,
        },
    }
}

pub open spec fn text_items(s: Seq<JsonValue>, keys: Seq<&str>, bools: bool) -> Option<Seq<char>>
    decreases s, 0int,
{
    if s.len() == 0 {
        None
    } else {
        match text_deep(s[0], keys, bools) {
            Some(t) => Some(t),
            None => text_items(s.drop_first(), keys, bools),
        }
    }
}

pub open spec fn text_entries(s: Seq<(String, JsonValue)>, keys: Seq<&str>, bools: bool) -> Option<Seq<char>>
    decreases s, 0int,
{
    if s.len() == 0 {
        None
    } else {
        match text_deep(s[0].1, keys, bools) {
            Some(t) => Some(t),
            None => text_entries(s.drop_first(), keys, bools),
        }
    }
}

fn text_keys_exec(value: &JsonValue, keys: &[&str], bools: bool) -> (r: Option<String>)
    ensures
        opt_string_view(r) == text_keys(*value, keys@, bools),
{
    let mut i: usize = 0;
    assert(keys@.skip(0) =~= keys@);
    while i < keys.len()
        invariant
            i <= keys@.len(),
            text_keys(*value, keys@, bools) == text_keys(*value, keys@.skip(i as int), bools),
        decreases keys@.len() - i,
    {
        proof {
            assert(keys@.skip(i as int).drop_first() =~= keys@.skip(i + 1));
            assert(keys@.skip(i as int)[0] == keys@[i as int]);
        }
        if let Some(x) = value.get(keys[i]) {
            let t = field_text(x, bools);
            if t.is_some() {
                return t;
            }
        }
        i += 1;
    }
    None
}

/// An identifier or label that may be given as text or as a number (and,
/// with `bools`, as a boolean), found under one of `keys` at any depth.
pub fn string_or_number_deep(value: &JsonValue, keys: &[&str], bools: bool) -> (r: Option<String>)
    ensures
        opt_string_view(r) == text_deep(*value, keys@, bools),
    decreases value, 1int,
{
    if let Some(s) = first_string_deep(value, keys) {
        if !is_blank(s.as_str()) {
            return Some(s);
        }
    }
    match value {
        JsonValue::Object(es) => {
            let direct = text_keys_exec(value, keys, bools);
            if direct.is_some() {
                return direct;
            }
            let mut j: usize = 0;
            assert(es@.skip(0) =~= es@);
            while j < es.len()
                invariant
                    j <= es@.len(),
                    *value == JsonValue::Object(*es),
                    !(string_deep(*value, keys@) matches Some(s) && trim(s).len() > 0),
                    text_keys(*value, keys@, bools) is None,
                    text_entries(es@, keys@, bools) == text_entries(es@.skip(j as int), keys@, bools),
                decreases es@.len() - j,
            {
                proof {
                    assert(es@.skip(j as int).drop_first() =~= es@.skip(j + 1));
                    assert(es@.skip(j as int)[0] == es@[j as int]);
                }
                let found = string_or_number_deep(&es[j].1, keys, bools);
                if found.is_some() {
                    return found;
                }
                j += 1;
            }
            None
        },
        JsonValue::Array(items) => {
            let mut i: usize = 0;
            assert(items@.skip(0) =~= items@);
            while i < items.len()
                invariant
                    i <= items@.len(),
                    *value == JsonValue::Array(*items),
                    !(string_deep(*value, keys@) matches Some(s) && trim(s).len() > 0),
                    text_items(items@, keys@, bools) == text_items(items@.skip(i as int), keys@, bools),
                decreases items@.len() - i,
            {
                proof {
                    assert(items@.skip(i as int).drop_first() =~= items@.skip(i + 1));
                    assert(items@.skip(i as int)[0] == items@[i as int]);
                }
                let found = string_or_number_deep(&items[i], keys, bools);
                if found.is_some() {
                    return found;
                }
                i += 1;
            }
            None
        },
        _ => None,
    }
}

/// An identifier or label that may be given as text or as a number, found
/// under one of `keys` at any depth.
pub fn first_string_or_number_deep(value: &JsonValue, keys: &[&str]) -> (r: Option<String>)
    ensures
        opt_string_view(r) == text_deep(*value, keys@, false),
{
    string_or_number_deep(value, keys, false)
}

/// The trimmed label appended when it is not blank and
/// not already there.
pub open spec fn push_unique_spec(badges: Seq<Seq<char>>, label: Seq<char>) -> Seq<Seq<char>> {
    let l = trim(label);
    if l.len() > 0 && !badges.contains(l) { badges.push(l) } else { badges }
}

/// Appends the trimmed label unless it is blank or already present.
pub fn push_unique_badge(badges: &mut Vec<String>, label: String)
    ensures
        strings_view(final(badges)@) == push_unique_spec(strings_view(old(badges)@), label@),
{
    let l = trim_str(label.as_str());
    if is_blank(label.as_str()) {
        return;
    }
    let mut i: usize = 0;
    while i < badges.len()
        invariant
            i <= badges@.len(),
            badges@ == old(badges)@,
            l@ == trim(label@),
            forall|j: int| 0 <= j < i ==> badges@[j]@ != l@,
        decreases badges@.len() - i,
    {
        if str_eq(badges[i].as_str(), l.as_str()) {
            proof {
                assert(strings_view(badges@)[i as int] == l@);
            }
            return;
        }
        i += 1;
    }
    proof {
        assert forall|j: int| 0 <= j < strings_view(badges@).len() implies strings_view(badges@)[j] != l@ by {
            assert(strings_view(badges@)[j] == badges@[j]@);
        }
    }
    let ghost before = badges@;
    badges.push(l);
    assert(strings_view(badges@) =~= strings_view(before).push(trim(label@)));
}

} // verus!
