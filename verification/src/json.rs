//! A JSON document model that holds, as plain values, what the platform
//! response parsers read from a decoded API response.

use vstd::prelude::*;
use crate::number::{dec, dec_signed};
use crate::text::{chars_of, chars_eq};
use crate::number::{u64_to_string, i64_to_string};

verus! {

/// A JSON number as serde_json keeps it: a non-negative integer, a negative
/// integer, or a float.
#[derive(Debug)]
pub enum JsonNumber {
    PosInt(u64),
    NegInt(i64),
    Float(JsonFloat),
}

/// A float member held by the facts about it that the parsers read, each
/// taken from the `f64` when the response is decoded.
#[derive(Debug)]
pub struct JsonFloat {
    /// Its shortest decimal text, as `Number::to_string` writes it.
    pub text: String,
    /// Whether its absolute value exceeds `f64::EPSILON`.
    pub above_epsilon: bool,
    /// Its value rounded half away from zero and cast to `u64`, when it is
    /// finite and not negative.
    pub rounded_count: Option<u64>,
    /// Its value rounded half away from zero and cast to `i64`.
    pub rounded: i64,
}

/// A decoded JSON value. Object entries keep the order in which the decoder
/// yields them and hold each key once.
#[derive(Debug)]
pub enum JsonValue {
    Null,
    Bool(bool),
    Number(JsonNumber),
    String(String),
    Array(Vec<JsonValue>),
    Object(Vec<(String, JsonValue)>),
}

/// Value of the first entry whose key is `key`.
pub open spec fn entries_get(es: Seq<(String, JsonValue)>, key: Seq<char>) -> Option<JsonValue>
    decreases es.len(),
{
    if es.len() == 0 {
        None
    } else if es[0].0@ == key {
        Some(es[0].1)
    } else {
        entries_get(es.drop_first(), key)
    }
}

/// `Value::get` with a string key: the member of an object, nothing otherwise.
pub open spec fn jget(v: JsonValue, key: Seq<char>) -> Option<JsonValue> {
    match v {
        JsonValue::Object(es) => entries_get(es@, key),
        _ => None,
    }
}

pub open spec fn jstr(v: JsonValue) -> Option<Seq<char>> {
    match v {
        JsonValue::String(s) => Some(s@),
        _ => None,
    }
}

pub open spec fn jbool(v: JsonValue) -> Option<bool> {
    match v {
        JsonValue::Bool(b) => Some(b),
        _ => None,
    }
}

/// `Value::as_i64`.
pub open spec fn ji64(v: JsonValue) -> Option<i64> {
    match v {
        JsonValue::Number(JsonNumber::PosInt(n)) => if n <= i64::MAX { Some(n as i64) } else { None },
        JsonValue::Number(JsonNumber::NegInt(n)) => Some(n),
        _ => None,
    }
}

/// `Value::as_u64`.
pub open spec fn ju64(v: JsonValue) -> Option<u64> {
    match v {
        JsonValue::Number(JsonNumber::PosInt(n)) => Some(n),
        JsonValue::Number(JsonNumber::NegInt(n)) => if n >= 0 { Some(n as u64) } else { None },
        _ => None,
    }
}

pub open spec fn jis_null(v: JsonValue) -> bool {
    v is Null
}

pub open spec fn jis_object(v: JsonValue) -> bool {
    v is Object
}

/// The decimal text of a JSON number, as serde_json writes it.
pub open spec fn number_text(n: JsonNumber) -> Seq<char> {
    match n {
        JsonNumber::PosInt(x) => dec(x as nat),
        JsonNumber::NegInt(x) => dec_signed(x as int),
        JsonNumber::Float(f) => f.text@,
    }
}

pub open spec fn opt_ref<'a>(r: Option<&'a JsonValue>) -> Option<JsonValue> {
    match r {
        Some(v) => Some(*v),
        None => None,
    }
}

impl JsonValue {
    /// The member of an object under `key`; nothing for other values.
    pub fn get(&self, key: &str) -> (r: Option<&JsonValue>)
        ensures
            opt_ref(r) == jget(*self, key@),
    {
        match self {
            JsonValue::Object(es) => {
                let k = chars_of(key);
                let mut i: usize = 0;
                assert(es@.skip(0) =~= es@);
                while i < es.len()
                    invariant
                        i <= es@.len(),
                        k@ == key@,
                        *self == JsonValue::Object(*es),
                        entries_get(es@, key@) == entries_get(es@.skip(i as int), key@),
                    decreases es@.len() - i,
                {
                    proof {
                        assert(es@.skip(i as int).drop_first() =~= es@.skip(i + 1));
                        assert(es@.skip(i as int)[0] == es@[i as int]);
                    }
                    let ek = chars_of(es[i].0.as_str());
                    if chars_eq(&ek, &k) {
                        assert(es@[i as int].0@ == key@);
                        assert(es@.skip(i as int).len() > 0);
                        assert(entries_get(es@.skip(i as int), key@) == Some(es@[i as int].1));
                        let r = &es[i].1;
                        assert(*r == es@[i as int].1);
                        assert(jget(*self, key@) == entries_get(es@, key@));
                        return Some(r);
                    }
                    i += 1;
                }
                None
            },
            _ => None,
        }
    }

    pub fn as_str(&self) -> (r: Option<&str>)
        ensures
            match r {
                Some(s) => jstr(*self) == Some(s@),
                None => jstr(*self) is None,
            },
    {
        match self {
            JsonValue::String(s) => Some(s.as_str()),
            _ => None,
        }
    }

    pub fn as_bool(&self) -> (r: Option<bool>)
        ensures
            r == jbool(*self),
    {
        match self {
            JsonValue::Bool(b) => Some(*b),
            _ => None,
        }
    }

    pub fn as_i64(&self) -> (r: Option<i64>)
        ensures
            r == ji64(*self),
    {
        match self {
            JsonValue::Number(JsonNumber::PosInt(n)) => if *n <= i64::MAX as u64 { Some(*n as i64) } else { None },
            JsonValue::Number(JsonNumber::NegInt(n)) => Some(*n),
            _ => None,
        }
    }

    pub fn as_u64(&self) -> (r: Option<u64>)
        ensures
            r == ju64(*self),
    {
        match self {
            JsonValue::Number(JsonNumber::PosInt(n)) => Some(*n),
            JsonValue::Number(JsonNumber::NegInt(n)) => if *n >= 0 { Some(*n as u64) } else { None },
            _ => None,
        }
    }

    pub fn is_null(&self) -> (b: bool)
        ensures
            b == jis_null(*self),
    {
        match self {
            JsonValue::Null => true,
            _ => false,
        }
    }

    pub fn is_object(&self) -> (b: bool)
        ensures
            b == jis_object(*self),
    {
        match self {
            JsonValue::Object(_) => true,
            _ => false,
        }
    }

    pub fn as_array(&self) -> (r: Option<&Vec<JsonValue>>)
        ensures
            match r {
                Some(items) => *self == JsonValue::Array(*items),
                None => !(*self is Array),
            },
    {
        match self {
            JsonValue::Array(items) => Some(items),
            _ => None,
        }
    }
}

impl JsonNumber {
    /// The decimal text of the number, as serde_json writes it.
    pub fn to_text(&self) -> (r: String)
        ensures
            r@ == number_text(*self),
    {
        match self {
            JsonNumber::PosInt(n) => u64_to_string(*n),
            JsonNumber::NegInt(n) => i64_to_string(*n),
            JsonNumber::Float(f) => f.text.clone(),
        }
    }
}

/// A JSON number as plain values.
pub enum NumberView {
    PosInt(u64),
    NegInt(i64),
    Float(Seq<char>, bool, Option<u64>, i64),
}

pub open spec fn number_view(n: JsonNumber) -> NumberView {
    match n {
        JsonNumber::PosInt(x) => NumberView::PosInt(x),
        JsonNumber::NegInt(x) => NumberView::NegInt(x),
        JsonNumber::Float(f) => NumberView::Float(f.text@, f.above_epsilon, f.rounded_count, f.rounded),
    }
}

/// A copy of a JSON number.
pub fn copy_number(n: &JsonNumber) -> (r: JsonNumber)
    ensures
        number_view(r) == number_view(*n),
{
    match n {
        JsonNumber::PosInt(x) => JsonNumber::PosInt(*x),
        JsonNumber::NegInt(x) => JsonNumber::NegInt(*x),
        JsonNumber::Float(f) => JsonNumber::Float(JsonFloat {
            text: f.text.clone(),
            above_epsilon: f.above_epsilon,
            rounded_count: f.rounded_count,
            rounded: f.rounded,
        }),
    }
}

} // verus!

