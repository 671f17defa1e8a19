//! Publish times read from platform responses: Unix timestamps in seconds or
//! milliseconds, wall-clock texts in China Standard Time, and RFC 3339 texts,
//! each turned into a UTC instant within chrono's range.

use vstd::prelude::*;
use crate::domain::UtcTime;
use crate::json::{JsonValue, jget, ji64, opt_ref};
use crate::number::{parse_i64, parse_i64_str};
use crate::text::{trim, trim_str, chars_of, string_from_range, starts_with, is_blank, str_starts_with};

verus! {

/// The first second chrono can represent: 1 January of year -262143.
pub const UTC_MIN_SECS: i64 = -8334601228800;
/// The last second chrono can represent: 31 December of year 262142, 23:59:59.
pub const UTC_MAX_SECS: i64 = 8210266876799;

pub open spec fn utc_in_range(secs: int) -> bool {
    UTC_MIN_SECS <= secs <= UTC_MAX_SECS
}

/// `DateTime::from_timestamp(secs, 0)`: the instant, where chrono can hold it.
pub open spec fn utc_at(secs: int) -> Option<UtcTime> {
    if utc_in_range(secs) { Some(UtcTime { secs: secs as i64, nanos: 0 }) } else { None }
}

/// Calls `chrono::DateTime::<Utc>::from_timestamp(secs, 0)` and reads the
/// result back with `timestamp` and `timestamp_subsec_nanos`. chrono's
/// source accepts exactly the seconds whose day falls in the years
/// -262143 to 262142, the range `utc_in_range` states.
#[verifier::external_body]
pub(crate) fn utc_from_timestamp(secs: i64) -> (r: Option<UtcTime>)
    ensures
        r == utc_at(secs as int),
{
    match chrono::DateTime::from_timestamp(secs, 0) {
        Some(t) => Some(UtcTime { secs: t.timestamp(), nanos: t.timestamp_subsec_nanos() }),
        None => None,
    }
}

/// What `chrono::NaiveDateTime::parse_from_str(text, fmt)` reads: the wall
/// time as seconds and nanoseconds counted as if it were UTC, or nothing
/// where the text does not match the format. It depends on its arguments
/// alone.
pub uninterp spec fn naive_parse(text: Seq<char>, fmt: Seq<char>) -> Option<(i64, u32)>;

/// Calls `chrono::NaiveDateTime::parse_from_str` and reads a success back as
/// `and_utc().timestamp()` and `timestamp_subsec_nanos()`. The contract
/// names the outcome by `naive_parse` and adds only what every
/// `NaiveDateTime` satisfies: its seconds lie in chrono's range and its
/// nanoseconds stay below two seconds' worth (a leap second).
#[verifier::external_body]
pub(crate) fn parse_naive(text: &str, fmt: &str) -> (r: Option<(i64, u32)>)
    ensures
        r == naive_parse(text@, fmt@),
        r matches Some(p) ==> utc_in_range(p.0 as int) && p.1 < 2_000_000_000,
{
    match chrono::NaiveDateTime::parse_from_str(text, fmt) {
        Ok(local) => Some((local.and_utc().timestamp(), local.and_utc().timestamp_subsec_nanos())),
        Err(_) => None,
    }
}

/// What `chrono::DateTime::parse_from_rfc3339(text)` reads, as the UTC
/// instant's seconds and nanoseconds, or nothing where the text is not
/// RFC 3339. It depends on the text alone.
pub uninterp spec fn rfc3339_instant(text: Seq<char>) -> Option<(i64, u32)>;

/// Calls `chrono::DateTime::parse_from_rfc3339` and reads a success back,
/// after `with_timezone(&Utc)`, as `timestamp` and `timestamp_subsec_nanos`.
/// The contract names the outcome by `rfc3339_instant` and adds only that a
/// `DateTime` lies in chrono's range.
#[verifier::external_body]
pub(crate) fn parse_rfc3339(text: &str) -> (r: Option<(i64, u32)>)
    ensures
        r == rfc3339_instant(text@),
        r matches Some(p) ==> utc_in_range(p.0 as int) && p.1 < 2_000_000_000,
{
    match chrono::DateTime::parse_from_rfc3339(text) {
        Ok(t) => Some((t.with_timezone(&chrono::Utc).timestamp(), t.with_timezone(&chrono::Utc).timestamp_subsec_nanos())),
        Err(_) => None,
    }
}

/// A wall time in China Standard Time (UTC+8) as a UTC instant, as chrono's
/// `FixedOffset::east_opt(8 * 3600)` gives it through `from_local_datetime`,
/// `single` and `with_timezone(&Utc)`: eight hours earlier, where that stays
/// in range.
pub open spec fn east8_utc(local: (i64, u32)) -> Option<UtcTime> {
    if local.0 - 28800 >= UTC_MIN_SECS {
        Some(UtcTime { secs: (local.0 - 28800) as i64, nanos: local.1 })
    } else {
        None
    }
}

fn east8_to_utc(local: (i64, u32)) -> (r: Option<UtcTime>)
    requires
        utc_in_range(local.0 as int),
    ensures
        r == east8_utc(local),
{
    if local.0 >= UTC_MIN_SECS + 28800 {
        Some(UtcTime { secs: local.0 - 28800, nanos: local.1 })
    } else {
        None
    }
}

/// How a platform writes the publish times it sends.
#[derive(Debug, Clone, Copy, PartialEq, Eq, Structural)]
pub enum TimeStyle {
    /// Timestamps (seconds, or milliseconds above 9,999,999,999), as numbers
    /// or as integer text, and RFC 3339 text.
    Wechat,
    /// As `Wechat`, and "2024-05-01 12:30[:45]" wall times in UTC+8.
    Xiaohongshu,
    /// Numeric timestamps (milliseconds above 10,000,000,000), and text
    /// optionally after "发布于": "2024年05月01日 12:30" or
    /// "2024-05-01 12:30[:45]" in UTC+8, else RFC 3339.
    Douyin,
}

pub open spec fn seconds_of(n: i64, style: TimeStyle) -> int {
    match style {
        TimeStyle::Douyin => if n > 10_000_000_000 { n / 1000 } else { n as int },
        _ => if n > 9_999_999_999 { n / 1000 } else { n as int },
    }
}

pub open spec fn full_format() -> Seq<char> {
    "%Y-%m-%d %H:%M:%S"@
}

pub open spec fn minute_format() -> Seq<char> {
    "%Y-%m-%d %H:%M"@
}

pub open spec fn chinese_format() -> Seq<char> {
    "%Y年%m月%d日 %H:%M"@
}

/// A "YYYY-MM-DD hh:mm[:ss]" wall time in UTC+8; `None` inside when the
/// text matches neither format, `Some(None)` when it matches but falls out
/// of range.
pub open spec fn dash_time(t: Seq<char>) -> Option<Option<UtcTime>> {
    match naive_parse(t, full_format()) {
        Some(l) => Some(east8_utc(l)),
        None => match naive_parse(t, minute_format()) {
            Some(l) => Some(east8_utc(l)),
            None => None,
        },
    }
}

pub open spec fn rfc_time(t: Seq<char>) -> Option<UtcTime> {
    match rfc3339_instant(t) {
        Some(p) => Some(UtcTime { secs: p.0, nanos: p.1 }),
        None => None,
    }
}

/// The text after an optional "发布于", trimmed.
pub open spec fn after_published(t: Seq<char>) -> Seq<char> {
    if starts_with(t, "发布于"@) { trim(t.skip(3)) } else { t }
}

/// The publish time a platform's text stands for (after trimming).
pub open spec fn text_time(t: Seq<char>, style: TimeStyle) -> Option<UtcTime> {
    match style {
        TimeStyle::Douyin => {
            let u = after_published(t);
            match naive_parse(u, chinese_format()) {
                Some(l) => east8_utc(l),
                None => match dash_time(u) {
                    Some(r) => r,
                    None => rfc_time(u),
                },
            }
        },
        TimeStyle::Xiaohongshu => match parse_i64(t) {
            Some(n) => utc_at(seconds_of(n, style)),
            None => match dash_time(t) {
                Some(r) => r,
                None => rfc_time(t),
            },
        },
        TimeStyle::Wechat => match parse_i64(t) {
            Some(n) => utc_at(seconds_of(n, style)),
            None => rfc_time(t),
        },
    }
}

/// The publish time a JSON value stands for.
pub open spec fn time_value(v: JsonValue, style: TimeStyle) -> Option<UtcTime> {
    match ji64(v) {
        Some(n) => utc_at(seconds_of(n, style)),
        None => match v {
            JsonValue::String(s) => if trim(s@).len() == 0 { None } else { text_time(trim(s@), style) },
            _ => None,
        },
    }
}

fn seconds_exec(n: i64, style: TimeStyle) -> (r: i64)
    ensures
        r == seconds_of(n, style),
{
    match style {
        TimeStyle::Douyin => if n > 10_000_000_000 { n / 1000 } else { n },
        _ => if n > 9_999_999_999 { n / 1000 } else { n },
    }
}

fn dash_time_exec(t: &str) -> (r: Option<Option<UtcTime>>)
    ensures
        r == dash_time(t@),
{
    match parse_naive(t, "%Y-%m-%d %H:%M:%S") {
        Some(l) => Some(east8_to_utc(l)),
        None => match parse_naive(t, "%Y-%m-%d %H:%M") {
            Some(l) => Some(east8_to_utc(l)),
            None => None,
        },
    }
}

fn rfc_time_exec(t: &str) -> (r: Option<UtcTime>)
    ensures
        r == rfc_time(t@),
{
    match parse_rfc3339(t) {
        Some(p) => Some(UtcTime { secs: p.0, nanos: p.1 }),
        None => None,
    }
}

fn after_published_exec(t: &str) -> (r: String)
    ensures
        r@ == after_published(t@),
{
    proof { reveal_strlit("发布于"); }
    if str_starts_with(t, "发布于") {
        let cs = chars_of(t);
        let rest = string_from_range(&cs, 3, cs.len());
        assert(rest@ =~= t@.skip(3));
        trim_str(rest.as_str())
    } else {
        crate::strs::owned(t)
    }
}

fn text_time_exec(t: &str, style: TimeStyle) -> (r: Option<UtcTime>)
    requires
        trim(t@) == t@,
    ensures
        r == text_time(t@, style),
{
    match style {
        TimeStyle::Douyin => {
            let u = after_published_exec(t);
            match parse_naive(u.as_str(), "%Y年%m月%d日 %H:%M") {
                Some(l) => east8_to_utc(l),
                None => match dash_time_exec(u.as_str()) {
                    Some(r) => r,
                    None => rfc_time_exec(u.as_str()),
                },
            }
        },
        TimeStyle::Xiaohongshu => match parse_i64_str(t) {
            Some(n) => utc_from_timestamp(seconds_exec(n, style)),
            None => match dash_time_exec(t) {
                Some(r) => r,
                None => rfc_time_exec(t),
            },
        },
        TimeStyle::Wechat => match parse_i64_str(t) {
            Some(n) => utc_from_timestamp(seconds_exec(n, style)),
            None => rfc_time_exec(t),
        },
    }
}

/// The publish time a JSON value stands for, read the way `style` says.
pub fn time_from_value(value: &JsonValue, style: TimeStyle) -> (r: Option<UtcTime>)
    ensures
        r == time_value(*value, style),
{
    match value.as_i64() {
        Some(n) => utc_from_timestamp(seconds_exec(n, style)),
        None => match value {
            JsonValue::String(s) => {
                let t = trim_str(s.as_str());
                proof { crate::text::lemma_trim_idempotent(s@); }
                if is_blank(t.as_str()) {
                    None
                } else {
                    text_time_exec(t.as_str(), style)
                }
            },
            _ => None,
        },
    }
}

/// A trimmed, non-blank text read as a Unix
/// timestamp in seconds, else as a "YYYY-MM-DD hh:mm[:ss]" wall time in UTC+8.
pub open spec fn bilibili_time(text: Seq<char>) -> Option<UtcTime> {
    let t = trim(text);
    if t.len() == 0 {
        None
    } else {
        match parse_i64(t) {
            Some(n) => utc_at(n as int),
            None => match dash_time(t) {
                Some(r) => r,
                None => None,
            },
        }
    }
}

/// The instant a Bilibili time text stands for.
pub fn parse_bilibili_datetime(value: &str) -> (r: Option<UtcTime>)
    ensures
        r == bilibili_time(value@),
{
    let t = trim_str(value);
    proof { crate::text::lemma_trim_idempotent(value@); }
    if is_blank(t.as_str()) {
        return None;
    }
    match parse_i64_str(t.as_str()) {
        Some(n) => utc_from_timestamp(n),
        None => match dash_time_exec(t.as_str()) {
            Some(r) => r,
            None => None,
        },
    }
}

/// The time held by the first of `keys` whose member reads as one.
pub open spec fn time_keys(v: JsonValue, keys: Seq<&str>, style: TimeStyle) -> Option<UtcTime>
    decreases keys.len(),
{
    if keys.len() == 0 {
        None
    } else {
        match jget(v, keys[0]@) {
            Some(x) if time_value(x, style) is Some => time_value(x, style),
            _ => time_keys(v, keys.drop_first(), style),
        }
    }
}

/// In an object, the first of `keys` whose member reads as
/// a time, else the first found in its members in order; in an array, the
/// first found in its items.
pub open spec fn time_deep(v: JsonValue, keys: Seq<&str>, style: TimeStyle) -> Option<UtcTime>
    decreases v,
{
    match v {
        JsonValue::Object(es) => match time_keys(v, keys, style) {
            Some(t) => Some(t),
            None => time_deep_entries(es@, keys, style),
        },
        JsonValue::Array(items) => time_deep_items(items@, keys, style),
        _ => None,
    }
}

pub open spec fn time_deep_items(s: Seq<JsonValue>, keys: Seq<&str>, style: TimeStyle) -> Option<UtcTime>
    decreases s,
{
    if s.len() == 0 {
        None
    } else {
        match time_deep(s[0], keys, style) {
            Some(t) => Some(t),
            None => time_deep_items(s.drop_first(), keys, style),
        }
    }
}

pub open spec fn time_deep_entries(s: Seq<(String, JsonValue)>, keys: Seq<&str>, style: TimeStyle) -> Option<UtcTime>
    decreases s,
{
    if s.len() == 0 {
        None
    } else {
        match time_deep(s[0].1, keys, style) {
            Some(t) => Some(t),
            None => time_deep_entries(s.drop_first(), keys, style),
        }
    }
}

/// The time held by the first of `keys` whose member reads as one.
pub fn first_time(value: &JsonValue, keys: &[&str], style: TimeStyle) -> (r: Option<UtcTime>)
    ensures
        r == time_keys(*value, keys@, style),
{
    let mut i: usize = 0;
    assert(keys@.skip(0) =~= keys@);
    while i < keys.len()
        invariant
            i <= keys@.len(),
            time_keys(*value, keys@, style) == time_keys(*value, keys@.skip(i as int), style),
        decreases keys@.len() - i,
    {
        proof {
            assert(keys@.skip(i as int).drop_first() =~= keys@.skip(i + 1));
            assert(keys@.skip(i as int)[0] == keys@[i as int]);
        }
        if let Some(x) = value.get(keys[i]) {
            let t = time_from_value(x, style);
            if t.is_some() {
                return t;
            }
        }
        i += 1;
    }
    None
}

/// A publish time found anywhere in a value: in an object under one of
/// `keys` first, then inside its members, and inside array items, in order.
pub fn first_time_deep(value: &JsonValue, keys: &[&str], style: TimeStyle) -> (r: Option<UtcTime>)
    ensures
        r == time_deep(*value, keys@, style),
    decreases value,
{
    match value {
        JsonValue::Object(es) => {
            let direct = first_time(value, keys, style);
            if direct.is_some() {
                return direct;
            }
            let mut i: usize = 0;
            assert(es@.skip(0) =~= es@);
            while i < es.len()
                invariant
                    i <= es@.len(),
                    *value == JsonValue::Object(*es),
                    time_deep(*value, keys@, style) == time_deep_entries(es@.skip(i as int), keys@, style),
                decreases es@.len() - i,
            {
                proof {
                    assert(es@.skip(i as int).drop_first() =~= es@.skip(i + 1));
                    assert(es@.skip(i as int)[0] == es@[i as int]);
                }
                let found = first_time_deep(&es[i].1, keys, style);
                if found.is_some() {
                    return found;
                }
                i += 1;
            }
            None
        },
        JsonValue::Array(items) => {
            let mut i: usize = 0;
            assert(items@.skip(0) =~= items@);
            while i < items.len()
                invariant
                    i <= items@.len(),
                    *value == JsonValue::Array(*items),
                    time_deep(*value, keys@, style) == time_deep_items(items@.skip(i as int), keys@, style),
                decreases items@.len() - i,
            {
                proof {
                    assert(items@.skip(i as int).drop_first() =~= items@.skip(i + 1));
                    assert(items@.skip(i as int)[0] == items@[i as int]);
                }
                let found = first_time_deep(&items[i], keys, style);
                if found.is_some() {
                    return found;
                }
                i += 1;
            }
            None
        },
        _ => None,
    }
}

} // verus!
