//! Bilibili: how its API responses are read into accounts, overviews and
//! works.

use vstd::prelude::*;
use crate::domain::{ChannelContentWork, ChannelWorkMetric, ChannelOverviewMetric, UtcTime, WorkView, work_metrics_view, work_metric_view, strings_view};
use crate::platforms::images::{first_profile_image, profile_image};
use crate::time::{bilibili_time, parse_bilibili_datetime, utc_at, utc_from_timestamp};
use crate::domain::{ChannelAccountContent, ChannelAccountOverview, ChannelAccountProfileSnapshot, PluginAccountInfo, ProfileView, either, opt_text, overview_metric_view};
use crate::json_ext::{count_deep, first_count};
use crate::platforms::{platform_name, platform_view};
use crate::text::{all_digits, is_digit};
use crate::json::{JsonValue, jget, ji64, ju64, number_text, opt_ref};
use crate::json_ext::{first_i64, first_i64_spec, first_string, first_string_spec, opt_string_view};
use crate::number::{dec, dec_signed, i64_to_string, u64_to_string, parse_u64, parse_i64, parse_i64_str, parse_u64_str};
use crate::platforms::images::{normalize_platform_image_url, platform_image_url_spec};
use crate::strs::{owned, opt_str_view};
use crate::text::{
    chars_of, concat_str, contains, ends_with, has_char, is_blank, lower, lower_str, push_str,
    remove_char, remove_char_str, starts_with, str_ends_with, str_eq, str_starts_with,
    string_from_range, trim, trim_str, find_char_exec, lemma_find_char, find_char,
};
use crate::weburl::{parse_host, url_parse_host};

verus! {

/// The two kinds of Bilibili works.
#[derive(Debug, Clone, Copy, PartialEq, Eq, Structural)]
pub enum BiliWorkKind {
    Video,
    Article,
}

/// The kind a work-type filter names: image and text kinds are articles,
/// anything else is video.
pub open spec fn bili_kind_of(value: Option<Seq<char>>) -> BiliWorkKind {
    let t = trim(match value { Some(v) => v, None => Seq::empty() });
    if t == "article"@ || t == "image"@ || t == "photo"@ || t == "opus"@ {
        BiliWorkKind::Article
    } else {
        BiliWorkKind::Video
    }
}

pub open spec fn bili_kind_name(kind: BiliWorkKind) -> Seq<char> {
    match kind {
        BiliWorkKind::Video => "video"@,
        BiliWorkKind::Article => "article"@,
    }
}

impl BiliWorkKind {
    /// The kind named by an optional work-type filter.
    pub fn from_option(value: Option<&str>) -> (r: Self)
        ensures
            r == bili_kind_of(opt_str_view(value)),
    {
        let t = match value {
            Some(v) => trim_str(v),
            None => String::new(),
        };
        let t = t.as_str();
        if str_eq(t, "article") || str_eq(t, "image") || str_eq(t, "photo") || str_eq(t, "opus") {
            BiliWorkKind::Article
        } else {
            BiliWorkKind::Video
        }
    }

    pub fn as_str(self) -> (r: &'static str)
        ensures
            r@ == bili_kind_name(self),
    {
        match self {
            BiliWorkKind::Video => "video",
            BiliWorkKind::Article => "article",
        }
    }
}

/// Trimmed text that is neither empty nor "-", or a number's
/// decimal text.
pub open spec fn value_text_spec(v: JsonValue) -> Option<Seq<char>> {
    match v {
        JsonValue::String(t) => {
            let t = trim(t@);
            if t.len() == 0 || t == seq!['-'] { None } else { Some(t) }
        },
        JsonValue::Number(n) => Some(number_text(n)),
        _ => None,
    }
}

/// A non-negative integer, or text that parses as one once
/// trimmed and stripped of thousands separators.
pub open spec fn value_u64_spec(v: JsonValue) -> Option<u64> {
    match v {
        JsonValue::Number(_) => ju64(v),
        JsonValue::String(t) => parse_u64(remove_char(trim(t@), ',')),
        _ => None,
    }
}

/// An integer that fits `i64`, or text that parses as one once
/// trimmed and stripped of thousands separators.
pub open spec fn value_i64_spec(v: JsonValue) -> Option<i64> {
    match v {
        JsonValue::Number(_) => ji64(v),
        JsonValue::String(t) => parse_i64(remove_char(trim(t@), ',')),
        _ => None,
    }
}

pub open spec fn text_key_spec(v: JsonValue, key: Seq<char>) -> Option<Seq<char>> {
    match jget(v, key) {
        Some(x) => value_text_spec(x),
        None => None,
    }
}

pub open spec fn count_key_spec(v: JsonValue, key: Seq<char>) -> Option<u64> {
    match jget(v, key) {
        Some(x) => value_u64_spec(x),
        None => None,
    }
}

pub open spec fn signed_key_spec(v: JsonValue, key: Seq<char>) -> Option<i64> {
    match jget(v, key) {
        Some(x) => value_i64_spec(x),
        None => None,
    }
}

/// Display text of a field value: trimmed text other than "" and "-", or a
/// number's decimal text.
pub fn value_text(value: &JsonValue) -> (r: Option<String>)
    ensures
        opt_string_view(r) == value_text_spec(*value),
{
    match value {
        JsonValue::String(t) => {
            let blank = is_blank(t.as_str());
            let t = trim_str(t.as_str());
            if blank || str_eq(t.as_str(), "-") {
                proof {
                    reveal_strlit("-");
                    assert(seq!['-'] =~= "-"@);
                }
                None
            } else {
                proof {
                    reveal_strlit("-");
                    assert(seq!['-'] =~= "-"@);
                }
                Some(t)
            }
        },
        JsonValue::Number(n) => Some(n.to_text()),
        _ => None,
    }
}

/// A non-negative count from a number or from text such as "1,024".
pub fn value_u64(value: &JsonValue) -> (r: Option<u64>)
    ensures
        r == value_u64_spec(*value),
{
    match value {
        JsonValue::Number(_) => value.as_u64(),
        JsonValue::String(t) => {
            let t = trim_str(t.as_str());
            let t = remove_char_str(t.as_str(), ',');
            parse_u64_str(t.as_str())
        },
        _ => None,
    }
}

/// A signed integer from a number or from text such as "-1,024".
pub fn value_i64(value: &JsonValue) -> (r: Option<i64>)
    ensures
        r == value_i64_spec(*value),
{
    match value {
        JsonValue::Number(_) => value.as_i64(),
        JsonValue::String(t) => {
            let t = trim_str(t.as_str());
            let t = remove_char_str(t.as_str(), ',');
            parse_i64_str(t.as_str())
        },
        _ => None,
    }
}

/// `value_text` of the member `key`.
pub fn text_key(value: &JsonValue, key: &str) -> (r: Option<String>)
    ensures
        opt_string_view(r) == text_key_spec(*value, key@),
{
    match value.get(key) {
        Some(x) => value_text(x),
        None => None,
    }
}

/// `value_u64` of the member `key`.
pub fn count_key(value: &JsonValue, key: &str) -> (r: Option<u64>)
    ensures
        r == count_key_spec(*value, key@),
{
    match value.get(key) {
        Some(x) => value_u64(x),
        None => None,
    }
}

/// `value_i64` of the member `key`.
pub fn signed_key(value: &JsonValue, key: &str) -> (r: Option<i64>)
    ensures
        r == signed_key_spec(*value, key@),
{
    match value.get(key) {
        Some(x) => value_i64(x),
        None => None,
    }
}

pub open spec fn mid_keys() -> Seq<&'static str> {
    seq!["mid", "uid", "id"]
}

/// A positive numeric id, else a non-blank textual one.
pub open spec fn bili_mid_spec(data: JsonValue) -> Option<Seq<char>> {
    match first_i64_spec(data, mid_keys()) {
        Some(n) if n > 0 => Some(dec(n as nat)),
        _ => match first_string_spec(data, mid_keys()) {
            Some(s) if trim(s).len() > 0 => Some(trim(s)),
            _ => None,
        },
    }
}

/// The account id in a profile response: a positive number under
/// "mid", "uid" or "id", else the trimmed, non-empty text there.
pub fn first_bilibili_mid(data: &JsonValue) -> (r: Option<String>)
    ensures
        opt_string_view(r) == bili_mid_spec(*data),
{
    let keys: [&str; 3] = ["mid", "uid", "id"];
    assert(keys@ =~= mid_keys());
    if let Some(n) = first_i64(data, &keys) {
        if n > 0 {
            let s = i64_to_string(n);
            assert(dec_signed(n as int) == dec(n as nat));
            return Some(s);
        }
    }
    match first_string(data, &keys) {
        Some(s) => {
            if is_blank(s.as_str()) {
                None
            } else {
                Some(trim_str(s.as_str()))
            }
        },
        None => None,
    }
}

/// No text for no change, else an arrow and the size.
pub open spec fn bili_delta_text(value: i64) -> Option<Seq<char>> {
    if value == 0 {
        None
    } else if value > 0 {
        Some("▲ "@ + dec(value as nat))
    } else {
        Some("▼ "@ + dec((-value) as nat))
    }
}

pub open spec fn bili_tone(value: i64) -> Seq<char> {
    if value >= 0 { "up"@ } else { "down"@ }
}

/// The change of a figure as shown: "▲ n" for a rise, "▼ n" for a fall,
/// nothing for none.
pub fn format_bilibili_delta(value: i64) -> (r: Option<String>)
    requires
        value > i64::MIN,
    ensures
        opt_string_view(r) == bili_delta_text(value),
{
    if value == 0 {
        None
    } else if value > 0 {
        Some(concat_str("▲ ", u64_to_string(value as u64).as_str()))
    } else {
        Some(concat_str("▼ ", u64_to_string((-value) as u64).as_str()))
    }
}

/// "up" for a change of zero or more, else "down".
pub fn delta_tone(value: i64) -> (r: String)
    ensures
        r@ == bili_tone(value),
{
    if value >= 0 { owned("up") } else { owned("down") }
}

/// One overview figure: its key, its labels for a period and for the
/// cumulative view, and the data field it is read from.
pub struct BiliOverviewMetricSpec {
    pub key: &'static str,
    pub label: &'static str,
    pub cumulative_label: &'static str,
    pub data_key: &'static str,
}

/// The change against the previous period, where both figures are there.
pub open spec fn bili_delta(data: JsonValue, data_key: Seq<char>) -> Option<int> {
    match (signed_key_spec(data, data_key), signed_key_spec(data, data_key + "_last"@)) {
        (Some(v), Some(l)) => Some(v - l),
        _ => None,
    }
}

/// The figure's change fits `i64` and is not `i64::MIN`, as the arithmetic
/// and the display of the change need.
pub open spec fn bili_delta_in_range(data: JsonValue, data_key: Seq<char>) -> bool {
    match bili_delta(data, data_key) {
        Some(d) => i64::MIN < d <= i64::MAX,
        None => true,
    }
}

/// An overview figure read from a data-center response: the value under the
/// data key, and its change against the value under the key with "_last".
pub fn build_bilibili_metric(spec: &BiliOverviewMetricSpec, data: &JsonValue, cumulative: bool) -> (r: ChannelOverviewMetric)
    requires
        bili_delta_in_range(*data, spec.data_key@),
    ensures
        r.key@ == spec.key@,
        r.label@ == (if cumulative { spec.cumulative_label@ } else { spec.label@ }),
        opt_string_view(r.value) == match signed_key_spec(*data, spec.data_key@) {
            Some(v) => Some(dec_signed(v as int)),
            None => None,
        },
        r.compare_label is None,
        opt_string_view(r.trend) == match bili_delta(*data, spec.data_key@) {
            Some(d) => bili_delta_text(d as i64),
            None => None,
        },
        opt_string_view(r.tone) == match bili_delta(*data, spec.data_key@) {
            Some(d) => Some(bili_tone(d as i64)),
            None => None,
        },
{
    let value = signed_key(data, spec.data_key);
    let last_key = concat_str(spec.data_key, "_last");
    let last_value = signed_key(data, last_key.as_str());
    let (trend, tone) = match (value, last_value) {
        (Some(v), Some(l)) => {
            let d = v - l;
            (format_bilibili_delta(d), Some(delta_tone(d)))
        },
        _ => (None, None),
    };
    ChannelOverviewMetric {
        key: owned(spec.key),
        label: if cumulative { owned(spec.cumulative_label) } else { owned(spec.label) },
        value: match value {
            Some(v) => Some(i64_to_string(v)),
            None => None,
        },
        compare_label: None,
        trend,
        tone,
    }
}

/// "更新至 YYYY-MM-DD" from an eight-digit
/// "log_date".
pub open spec fn bili_summary_spec(stat: JsonValue) -> Option<Seq<char>> {
    match count_key_spec(stat, "log_date"@) {
        Some(n) => {
            let t = dec(n as nat);
            if t.len() != 8 {
                None
            } else {
                Some("更新至 "@ + t.subrange(0, 4) + "-"@ + t.subrange(4, 6) + "-"@ + t.subrange(6, 8))
            }
        },
        None => None,
    }
}

/// The date the overview data runs to, from its "log_date" (20240131).
pub fn bilibili_overview_summary(stat: &JsonValue) -> (r: Option<String>)
    ensures
        opt_string_view(r) == bili_summary_spec(*stat),
{
    let log_date = match count_key(stat, "log_date") {
        Some(n) => n,
        None => return None,
    };
    let text = u64_to_string(log_date);
    let cs = chars_of(text.as_str());
    if cs.len() != 8 {
        return None;
    }
    let mut out = owned("更新至 ");
    push_str(&mut out, string_from_range(&cs, 0, 4).as_str());
    push_str(&mut out, "-");
    push_str(&mut out, string_from_range(&cs, 4, 6).as_str());
    push_str(&mut out, "-");
    push_str(&mut out, string_from_range(&cs, 6, 8).as_str());
    Some(out)
}

/// Whether an address is on Bilibili's image CDN (a host under ".hdslb.com").
pub open spec fn bili_image_host_spec(value: Seq<char>) -> bool {
    match url_parse_host(value) {
        Some(Some(h)) => ends_with(lower(h), ".hdslb.com"@),
        _ => false,
    }
}

/// Whether `value` parses as a URL whose host is under ".hdslb.com".
pub fn is_bilibili_image_host(value: &str) -> (r: bool)
    ensures
        r == bili_image_host_spec(value@),
{
    match parse_host(value) {
        Some(Some(h)) => {
            let h = lower_str(h.as_str());
            str_ends_with(h.as_str(), ".hdslb.com")
        },
        _ => false,
    }
}

/// A Bilibili cover address with the thumbnail suffix its image host
/// serves.
pub open spec fn bili_thumbnail_spec(value: Seq<char>) -> Seq<char> {
    let v = platform_image_url_spec("bilibili"@, value);
    if starts_with(v, "data:image"@) || !bili_image_host_spec(v) || has_char(v, '@') {
        v
    } else {
        v + "@156w_98h_1c.webp"@
    }
}

/// A cover address made into the CDN's small thumbnail, where it is a plain
/// CDN address.
pub fn bilibili_cover_thumbnail_url(value: String) -> (r: String)
    ensures
        r@ == bili_thumbnail_spec(value@),
{
    let v = normalize_platform_image_url("bilibili", value);
    let cs = chars_of(v.as_str());
    let at = find_char_exec(&cs, '@');
    proof {
        lemma_find_char(cs@, '@');
    }
    if str_starts_with(v.as_str(), "data:image") || !is_bilibili_image_host(v.as_str()) || at.is_some() {
        return v;
    }
    concat_str(v.as_str(), "@156w_98h_1c.webp")
}

pub open spec fn archive_status_spec(archive: JsonValue) -> Seq<char> {
    let state = match signed_key_spec(archive, "state"@) { Some(v) => v, None => 0 };
    if state == 0 {
        "published"@
    } else if state == -1 || state == -4 || state == -30 || state == -40 {
        "reviewing"@
    } else {
        "draft"@
    }
}

/// The status of a video from its archive "state": 0 is published, the
/// review states are reviewing, anything else is a draft.
pub fn bilibili_archive_status(archive: &JsonValue) -> (r: &'static str)
    ensures
        r@ == archive_status_spec(*archive),
{
    let state = match signed_key(archive, "state") { Some(v) => v, None => 0 };
    if state == 0 {
        "published"
    } else if state == -1 || state == -4 || state == -30 || state == -40 {
        "reviewing"
    } else {
        "draft"
    }
}

/// The "filter_type" of an article's "filter_group", 2 where it is missing.
pub open spec fn article_filter_type(item: JsonValue) -> i64 {
    match jget(item, "filter_group"@) {
        Some(g) => match signed_key_spec(g, "filter_type"@) { Some(v) => v, None => 2 },
        None => 2,
    }
}

pub open spec fn article_status_spec(item: JsonValue) -> Seq<char> {
    let t = article_filter_type(item);
    if t == 2 { "published"@ } else if t == 1 { "reviewing"@ } else { "draft"@ }
}

/// The status of an article from its filter type: 2 is published, 1 is
/// under review, anything else is a draft.
pub fn bilibili_article_status(item: &JsonValue) -> (r: &'static str)
    ensures
        r@ == article_status_spec(*item),
{
    let t = match item.get("filter_group") {
        Some(g) => match signed_key(g, "filter_type") { Some(v) => v, None => 2 },
        None => 2,
    };
    if t == 2 { "published" } else if t == 1 { "reviewing" } else { "draft" }
}

pub open spec fn positive_key(v: JsonValue, key: Seq<char>) -> bool {
    match signed_key_spec(v, key) { Some(x) => x > 0, None => false }
}

/// Pinned, then private or else the state text.
pub open spec fn video_badges_spec(archive: JsonValue) -> Seq<Seq<char>> {
    let pinned = (match jget(archive, "porder"@) { Some(x) => !(x is Null), None => false })
        || positive_key(archive, "is_top"@);
    let private = positive_key(archive, "no_public"@)
        || (match jget(archive, "attrs"@) { Some(a) => positive_key(a, "no_public"@), None => false })
        || positive_key(archive, "is_only_self"@);
    let first: Seq<Seq<char>> = if pinned { seq!["置顶"@] } else { seq![] };
    let second: Seq<Seq<char>> = if private {
        seq!["仅自己可见"@]
    } else {
        match text_key_spec(archive, "state_desc"@) {
            Some(d) if d.len() > 0 => seq![d],
            _ => seq![],
        }
    };
    first + second
}

fn positive_key_exec(v: &JsonValue, key: &str) -> (r: bool)
    ensures
        r == positive_key(*v, key@),
{
    match signed_key(v, key) { Some(x) => x > 0, None => false }
}

/// The badges of a video: "置顶" when it is pinned, then "仅自己可见" when
/// only its owner can see it, or else its state description.
pub fn bilibili_video_badges(archive: &JsonValue) -> (r: Vec<String>)
    ensures
        strings_view(r@) == video_badges_spec(*archive),
{
    let mut badges: Vec<String> = Vec::new();
    let porder = match archive.get("porder") { Some(x) => !x.is_null(), None => false };
    let pinned = porder || positive_key_exec(archive, "is_top");
    if pinned {
        badges.push(owned("置顶"));
    }
    let ghost first: Seq<Seq<char>> = if pinned { seq!["置顶"@] } else { seq![] };
    assert(strings_view(badges@) =~= first);
    let attrs_private = match archive.get("attrs") {
        Some(a) => positive_key_exec(a, "no_public"),
        None => false,
    };
    proof { reveal_strlit(""); }
    if positive_key_exec(archive, "no_public") || attrs_private || positive_key_exec(archive, "is_only_self") {
        badges.push(owned("仅自己可见"));
        assert(strings_view(badges@) =~= first + seq!["仅自己可见"@]);
    } else {
        match text_key(archive, "state_desc") {
            Some(d) => {
                proof {
                    if d@.len() == 0 {
                        assert(d@ =~= ""@);
                    }
                }
                if !str_eq(d.as_str(), "") {
                    let ghost dv = d@;
                    badges.push(d);
                    assert(strings_view(badges@) =~= first + seq![dv]);
                } else {
                    assert(first + Seq::<Seq<char>>::empty() =~= first);
                }
            },
            None => {
                assert(first + Seq::<Seq<char>>::empty() =~= first);
            },
        }
    }
    badges
}

/// The review reason unless it says approved,
/// then "定时发布" for a scheduled article.
pub open spec fn article_badges_spec(item: JsonValue) -> Seq<Seq<char>> {
    let group = jget(item, "filter_group"@);
    let reason = match group { Some(g) => text_key_spec(g, "reason"@), None => None };
    let timing = match group { Some(g) => text_key_spec(g, "timing_waiting_pub"@), None => None };
    let first: Seq<Seq<char>> = match reason {
        Some(r) if r.len() > 0 && r != "审核通过"@ => seq![r],
        _ => seq![],
    };
    let second: Seq<Seq<char>> = match timing {
        Some(t) if t != "0"@ => seq!["定时发布"@],
        _ => seq![],
    };
    first + second
}

/// The badges of an article: its review reason unless it was approved, and
/// "定时发布" when it waits for a scheduled time.
pub fn bilibili_article_badges(item: &JsonValue) -> (r: Vec<String>)
    ensures
        strings_view(r@) == article_badges_spec(*item),
{
    let mut badges: Vec<String> = Vec::new();
    let group = item.get("filter_group");
    let reason = match group { Some(g) => text_key(g, "reason"), None => None };
    let timing = match group { Some(g) => text_key(g, "timing_waiting_pub"), None => None };
    proof { reveal_strlit(""); }
    let ghost first: Seq<Seq<char>> = match opt_string_view(reason) {
        Some(r) if r.len() > 0 && r != "审核通过"@ => seq![r],
        _ => seq![],
    };
    match reason {
        Some(r) => {
            proof {
                if r@.len() == 0 {
                    assert(r@ =~= ""@);
                }
            }
            if !str_eq(r.as_str(), "") && !str_eq(r.as_str(), "审核通过") {
                badges.push(r);
            }
        },
        None => {},
    }
    assert(strings_view(badges@) =~= first);
    match timing {
        Some(t) => {
            if !str_eq(t.as_str(), "0") {
                badges.push(owned("定时发布"));
                assert(strings_view(badges@) =~= first + seq!["定时发布"@]);
            } else {
                assert(first + Seq::<Seq<char>>::empty() =~= first);
            }
        },
        None => {
            assert(first + Seq::<Seq<char>>::empty() =~= first);
        },
    }
    badges
}

/// A response succeeded when its "code" is 0.
pub fn bilibili_response_success(value: &JsonValue) -> (r: bool)
    ensures
        r == (match first_i64_spec(*value, seq!["code"]) { Some(c) => c == 0, None => false }),
{
    let keys: [&str; 1] = ["code"];
    assert(keys@ =~= seq!["code"]);
    match first_i64(value, &keys) { Some(c) => c == 0, None => false }
}

/// The message of a failed Bilibili response, else the fallback.
pub open spec fn bili_error_spec(value: JsonValue, fallback: Seq<char>) -> Seq<char> {
    match first_string_spec(value, seq!["message", "msg"]) {
        Some(m) if trim(m).len() > 0 && trim(m) != "0"@ => fallback + ": "@ + m,
        _ => fallback,
    }
}

/// The fallback text, followed by the response's own message where it has
/// a meaningful one.
pub fn bilibili_error_message(value: &JsonValue, fallback: &str) -> (r: String)
    ensures
        r@ == bili_error_spec(*value, fallback@),
{
    let keys: [&str; 2] = ["message", "msg"];
    assert(keys@ =~= seq!["message", "msg"]);
    match first_string(value, &keys) {
        Some(m) => {
            let t = trim_str(m.as_str());
            if !is_blank(m.as_str()) && !str_eq(t.as_str(), "0") {
                let mut out = owned(fallback);
                push_str(&mut out, ": ");
                push_str(&mut out, m.as_str());
                return out;
            }
            owned(fallback)
        },
        None => owned(fallback),
    }
}

/// The page a page key names: a positive number, else the first page.
pub fn bilibili_page_number(page_key: &str) -> (r: i64)
    ensures
        r == (match parse_i64(trim(page_key@)) { Some(n) if n > 0 => n, _ => 1 }),
{
    let t = trim_str(page_key);
    match parse_i64_str(t.as_str()) {
        Some(n) => if n > 0 { n } else { 1 },
        None => 1,
    }
}

/// A count under `key` of an optional stat object, as decimal text.
pub open spec fn stat_count_text(stat: Option<JsonValue>, key: Seq<char>) -> Option<Seq<char>> {
    match stat {
        Some(st) => match count_key_spec(st, key) {
            Some(n) => Some(dec(n as nat)),
            None => None,
        },
        None => None,
    }
}

/// Metrics made from (key, label, stat field) rows.
pub open spec fn stat_rows_spec(rows: Seq<(&str, &str, &str)>, stat: Option<JsonValue>) -> Seq<(Seq<char>, Seq<char>, Option<Seq<char>>)> {
    rows.map_values(|row: (&str, &str, &str)| (row.0@, row.1@, stat_count_text(stat, row.2@)))
}

fn stat_rows(rows: &[(&str, &str, &str)], stat: Option<&JsonValue>) -> (r: Vec<ChannelWorkMetric>)
    ensures
        work_metrics_view(r@) == stat_rows_spec(rows@, opt_ref(stat)),
{
    let mut out: Vec<ChannelWorkMetric> = Vec::new();
    let mut i: usize = 0;
    while i < rows.len()
        invariant
            i <= rows@.len(),
            work_metrics_view(out@) == stat_rows_spec(rows@.take(i as int), opt_ref(stat)),
        decreases rows@.len() - i,
    {
        let (key, label, stat_key) = rows[i];
        let value = match stat {
            Some(st) => match count_key(st, stat_key) {
                Some(n) => Some(u64_to_string(n)),
                None => None,
            },
            None => None,
        };
        let m = ChannelWorkMetric { key: owned(key), label: owned(label), value };
        proof {
            assert(work_metric_view(m) == (rows@[i as int].0@, rows@[i as int].1@, stat_count_text(opt_ref(stat), rows@[i as int].2@)));
        }
        let ghost before = out@;
        out.push(m);
        assert(work_metrics_view(out@) =~= work_metrics_view(before).push(work_metric_view(m)));
        assert(rows@.take(i + 1) =~= rows@.take(i as int).push(rows@[i as int]));
        assert(stat_rows_spec(rows@.take(i + 1), opt_ref(stat)) =~= stat_rows_spec(rows@.take(i as int), opt_ref(stat)).push(work_metric_view(m)));
        i += 1;
    }
    assert(rows@.take(rows@.len() as int) =~= rows@);
    out
}

/// A metric from a "display_fields" entry: labelled by its "desc", keyed by
/// its "name" (the label where it has none).
pub open spec fn display_metric(field: JsonValue) -> Option<(Seq<char>, Seq<char>, Option<Seq<char>>)> {
    match text_key_spec(field, "desc"@) {
        Some(label) => Some((
            match text_key_spec(field, "name"@) { Some(k) => k, None => label },
            label,
            match jget(field, "value"@) { Some(v) => value_text_spec(v), None => None },
        )),
        None => None,
    }
}

pub open spec fn display_metrics(fields: Seq<JsonValue>) -> Seq<(Seq<char>, Seq<char>, Option<Seq<char>>)>
    decreases fields.len(),
{
    if fields.len() == 0 {
        seq![]
    } else {
        let rest = display_metrics(fields.drop_last());
        match display_metric(fields.last()) {
            Some(m) => rest.push(m),
            None => rest,
        }
    }
}

pub open spec fn video_rows() -> Seq<(&'static str, &'static str, &'static str)> {
    seq![
        ("view", "播放", "view"),
        ("like", "点赞", "like"),
        ("danmaku", "弹幕", "danmaku"),
        ("reply", "评论", "reply"),
        ("coin", "硬币", "coin"),
        ("favorite", "收藏", "favorite"),
        ("share", "分享", "share"),
    ]
}

pub open spec fn article_rows() -> Seq<(&'static str, &'static str, &'static str)> {
    seq![
        ("view", "浏览", "view"),
        ("like", "点赞", "like"),
        ("reply", "评论", "reply"),
        ("favorite", "收藏", "favorite"),
        ("coin", "硬币", "coin"),
    ]
}

/// The item's own display fields where they yield
/// any metric, else the fixed figures read from its stat object.
pub open spec fn video_metrics_spec(item: JsonValue, stat: Option<JsonValue>) -> Seq<(Seq<char>, Seq<char>, Option<Seq<char>>)> {
    match jget(item, "display_fields"@) {
        Some(JsonValue::Array(fs)) if display_metrics(fs@).len() > 0 => display_metrics(fs@),
        _ => stat_rows_spec(video_rows(), stat),
    }
}

/// The metrics of a video: those its "display_fields" describe, else plays,
/// likes, danmaku, comments, coins, favorites and shares from its stats.
pub fn video_work_metrics(item: &JsonValue, stat: Option<&JsonValue>) -> (r: Vec<ChannelWorkMetric>)
    ensures
        work_metrics_view(r@) == video_metrics_spec(*item, opt_ref(stat)),
{
    if let Some(JsonValue::Array(fields)) = item.get("display_fields") {
        let mut out: Vec<ChannelWorkMetric> = Vec::new();
        let mut i: usize = 0;
        while i < fields.len()
            invariant
                i <= fields@.len(),
                work_metrics_view(out@) == display_metrics(fields@.take(i as int)),
            decreases fields@.len() - i,
        {
            let field = &fields[i];
            assert(fields@.take(i + 1).drop_last() =~= fields@.take(i as int));
            assert(fields@.take(i + 1).last() == fields@[i as int]);
            if let Some(label) = text_key(field, "desc") {
                let key = match text_key(field, "name") {
                    Some(k) => k,
                    None => label.clone(),
                };
                let value = match field.get("value") {
                    Some(v) => value_text(v),
                    None => None,
                };
                let m = ChannelWorkMetric { key, label, value };
                let ghost before = out@;
                out.push(m);
                assert(work_metrics_view(out@) =~= work_metrics_view(before).push(work_metric_view(m)));
            }
            i += 1;
        }
        assert(fields@.take(fields@.len() as int) =~= fields@);
        if out.len() > 0 {
            return out;
        }
    }
    let rows: [(&str, &str, &str); 7] = [
        ("view", "播放", "view"),
        ("like", "点赞", "like"),
        ("danmaku", "弹幕", "danmaku"),
        ("reply", "评论", "reply"),
        ("coin", "硬币", "coin"),
        ("favorite", "收藏", "favorite"),
        ("share", "分享", "share"),
    ];
    assert(rows@ =~= video_rows());
    stat_rows(&rows, stat)
}

/// The metrics of an article: views, likes, comments, favorites and coins
/// from its stats.
pub fn article_work_metrics(stat: Option<&JsonValue>) -> (r: Vec<ChannelWorkMetric>)
    ensures
        work_metrics_view(r@) == stat_rows_spec(article_rows(), opt_ref(stat)),
{
    let rows: [(&str, &str, &str); 5] = [
        ("view", "浏览", "view"),
        ("like", "点赞", "like"),
        ("reply", "评论", "reply"),
        ("favorite", "收藏", "favorite"),
        ("coin", "硬币", "coin"),
    ];
    assert(rows@ =~= article_rows());
    stat_rows(&rows, stat)
}

pub open spec fn bili_cover_keys() -> Seq<&'static str> {
    seq!["cover", "pic", "cover_url", "coverUrl", "image", "images", "thumbnail", "thumbnail_url", "thumbnailUrl"]
}

pub open spec fn or_else<T>(a: Option<T>, b: Option<T>) -> Option<T> {
    match a {
        Some(x) => Some(x),
        None => b,
    }
}

/// The archive of a video item: its "Archive" or "archive" member, else the
/// item itself.
pub open spec fn archive_of(item: JsonValue) -> JsonValue {
    match jget(item, "Archive"@) {
        Some(a) => a,
        None => match jget(item, "archive"@) {
            Some(a) => a,
            None => item,
        },
    }
}

pub open spec fn stat_count(stat: Option<JsonValue>, key: Seq<char>) -> Option<u64> {
    match stat {
        Some(s) => count_key_spec(s, key),
        None => None,
    }
}

/// A video with an aid (a count, else text),
/// named by its bvid where it has one.
pub open spec fn bili_video_work_spec(item: JsonValue, account_id: Seq<char>) -> Option<WorkView> {
    let archive = archive_of(item);
    let aid = or_else(
        match count_key_spec(archive, "aid"@) { Some(n) => Some(dec(n as nat)), None => None },
        text_key_spec(archive, "aid"@),
    );
    match aid {
        None => None,
        Some(aid) => {
            let bvid = text_key_spec(archive, "bvid"@);
            let stat = or_else(jget(item, "stat"@), jget(item, "Stat"@));
            Some(WorkView {
                id: "bilibili-video-"@ + match bvid { Some(b) => b, None => aid },
                platform_id: "bilibili"@,
                account_id: account_id,
                title: match text_key_spec(archive, "title"@) { Some(t) => t, None => "未命名视频"@ },
                cover_url: match profile_image(item, bili_cover_keys()) {
                    Some(u) => Some(bili_thumbnail_spec(u)),
                    None => None,
                },
                link: Some(match bvid {
                    Some(b) if b.len() > 0 => "https://www.bilibili.com/video/"@ + b,
                    _ => "https://www.bilibili.com/video/av"@ + aid,
                }),
                published_at: match or_else(count_key_spec(archive, "ptime"@), count_key_spec(archive, "ctime"@)) {
                    Some(t) => utc_at((t as i64) as int),
                    None => None,
                },
                status: archive_status_spec(archive),
                views: or_else(stat_count(stat, "view"@), stat_count(stat, "vv"@)),
                impressions: None,
                likes: stat_count(stat, "like"@),
                collects: or_else(stat_count(stat, "favorite"@), stat_count(stat, "fav"@)),
                comments: stat_count(stat, "reply"@),
                shares: stat_count(stat, "share"@),
                cover_click_rate: None,
                avg_view_time: None,
                gained_followers: None,
                data_updated_at: None,
                metrics: video_metrics_spec(item, stat),
                badges: video_badges_spec(archive),
                work_type: Some("video"@),
            })
        },
    }
}

fn stat_count_exec(stat: Option<&JsonValue>, key: &str) -> (r: Option<u64>)
    ensures
        r == stat_count(opt_ref(stat), key@),
{
    match stat {
        Some(s) => count_key(s, key),
        None => None,
    }
}

/// Reads an item of the Bilibili video list into a work; one without an aid
/// gives nothing.
pub fn parse_bilibili_video_work(item: &JsonValue, account_id: &str) -> (r: Option<ChannelContentWork>)
    ensures
        crate::domain::opt_work_view(r) == bili_video_work_spec(*item, account_id@),
{
    let archive = match item.get("Archive") {
        Some(a) => a,
        None => match item.get("archive") {
            Some(a) => a,
            None => item,
        },
    };
    let aid = match count_key(archive, "aid") {
        Some(n) => u64_to_string(n),
        None => match text_key(archive, "aid") {
            Some(t) => t,
            None => return None,
        },
    };
    let bvid = text_key(archive, "bvid");
    let title = match text_key(archive, "title") {
        Some(t) => t,
        None => owned("未命名视频"),
    };
    let stat = match item.get("stat") {
        Some(s) => Some(s),
        None => item.get("Stat"),
    };
    let cover_keys: [&str; 9] = ["cover", "pic", "cover_url", "coverUrl", "image", "images", "thumbnail", "thumbnail_url", "thumbnailUrl"];
    assert(cover_keys@ =~= bili_cover_keys());
    let cover_url = match first_profile_image(item, &cover_keys) {
        Some(u) => Some(bilibili_cover_thumbnail_url(u)),
        None => None,
    };
    let views = match stat_count_exec(stat, "view") {
        Some(n) => Some(n),
        None => stat_count_exec(stat, "vv"),
    };
    let likes = stat_count_exec(stat, "like");
    let comments = stat_count_exec(stat, "reply");
    let collects = match stat_count_exec(stat, "favorite") {
        Some(n) => Some(n),
        None => stat_count_exec(stat, "fav"),
    };
    let shares = stat_count_exec(stat, "share");
    let metrics = video_work_metrics(item, stat);
    let mut id = owned("bilibili-video-");
    match &bvid {
        Some(b) => push_str(&mut id, b.as_str()),
        None => push_str(&mut id, aid.as_str()),
    }
    proof {
        reveal_strlit("");
        if bvid is Some && bvid->0@.len() == 0 {
            assert(bvid->0@ =~= ""@);
        }
    }
    let link = match &bvid {
        Some(b) if !str_eq(b.as_str(), "") => concat_str("https://www.bilibili.com/video/", b.as_str()),
        _ => concat_str("https://www.bilibili.com/video/av", aid.as_str()),
    };
    let stamp = match count_key(archive, "ptime") {
        Some(t) => Some(t),
        None => count_key(archive, "ctime"),
    };
    let published_at = match stamp {
        Some(t) => utc_from_timestamp(#[verifier::truncate] (t as i64)),
        None => None,
    };
    Some(ChannelContentWork {
        id,
        platform_id: owned("bilibili"),
        account_id: owned(account_id),
        title,
        cover_url,
        link: Some(link),
        published_at,
        status: owned(bilibili_archive_status(archive)),
        views,
        impressions: None,
        likes,
        collects,
        comments,
        shares,
        cover_click_rate: None,
        avg_view_time: None,
        gained_followers: None,
        data_updated_at: None,
        metrics,
        badges: bilibili_video_badges(archive),
        work_type: Some(owned("video")),
    })
}

/// An article with a dynamic id (or rid, or
/// id), linked to its opus page.
pub open spec fn bili_article_work_spec(item: JsonValue, account_id: Seq<char>) -> Option<WorkView> {
    match or_else(text_key_spec(item, "dyn_id"@), or_else(text_key_spec(item, "rid"@), text_key_spec(item, "id"@))) {
        None => None,
        Some(dyn_id) => {
            let stat = jget(item, "stat"@);
            Some(WorkView {
                id: "bilibili-article-"@ + dyn_id,
                platform_id: "bilibili"@,
                account_id: account_id,
                title: match or_else(text_key_spec(item, "title"@), text_key_spec(item, "summary"@)) {
                    Some(t) => t,
                    None => "未命名图文"@,
                },
                cover_url: match profile_image(item, bili_cover_keys()) {
                    Some(u) => Some(bili_thumbnail_spec(u)),
                    None => None,
                },
                link: Some("https://www.bilibili.com/opus/"@ + dyn_id),
                published_at: match text_key_spec(item, "pub_time"@) {
                    Some(t) => bilibili_time(t),
                    None => None,
                },
                status: article_status_spec(item),
                views: stat_count(stat, "view"@),
                impressions: None,
                likes: stat_count(stat, "like"@),
                collects: stat_count(stat, "favorite"@),
                comments: stat_count(stat, "reply"@),
                shares: None,
                cover_click_rate: None,
                avg_view_time: None,
                gained_followers: None,
                data_updated_at: None,
                metrics: stat_rows_spec(article_rows(), stat),
                badges: article_badges_spec(item),
                work_type: Some("article"@),
            })
        },
    }
}

/// Reads an item of the Bilibili article list into a work; one without an
/// id gives nothing.
pub fn parse_bilibili_article_work(item: &JsonValue, account_id: &str) -> (r: Option<ChannelContentWork>)
    ensures
        crate::domain::opt_work_view(r) == bili_article_work_spec(*item, account_id@),
{
    let dyn_id = match text_key(item, "dyn_id") {
        Some(t) => t,
        None => match text_key(item, "rid") {
            Some(t) => t,
            None => match text_key(item, "id") {
                Some(t) => t,
                None => return None,
            },
        },
    };
    let title = match text_key(item, "title") {
        Some(t) => t,
        None => match text_key(item, "summary") {
            Some(t) => t,
            None => owned("未命名图文"),
        },
    };
    let stat = item.get("stat");
    let cover_keys: [&str; 9] = ["cover", "pic", "cover_url", "coverUrl", "image", "images", "thumbnail", "thumbnail_url", "thumbnailUrl"];
    assert(cover_keys@ =~= bili_cover_keys());
    let cover_url = match first_profile_image(item, &cover_keys) {
        Some(u) => Some(bilibili_cover_thumbnail_url(u)),
        None => None,
    };
    let published_at = match text_key(item, "pub_time") {
        Some(t) => parse_bilibili_datetime(t.as_str()),
        None => None,
    };
    Some(ChannelContentWork {
        id: concat_str("bilibili-article-", dyn_id.as_str()),
        platform_id: owned("bilibili"),
        account_id: owned(account_id),
        title,
        cover_url,
        link: Some(concat_str("https://www.bilibili.com/opus/", dyn_id.as_str())),
        published_at,
        status: owned(bilibili_article_status(item)),
        views: stat_count_exec(stat, "view"),
        impressions: None,
        likes: stat_count_exec(stat, "like"),
        collects: stat_count_exec(stat, "favorite"),
        comments: stat_count_exec(stat, "reply"),
        shares: None,
        cover_click_rate: None,
        avg_view_time: None,
        gained_followers: None,
        data_updated_at: None,
        metrics: article_work_metrics(stat),
        badges: bilibili_article_badges(item),
        work_type: Some(owned("article")),
    })
}

pub open spec fn bili_nickname_keys() -> Seq<&'static str> {
    seq!["uname", "nickname", "name"]
}

pub open spec fn bili_avatar_keys() -> Seq<&'static str> {
    seq!["face", "avatar", "avatarUrl", "avatar_url"]
}

pub open spec fn bili_follower_keys() -> Seq<&'static str> {
    seq!["follower", "fans_count", "fansCount", "fans", "followers", "followers_count", "followersCount"]
}

pub open spec fn bili_following_keys() -> Seq<&'static str> {
    seq!["following", "following_count", "followingCount", "follow_count", "followCount", "followings", "attention_count", "attentionCount"]
}

pub open spec fn bili_like_keys() -> Seq<&'static str> {
    seq!["likes", "like_count", "likeCount", "liked_count", "likedCount"]
}

pub open spec fn bili_code_ok(v: JsonValue) -> bool {
    match first_i64_spec(v, seq!["code"]) { Some(c) => c == 0, None => false }
}

fn bili_code_ok_exec(value: &JsonValue) -> (r: bool)
    ensures
        r == bili_code_ok(*value),
{
    let keys: [&str; 1] = ["code"];
    assert(keys@ =~= seq!["code"]);
    match first_i64(value, &keys) { Some(c) => c == 0, None => false }
}

/// The account a Bilibili navigation response describes, before the
/// counts it lacks are looked up: the response must report success and a
/// login; the id is the member id, else the nickname.
pub open spec fn bili_nav_spec(v: JsonValue, login_cookie: Seq<char>) -> Result<ProfileView, Seq<char>> {
    let data = jget(v, "data"@);
    let is_login = match data {
        Some(d) => match jget(d, "isLogin"@) { Some(JsonValue::Bool(b)) => b, _ => false },
        None => false,
    };
    if !bili_code_ok(v) || !is_login {
        Err("B 站登录已失效，请重新登录后再打开创作中心。"@)
    } else {
        let d = data->0;
        let uid = match bili_mid_spec(d) { Some(x) => x, None => Seq::empty() };
        let nickname = match first_string_spec(d, bili_nickname_keys()) {
            Some(x) => x,
            None => match platform_view("bilibili"@) { Some(p) => p.name, None => "渠道账号"@ },
        };
        let account = if trim(uid).len() == 0 { nickname } else { uid };
        Ok(ProfileView {
            uid: account,
            account: account,
            nickname: nickname,
            avatar: match crate::platforms::images::profile_image(d, bili_avatar_keys()) { Some(x) => x, None => Seq::empty() },
            fans_count: count_deep(d, bili_follower_keys()),
            following_count: count_deep(d, bili_following_keys()),
            like_count: count_deep(d, bili_like_keys()),
            login_cookie: login_cookie,
        })
    }
}

pub open spec fn profile_string_view(r: Result<PluginAccountInfo, String>) -> Result<ProfileView, Seq<char>> {
    match r {
        Ok(p) => Ok(p@),
        Err(e) => Err(e@),
    }
}

/// Reads a Bilibili account from its navigation response. Counts it lacks
/// are completed by `complete_bilibili_profile`.
pub fn bilibili_nav_profile(value: &JsonValue, login_cookie: String) -> (r: Result<PluginAccountInfo, String>)
    ensures
        profile_string_view(r) == bili_nav_spec(*value, login_cookie@),
{
    let data = value.get("data");
    let is_login = match data {
        Some(d) => match d.get("isLogin") { Some(JsonValue::Bool(b)) => *b, _ => false },
        None => false,
    };
    if !bili_code_ok_exec(value) || !is_login {
        return Err(owned("B 站登录已失效，请重新登录后再打开创作中心。"));
    }
    let d = match data { Some(d) => d, None => return Err(owned("B 站登录已失效，请重新登录后再打开创作中心。")) };
    let nickname_keys: [&str; 3] = ["uname", "nickname", "name"];
    assert(nickname_keys@ =~= bili_nickname_keys());
    let avatar_keys: [&str; 4] = ["face", "avatar", "avatarUrl", "avatar_url"];
    assert(avatar_keys@ =~= bili_avatar_keys());
    let follower_keys: [&str; 7] = ["follower", "fans_count", "fansCount", "fans", "followers", "followers_count", "followersCount"];
    assert(follower_keys@ =~= bili_follower_keys());
    let following_keys: [&str; 8] = ["following", "following_count", "followingCount", "follow_count", "followCount", "followings", "attention_count", "attentionCount"];
    assert(following_keys@ =~= bili_following_keys());
    let like_keys: [&str; 5] = ["likes", "like_count", "likeCount", "liked_count", "likedCount"];
    assert(like_keys@ =~= bili_like_keys());
    let uid = match first_bilibili_mid(d) { Some(x) => x, None => String::new() };
    let nickname = match first_string(d, &nickname_keys) {
        Some(x) => x,
        None => owned(platform_name("bilibili")),
    };
    let avatar = match crate::platforms::images::first_profile_image(d, &avatar_keys) { Some(x) => x, None => String::new() };
    let account = if is_blank(uid.as_str()) { nickname.clone() } else { uid };
    let uid_copy = account.clone();
    Ok(PluginAccountInfo {
        uid: uid_copy,
        account,
        nickname,
        avatar,
        fans_count: first_count(d, &follower_keys),
        following_count: first_count(d, &following_keys),
        like_count: first_count(d, &like_keys),
        login_cookie,
    })
}

/// Whether an id can be asked for its statistics: non-blank and all digits
/// once trimmed.
pub open spec fn bili_queryable(uid: Seq<char>) -> bool {
    trim(uid).len() > 0 && all_digits(trim(uid))
}

/// Whether the relation and like statistics can be asked for this id.
pub fn bilibili_uid_queryable(uid: &str) -> (r: bool)
    ensures
        r == bili_queryable(uid@),
{
    let t = trim_str(uid);
    if is_blank(uid) {
        return false;
    }
    let cs = chars_of(t.as_str());
    let mut i: usize = 0;
    while i < cs.len()
        invariant
            i <= cs@.len(),
            cs@ == trim(uid@),
            forall|j: int| 0 <= j < i ==> is_digit(#[trigger] cs@[j]),
        decreases cs@.len() - i,
    {
        if !crate::number::is_digit_exec(cs[i]) {
            return false;
        }
        i += 1;
    }
    true
}

/// The relation response read: follower and
/// following counts of a successful response (from its "data", else the
/// whole response).
pub open spec fn bili_relation_spec(v: JsonValue) -> Option<(Option<u64>, Option<u64>)> {
    if !bili_code_ok(v) {
        None
    } else {
        let d = match jget(v, "data"@) { Some(d) => d, None => v };
        Some((count_deep(d, bili_follower_keys()), count_deep(d, bili_following_keys())))
    }
}

/// The follower and following counts of a relation statistics response.
pub fn bilibili_relation_counts(value: &JsonValue) -> (r: Option<(Option<u64>, Option<u64>)>)
    ensures
        r == bili_relation_spec(*value),
{
    if !bili_code_ok_exec(value) {
        return None;
    }
    let d = match value.get("data") { Some(d) => d, None => value };
    let follower_keys: [&str; 7] = ["follower", "fans_count", "fansCount", "fans", "followers", "followers_count", "followersCount"];
    assert(follower_keys@ =~= bili_follower_keys());
    let following_keys: [&str; 8] = ["following", "following_count", "followingCount", "follow_count", "followCount", "followings", "attention_count", "attentionCount"];
    assert(following_keys@ =~= bili_following_keys());
    Some((first_count(d, &follower_keys), first_count(d, &following_keys)))
}

/// The like count of the statistics response.
pub open spec fn bili_like_spec(v: JsonValue) -> Option<u64> {
    if !bili_code_ok(v) {
        None
    } else {
        let d = match jget(v, "data"@) { Some(d) => d, None => v };
        count_deep(d, bili_like_keys())
    }
}

/// The like count of an up-statistics response.
pub fn bilibili_like_count(value: &JsonValue) -> (r: Option<u64>)
    ensures
        r == bili_like_spec(*value),
{
    if !bili_code_ok_exec(value) {
        return None;
    }
    let d = match value.get("data") { Some(d) => d, None => value };
    let like_keys: [&str; 5] = ["likes", "like_count", "likeCount", "liked_count", "likedCount"];
    assert(like_keys@ =~= bili_like_keys());
    first_count(d, &like_keys)
}

/// Completes a navigation profile with the relation counts (asked for only
/// when a follower or following count is missing) and the like count (asked
/// for only when it is missing); a count the profile has is kept.
pub fn complete_bilibili_profile(profile: PluginAccountInfo, relation: Option<(Option<u64>, Option<u64>)>, likes: Option<u64>) -> (r: PluginAccountInfo)
    ensures
        r@ == (ProfileView {
            fans_count: either(profile.fans_count, match relation { Some(x) => x.0, None => None }),
            following_count: either(profile.following_count, match relation { Some(x) => x.1, None => None }),
            like_count: either(profile.like_count, likes),
            ..profile@
        }),
{
    let mut p = profile;
    if let Some((fans, following)) = relation {
        if p.fans_count.is_none() {
            p.fans_count = fans;
        }
        if p.following_count.is_none() {
            p.following_count = following;
        }
    }
    if p.like_count.is_none() {
        p.like_count = likes;
    }
    p
}

/// The overview figures: key, label, cumulative label, data field.
pub open spec fn bili_overview_rows() -> Seq<(Seq<char>, Seq<char>, Seq<char>, Seq<char>)> {
    seq![
        ("views"@, "播放量"@, "播放量"@, "play"@),
        ("followers"@, "净增粉丝"@, "累计粉丝"@, "fan"@),
        ("likes"@, "点赞"@, "点赞"@, "like"@),
        ("collects"@, "收藏"@, "收藏"@, "fav"@),
        ("coins"@, "硬币"@, "硬币"@, "coin"@),
        ("comments"@, "评论"@, "评论"@, "comment"@),
        ("danmaku"@, "弹幕"@, "弹幕"@, "dm"@),
        ("shares"@, "分享"@, "分享"@, "share"@),
    ]
}

/// `build_bilibili_metric` for one row.
pub open spec fn bili_metric_spec(row: (Seq<char>, Seq<char>, Seq<char>, Seq<char>), data: JsonValue, cumulative: bool)
    -> (Seq<char>, Seq<char>, Option<Seq<char>>, Option<Seq<char>>, Option<Seq<char>>, Option<Seq<char>>) {
    (
        row.0,
        if cumulative { row.2 } else { row.1 },
        match signed_key_spec(data, row.3) { Some(v) => Some(dec_signed(v as int)), None => None },
        None,
        match bili_delta(data, row.3) { Some(d) => bili_delta_text(d as i64), None => None },
        match bili_delta(data, row.3) { Some(d) => Some(bili_tone(d as i64)), None => None },
    )
}

/// Every figure's change against the previous period fits.
pub open spec fn bili_overview_in_range(data: JsonValue) -> bool {
    forall|k: int| 0 <= k < bili_overview_rows().len() ==> bili_delta_in_range(data, (#[trigger] bili_overview_rows()[k]).3)
}

fn bili_overview_specs() -> (r: Vec<BiliOverviewMetricSpec>)
    ensures
        r@.len() == bili_overview_rows().len(),
        forall|k: int| 0 <= k < r@.len() ==> ((#[trigger] r@[k]).key@, r@[k].label@, r@[k].cumulative_label@, r@[k].data_key@) == bili_overview_rows()[k],
{
    let r = vec![
        BiliOverviewMetricSpec { key: "views", label: "播放量", cumulative_label: "播放量", data_key: "play" },
        BiliOverviewMetricSpec { key: "followers", label: "净增粉丝", cumulative_label: "累计粉丝", data_key: "fan" },
        BiliOverviewMetricSpec { key: "likes", label: "点赞", cumulative_label: "点赞", data_key: "like" },
        BiliOverviewMetricSpec { key: "collects", label: "收藏", cumulative_label: "收藏", data_key: "fav" },
        BiliOverviewMetricSpec { key: "coins", label: "硬币", cumulative_label: "硬币", data_key: "coin" },
        BiliOverviewMetricSpec { key: "comments", label: "评论", cumulative_label: "评论", data_key: "comment" },
        BiliOverviewMetricSpec { key: "danmaku", label: "弹幕", cumulative_label: "弹幕", data_key: "dm" },
        BiliOverviewMetricSpec { key: "shares", label: "分享", cumulative_label: "分享", data_key: "share" },
    ];
    assert forall|k: int| 0 <= k < r@.len() implies ((#[trigger] r@[k]).key@, r@[k].label@, r@[k].cumulative_label@, r@[k].data_key@) == bili_overview_rows()[k] by {
        if k == 0 {} else if k == 1 {} else if k == 2 {} else if k == 3 {} else if k == 4 {} else if k == 5 {} else if k == 6 {} else {}
    }
    r
}

/// The overview of a period read from a data-center response: the eight
/// figures, the "updated to" summary, synced as of `now`.
pub fn build_bilibili_overview(account_id: &str, period_days: u16, data: &JsonValue, cumulative: bool, now: UtcTime) -> (r: ChannelAccountOverview)
    requires
        bili_overview_in_range(*data),
    ensures
        r.account_id@ == account_id@,
        r.platform_id@ == "bilibili"@,
        r.period_days == period_days,
        r.metrics@.len() == bili_overview_rows().len(),
        forall|k: int| 0 <= k < r.metrics@.len() ==> overview_metric_view(#[trigger] r.metrics@[k]) == bili_metric_spec(bili_overview_rows()[k], *data, cumulative),
        opt_text(r.summary) == bili_summary_spec(*data),
        r.updated_at == Some(now),
        r.sync_status@ == "synced"@,
        r.error is None,
{
    let specs = bili_overview_specs();
    let mut metrics: Vec<ChannelOverviewMetric> = Vec::new();
    let mut i: usize = 0;
    while i < specs.len()
        invariant
            i <= specs@.len(),
            specs@.len() == bili_overview_rows().len(),
            forall|k: int| 0 <= k < specs@.len() ==> ((#[trigger] specs@[k]).key@, specs@[k].label@, specs@[k].cumulative_label@, specs@[k].data_key@) == bili_overview_rows()[k],
            bili_overview_in_range(*data),
            metrics@.len() == i,
            forall|k: int| 0 <= k < i ==> overview_metric_view(#[trigger] metrics@[k]) == bili_metric_spec(bili_overview_rows()[k], *data, cumulative),
        decreases specs@.len() - i,
    {
        let ghost row = bili_overview_rows()[i as int];
        assert(bili_delta_in_range(*data, row.3));
        let m = build_bilibili_metric(&specs[i], data, cumulative);
        metrics.push(m);
        i += 1;
    }
    ChannelAccountOverview {
        account_id: owned(account_id),
        platform_id: owned("bilibili"),
        period_days,
        metrics,
        summary: bilibili_overview_summary(data),
        updated_at: Some(now),
        sync_status: owned("synced"),
        error: None,
    }
}

/// Whether every overview figure's change against the previous period fits,
/// as `build_bilibili_overview` needs.
pub fn bilibili_overview_fits(data: &JsonValue) -> (r: bool)
    ensures
        r == bili_overview_in_range(*data),
{
    let specs = bili_overview_specs();
    let mut i: usize = 0;
    while i < specs.len()
        invariant
            i <= specs@.len(),
            specs@.len() == bili_overview_rows().len(),
            forall|k: int| 0 <= k < specs@.len() ==> ((#[trigger] specs@[k]).key@, specs@[k].label@, specs@[k].cumulative_label@, specs@[k].data_key@) == bili_overview_rows()[k],
            forall|k: int| 0 <= k < i ==> bili_delta_in_range(*data, (#[trigger] bili_overview_rows()[k]).3),
        decreases specs@.len() - i,
    {
        let ghost row = bili_overview_rows()[i as int];
        let key = specs[i].data_key;
        let value = signed_key(data, key);
        let last_key = concat_str(key, "_last");
        let last_value = signed_key(data, last_key.as_str());
        match (value, last_value) {
            (Some(v), Some(l)) => {
                match v.checked_sub(l) {
                    Some(d) => {
                        if d == i64::MIN {
                            assert(!bili_delta_in_range(*data, row.3));
                            return false;
                        }
                    },
                    None => {
                        assert(!bili_delta_in_range(*data, row.3));
                        return false;
                    },
                }
            },
            _ => {},
        }
        assert(bili_delta_in_range(*data, row.3));
        i += 1;
    }
    true
}

/// What `build_bilibili_overview` makes of a period's data.
pub open spec fn bili_overview_ok(o: ChannelAccountOverview, account_id: Seq<char>, period_days: u16, data: JsonValue, cumulative: bool, now: UtcTime) -> bool {
    &&& o.account_id@ == account_id
    &&& o.platform_id@ == "bilibili"@
    &&& o.period_days == period_days
    &&& o.metrics@.len() == bili_overview_rows().len()
    &&& forall|k: int| 0 <= k < o.metrics@.len() ==> overview_metric_view(#[trigger] o.metrics@[k]) == bili_metric_spec(bili_overview_rows()[k], data, cumulative)
    &&& opt_text(o.summary) == bili_summary_spec(data)
    &&& o.updated_at == Some(now)
    &&& o.sync_status@ == "synced"@
    &&& o.error is None
}

/// The period that stands for the whole history, and the one for totals.
pub open spec fn bili_history_days() -> u16 {
    36500
}

pub open spec fn bili_total_days() -> u16 {
    65535
}

/// The content of a Bilibili account from its profile, its data-center
/// responses for yesterday, the last 7, 30 and 90 days and all time, and
/// its latest video and article: followers and likes from the all-time
/// figures where they are there, the profile's otherwise.
pub fn bilibili_account_content(
    account_id: &str,
    profile: &PluginAccountInfo,
    yesterday: &JsonValue,
    seven: &JsonValue,
    thirty: &JsonValue,
    ninety: &JsonValue,
    total: &JsonValue,
    latest_video: Option<ChannelContentWork>,
    latest_article: Option<ChannelContentWork>,
    now: UtcTime,
) -> (r: ChannelAccountContent)
    requires
        bili_overview_in_range(*yesterday),
        bili_overview_in_range(*seven),
        bili_overview_in_range(*thirty),
        bili_overview_in_range(*ninety),
        bili_overview_in_range(*total),
    ensures
        r.account_id@ == account_id@,
        r.platform_id@ == "bilibili"@,
        r.profile matches Some(s) && {
            &&& s.account_id@ == account_id@
            &&& s.platform_id@ == "bilibili"@
            &&& s.followers == either(count_key_spec(*total, "fan"@), profile.fans_count)
            &&& s.following == profile.following_count
            &&& s.likes == either(count_key_spec(*total, "like"@), profile.like_count)
            &&& s.last_sync_at == Some(now)
            &&& s.updated_at == Some(now)
            &&& s.sync_status@ == "synced"@
            &&& s.error is None
        },
        r.overview_yesterday matches Some(o) && bili_overview_ok(o, account_id@, 1, *yesterday, false, now),
        r.overview_seven matches Some(o) && bili_overview_ok(o, account_id@, 7, *seven, false, now),
        r.overview_thirty matches Some(o) && bili_overview_ok(o, account_id@, 30, *thirty, false, now),
        r.overview_ninety matches Some(o) && bili_overview_ok(o, account_id@, 90, *ninety, false, now),
        r.overview_history matches Some(o) && bili_overview_ok(o, account_id@, bili_history_days(), *total, true, now),
        r.overview_total matches Some(o) && bili_overview_ok(o, account_id@, bili_total_days(), *total, true, now),
        r.latest_work == latest_video,
        r.latest_work_seven == latest_article,
        r.latest_work_thirty is None,
        r.sync_status@ == "synced"@,
        r.error is None,
{
    let followers = match count_key(total, "fan") { Some(n) => Some(n), None => profile.fans_count };
    let likes = match count_key(total, "like") { Some(n) => Some(n), None => profile.like_count };
    ChannelAccountContent {
        account_id: owned(account_id),
        platform_id: owned("bilibili"),
        profile: Some(ChannelAccountProfileSnapshot {
            account_id: owned(account_id),
            platform_id: owned("bilibili"),
            followers,
            following: profile.following_count,
            likes,
            last_sync_at: Some(now),
            updated_at: Some(now),
            sync_status: owned("synced"),
            error: None,
        }),
        overview_yesterday: Some(build_bilibili_overview(account_id, 1, yesterday, false, now)),
        overview_seven: Some(build_bilibili_overview(account_id, 7, seven, false, now)),
        overview_thirty: Some(build_bilibili_overview(account_id, 30, thirty, false, now)),
        overview_ninety: Some(build_bilibili_overview(account_id, 90, ninety, false, now)),
        overview_history: Some(build_bilibili_overview(account_id, 36500, total, true, now)),
        overview_total: Some(build_bilibili_overview(account_id, 65535, total, true, now)),
        latest_work: latest_video,
        latest_work_seven: latest_article,
        latest_work_thirty: None,
        sync_status: owned("synced"),
        error: None,
    }
}

} // verus!





