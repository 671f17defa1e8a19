//! Xiaohongshu: how its creator API responses are read into overviews,
//! badges and works, and how its signed API requests are addressed.

use vstd::prelude::*;
use crate::common::encode_query;
use crate::domain::{
    AuthErrorView, ChannelAccount, ChannelContentWork, ChannelOverviewMetric, PluginAccountInfo, PluginAuthError,
    ProfileView, WorkView, either, profile_result_view, strings_view, ChannelAccountOverview, UtcTime, opt_text,
};
use crate::platforms::plugin::{plugin_success_spec, response_success};
use crate::platforms::{platform_name, platform_view};
use crate::form::form_encode;
use crate::json::{JsonValue, jget, ji64, ju64, opt_ref};
use crate::json_ext::{count_deep, count_value, first_count, parse_count_value, string_deep, first_string_deep, opt_string_view};
use crate::platforms::images::{first_profile_image, image_url_spec, normalize_image_url, normalize_platform_image_url, platform_image_url_spec, profile_image};
use crate::time::{first_time, time_keys, TimeStyle};
use crate::number::{dec, dec_signed, i64_to_string, parse_i64, parse_i64_str, u64_to_string};
use crate::platforms::cookies::{cookie_pairs};
use crate::platforms::fields::{
    field_text_spec, push_unique_badge, push_unique_spec, string_or_number_deep, text_deep,
    value_to_bool, value_to_bool_spec, value_to_text,
};
use crate::platforms::plugin::{match_key, normalize_match_key};
use crate::strs::{owned, opt_str_view};
use crate::text::{
    chars_of, contains, is_blank, lower, lower_str, push_char, push_str, split, split_once,
    split_once_str, split_str, starts_with, str_contains, str_eq, str_starts_with, trim, trim_str,
};
use crate::weburl::{parse_path_query, url_path_query};

verus! {

/// The "data" member unless it is missing or null,
/// else the whole response.
pub open spec fn payload_spec(v: JsonValue) -> JsonValue {
    match jget(v, "data"@) {
        Some(d) if !(d is Null) => d,
        _ => v,
    }
}

/// The payload of a creator API response.
pub fn xhs_response_payload(value: &JsonValue) -> (r: Option<&JsonValue>)
    ensures
        opt_ref(r) == Some(payload_spec(*value)),
{
    match value.get("data") {
        Some(d) => if d.is_null() { Some(value) } else { Some(d) },
        None => Some(value),
    }
}

/// Keeps the value of a successful request; for a failed one, records
/// "label: error" among the sync errors and keeps nothing.
pub fn record_xhs_sync_result(label: &str, result: Result<Option<JsonValue>, String>, sync_errors: &mut Vec<String>) -> (r: Option<JsonValue>)
    ensures
        match result {
            Ok(v) => r == v && final(sync_errors)@ == old(sync_errors)@,
            Err(e) => r is None && strings_view(final(sync_errors)@) == strings_view(old(sync_errors)@).push(label@ + ": "@ + e@),
        },
{
    match result {
        Ok(v) => v,
        Err(e) => {
            let mut m = owned(label);
            push_str(&mut m, ": ");
            push_str(&mut m, e.as_str());
            let ghost before = sync_errors@;
            sync_errors.push(m);
            assert(strings_view(sync_errors@) =~= strings_view(before).push(label@ + ": "@ + e@));
            None
        },
    }
}

/// The base address with each parameter appended,
/// "?" before the first and "&" before the others, values form-encoded.
pub open spec fn api_url_spec(base: Seq<char>, params: Seq<(&str, &str)>) -> Seq<char>
    decreases params.len(),
{
    if params.len() == 0 {
        base
    } else {
        let i = params.len() - 1;
        api_url_spec(base, params.drop_last())
            + seq![if i == 0 { '?' } else { '&' }]
            + params.last().0@ + "="@ + form_encode(params.last().1@)
    }
}

/// A creator API address with its query parameters.
pub fn xhs_creator_api_url(base: &str, params: &[(&str, &str)]) -> (r: String)
    ensures
        r@ == api_url_spec(base@, params@),
{
    let mut url = owned(base);
    let mut i: usize = 0;
    while i < params.len()
        invariant
            i <= params@.len(),
            url@ == api_url_spec(base@, params@.take(i as int)),
        decreases params@.len() - i,
    {
        let (key, value) = params[i];
        let ghost before = url@;
        push_char(&mut url, if i == 0 { '?' } else { '&' });
        push_str(&mut url, key);
        push_str(&mut url, "=");
        push_str(&mut url, encode_query(value).as_str());
        proof {
            let t = params@.take(i + 1);
            assert(t.drop_last() =~= params@.take(i as int));
            assert(t.last() == params@[i as int]);
            assert(url@ =~= before + seq![if i == 0 { '?' } else { '&' }] + key@ + "="@ + form_encode(value@));
        }
        i += 1;
    }
    assert(params@.take(params@.len() as int) =~= params@);
    url
}

/// The path of the address and its non-blank
/// query, or the parse error in a message.
pub open spec fn signature_api_spec(url: Seq<char>) -> Result<Seq<char>, Seq<char>> {
    match url_path_query(url) {
        Ok((path, query)) => match query {
            Some(q) if trim(q).len() > 0 => Ok(path + "?"@ + q),
            _ => Ok(path),
        },
        Err(e) => Err("小红书创作中心接口 URL 无效: "@ + e),
    }
}

/// The part of an API address that the request signature covers.
pub fn xhs_creator_signature_api(url: &str) -> (r: Result<String, String>)
    ensures
        crate::strs::result_view(r) == signature_api_spec(url@),
{
    match parse_path_query(url) {
        Ok((path, query)) => {
            let mut api = path;
            match query {
                Some(q) => {
                    if !is_blank(q.as_str()) {
                        push_str(&mut api, "?");
                        push_str(&mut api, q.as_str());
                    }
                },
                None => {},
            }
            Ok(api)
        },
        Err(e) => {
            let mut m = owned("小红书创作中心接口 URL 无效: ");
            push_str(&mut m, e.as_str());
            Err(m)
        },
    }
}

/// An integer that fits `i64`, or trimmed text that parses
/// as one.
pub open spec fn signed_count_spec(v: JsonValue, key: Seq<char>) -> Option<i64> {
    match jget(v, key) {
        Some(x) => match ji64(x) {
            Some(n) => Some(n),
            None => match x {
                JsonValue::String(t) => parse_i64(trim(t@)),
                _ => None,
            },
        },
        None => None,
    }
}

/// A signed count under `key`.
pub fn signed_count(value: &JsonValue, key: &str) -> (r: Option<i64>)
    ensures
        r == signed_count_spec(*value, key@),
{
    match value.get(key) {
        Some(x) => match x.as_i64() {
            Some(n) => Some(n),
            None => match x {
                JsonValue::String(t) => parse_i64_str(trim_str(t.as_str()).as_str()),
                _ => None,
            },
        },
        None => None,
    }
}

pub open spec fn unsigned_count_spec(v: JsonValue, key: Seq<char>) -> Option<u64> {
    match jget(v, key) {
        Some(x) => count_value(x, seq![]),
        None => None,
    }
}

/// A count under `key`, read as `parse_count_value` reads it.
pub fn unsigned_count(value: &JsonValue, key: &str) -> (r: Option<u64>)
    ensures
        r == unsigned_count_spec(*value, key@),
{
    let none: [&str; 0] = [];
    assert(none@ =~= Seq::<&str>::empty());
    match value.get(key) {
        Some(x) => parse_count_value(x, &none),
        None => None,
    }
}

/// "-" for no change, else the signed change with "%".
pub open spec fn trend_text_spec(v: JsonValue, key: Seq<char>) -> Option<Seq<char>> {
    match signed_count_spec(v, key) {
        Some(n) => Some(if n == 0 { "-"@ } else if n > 0 { "+"@ + dec(n as nat) + "%"@ } else { dec_signed(n as int) + "%"@ }),
        None => None,
    }
}

/// The period-on-period change under `key`, as "+12%", "-3%" or "-".
pub fn trend_text(value: &JsonValue, key: &str) -> (r: Option<String>)
    ensures
        opt_string_view(r) == trend_text_spec(*value, key@),
{
    let n = match signed_count(value, key) { Some(n) => n, None => return None };
    if n == 0 {
        return Some(owned("-"));
    }
    let mut out = if n > 0 { owned("+") } else { String::new() };
    push_str(&mut out, i64_to_string(n).as_str());
    push_str(&mut out, "%");
    proof {
        if n > 0 {
            assert(dec_signed(n as int) == dec(n as nat));
        }
    }
    Some(out)
}

/// A count in decimal.
pub fn number_text(value: u64) -> (r: String)
    ensures
        r@ == dec(value as nat),
{
    u64_to_string(value)
}

/// A signed count in decimal.
pub fn signed_number_text(value: i64) -> (r: String)
    ensures
        r@ == dec_signed(value as int),
{
    i64_to_string(value)
}

/// A figure compared with the previous period; the tone
/// follows the trend's sign.
pub open spec fn tone_of(trend: Option<Seq<char>>) -> Option<Seq<char>> {
    match trend {
        Some(t) => if starts_with(t, "-"@) { Some("down"@) } else if starts_with(t, "+"@) { Some("up"@) } else { None },
        None => None,
    }
}

/// An overview figure compared "环比" with its trend and the tone the
/// trend's sign gives.
pub fn overview_metric(key: &str, label: &str, value: Option<String>, trend: Option<String>) -> (r: ChannelOverviewMetric)
    ensures
        r.key@ == key@,
        r.label@ == label@,
        opt_string_view(r.value) == opt_string_view(value),
        opt_string_view(r.compare_label) == Some("环比"@),
        opt_string_view(r.trend) == opt_string_view(trend),
        opt_string_view(r.tone) == tone_of(opt_string_view(trend)),
{
    let tone = match &trend {
        Some(t) => if str_starts_with(t.as_str(), "-") {
            Some(owned("down"))
        } else if str_starts_with(t.as_str(), "+") {
            Some(owned("up"))
        } else {
            None
        },
        None => None,
    };
    ChannelOverviewMetric {
        key: owned(key),
        label: owned(label),
        value,
        compare_label: Some(owned("环比")),
        trend,
        tone,
    }
}

/// Where a fallback overview figure comes from.
#[derive(Debug, Clone, Copy, PartialEq, Eq, Structural)]
pub enum XhsFallbackMetricSource {
    Empty,
    NoteCount,
    NetFans,
    RiseFans,
    LeaveFans,
}

/// An overview figure read from the note and fan summaries when the data
/// center gives none.
#[derive(Debug, Clone, Copy)]
pub struct XhsFallbackMetricSpec {
    pub key: &'static str,
    pub label: &'static str,
    pub source: XhsFallbackMetricSource,
    pub value_key: Option<&'static str>,
    pub trend_key: Option<&'static str>,
}

impl XhsFallbackMetricSpec {
    /// A figure with no source.
    pub fn empty(key: &'static str, label: &'static str) -> (r: Self)
        ensures
            r.key == key && r.label == label && r.source == XhsFallbackMetricSource::Empty
                && r.value_key is None && r.trend_key is None,
    {
        XhsFallbackMetricSpec { key, label, source: XhsFallbackMetricSource::Empty, value_key: None, trend_key: None }
    }

    /// A figure from the note summary, with its trend.
    pub fn note_count(key: &'static str, label: &'static str, value_key: &'static str, trend_key: &'static str) -> (r: Self)
        ensures
            r.key == key && r.label == label && r.source == XhsFallbackMetricSource::NoteCount
                && r.value_key == Some(value_key) && r.trend_key == Some(trend_key),
    {
        XhsFallbackMetricSpec { key, label, source: XhsFallbackMetricSource::NoteCount, value_key: Some(value_key), trend_key: Some(trend_key) }
    }

    /// The net change of followers.
    pub fn net_fans(key: &'static str, label: &'static str) -> (r: Self)
        ensures
            r.key == key && r.label == label && r.source == XhsFallbackMetricSource::NetFans
                && r.value_key is None && r.trend_key is None,
    {
        XhsFallbackMetricSpec { key, label, source: XhsFallbackMetricSource::NetFans, value_key: None, trend_key: None }
    }

    /// New followers.
    pub fn rise_fans(key: &'static str, label: &'static str) -> (r: Self)
        ensures
            r.key == key && r.label == label && r.source == XhsFallbackMetricSource::RiseFans
                && r.value_key is None && r.trend_key is None,
    {
        XhsFallbackMetricSpec { key, label, source: XhsFallbackMetricSource::RiseFans, value_key: None, trend_key: None }
    }

    /// Lost followers.
    pub fn leave_fans(key: &'static str, label: &'static str) -> (r: Self)
        ensures
            r.key == key && r.label == label && r.source == XhsFallbackMetricSource::LeaveFans
                && r.value_key is None && r.trend_key is None,
    {
        XhsFallbackMetricSpec { key, label, source: XhsFallbackMetricSource::LeaveFans, value_key: None, trend_key: None }
    }
}

pub open spec fn signed_text(v: Option<i64>) -> Option<Seq<char>> {
    match v { Some(n) => Some(dec_signed(n as int)), None => None }
}

/// Value and trend of a fallback figure.
pub open spec fn fallback_value_spec(note: Option<JsonValue>, spec: XhsFallbackMetricSpec, rise: Option<i64>, leave: Option<i64>, net: Option<i64>) -> Option<Seq<char>> {
    match spec.source {
        XhsFallbackMetricSource::Empty => None,
        XhsFallbackMetricSource::NoteCount => match (spec.value_key, note) {
            (Some(k), Some(n)) => match unsigned_count_spec(n, k@) { Some(c) => Some(dec(c as nat)), None => None },
            _ => None,
        },
        XhsFallbackMetricSource::NetFans => signed_text(net),
        XhsFallbackMetricSource::RiseFans => signed_text(rise),
        XhsFallbackMetricSource::LeaveFans => signed_text(leave),
    }
}

pub open spec fn fallback_trend_spec(note: Option<JsonValue>, spec: XhsFallbackMetricSpec) -> Option<Seq<char>> {
    match spec.source {
        XhsFallbackMetricSource::NoteCount => match (spec.trend_key, note) {
            (Some(k), Some(n)) => trend_text_spec(n, k@),
            _ => None,
        },
        _ => None,
    }
}

/// One fallback overview figure.
pub fn xhs_fallback_overview_metric(
    note: Option<&JsonValue>,
    spec: &XhsFallbackMetricSpec,
    rise_fans: Option<i64>,
    leave_fans: Option<i64>,
    net_fans: Option<i64>,
) -> (r: ChannelOverviewMetric)
    ensures
        r.key@ == spec.key@,
        r.label@ == spec.label@,
        opt_string_view(r.value) == fallback_value_spec(opt_ref(note), *spec, rise_fans, leave_fans, net_fans),
        opt_string_view(r.compare_label) == Some("环比"@),
        opt_string_view(r.trend) == fallback_trend_spec(opt_ref(note), *spec),
        opt_string_view(r.tone) == tone_of(fallback_trend_spec(opt_ref(note), *spec)),
{
    let signed = |v: Option<i64>| -> (t: Option<String>)
        ensures
            opt_string_view(t) == signed_text(v),
    {
        match v { Some(n) => Some(signed_number_text(n)), None => None }
    };
    let value = match spec.source {
        XhsFallbackMetricSource::Empty => None,
        XhsFallbackMetricSource::NoteCount => match (spec.value_key, note) {
            (Some(k), Some(n)) => match unsigned_count(n, k) { Some(c) => Some(number_text(c)), None => None },
            _ => None,
        },
        XhsFallbackMetricSource::NetFans => signed(net_fans),
        XhsFallbackMetricSource::RiseFans => signed(rise_fans),
        XhsFallbackMetricSource::LeaveFans => signed(leave_fans),
    };
    let trend = match spec.source {
        XhsFallbackMetricSource::NoteCount => match (spec.trend_key, note) {
            (Some(k), Some(n)) => trend_text(n, k),
            _ => None,
        },
        _ => None,
    };
    overview_metric(spec.key, spec.label, value, trend)
}

/// The net change of followers: new minus lost, new alone where lost is
/// missing.
pub open spec fn net_fans_spec(rise: Option<i64>, leave: Option<i64>) -> Option<int> {
    match (rise, leave) {
        (Some(r), Some(l)) => Some(r - l),
        (Some(r), None) => Some(r as int),
        _ => None,
    }
}

pub open spec fn fallback_specs() -> Seq<XhsFallbackMetricSpec> {
    seq![
        XhsFallbackMetricSpec { key: "impressions", label: "曝光数", source: XhsFallbackMetricSource::Empty, value_key: None, trend_key: None },
        XhsFallbackMetricSpec { key: "views", label: "观看数", source: XhsFallbackMetricSource::NoteCount, value_key: Some("view_count"), trend_key: Some("view_count_rate") },
        XhsFallbackMetricSpec { key: "likes", label: "点赞数", source: XhsFallbackMetricSource::NoteCount, value_key: Some("like_count"), trend_key: Some("like_count_rate") },
        XhsFallbackMetricSpec { key: "comments", label: "评论数", source: XhsFallbackMetricSource::NoteCount, value_key: Some("comment_count"), trend_key: Some("comment_count_rate") },
        XhsFallbackMetricSpec { key: "netFans", label: "净涨粉", source: XhsFallbackMetricSource::NetFans, value_key: None, trend_key: None },
        XhsFallbackMetricSpec { key: "newFollows", label: "新增关注", source: XhsFallbackMetricSource::RiseFans, value_key: None, trend_key: None },
        XhsFallbackMetricSpec { key: "coverClickRate", label: "封面点击率", source: XhsFallbackMetricSource::Empty, value_key: None, trend_key: None },
        XhsFallbackMetricSpec { key: "completionRate", label: "视频完播率", source: XhsFallbackMetricSource::Empty, value_key: None, trend_key: None },
        XhsFallbackMetricSpec { key: "collects", label: "收藏数", source: XhsFallbackMetricSource::NoteCount, value_key: Some("collect_count"), trend_key: Some("collect_count_rate") },
        XhsFallbackMetricSpec { key: "shares", label: "分享数", source: XhsFallbackMetricSource::NoteCount, value_key: Some("share_count"), trend_key: Some("share_count_rate") },
        XhsFallbackMetricSpec { key: "unfollows", label: "取消关注", source: XhsFallbackMetricSource::LeaveFans, value_key: None, trend_key: None },
        XhsFallbackMetricSpec { key: "homepageVisitors", label: "主页访客", source: XhsFallbackMetricSource::NoteCount, value_key: Some("home_view_count"), trend_key: Some("home_view_count_rate") },
    ]
}

/// A figure as `xhs_fallback_overview_metric` makes it for `spec`.
pub open spec fn fallback_metric_ok(m: ChannelOverviewMetric, note: Option<JsonValue>, spec: XhsFallbackMetricSpec, rise: Option<i64>, leave: Option<i64>, net: Option<i64>) -> bool {
    &&& m.key@ == spec.key@
    &&& m.label@ == spec.label@
    &&& opt_string_view(m.value) == fallback_value_spec(note, spec, rise, leave, net)
    &&& opt_string_view(m.trend) == fallback_trend_spec(note, spec)
    &&& opt_string_view(m.tone) == tone_of(fallback_trend_spec(note, spec))
    &&& opt_string_view(m.compare_label) == Some("环比"@)
}

pub open spec fn fans_count(fans: Option<JsonValue>, key: Seq<char>) -> Option<i64> {
    match fans { Some(f) => signed_count_spec(f, key), None => None }
}

/// The net change of followers, as an `i64`.
pub open spec fn net_fans_i64(fans: Option<JsonValue>) -> Option<i64> {
    match net_fans_spec(fans_count(fans, "rise_fans_count"@), fans_count(fans, "leave_fans_count"@)) {
        Some(n) => Some(n as i64),
        None => None,
    }
}

/// Whether the net change of followers fits an `i64`, as the overview
/// figures need.
pub fn xhs_net_fans_fits(fans: Option<&JsonValue>) -> (r: bool)
    ensures
        r == match net_fans_spec(fans_count(opt_ref(fans), "rise_fans_count"@), fans_count(opt_ref(fans), "leave_fans_count"@)) {
            Some(n) => i64::MIN <= n <= i64::MAX,
            None => true,
        },
{
    let rise = match fans { Some(f) => signed_count(f, "rise_fans_count"), None => None };
    let leave = match fans { Some(f) => signed_count(f, "leave_fans_count"), None => None };
    match (rise, leave) {
        (Some(r), Some(l)) => r.checked_sub(l).is_some(),
        _ => true,
    }
}

/// The overview figures read from the note summary and the fan summary,
/// one for each fallback figure, in order.
pub fn xhs_fallback_overview_metrics(note: Option<&JsonValue>, fans: Option<&JsonValue>) -> (r: Vec<ChannelOverviewMetric>)
    requires
        match net_fans_spec(fans_count(opt_ref(fans), "rise_fans_count"@), fans_count(opt_ref(fans), "leave_fans_count"@)) {
            Some(n) => i64::MIN <= n <= i64::MAX,
            None => true,
        },
    ensures
        r@.len() == fallback_specs().len(),
        forall|i: int| 0 <= i < r@.len() ==> fallback_metric_ok(#[trigger] r@[i], opt_ref(note), fallback_specs()[i],
            fans_count(opt_ref(fans), "rise_fans_count"@), fans_count(opt_ref(fans), "leave_fans_count"@), net_fans_i64(opt_ref(fans))),
{
    let rise = match fans { Some(f) => signed_count(f, "rise_fans_count"), None => None };
    let leave = match fans { Some(f) => signed_count(f, "leave_fans_count"), None => None };
    let net = match (rise, leave) {
        (Some(r), Some(l)) => Some(r - l),
        (Some(r), None) => Some(r),
        _ => None,
    };
    let specs: [XhsFallbackMetricSpec; 12] = [
        XhsFallbackMetricSpec::empty("impressions", "曝光数"),
        XhsFallbackMetricSpec::note_count("views", "观看数", "view_count", "view_count_rate"),
        XhsFallbackMetricSpec::note_count("likes", "点赞数", "like_count", "like_count_rate"),
        XhsFallbackMetricSpec::note_count("comments", "评论数", "comment_count", "comment_count_rate"),
        XhsFallbackMetricSpec::net_fans("netFans", "净涨粉"),
        XhsFallbackMetricSpec::rise_fans("newFollows", "新增关注"),
        XhsFallbackMetricSpec::empty("coverClickRate", "封面点击率"),
        XhsFallbackMetricSpec::empty("completionRate", "视频完播率"),
        XhsFallbackMetricSpec::note_count("collects", "收藏数", "collect_count", "collect_count_rate"),
        XhsFallbackMetricSpec::note_count("shares", "分享数", "share_count", "share_count_rate"),
        XhsFallbackMetricSpec::leave_fans("unfollows", "取消关注"),
        XhsFallbackMetricSpec::note_count("homepageVisitors", "主页访客", "home_view_count", "home_view_count_rate"),
    ];
    assert(specs@ =~= fallback_specs());
    let ghost rise_s = fans_count(opt_ref(fans), "rise_fans_count"@);
    let ghost leave_s = fans_count(opt_ref(fans), "leave_fans_count"@);
    assert(rise == rise_s && leave == leave_s);
    assert(net == net_fans_i64(opt_ref(fans)));
    let mut out: Vec<ChannelOverviewMetric> = Vec::new();
    let mut i: usize = 0;
    while i < 12
        invariant
            i <= 12,
            specs@ == fallback_specs(),
            rise == rise_s,
            leave == leave_s,
            net == net_fans_i64(opt_ref(fans)),
            out@.len() == i,
            forall|k: int| 0 <= k < i ==> fallback_metric_ok(#[trigger] out@[k], opt_ref(note), fallback_specs()[k], rise_s, leave_s, net),
        decreases 12 - i,
    {
        let m = xhs_fallback_overview_metric(note, &specs[i], rise, leave, net);
        assert(specs@[i as int] == fallback_specs()[i as int]);
        assert(fallback_metric_ok(m, opt_ref(note), fallback_specs()[i as int], rise_s, leave_s, net));
        let ghost before = out@;
        out.push(m);
        assert forall|k: int| 0 <= k < i + 1 implies fallback_metric_ok(#[trigger] out@[k], opt_ref(note), fallback_specs()[k], rise_s, leave_s, net) by {
            if k < i {
                assert(out@[k] == before[k]);
            }
        }
        i += 1;
    }
    out
}

/// How a data-center figure's value is shown.
#[derive(Debug, Clone, Copy, PartialEq, Eq, Structural)]
pub enum XhsMetricValueKind {
    Count,
    SignedCount,
    Percent,
}

/// A data-center overview figure: its key and label, the fields of its
/// value and trend, the flag that says whether the trend is shown, and how
/// the value is shown.
#[derive(Debug, Clone, Copy)]
pub struct XhsDatacenterMetricSpec {
    pub key: &'static str,
    pub label: &'static str,
    pub value_key: &'static str,
    pub trend_key: &'static str,
    pub trend_display_key: &'static str,
    pub value_kind: XhsMetricValueKind,
}

impl XhsDatacenterMetricSpec {
    /// A figure shown as a count.
    pub fn count(key: &'static str, label: &'static str, value_key: &'static str, trend_key: &'static str, trend_display_key: &'static str) -> (r: Self)
        ensures
            r.key == key && r.label == label && r.value_key == value_key && r.trend_key == trend_key
                && r.trend_display_key == trend_display_key && r.value_kind == XhsMetricValueKind::Count,
    {
        XhsDatacenterMetricSpec { key, label, value_key, trend_key, trend_display_key, value_kind: XhsMetricValueKind::Count }
    }

    /// A figure shown as a signed count.
    pub fn signed_count(key: &'static str, label: &'static str, value_key: &'static str, trend_key: &'static str, trend_display_key: &'static str) -> (r: Self)
        ensures
            r.key == key && r.label == label && r.value_key == value_key && r.trend_key == trend_key
                && r.trend_display_key == trend_display_key && r.value_kind == XhsMetricValueKind::SignedCount,
    {
        XhsDatacenterMetricSpec { key, label, value_key, trend_key, trend_display_key, value_kind: XhsMetricValueKind::SignedCount }
    }

    /// A figure shown as a percentage.
    pub fn percent(key: &'static str, label: &'static str, value_key: &'static str, trend_key: &'static str, trend_display_key: &'static str) -> (r: Self)
        ensures
            r.key == key && r.label == label && r.value_key == value_key && r.trend_key == trend_key
                && r.trend_display_key == trend_display_key && r.value_kind == XhsMetricValueKind::Percent,
    {
        XhsDatacenterMetricSpec { key, label, value_key, trend_key, trend_display_key, value_kind: XhsMetricValueKind::Percent }
    }
}

/// The audience a visibility text or code names;
/// another short text only where it says "可见".
pub open spec fn xhs_visibility_spec(value: Seq<char>) -> Option<Seq<char>> {
    let t = trim(value);
    let l = lower(t);
    if t.len() == 0 {
        None
    } else if contains(t, "公开"@) || contains(l, "public"@) {
        Some("公开"@)
    } else if contains(t, "仅自己"@) || contains(t, "私密"@) || contains(t, "隐藏"@) || contains(l, "private"@) || contains(l, "only_me"@) {
        Some("仅自己可见"@)
    } else if contains(t, "关注"@) || contains(l, "follow"@) {
        Some("关注可见"@)
    } else if contains(t, "好友"@) || contains(l, "friend"@) {
        Some("好友可见"@)
    } else if t == "0"@ {
        Some("公开"@)
    } else if t == "1"@ {
        Some("仅自己可见"@)
    } else if t == "2"@ {
        Some("关注可见"@)
    } else if t == "3"@ {
        Some("好友可见"@)
    } else if t.len() <= 12 && contains(t, "可见"@) {
        Some(t)
    } else {
        None
    }
}

/// The visibility shown for a note's visibility text or code.
pub fn xhs_visibility_label(value: &str) -> (r: Option<String>)
    ensures
        opt_string_view(r) == xhs_visibility_spec(value@),
{
    if is_blank(value) {
        return None;
    }
    let t = trim_str(value);
    let l = lower_str(t.as_str());
    let t = t.as_str();
    let l = l.as_str();
    if str_contains(t, "公开") || str_contains(l, "public") {
        return Some(owned("公开"));
    }
    if str_contains(t, "仅自己") || str_contains(t, "私密") || str_contains(t, "隐藏") || str_contains(l, "private") || str_contains(l, "only_me") {
        return Some(owned("仅自己可见"));
    }
    if str_contains(t, "关注") || str_contains(l, "follow") {
        return Some(owned("关注可见"));
    }
    if str_contains(t, "好友") || str_contains(l, "friend") {
        return Some(owned("好友可见"));
    }
    if str_eq(t, "0") {
        Some(owned("公开"))
    } else if str_eq(t, "1") {
        Some(owned("仅自己可见"))
    } else if str_eq(t, "2") {
        Some(owned("关注可见"))
    } else if str_eq(t, "3") {
        Some(owned("好友可见"))
    } else if chars_of(t).len() <= 12 && str_contains(t, "可见") {
        Some(owned(t))
    } else {
        None
    }
}

pub open spec fn xhs_visibility_keys() -> Seq<&'static str> {
    seq![
        "visibility", "visible_type", "visibleType", "visible_status", "visibleStatus", "privacy",
        "privacy_type", "privacyType", "private_status", "privateStatus", "permission",
        "permission_type", "permissionType",
    ]
}

pub open spec fn xhs_visibility_badge_spec(v: JsonValue) -> Option<Seq<char>> {
    match text_deep(v, xhs_visibility_keys(), true) {
        Some(t) => xhs_visibility_spec(t),
        None => None,
    }
}

/// The visibility badge of a note, from its visibility, privacy or
/// permission field.
pub fn xhs_visibility_badge(value: &JsonValue) -> (r: Option<String>)
    ensures
        opt_string_view(r) == xhs_visibility_badge_spec(*value),
{
    let keys: [&str; 13] = [
        "visibility", "visible_type", "visibleType", "visible_status", "visibleStatus", "privacy",
        "privacy_type", "privacyType", "private_status", "privateStatus", "permission",
        "permission_type", "permissionType",
    ];
    assert(keys@ =~= xhs_visibility_keys());
    match string_or_number_deep(value, &keys, true) {
        Some(t) => xhs_visibility_label(t.as_str()),
        None => None,
    }
}

/// Some of `ks` holds a true flag in `v`.
pub open spec fn truthy_keys(v: JsonValue, ks: Seq<&str>) -> bool
    decreases ks.len(),
{
    ks.len() > 0 && (
        (match jget(v, ks[0]@) { Some(x) => value_to_bool_spec(x) == Some(true), None => false })
        || truthy_keys(v, ks.drop_first()))
}

/// A true flag under one of `keys`, at any depth.
pub open spec fn truthy_deep(v: JsonValue, keys: Seq<&str>) -> bool
    decreases v, 1int,
{
    match v {
        JsonValue::Object(es) => truthy_keys(v, keys) || truthy_entries(es@, keys),
        JsonValue::Array(items) => truthy_items(items@, keys),
        _ => false,
    }
}

pub open spec fn truthy_items(s: Seq<JsonValue>, keys: Seq<&str>) -> bool
    decreases s, 0int,
{
    s.len() > 0 && (truthy_deep(s[0], keys) || truthy_items(s.drop_first(), keys))
}

pub open spec fn truthy_entries(s: Seq<(String, JsonValue)>, keys: Seq<&str>) -> bool
    decreases s, 0int,
{
    s.len() > 0 && (truthy_deep(s[0].1, keys) || truthy_entries(s.drop_first(), keys))
}

/// Whether a true flag sits under one of `keys` anywhere in `value`.
#[verifier::spinoff_prover]
pub fn any_truthy_deep(value: &JsonValue, keys: &[&str]) -> (r: bool)
    ensures
        r == truthy_deep(*value, keys@),
    decreases value, 1int,
{
    match value {
        JsonValue::Array(items) => any_truthy_items(items, keys),
        JsonValue::Object(es) => {
            let mut i: usize = 0;
            assert(keys@.skip(0) =~= keys@);
            while i < keys.len()
                invariant
                    i <= keys@.len(),
                    truthy_keys(*value, keys@) == truthy_keys(*value, keys@.skip(i as int)),
                decreases keys@.len() - i,
            {
                proof {
                    assert(keys@.skip(i as int).drop_first() =~= keys@.skip(i + 1));
                    assert(keys@.skip(i as int)[0] == keys@[i as int]);
                }
                if let Some(x) = value.get(keys[i]) {
                    if value_to_bool(x) == Some(true) {
                        return true;
                    }
                }
                i += 1;
            }
            let mut j: usize = 0;
            assert(es@.skip(0) =~= es@);
            while j < es.len()
                invariant
                    j <= es@.len(),
                    *value == JsonValue::Object(*es),
                    !truthy_keys(*value, keys@),
                    truthy_entries(es@, keys@) == truthy_entries(es@.skip(j as int), keys@),
                decreases es@.len() - j,
            {
                proof {
                    assert(es@.skip(j as int).drop_first() =~= es@.skip(j + 1));
                    assert(es@.skip(j as int)[0] == es@[j as int]);
                }
                if any_truthy_deep(&es[j].1, keys) {
                    return true;
                }
                j += 1;
            }
            false
        },
        _ => false,
    }
}

/// Some of `ks` holds, in `v`, a text that contains `needle`.
pub open spec fn contains_keys(v: JsonValue, ks: Seq<&str>, needle: Seq<char>) -> bool
    decreases ks.len(),
{
    ks.len() > 0 && (
        (match jget(v, ks[0]@) {
            Some(x) => match field_text_spec(x, true) { Some(t) => contains(t, needle), None => false },
            None => false,
        })
        || contains_keys(v, ks.drop_first(), needle))
}

/// A text containing `needle` under one of `keys`,
/// at any depth.
pub open spec fn contains_deep(v: JsonValue, keys: Seq<&str>, needle: Seq<char>) -> bool
    decreases v, 1int,
{
    match v {
        JsonValue::Object(es) => contains_keys(v, keys, needle) || contains_entries(es@, keys, needle),
        JsonValue::Array(items) => contains_items(items@, keys, needle),
        _ => false,
    }
}

pub open spec fn contains_items(s: Seq<JsonValue>, keys: Seq<&str>, needle: Seq<char>) -> bool
    decreases s, 0int,
{
    s.len() > 0 && (contains_deep(s[0], keys, needle) || contains_items(s.drop_first(), keys, needle))
}

pub open spec fn contains_entries(s: Seq<(String, JsonValue)>, keys: Seq<&str>, needle: Seq<char>) -> bool
    decreases s, 0int,
{
    s.len() > 0 && (contains_deep(s[0].1, keys, needle) || contains_entries(s.drop_first(), keys, needle))
}

fn xhs_text(value: &JsonValue) -> (r: Option<String>)
    ensures
        opt_string_view(r) == field_text_spec(*value, true),
{
    match value {
        JsonValue::Bool(b) => Some(if *b { owned("true") } else { owned("false") }),
        _ => value_to_text(value),
    }
}

/// Whether a text containing `needle` sits under one of `keys` anywhere in
/// `value`.
#[verifier::spinoff_prover]
pub fn any_text_contains_deep(value: &JsonValue, keys: &[&str], needle: &str) -> (r: bool)
    ensures
        r == contains_deep(*value, keys@, needle@),
    decreases value, 1int,
{
    match value {
        JsonValue::Array(items) => any_text_contains_items(items, keys, needle),
        JsonValue::Object(es) => {
            let mut i: usize = 0;
            assert(keys@.skip(0) =~= keys@);
            while i < keys.len()
                invariant
                    i <= keys@.len(),
                    contains_keys(*value, keys@, needle@) == contains_keys(*value, keys@.skip(i as int), needle@),
                decreases keys@.len() - i,
            {
                proof {
                    assert(keys@.skip(i as int).drop_first() =~= keys@.skip(i + 1));
                    assert(keys@.skip(i as int)[0] == keys@[i as int]);
                }
                if let Some(x) = value.get(keys[i]) {
                    if let Some(t) = xhs_text(x) {
                        if str_contains(t.as_str(), needle) {
                            return true;
                        }
                    }
                }
                i += 1;
            }
            let mut j: usize = 0;
            assert(es@.skip(0) =~= es@);
            while j < es.len()
                invariant
                    j <= es@.len(),
                    *value == JsonValue::Object(*es),
                    !contains_keys(*value, keys@, needle@),
                    contains_entries(es@, keys@, needle@) == contains_entries(es@.skip(j as int), keys@, needle@),
                decreases es@.len() - j,
            {
                proof {
                    assert(es@.skip(j as int).drop_first() =~= es@.skip(j + 1));
                    assert(es@.skip(j as int)[0] == es@[j as int]);
                }
                if any_text_contains_deep(&es[j].1, keys, needle) {
                    return true;
                }
                j += 1;
            }
            false
        },
        _ => false,
    }
}

fn any_truthy_items(items: &Vec<JsonValue>, keys: &[&str]) -> (r: bool)
    ensures
        r == truthy_items(items@, keys@),
    decreases items, 0int,
{
    let mut i: usize = 0;
    assert(items@.skip(0) =~= items@);
    while i < items.len()
        invariant
            i <= items@.len(),
            truthy_items(items@, keys@) == truthy_items(items@.skip(i as int), keys@),
        decreases items@.len() - i,
    {
        proof {
            assert(items@.skip(i as int).drop_first() =~= items@.skip(i + 1));
            assert(items@.skip(i as int)[0] == items@[i as int]);
        }
        let found = any_truthy_deep(&items[i], keys);
        if found {
            return true;
        }
        i += 1;
    }
    false
}

fn any_text_contains_items(items: &Vec<JsonValue>, keys: &[&str], needle: &str) -> (r: bool)
    ensures
        r == contains_items(items@, keys@, needle@),
    decreases items, 0int,
{
    let mut i: usize = 0;
    assert(items@.skip(0) =~= items@);
    while i < items.len()
        invariant
            i <= items@.len(),
            contains_items(items@, keys@, needle@) == contains_items(items@.skip(i as int), keys@, needle@),
        decreases items@.len() - i,
    {
        proof {
            assert(items@.skip(i as int).drop_first() =~= items@.skip(i + 1));
            assert(items@.skip(i as int)[0] == items@[i as int]);
        }
        let found = any_text_contains_deep(&items[i], keys, needle);
        if found {
            return true;
        }
        i += 1;
    }
    false
}

pub open spec fn pinned_bool_keys() -> Seq<&'static str> {
    seq!["is_top", "isTop", "top", "is_pinned", "isPinned", "pinned", "is_sticky", "isSticky", "sticky", "is_stick", "isStick", "stick", "is_top_note", "isTopNote", "top_note", "topNote", "top_status", "topStatus", "sticky_status", "stickyStatus", "pinned_status", "pinnedStatus", "pin", "is_pin", "isPin", "is_pinned_note", "isPinnedNote", "pinned_note", "pinnedNote", "stick_status", "stickStatus", "is_note_top", "isNoteTop", "note_top", "noteTop", "show_top", "showTop", "top_flag", "topFlag", "is_top_flag", "isTopFlag"]
}

pub open spec fn pinned_text_keys() -> Seq<&'static str> {
    seq!["label_top_text", "labelTopText", "top_label", "topLabel", "top_text", "topText", "tag_text", "tagText", "tag_name", "tagName", "tag_title", "tagTitle", "label", "label_text", "labelText", "label_name", "labelName", "status_text", "statusText", "note_status_text", "noteStatusText", "type_name", "typeName"]
}

/// Pinned (by a flag or a label saying "置顶"), then the
/// visibility, each once.
pub open spec fn xhs_badges_spec(v: JsonValue) -> Seq<Seq<char>> {
    let a: Seq<Seq<char>> = if truthy_deep(v, pinned_bool_keys()) || contains_deep(v, pinned_text_keys(), "置顶"@) {
        push_unique_spec(seq![], "置顶"@)
    } else {
        seq![]
    };
    match xhs_visibility_badge_spec(v) {
        Some(l) => push_unique_spec(a, l),
        None => a,
    }
}

/// The badges of a note: "置顶" when it is pinned, and its visibility.
pub fn xhs_work_badges(value: &JsonValue) -> (r: Vec<String>)
    ensures
        strings_view(r@) == xhs_badges_spec(*value),
{
    let bool_keys: [&str; 41] = ["is_top", "isTop", "top", "is_pinned", "isPinned", "pinned", "is_sticky", "isSticky", "sticky", "is_stick", "isStick", "stick", "is_top_note", "isTopNote", "top_note", "topNote", "top_status", "topStatus", "sticky_status", "stickyStatus", "pinned_status", "pinnedStatus", "pin", "is_pin", "isPin", "is_pinned_note", "isPinnedNote", "pinned_note", "pinnedNote", "stick_status", "stickStatus", "is_note_top", "isNoteTop", "note_top", "noteTop", "show_top", "showTop", "top_flag", "topFlag", "is_top_flag", "isTopFlag"];
    assert(bool_keys@ =~= pinned_bool_keys());
    let text_keys: [&str; 23] = ["label_top_text", "labelTopText", "top_label", "topLabel", "top_text", "topText", "tag_text", "tagText", "tag_name", "tagName", "tag_title", "tagTitle", "label", "label_text", "labelText", "label_name", "labelName", "status_text", "statusText", "note_status_text", "noteStatusText", "type_name", "typeName"];
    assert(text_keys@ =~= pinned_text_keys());
    let mut badges: Vec<String> = Vec::new();
    assert(strings_view(badges@) =~= Seq::<Seq<char>>::empty());
    if any_truthy_deep(value, &bool_keys) || any_text_contains_deep(value, &text_keys, "置顶") {
        push_unique_badge(&mut badges, owned("置顶"));
    }
    match xhs_visibility_badge(value) {
        Some(l) => push_unique_badge(&mut badges, l),
        None => {},
    }
    badges
}

/// Whether a tag is open after the text `s` (the last of '<' and '>' in it
/// is '<').
pub open spec fn in_tag_after(s: Seq<char>) -> bool
    decreases s.len(),
{
    if s.len() == 0 {
        false
    } else if s.last() == '<' {
        true
    } else if s.last() == '>' {
        false
    } else {
        in_tag_after(s.drop_last())
    }
}

/// The characters of `s` outside tags ("<...>"), brackets removed.
pub open spec fn outside_tags(s: Seq<char>) -> Seq<char>
    decreases s.len(),
{
    if s.len() == 0 {
        s
    } else {
        let p = s.drop_last();
        let c = s.last();
        if c == '<' || c == '>' || in_tag_after(p) { outside_tags(p) } else { outside_tags(p).push(c) }
    }
}

/// Text with its HTML tags removed, trimmed.
pub fn strip_html(value: &str) -> (r: String)
    ensures
        r@ == trim(outside_tags(value@)),
{
    let v = chars_of(value);
    let mut out = String::new();
    let mut in_tag = false;
    let mut i: usize = 0;
    while i < v.len()
        invariant
            i <= v@.len(),
            v@ == value@,
            out@ == outside_tags(v@.take(i as int)),
            in_tag == in_tag_after(v@.take(i as int)),
        decreases v@.len() - i,
    {
        let ch = v[i];
        assert(v@.take(i + 1).drop_last() =~= v@.take(i as int));
        assert(v@.take(i + 1).last() == ch);
        if ch == '<' {
            in_tag = true;
        } else if ch == '>' {
            in_tag = false;
        } else if !in_tag {
            push_char(&mut out, ch);
        }
        i += 1;
    }
    assert(v@.take(v@.len() as int) =~= v@);
    trim_str(out.as_str())
}

/// Text as it is, or an integer in decimal.
pub open spec fn page_key_spec(v: JsonValue) -> Option<Seq<char>> {
    match v {
        JsonValue::String(s) => Some(s@),
        _ => match ji64(v) {
            Some(n) => Some(dec_signed(n as int)),
            None => match ju64(v) {
                Some(n) => Some(dec(n as nat)),
                None => None,
            },
        },
    }
}

/// The next-page cursor a response gives, as text.
pub fn page_key_from_value(value: &JsonValue) -> (r: Option<String>)
    ensures
        opt_string_view(r) == page_key_spec(*value),
{
    if let JsonValue::String(s) = value {
        return Some(s.clone());
    }
    match value.as_i64() {
        Some(n) => Some(i64_to_string(n)),
        None => match value.as_u64() {
            Some(n) => Some(u64_to_string(n)),
            None => None,
        },
    }
}

pub open spec fn unsigned_keys(v: JsonValue, ks: Seq<&str>) -> Option<u64>
    decreases ks.len(),
{
    if ks.len() == 0 {
        None
    } else {
        match unsigned_count_spec(v, ks[0]@) {
            Some(n) => Some(n),
            None => unsigned_keys(v, ks.drop_first()),
        }
    }
}

pub open spec fn signed_keys(v: JsonValue, ks: Seq<&str>) -> Option<i64>
    decreases ks.len(),
{
    if ks.len() == 0 {
        None
    } else {
        match signed_count_spec(v, ks[0]@) {
            Some(n) => Some(n),
            None => signed_keys(v, ks.drop_first()),
        }
    }
}

/// In the first of the values (skipping missing
/// ones) that has one, the count under the first of `keys` that has one.
pub open spec fn unsigned_direct(values: Seq<Option<&JsonValue>>, keys: Seq<&str>) -> Option<u64>
    decreases values.len(),
{
    if values.len() == 0 {
        None
    } else {
        match opt_ref(values[0]) {
            Some(v) if unsigned_keys(v, keys) is Some => unsigned_keys(v, keys),
            _ => unsigned_direct(values.drop_first(), keys),
        }
    }
}

pub open spec fn signed_direct(values: Seq<Option<&JsonValue>>, keys: Seq<&str>) -> Option<i64>
    decreases values.len(),
{
    if values.len() == 0 {
        None
    } else {
        match opt_ref(values[0]) {
            Some(v) if signed_keys(v, keys) is Some => signed_keys(v, keys),
            _ => signed_direct(values.drop_first(), keys),
        }
    }
}

fn unsigned_keys_exec(value: &JsonValue, keys: &[&str]) -> (r: Option<u64>)
    ensures
        r == unsigned_keys(*value, keys@),
{
    let mut i: usize = 0;
    assert(keys@.skip(0) =~= keys@);
    while i < keys.len()
        invariant
            i <= keys@.len(),
            unsigned_keys(*value, keys@) == unsigned_keys(*value, keys@.skip(i as int)),
        decreases keys@.len() - i,
    {
        proof {
            assert(keys@.skip(i as int).drop_first() =~= keys@.skip(i + 1));
            assert(keys@.skip(i as int)[0] == keys@[i as int]);
        }
        let found = unsigned_count(value, keys[i]);
        if found.is_some() {
            return found;
        }
        i += 1;
    }
    None
}

fn signed_keys_exec(value: &JsonValue, keys: &[&str]) -> (r: Option<i64>)
    ensures
        r == signed_keys(*value, keys@),
{
    let mut i: usize = 0;
    assert(keys@.skip(0) =~= keys@);
    while i < keys.len()
        invariant
            i <= keys@.len(),
            signed_keys(*value, keys@) == signed_keys(*value, keys@.skip(i as int)),
        decreases keys@.len() - i,
    {
        proof {
            assert(keys@.skip(i as int).drop_first() =~= keys@.skip(i + 1));
            assert(keys@.skip(i as int)[0] == keys@[i as int]);
        }
        let found = signed_count(value, keys[i]);
        if found.is_some() {
            return found;
        }
        i += 1;
    }
    None
}

/// The first count directly under one of `keys` in the given values.
pub fn first_unsigned_direct(values: &[Option<&JsonValue>], keys: &[&str]) -> (r: Option<u64>)
    ensures
        r == unsigned_direct(values@, keys@),
{
    let mut i: usize = 0;
    assert(values@.skip(0) =~= values@);
    while i < values.len()
        invariant
            i <= values@.len(),
            unsigned_direct(values@, keys@) == unsigned_direct(values@.skip(i as int), keys@),
        decreases values@.len() - i,
    {
        proof {
            assert(values@.skip(i as int).drop_first() =~= values@.skip(i + 1));
            assert(values@.skip(i as int)[0] == values@[i as int]);
        }
        if let Some(v) = values[i] {
            let found = unsigned_keys_exec(v, keys);
            if found.is_some() {
                return found;
            }
        }
        i += 1;
    }
    None
}

/// The first signed count directly under one of `keys` in the given values.
pub fn first_signed_direct(values: &[Option<&JsonValue>], keys: &[&str]) -> (r: Option<i64>)
    ensures
        r == signed_direct(values@, keys@),
{
    let mut i: usize = 0;
    assert(values@.skip(0) =~= values@);
    while i < values.len()
        invariant
            i <= values@.len(),
            signed_direct(values@, keys@) == signed_direct(values@.skip(i as int), keys@),
        decreases values@.len() - i,
    {
        proof {
            assert(values@.skip(i as int).drop_first() =~= values@.skip(i + 1));
            assert(values@.skip(i as int)[0] == values@[i as int]);
        }
        if let Some(v) = values[i] {
            let found = signed_keys_exec(v, keys);
            if found.is_some() {
                return found;
            }
        }
        i += 1;
    }
    None
}

/// The value of the first entry of a decoded cookie list named exactly
/// `name` whose value is a string.
pub open spec fn exact_json_cookie(cookies: Seq<JsonValue>, name: Seq<char>) -> Option<Seq<char>>
    decreases cookies.len(),
{
    if cookies.len() == 0 {
        None
    } else {
        match (jget(cookies[0], "name"@), jget(cookies[0], "value"@)) {
            (Some(JsonValue::String(n)), Some(JsonValue::String(v))) if n@ == name => Some(v@),
            _ => exact_json_cookie(cookies.drop_first(), name),
        }
    }
}

/// The trimmed value of the first "name=value" part whose trimmed name is
/// exactly `name`.
pub open spec fn exact_pair_value(parts: Seq<Seq<char>>, name: Seq<char>) -> Option<Seq<char>>
    decreases parts.len(),
{
    if parts.len() == 0 {
        None
    } else {
        match split_once(trim(parts[0]), '=') {
            Some((n, v)) if trim(n) == name => Some(trim(v)),
            _ => exact_pair_value(parts.drop_first(), name),
        }
    }
}

/// From the decoded cookie list where the saved cookie
/// is one and names it, else from the cookie header.
pub open spec fn xhs_cookie_spec(login_cookie: Seq<char>, header: Seq<char>, name: Seq<char>, decoded: Option<JsonValue>) -> Option<Seq<char>> {
    let from_json = match decoded {
        Some(JsonValue::Array(cookies)) if starts_with(trim(login_cookie), "["@) => exact_json_cookie(cookies@, name),
        _ => None,
    };
    match from_json {
        Some(v) => Some(v),
        None => exact_pair_value(split(header, ';'), name),
    }
}

fn exact_json_cookie_exec(cookies: &Vec<JsonValue>, name: &str) -> (r: Option<String>)
    ensures
        opt_string_view(r) == exact_json_cookie(cookies@, name@),
{
    let mut i: usize = 0;
    assert(cookies@.skip(0) =~= cookies@);
    while i < cookies.len()
        invariant
            i <= cookies@.len(),
            exact_json_cookie(cookies@, name@) == exact_json_cookie(cookies@.skip(i as int), name@),
        decreases cookies@.len() - i,
    {
        proof {
            assert(cookies@.skip(i as int).drop_first() =~= cookies@.skip(i + 1));
            assert(cookies@.skip(i as int)[0] == cookies@[i as int]);
        }
        match (cookies[i].get("name"), cookies[i].get("value")) {
            (Some(JsonValue::String(n)), Some(JsonValue::String(v))) => {
                if str_eq(n.as_str(), name) {
                    return Some(v.clone());
                }
            },
            _ => {},
        }
        i += 1;
    }
    None
}

/// The value of cookie `name` for a Xiaohongshu login: from the saved JSON
/// cookie list (`decoded`, the trimmed saved cookie decoded as JSON) where
/// it is there, else from the cookie header.
pub fn xhs_cookie_value(login_cookie: &str, cookie_header: &str, name: &str, decoded: Option<&JsonValue>) -> (r: Option<String>)
    ensures
        opt_string_view(r) == xhs_cookie_spec(login_cookie@, cookie_header@, name@, opt_ref(decoded)),
{
    let t = trim_str(login_cookie);
    if str_starts_with(t.as_str(), "[") {
        if let Some(JsonValue::Array(cookies)) = decoded {
            let found = exact_json_cookie_exec(cookies, name);
            if found.is_some() {
                return found;
            }
        }
    }
    let parts = split_str(cookie_header, ';');
    let ghost pv = parts@.map_values(|x: String| x@);
    let mut i: usize = 0;
    assert(pv.skip(0) =~= pv);
    while i < parts.len()
        invariant
            i <= parts@.len(),
            pv == parts@.map_values(|x: String| x@),
            pv == split(cookie_header@, ';'),
            xhs_cookie_spec(login_cookie@, cookie_header@, name@, opt_ref(decoded)) == exact_pair_value(pv, name@),
            exact_pair_value(pv, name@) == exact_pair_value(pv.skip(i as int), name@),
        decreases parts@.len() - i,
    {
        proof {
            assert(pv.skip(i as int).drop_first() =~= pv.skip(i + 1));
            assert(pv.skip(i as int)[0] == parts@[i as int]@);
        }
        let p = trim_str(parts[i].as_str());
        match split_once_str(p.as_str(), '=') {
            Some((n, v)) => {
                let n = trim_str(n.as_str());
                if str_eq(n.as_str(), name) {
                    return Some(trim_str(v.as_str()));
                }
            },
            None => {},
        }
        i += 1;
    }
    None
}

/// A stored identifier without the "xhs_" prefix and the "_web" suffix
/// that earlier account ids carried.
pub open spec fn strip_xhs_affixes(v: Seq<char>) -> Seq<char> {
    let a = if starts_with(v, "xhs_"@) { v.skip(4) } else { v };
    if a.len() >= 4 && a.skip(a.len() - 4) == "_web"@ { a.take(a.len() - 4) } else { a }
}

/// The non-empty elements of `s`, in order.
pub open spec fn non_empty(s: Seq<Seq<char>>) -> Seq<Seq<char>>
    decreases s.len(),
{
    if s.len() == 0 {
        s
    } else if s.last().len() > 0 {
        non_empty(s.drop_last()).push(s.last())
    } else {
        non_empty(s.drop_last())
    }
}

/// The account's uid, nickname and id, then the
/// same without the old affixes, normalized, blanks dropped.
pub open spec fn xhs_match_values_spec(account: ChannelAccount) -> Seq<Seq<char>> {
    let vs = seq![account.uid@, account.nickname@, account.id@];
    let all = vs + vs.map_values(|v: Seq<char>| strip_xhs_affixes(v));
    non_empty(all.map_values(|v: Seq<char>| match_key(v)))
}

fn strip_xhs_affixes_exec(v: &str) -> (r: String)
    ensures
        r@ == strip_xhs_affixes(v@),
{
    let cs = chars_of(v);
    proof {
        reveal_strlit("xhs_");
        reveal_strlit("_web");
    }
    let lo: usize = if str_starts_with(v, "xhs_") { 4 } else { 0 };
    let a = crate::text::string_from_range(&cs, lo, cs.len());
    assert(a@ =~= (if starts_with(v@, "xhs_"@) { v@.skip(4) } else { v@ }));
    if crate::text::str_ends_with(a.as_str(), "_web") {
        let ac = chars_of(a.as_str());
        let r = crate::text::string_from_range(&ac, 0, ac.len() - 4);
        assert(r@ =~= a@.take(a@.len() - 4));
        r
    } else {
        a
    }
}

/// The normalized identifiers a saved Xiaohongshu account is matched by.
pub fn xhs_account_match_values(account: &ChannelAccount) -> (r: Vec<String>)
    ensures
        strings_view(r@) == xhs_match_values_spec(*account),
{
    let raw: [&str; 3] = [account.uid.as_str(), account.nickname.as_str(), account.id.as_str()];
    let ghost vs = seq![account.uid@, account.nickname@, account.id@];
    let ghost all = vs + vs.map_values(|v: Seq<char>| strip_xhs_affixes(v));
    let ghost keys = all.map_values(|v: Seq<char>| match_key(v));
    let mut values: Vec<String> = Vec::new();
    let mut k: usize = 0;
    while k < 6
        invariant
            k <= 6,
            raw@.len() == 3,
            forall|j: int| 0 <= j < 3 ==> raw@[j]@ == vs[j],
            vs.len() == 3,
            all.len() == 6,
            keys.len() == 6,
            all == vs + vs.map_values(|v: Seq<char>| strip_xhs_affixes(v)),
            keys == all.map_values(|v: Seq<char>| match_key(v)),
            strings_view(values@) == non_empty(keys.take(k as int)),
        decreases 6 - k,
    {
        let source = if k < 3 { owned(raw[k]) } else { strip_xhs_affixes_exec(raw[k - 3]) };
        assert(source@ == all[k as int]);
        let n = normalize_match_key(source.as_str());
        assert(n@ == keys[k as int]);
        assert(keys.take(k + 1).drop_last() =~= keys.take(k as int));
        assert(keys.take(k + 1).last() == keys[k as int]);
        if !n.as_str().is_empty() {
            let ghost before = values@;
            values.push(n);
            assert(strings_view(values@) =~= strings_view(before).push(keys[k as int]));
        }
        k += 1;
    }
    assert(keys.take(6) =~= keys);
    values
}

pub open spec fn xhs_profile_keys(profile: PluginAccountInfo) -> Seq<Seq<char>> {
    seq![match_key(profile.uid@), match_key(profile.account@), match_key(profile.nickname@)]
}

/// Whether a profile read from Xiaohongshu is the saved account: one of the
/// account's match values equals one of the profile's normalized uid,
/// account name or nickname.
pub open spec fn xhs_matches_spec(profile: PluginAccountInfo, account: ChannelAccount) -> bool {
    exists|i: int, j: int|
        #![trigger xhs_match_values_spec(account)[i], xhs_profile_keys(profile)[j]]
        0 <= i < xhs_match_values_spec(account).len() && 0 <= j < 3
            && xhs_profile_keys(profile)[j].len() > 0
            && xhs_match_values_spec(account)[i] == xhs_profile_keys(profile)[j]
}

/// Whether a profile is the saved Xiaohongshu account.
pub fn xhs_profile_matches_account(profile: &PluginAccountInfo, account: &ChannelAccount) -> (r: bool)
    ensures
        r == xhs_matches_spec(*profile, *account),
{
    let pv: [String; 3] = [
        normalize_match_key(profile.uid.as_str()),
        normalize_match_key(profile.account.as_str()),
        normalize_match_key(profile.nickname.as_str()),
    ];
    let ghost pvs = xhs_profile_keys(*profile);
    assert(strings_view(pv@) =~= pvs);
    let mv = xhs_account_match_values(account);
    let ghost mvs = strings_view(mv@);
    let mut i: usize = 0;
    while i < mv.len()
        invariant
            i <= mv@.len(),
            mvs == strings_view(mv@),
            mvs == xhs_match_values_spec(*account),
            pvs == strings_view(pv@),
            pvs == xhs_profile_keys(*profile),
            pv@.len() == 3,
            forall|a: int, b: int| 0 <= a < i && 0 <= b < 3 ==> !(pvs[b].len() > 0 && #[trigger] mvs[a] == #[trigger] pvs[b]),
        decreases mv@.len() - i,
    {
        let mut j: usize = 0;
        while j < 3
            invariant
                j <= 3,
                i < mv@.len(),
                mvs == strings_view(mv@),
                mvs == xhs_match_values_spec(*account),
                pvs == xhs_profile_keys(*profile),
                pvs == strings_view(pv@),
                pv@.len() == 3,
                forall|b: int| 0 <= b < j ==> !(pvs[b].len() > 0 && mvs[i as int] == #[trigger] pvs[b]),
            decreases 3 - j,
        {
            assert(pvs[j as int] == pv@[j as int]@);
            assert(mvs[i as int] == mv@[i as int]@);
            if !pv[j].as_str().is_empty() && str_eq(mv[i].as_str(), pv[j].as_str()) {
                assert(xhs_match_values_spec(*account)[i as int] == xhs_profile_keys(*profile)[j as int]);
                return true;
            }
            j += 1;
        }
        i += 1;
    }
    false
}

pub open spec fn note_id_keys() -> Seq<&'static str> {
    seq!["id", "note_id", "noteId", "item_id", "itemId"]
}

pub open spec fn note_title_keys() -> Seq<&'static str> {
    seq!["title", "display_title", "displayTitle", "desc", "content"]
}

pub open spec fn note_cover_keys() -> Seq<&'static str> {
    seq!["coverUrl", "cover_url", "cover", "image", "image_url", "imageUrl", "url"]
}

pub open spec fn note_link_keys() -> Seq<&'static str> {
    seq!["link", "url", "share_url", "shareUrl"]
}

pub open spec fn note_time_keys() -> Seq<&'static str> {
    seq!["postTime", "post_time", "publishTime", "publish_time", "time"]
}

pub open spec fn note_view_keys() -> Seq<&'static str> {
    seq!["view_count", "viewCount", "views", "read_count", "readCount"]
}

pub open spec fn note_impression_keys() -> Seq<&'static str> {
    seq!["impl_count", "exposure_count", "exposureCount", "impression_count", "impressionCount"]
}

pub open spec fn note_like_keys() -> Seq<&'static str> {
    seq!["likes", "like_count", "likeCount", "liked_count", "likedCount"]
}

pub open spec fn note_collect_keys() -> Seq<&'static str> {
    seq!["collected_count", "collect_count", "collectCount", "collects", "fav_count", "favCount"]
}

pub open spec fn note_comment_keys() -> Seq<&'static str> {
    seq!["comments_count", "comment_count", "commentCount", "comments"]
}

pub open spec fn note_share_keys() -> Seq<&'static str> {
    seq!["shared_count", "share_count", "shareCount", "shares"]
}

/// A note with an id, read into a work whose id is made
/// from the list it came from and the note id.
pub open spec fn xhs_work_spec(v: JsonValue, account_id: Seq<char>, source: Seq<char>) -> Option<WorkView> {
    match string_deep(v, note_id_keys()) {
        None => None,
        Some(id) => Some(WorkView {
            id: "xiaohongshu-"@ + source + "-"@ + id,
            platform_id: "xiaohongshu"@,
            account_id: account_id,
            title: match string_deep(v, note_title_keys()) { Some(t) => t, None => "未命名作品"@ },
            cover_url: match profile_image(v, note_cover_keys()) {
                Some(u) => Some(platform_image_url_spec("xiaohongshu"@, image_url_spec(u))),
                None => None,
            },
            link: string_deep(v, note_link_keys()),
            published_at: time_keys(v, note_time_keys(), TimeStyle::Xiaohongshu),
            status: "published"@,
            views: count_deep(v, note_view_keys()),
            impressions: count_deep(v, note_impression_keys()),
            likes: count_deep(v, note_like_keys()),
            collects: count_deep(v, note_collect_keys()),
            comments: count_deep(v, note_comment_keys()),
            shares: count_deep(v, note_share_keys()),
            cover_click_rate: None,
            avg_view_time: None,
            gained_followers: None,
            data_updated_at: None,
            metrics: seq![],
            badges: xhs_badges_spec(v),
            work_type: None,
        }),
    }
}

/// Reads a note of a Xiaohongshu works list (`source` names the list) into
/// a work; a note without an id gives nothing.
pub fn parse_xhs_work(value: &JsonValue, account_id: &str, source: &str) -> (r: Option<ChannelContentWork>)
    ensures
        crate::domain::opt_work_view(r) == xhs_work_spec(*value, account_id@, source@),
{
    let id_keys: [&str; 5] = ["id", "note_id", "noteId", "item_id", "itemId"];
    assert(id_keys@ =~= note_id_keys());
    let id = match first_string_deep(value, &id_keys) {
        Some(id) => id,
        None => return None,
    };
    let title_keys: [&str; 5] = ["title", "display_title", "displayTitle", "desc", "content"];
    assert(title_keys@ =~= note_title_keys());
    let title = match first_string_deep(value, &title_keys) {
        Some(t) => t,
        None => owned("未命名作品"),
    };
    let cover_keys: [&str; 7] = ["coverUrl", "cover_url", "cover", "image", "image_url", "imageUrl", "url"];
    assert(cover_keys@ =~= note_cover_keys());
    let cover_url = match first_profile_image(value, &cover_keys) {
        Some(u) => Some(normalize_platform_image_url("xiaohongshu", normalize_image_url(u))),
        None => None,
    };
    let link_keys: [&str; 4] = ["link", "url", "share_url", "shareUrl"];
    assert(link_keys@ =~= note_link_keys());
    let time_keys_a: [&str; 5] = ["postTime", "post_time", "publishTime", "publish_time", "time"];
    assert(time_keys_a@ =~= note_time_keys());
    let view_keys: [&str; 5] = ["view_count", "viewCount", "views", "read_count", "readCount"];
    assert(view_keys@ =~= note_view_keys());
    let impression_keys: [&str; 5] = ["impl_count", "exposure_count", "exposureCount", "impression_count", "impressionCount"];
    assert(impression_keys@ =~= note_impression_keys());
    let like_keys: [&str; 5] = ["likes", "like_count", "likeCount", "liked_count", "likedCount"];
    assert(like_keys@ =~= note_like_keys());
    let collect_keys: [&str; 6] = ["collected_count", "collect_count", "collectCount", "collects", "fav_count", "favCount"];
    assert(collect_keys@ =~= note_collect_keys());
    let comment_keys: [&str; 4] = ["comments_count", "comment_count", "commentCount", "comments"];
    assert(comment_keys@ =~= note_comment_keys());
    let share_keys: [&str; 4] = ["shared_count", "share_count", "shareCount", "shares"];
    assert(share_keys@ =~= note_share_keys());
    let mut full_id = owned("xiaohongshu-");
    push_str(&mut full_id, source);
    push_str(&mut full_id, "-");
    push_str(&mut full_id, id.as_str());
    let metrics: Vec<crate::domain::ChannelWorkMetric> = Vec::new();
    let work = ChannelContentWork {
        id: full_id,
        platform_id: owned("xiaohongshu"),
        account_id: owned(account_id),
        title,
        cover_url,
        link: first_string_deep(value, &link_keys),
        published_at: first_time(value, &time_keys_a, TimeStyle::Xiaohongshu),
        status: owned("published"),
        views: first_count(value, &view_keys),
        impressions: first_count(value, &impression_keys),
        likes: first_count(value, &like_keys),
        collects: first_count(value, &collect_keys),
        comments: first_count(value, &comment_keys),
        shares: first_count(value, &share_keys),
        cover_click_rate: None,
        avg_view_time: None,
        gained_followers: None,
        data_updated_at: None,
        metrics,
        badges: xhs_work_badges(value),
        work_type: None,
    };
    assert(work@.metrics =~= seq![]);
    Some(work)
}

pub open spec fn xhs_user_uid_keys() -> Seq<&'static str> {
    seq!["redId", "red_id", "red_num", "redNum", "user_id", "userId", "id"]
}

pub open spec fn xhs_creator_uid_keys() -> Seq<&'static str> {
    seq!["redId", "red_id", "red_num", "redNum", "user_id", "userId", "id", "creator_id", "creatorId", "author_id", "authorId"]
}

pub open spec fn xhs_user_nickname_keys() -> Seq<&'static str> {
    seq!["userName", "user_name", "nickname", "nickName", "name", "red_id", "redId"]
}

pub open spec fn xhs_creator_nickname_keys() -> Seq<&'static str> {
    seq!["name", "nickname", "nickName", "user_name", "userName", "creator_name", "creatorName"]
}

pub open spec fn xhs_edith_nickname_keys() -> Seq<&'static str> {
    seq!["name", "nickname", "nickName", "user_name", "userName", "red_id"]
}

pub open spec fn xhs_user_avatar_keys() -> Seq<&'static str> {
    seq!["userAvatar", "user_avatar", "avatar", "avatar_url", "avatarUrl", "head_img", "headImg", "headImgUrl"]
}

pub open spec fn xhs_creator_avatar_keys() -> Seq<&'static str> {
    seq!["avatar", "avatar_url", "avatarUrl", "head_img", "headImg", "headImgUrl", "image", "image_url", "imageUrl", "profile_image_url", "profilePicture"]
}

pub open spec fn xhs_follower_keys() -> Seq<&'static str> {
    seq!["fans_count", "fansCount", "fans", "fan_count", "fanCount", "fans_num", "fansNum", "followers", "followers_count", "followersCount", "fans_count_show", "fansCountShow", "fansNumShow"]
}

pub open spec fn xhs_following_keys() -> Seq<&'static str> {
    seq!["following_count", "followingCount", "follow_count", "followCount", "follow_num", "followNum", "follows", "follows_count", "followsCount", "followings", "attention_count", "attentionCount"]
}

pub open spec fn xhs_like_keys() -> Seq<&'static str> {
    seq!["liked_count", "likedCount", "like_count", "likeCount", "likes", "liked", "faved_count", "favedCount", "like_collect_count", "likeCollectCount", "liked_collect_count", "likedCollectCount", "liked_num_show", "likedNumShow", "total_liked", "totalLiked"]
}

pub open spec fn opt_payload(v: Option<JsonValue>) -> Option<JsonValue> {
    match v {
        Some(x) => Some(payload_spec(x)),
        None => None,
    }
}

pub open spec fn opt_string_deep(v: Option<JsonValue>, keys: Seq<&str>) -> Option<Seq<char>> {
    match v {
        Some(x) => string_deep(x, keys),
        None => None,
    }
}

pub open spec fn opt_profile_image(v: Option<JsonValue>, keys: Seq<&str>) -> Option<Seq<char>> {
    match v {
        Some(x) => profile_image(x, keys),
        None => None,
    }
}

pub open spec fn opt_count(v: Option<JsonValue>, keys: Seq<&str>) -> Option<u64> {
    match v {
        Some(x) => count_deep(x, keys),
        None => None,
    }
}

pub open spec fn xhs_platform_name() -> Seq<char> {
    match platform_view("xiaohongshu"@) {
        Some(p) => p.name,
        None => "渠道账号"@,
    }
}

/// The profile read from the three Xiaohongshu account responses (each
/// missing where its request failed): both the user info and the creator
/// profile must be successful and carry a profile, and an account id or
/// nickname must be found.
pub open spec fn xhs_profile_spec(
    user: Option<JsonValue>,
    edith: Option<JsonValue>,
    creator: Option<JsonValue>,
    login_cookie: Seq<char>,
    login_target: Option<Seq<char>>,
) -> Result<ProfileView, AuthErrorView> {
    let ud = opt_payload(user);
    let ed = opt_payload(edith);
    let cd = opt_payload(creator);
    let user_uid = opt_string_deep(ud, xhs_user_uid_keys());
    let edith_uid = opt_string_deep(ed, xhs_user_uid_keys());
    let creator_uid = opt_string_deep(cd, xhs_creator_uid_keys());
    let user_nickname = opt_string_deep(ud, xhs_user_nickname_keys());
    let creator_nickname = opt_string_deep(cd, xhs_creator_nickname_keys());
    let user_avatar = opt_profile_image(ud, xhs_user_avatar_keys());
    let creator_avatar = opt_profile_image(cd, xhs_creator_avatar_keys());
    let fans = opt_count(cd, xhs_follower_keys());
    let following = opt_count(cd, xhs_following_keys());
    let likes = opt_count(cd, xhs_like_keys());
    let user_ok = user is Some && plugin_success_spec(user->0) && user_uid is Some;
    let creator_has_profile = creator_uid is Some || creator_nickname is Some || creator_avatar is Some
        || fans is Some || following is Some || likes is Some;
    let creator_ok = creator is Some && plugin_success_spec(creator->0) && creator_has_profile;
    if !user_ok || !creator_ok {
        Err(AuthErrorView::NotLoggedIn(
            if login_target == Some("home"@) { "请先在打开的小红书主页完成登录。"@ } else { "请先在打开的小红书创作中心完成登录。"@ },
        ))
    } else {
        let uid = match either(user_uid, either(creator_uid, edith_uid)) { Some(x) => x, None => Seq::empty() };
        let nickname = match either(creator_nickname, either(user_nickname, opt_string_deep(ed, xhs_edith_nickname_keys()))) {
            Some(x) => x,
            None => Seq::empty(),
        };
        let avatar = match either(creator_avatar, either(user_avatar, opt_profile_image(ed, xhs_creator_avatar_keys()))) {
            Some(x) => image_url_spec(x),
            None => Seq::empty(),
        };
        let account = if trim(uid).len() == 0 { nickname } else { uid };
        if trim(account).len() == 0 || account == xhs_platform_name() {
            Err(AuthErrorView::NotLoggedIn("小红书已登录，但没有读取到账号 ID，请进入创作者中心后再检查状态。"@))
        } else {
            Ok(ProfileView {
                uid: account,
                account: account,
                nickname: nickname,
                avatar: avatar,
                fans_count: either(fans, either(opt_count(ud, xhs_follower_keys()), opt_count(ed, xhs_follower_keys()))),
                following_count: either(following, either(opt_count(ud, xhs_following_keys()), opt_count(ed, xhs_following_keys()))),
                like_count: either(likes, either(opt_count(ud, xhs_like_keys()), opt_count(ed, xhs_like_keys()))),
                login_cookie: login_cookie,
            })
        }
    }
}

fn opt_first_string_deep(v: Option<&JsonValue>, keys: &[&str]) -> (r: Option<String>)
    ensures
        opt_string_view(r) == opt_string_deep(opt_ref(v), keys@),
{
    match v {
        Some(x) => first_string_deep(x, keys),
        None => None,
    }
}

fn opt_first_profile_image(v: Option<&JsonValue>, keys: &[&str]) -> (r: Option<String>)
    ensures
        opt_string_view(r) == opt_profile_image(opt_ref(v), keys@),
{
    match v {
        Some(x) => first_profile_image(x, keys),
        None => None,
    }
}

fn opt_first_count(v: Option<&JsonValue>, keys: &[&str]) -> (r: Option<u64>)
    ensures
        r == opt_count(opt_ref(v), keys@),
{
    match v {
        Some(x) => first_count(x, keys),
        None => None,
    }
}

fn opt_payload_exec(v: Option<&JsonValue>) -> (r: Option<&JsonValue>)
    ensures
        opt_ref(r) == opt_payload(opt_ref(v)),
{
    match v {
        Some(x) => xhs_response_payload(x),
        None => None,
    }
}

/// Reads a Xiaohongshu account from the responses of its user info, web
/// profile and creator profile requests (`None` where a request failed).
/// The avatar is the normalized address; fetching it is left to the caller.
pub fn xhs_plugin_account_from_responses(
    user: Option<&JsonValue>,
    edith: Option<&JsonValue>,
    creator: Option<&JsonValue>,
    login_cookie: String,
    login_target: Option<&str>,
) -> (r: Result<PluginAccountInfo, PluginAuthError>)
    ensures
        profile_result_view(r) == xhs_profile_spec(opt_ref(user), opt_ref(edith), opt_ref(creator),
            login_cookie@, opt_str_view(login_target)),
{
    let user_uid_keys: [&str; 7] = ["redId", "red_id", "red_num", "redNum", "user_id", "userId", "id"];
    assert(user_uid_keys@ =~= xhs_user_uid_keys());
    let creator_uid_keys: [&str; 11] = ["redId", "red_id", "red_num", "redNum", "user_id", "userId", "id", "creator_id", "creatorId", "author_id", "authorId"];
    assert(creator_uid_keys@ =~= xhs_creator_uid_keys());
    let user_nickname_keys: [&str; 7] = ["userName", "user_name", "nickname", "nickName", "name", "red_id", "redId"];
    assert(user_nickname_keys@ =~= xhs_user_nickname_keys());
    let creator_nickname_keys: [&str; 7] = ["name", "nickname", "nickName", "user_name", "userName", "creator_name", "creatorName"];
    assert(creator_nickname_keys@ =~= xhs_creator_nickname_keys());
    let edith_nickname_keys: [&str; 6] = ["name", "nickname", "nickName", "user_name", "userName", "red_id"];
    assert(edith_nickname_keys@ =~= xhs_edith_nickname_keys());
    let user_avatar_keys: [&str; 8] = ["userAvatar", "user_avatar", "avatar", "avatar_url", "avatarUrl", "head_img", "headImg", "headImgUrl"];
    assert(user_avatar_keys@ =~= xhs_user_avatar_keys());
    let creator_avatar_keys: [&str; 11] = ["avatar", "avatar_url", "avatarUrl", "head_img", "headImg", "headImgUrl", "image", "image_url", "imageUrl", "profile_image_url", "profilePicture"];
    assert(creator_avatar_keys@ =~= xhs_creator_avatar_keys());
    let follower_keys: [&str; 13] = ["fans_count", "fansCount", "fans", "fan_count", "fanCount", "fans_num", "fansNum", "followers", "followers_count", "followersCount", "fans_count_show", "fansCountShow", "fansNumShow"];
    assert(follower_keys@ =~= xhs_follower_keys());
    let following_keys: [&str; 12] = ["following_count", "followingCount", "follow_count", "followCount", "follow_num", "followNum", "follows", "follows_count", "followsCount", "followings", "attention_count", "attentionCount"];
    assert(following_keys@ =~= xhs_following_keys());
    let like_keys: [&str; 16] = ["liked_count", "likedCount", "like_count", "likeCount", "likes", "liked", "faved_count", "favedCount", "like_collect_count", "likeCollectCount", "liked_collect_count", "likedCollectCount", "liked_num_show", "likedNumShow", "total_liked", "totalLiked"];
    assert(like_keys@ =~= xhs_like_keys());

    let user_data = opt_payload_exec(user);
    let edith_data = opt_payload_exec(edith);
    let creator_data = opt_payload_exec(creator);
    let user_uid = opt_first_string_deep(user_data, &user_uid_keys);
    let edith_uid = opt_first_string_deep(edith_data, &user_uid_keys);
    let creator_uid = opt_first_string_deep(creator_data, &creator_uid_keys);
    let user_nickname = opt_first_string_deep(user_data, &user_nickname_keys);
    let creator_nickname = opt_first_string_deep(creator_data, &creator_nickname_keys);
    let user_avatar = opt_first_profile_image(user_data, &user_avatar_keys);
    let creator_avatar = opt_first_profile_image(creator_data, &creator_avatar_keys);
    let fans = opt_first_count(creator_data, &follower_keys);
    let following = opt_first_count(creator_data, &following_keys);
    let likes = opt_first_count(creator_data, &like_keys);
    let user_ok = match user {
        Some(u) => response_success(u) && user_uid.is_some(),
        None => false,
    };
    let creator_has_profile = creator_uid.is_some() || creator_nickname.is_some() || creator_avatar.is_some()
        || fans.is_some() || following.is_some() || likes.is_some();
    let creator_ok = match creator {
        Some(c) => response_success(c) && creator_has_profile,
        None => false,
    };
    if !user_ok || !creator_ok {
        let home = match login_target {
            Some(t) => str_eq(t, "home"),
            None => false,
        };
        return Err(PluginAuthError::NotLoggedIn(
            if home { owned("请先在打开的小红书主页完成登录。") } else { owned("请先在打开的小红书创作中心完成登录。") },
        ));
    }
    let uid = match user_uid {
        Some(x) => x,
        None => match creator_uid {
            Some(x) => x,
            None => match edith_uid {
                Some(x) => x,
                None => String::new(),
            },
        },
    };
    let nickname = match creator_nickname {
        Some(x) => x,
        None => match user_nickname {
            Some(x) => x,
            None => match opt_first_string_deep(edith_data, &edith_nickname_keys) {
                Some(x) => x,
                None => String::new(),
            },
        },
    };
    let avatar = match creator_avatar {
        Some(x) => normalize_image_url(x),
        None => match user_avatar {
            Some(x) => normalize_image_url(x),
            None => match opt_first_profile_image(edith_data, &creator_avatar_keys) {
                Some(x) => normalize_image_url(x),
                None => String::new(),
            },
        },
    };
    let account = if is_blank(uid.as_str()) { nickname.clone() } else { uid };
    if is_blank(account.as_str()) || str_eq(account.as_str(), platform_name("xiaohongshu")) {
        return Err(PluginAuthError::NotLoggedIn(owned("小红书已登录，但没有读取到账号 ID，请进入创作者中心后再检查状态。")));
    }
    let fans_count = match fans {
        Some(n) => Some(n),
        None => match opt_first_count(user_data, &follower_keys) {
            Some(n) => Some(n),
            None => opt_first_count(edith_data, &follower_keys),
        },
    };
    let following_count = match following {
        Some(n) => Some(n),
        None => match opt_first_count(user_data, &following_keys) {
            Some(n) => Some(n),
            None => opt_first_count(edith_data, &following_keys),
        },
    };
    let like_count = match likes {
        Some(n) => Some(n),
        None => match opt_first_count(user_data, &like_keys) {
            Some(n) => Some(n),
            None => opt_first_count(edith_data, &like_keys),
        },
    };
    let uid_copy = account.clone();
    Ok(PluginAccountInfo {
        uid: uid_copy,
        account,
        nickname,
        avatar,
        fans_count,
        following_count,
        like_count,
        login_cookie,
    })
}

/// The fallback figures of a period and the note
/// summary's text without markup, where it has any.
pub open spec fn xhs_note_summary(note: Option<JsonValue>) -> Option<Seq<char>> {
    match note {
        Some(n) => match jget(n, "summary"@) {
            Some(JsonValue::String(t)) if trim(outside_tags(t@)).len() > 0 => Some(trim(outside_tags(t@))),
            _ => None,
        },
        None => None,
    }
}

/// The overview of a period from the note and fan summaries, synced as of
/// `now`.
pub fn build_xhs_overview(account_id: &str, period_days: u16, note: Option<&JsonValue>, fans: Option<&JsonValue>, now: UtcTime) -> (r: ChannelAccountOverview)
    requires
        match net_fans_spec(fans_count(opt_ref(fans), "rise_fans_count"@), fans_count(opt_ref(fans), "leave_fans_count"@)) {
            Some(n) => i64::MIN <= n <= i64::MAX,
            None => true,
        },
    ensures
        r.account_id@ == account_id@,
        r.platform_id@ == "xiaohongshu"@,
        r.period_days == period_days,
        r.metrics@.len() == fallback_specs().len(),
        forall|i: int| 0 <= i < r.metrics@.len() ==> fallback_metric_ok(#[trigger] r.metrics@[i], opt_ref(note), fallback_specs()[i],
            fans_count(opt_ref(fans), "rise_fans_count"@), fans_count(opt_ref(fans), "leave_fans_count"@), net_fans_i64(opt_ref(fans))),
        opt_text(r.summary) == xhs_note_summary(opt_ref(note)),
        r.updated_at == Some(now),
        r.sync_status@ == "synced"@,
        r.error is None,
{
    let summary = match note {
        Some(n) => match n.get("summary") {
            Some(JsonValue::String(t)) => {
                let text = strip_html(t.as_str());
                proof { crate::text::lemma_trim_idempotent(outside_tags(t@)); }
                if is_blank(text.as_str()) { None } else { Some(text) }
            },
            _ => None,
        },
        None => None,
    };
    ChannelAccountOverview {
        account_id: owned(account_id),
        platform_id: owned("xiaohongshu"),
        period_days,
        metrics: xhs_fallback_overview_metrics(note, fans),
        summary,
        updated_at: Some(now),
        sync_status: owned("synced"),
        error: None,
    }
}

} // verus!



