//! Douyin: how its creator API responses are read into works, badges and
//! metrics.

use vstd::prelude::*;
use crate::domain::{ChannelContentWork, ChannelWorkMetric, WorkView, strings_view, work_metric_view, work_metrics_view};
use crate::platforms::images::{first_profile_image, normalize_platform_image_url, platform_image_url_spec, profile_image};
use crate::time::{first_time_deep, time_deep, TimeStyle};
use crate::text::push_str;
use crate::domain::{PluginAccountInfo, ProfileView, either};
use crate::common::{fnv1a, hex_fixed, label_seed, stable_label_fragment};
use crate::platforms::{platform_name, platform_view};
use vstd::string::StringSliceAdditionalSpecFns;
use crate::json::{JsonValue, jget, opt_ref};
use crate::json_ext::{
    first_count, count_deep, first_i64, first_i64_spec, first_string_deep, string_deep,
    opt_string_view,
};
use crate::number::{dec, u64_to_string};
use crate::platforms::fields::{
    bool_deep, first_bool_deep, first_string_or_number_deep, push_unique_badge, push_unique_spec,
    text_deep,
};
use crate::strs::{owned, opt_str_view};
use crate::text::{contains, is_blank, lower, lower_str, str_contains, str_eq, trim, trim_str, chars_of};

verus! {

/// How a detail metric's value is shown.
#[derive(Debug, Clone, Copy, PartialEq, Eq, Structural)]
pub enum DouyinMetricValueKind {
    Count,
    Percent,
    Number,
    Seconds,
}

/// A work metric read from a detail response: its key and label, the
/// metric field it comes from, how it is shown, and a field of the
/// fallback object used when the metric is missing.
#[derive(Debug, Clone, Copy)]
pub struct DouyinMetricSpec {
    pub key: &'static str,
    pub label: &'static str,
    pub metric_key: &'static str,
    pub value_kind: DouyinMetricValueKind,
    pub fallback_key: Option<&'static str>,
}

impl DouyinMetricSpec {
    /// A metric shown as a whole count.
    pub fn count(key: &'static str, label: &'static str, metric_key: &'static str, fallback_key: Option<&'static str>) -> (r: Self)
        ensures
            r.key == key,
            r.label == label,
            r.metric_key == metric_key,
            r.value_kind == DouyinMetricValueKind::Count,
            r.fallback_key == fallback_key,
    {
        DouyinMetricSpec { key, label, metric_key, value_kind: DouyinMetricValueKind::Count, fallback_key }
    }

    /// A metric shown as a percentage.
    pub fn percent(key: &'static str, label: &'static str, metric_key: &'static str, fallback_key: Option<&'static str>) -> (r: Self)
        ensures
            r.key == key,
            r.label == label,
            r.metric_key == metric_key,
            r.value_kind == DouyinMetricValueKind::Percent,
            r.fallback_key == fallback_key,
    {
        DouyinMetricSpec { key, label, metric_key, value_kind: DouyinMetricValueKind::Percent, fallback_key }
    }

    /// A metric shown as a plain number, with no fallback.
    pub fn number(key: &'static str, label: &'static str, metric_key: &'static str) -> (r: Self)
        ensures
            r.key == key,
            r.label == label,
            r.metric_key == metric_key,
            r.value_kind == DouyinMetricValueKind::Number,
            r.fallback_key is None,
    {
        DouyinMetricSpec { key, label, metric_key, value_kind: DouyinMetricValueKind::Number, fallback_key: None }
    }

    /// A metric shown as a duration in seconds.
    pub fn seconds(key: &'static str, label: &'static str, metric_key: &'static str, fallback_key: Option<&'static str>) -> (r: Self)
        ensures
            r.key == key,
            r.label == label,
            r.metric_key == metric_key,
            r.value_kind == DouyinMetricValueKind::Seconds,
            r.fallback_key == fallback_key,
    {
        DouyinMetricSpec { key, label, metric_key, value_kind: DouyinMetricValueKind::Seconds, fallback_key }
    }
}

/// A work metric from its parts.
pub fn douyin_work_metric(key: &str, label: &str, value: Option<String>) -> (r: ChannelWorkMetric)
    ensures
        r.key@ == key@,
        r.label@ == label@,
        opt_string_view(r.value) == opt_string_view(value),
{
    ChannelWorkMetric { key: owned(key), label: owned(label), value }
}

/// A work metric whose value is a count, shown in decimal.
pub fn douyin_count_value_metric(key: &str, label: &str, value: Option<u64>) -> (r: ChannelWorkMetric)
    ensures
        r.key@ == key@,
        r.label@ == label@,
        opt_string_view(r.value) == match value { Some(n) => Some(dec(n as nat)), None => None },
{
    let text = match value {
        Some(n) => Some(u64_to_string(n)),
        None => None,
    };
    douyin_work_metric(key, label, text)
}

/// `first_count` of a value that may be missing.
pub fn first_count_optional(value: Option<&JsonValue>, keys: &[&str]) -> (r: Option<u64>)
    ensures
        r == match opt_ref(value) { Some(v) => count_deep(v, keys@), None => None },
{
    match value {
        Some(v) => first_count(v, keys),
        None => None,
    }
}

/// The visibility a platform's text or code stands for.
pub open spec fn visibility_label_spec(value: Seq<char>) -> Option<Seq<char>> {
    let t = trim(value);
    let l = lower(t);
    if t.len() == 0 {
        None
    } else if contains(t, "公开"@) || contains(l, "public"@) {
        Some("公开"@)
    } else if contains(t, "仅自己"@) || contains(t, "私密"@) || contains(l, "private"@) {
        Some("仅自己可见"@)
    } else if contains(t, "好友"@) || contains(l, "friend"@) {
        Some("好友可见"@)
    } else if t == "0"@ {
        Some("公开"@)
    } else if t == "1"@ {
        Some("仅自己可见"@)
    } else if t == "2"@ {
        Some("好友可见"@)
    } else if t == "3"@ {
        Some("部分可见"@)
    } else if t.len() <= 12 {
        Some(t)
    } else {
        None
    }
}

/// The visibility shown for a work: public, private or friends-only from
/// words or codes, a short text as it is, nothing for a long one.
pub fn visibility_label(value: &str) -> (r: Option<String>)
    ensures
        opt_string_view(r) == visibility_label_spec(value@),
{
    if is_blank(value) {
        return None;
    }
    let t = trim_str(value);
    let l = lower_str(t.as_str());
    let t = t.as_str();
    let l = l.as_str();
    if str_contains(t, "公开") || str_contains(l, "public") {
        return Some(owned("公开"));
    }
    if str_contains(t, "仅自己") || str_contains(t, "私密") || str_contains(l, "private") {
        return Some(owned("仅自己可见"));
    }
    if str_contains(t, "好友") || str_contains(l, "friend") {
        return Some(owned("好友可见"));
    }
    if str_eq(t, "0") {
        Some(owned("公开"))
    } else if str_eq(t, "1") {
        Some(owned("仅自己可见"))
    } else if str_eq(t, "2") {
        Some(owned("好友可见"))
    } else if str_eq(t, "3") {
        Some(owned("部分可见"))
    } else if chars_of(t).len() <= 12 {
        Some(owned(t))
    } else {
        None
    }
}

pub open spec fn visibility_keys() -> Seq<&'static str> {
    seq!["visibility", "visible_status", "visibleStatus", "private_status", "privateStatus", "private_type", "privateType"]
}

pub open spec fn visibility_badge_spec(v: JsonValue) -> Option<Seq<char>> {
    match text_deep(v, visibility_keys(), false) {
        Some(t) => visibility_label_spec(t),
        None => None,
    }
}

/// The visibility badge of a work, from its visibility or privacy field.
pub fn douyin_visibility_badge(value: &JsonValue) -> (r: Option<String>)
    ensures
        opt_string_view(r) == visibility_badge_spec(*value),
{
    let keys: [&str; 7] = ["visibility", "visible_status", "visibleStatus", "private_status", "privateStatus", "private_type", "privateType"];
    assert(keys@ =~= visibility_keys());
    match first_string_or_number_deep(value, &keys) {
        Some(t) => visibility_label(t.as_str()),
        None => None,
    }
}

pub open spec fn top_flag_keys() -> Seq<&'static str> {
    seq!["is_top", "isTop", "is_pinned", "isPinned", "is_stick", "isStick", "top"]
}

pub open spec fn top_label_keys() -> Seq<&'static str> {
    seq!["label_top_text", "labelTopText", "top_label", "topLabel", "tag_text", "tagText"]
}

/// Pinned, a pin label, and the visibility, each once.
pub open spec fn douyin_badges_spec(v: JsonValue) -> Seq<Seq<char>> {
    let a: Seq<Seq<char>> = if bool_deep(v, top_flag_keys()) == Some(true) {
        push_unique_spec(seq![], "置顶"@)
    } else {
        seq![]
    };
    let b = match string_deep(v, top_label_keys()) {
        Some(label) if contains(label, "置顶"@) => push_unique_spec(a, label),
        _ => a,
    };
    match visibility_badge_spec(v) {
        Some(label) => push_unique_spec(b, label),
        None => b,
    }
}

/// The badges of a work: "置顶" when it is pinned, its pin label, and its
/// visibility, without repeats.
pub fn douyin_work_badges(value: &JsonValue) -> (r: Vec<String>)
    ensures
        strings_view(r@) == douyin_badges_spec(*value),
{
    let mut badges: Vec<String> = Vec::new();
    let flags: [&str; 7] = ["is_top", "isTop", "is_pinned", "isPinned", "is_stick", "isStick", "top"];
    assert(flags@ =~= top_flag_keys());
    let labels: [&str; 6] = ["label_top_text", "labelTopText", "top_label", "topLabel", "tag_text", "tagText"];
    assert(labels@ =~= top_label_keys());
    assert(strings_view(badges@) =~= Seq::<Seq<char>>::empty());
    if first_bool_deep(value, &flags) == Some(true) {
        push_unique_badge(&mut badges, owned("置顶"));
    }
    match first_string_deep(value, &labels) {
        Some(label) => {
            if str_contains(label.as_str(), "置顶") {
                push_unique_badge(&mut badges, label);
            }
        },
        None => {},
    }
    match douyin_visibility_badge(value) {
        Some(label) => push_unique_badge(&mut badges, label),
        None => {},
    }
    badges
}

/// Article or video from the flags and type codes a
/// work carries, tried in order.
pub open spec fn douyin_work_type_spec(v: JsonValue) -> Option<Seq<char>> {
    if bool_deep(v, seq!["is_pic_word", "isPicWord", "is_slides", "isSlides"]) == Some(true) {
        Some("article"@)
    } else if first_i64_spec(v, seq!["media_type", "mediaType"]) is Some {
        let m = first_i64_spec(v, seq!["media_type", "mediaType"])->0;
        if m == 2 { Some("article"@) } else if m == 0 || m == 1 || m == 4 { Some("video"@) } else { None }
    } else if first_i64_spec(v, seq!["content_type", "contentType", "item_type", "itemType", "type"]) is Some {
        let c = first_i64_spec(v, seq!["content_type", "contentType", "item_type", "itemType", "type"])->0;
        if c == 1 || c == 68 { Some("article"@) } else if c == 0 || c == 2 || c == 4 { Some("video"@) } else { None }
    } else if first_i64_spec(v, seq!["aweme_type", "awemeType"]) is Some {
        let a = first_i64_spec(v, seq!["aweme_type", "awemeType"])->0;
        if a == 2 { Some("article"@) } else if a == 0 || a == 4 { Some("video"@) } else { None }
    } else if (match count_deep(v, seq!["picture_count", "pictureCount"]) {
        Some(n) => n,
        None => match jget(v, "picture_info"@) {
            Some(p) => match count_deep(p, seq!["count"]) { Some(n) => n, None => 0 },
            None => 0,
        },
    }) > 0 {
        Some("article"@)
    } else if jget(v, "video"@) is Some || jget(v, "video_info"@) is Some {
        Some("video"@)
    } else {
        None
    }
}

/// Whether a work is a video or an article (image post), where its fields
/// tell.
pub fn douyin_work_type(value: &JsonValue) -> (r: Option<String>)
    ensures
        opt_string_view(r) == douyin_work_type_spec(*value),
{
    let slides: [&str; 4] = ["is_pic_word", "isPicWord", "is_slides", "isSlides"];
    assert(slides@ =~= seq!["is_pic_word", "isPicWord", "is_slides", "isSlides"]);
    if first_bool_deep(value, &slides) == Some(true) {
        return Some(owned("article"));
    }
    let media: [&str; 2] = ["media_type", "mediaType"];
    assert(media@ =~= seq!["media_type", "mediaType"]);
    if let Some(m) = first_i64(value, &media) {
        return if m == 2 { Some(owned("article")) } else if m == 0 || m == 1 || m == 4 { Some(owned("video")) } else { None };
    }
    let content: [&str; 5] = ["content_type", "contentType", "item_type", "itemType", "type"];
    assert(content@ =~= seq!["content_type", "contentType", "item_type", "itemType", "type"]);
    if let Some(c) = first_i64(value, &content) {
        return if c == 1 || c == 68 { Some(owned("article")) } else if c == 0 || c == 2 || c == 4 { Some(owned("video")) } else { None };
    }
    let aweme: [&str; 2] = ["aweme_type", "awemeType"];
    assert(aweme@ =~= seq!["aweme_type", "awemeType"]);
    if let Some(a) = first_i64(value, &aweme) {
        return if a == 2 { Some(owned("article")) } else if a == 0 || a == 4 { Some(owned("video")) } else { None };
    }
    let pictures: [&str; 2] = ["picture_count", "pictureCount"];
    assert(pictures@ =~= seq!["picture_count", "pictureCount"]);
    let count_key: [&str; 1] = ["count"];
    assert(count_key@ =~= seq!["count"]);
    let n = match first_count(value, &pictures) {
        Some(n) => n,
        None => match value.get("picture_info") {
            Some(p) => match first_count(p, &count_key) { Some(n) => n, None => 0 },
            None => 0,
        },
    };
    if n > 0 {
        return Some(owned("article"));
    }
    if value.get("video").is_some() || value.get("video_info").is_some() {
        return Some(owned("video"));
    }
    None
}

pub open spec fn douyin_error_spec(v: JsonValue, fallback: Seq<char>) -> Seq<char> {
    match string_deep(v, seq!["status_msg", "status_message", "message", "msg"]) {
        Some(m) if trim(m).len() > 0 => m,
        _ => fallback,
    }
}

/// The response's own status message where it has one, else the fallback.
pub fn douyin_error_message(value: &JsonValue, fallback: &str) -> (r: String)
    ensures
        r@ == douyin_error_spec(*value, fallback@),
{
    let keys: [&str; 4] = ["status_msg", "status_message", "message", "msg"];
    assert(keys@ =~= seq!["status_msg", "status_message", "message", "msg"]);
    match first_string_deep(value, &keys) {
        Some(m) => if is_blank(m.as_str()) { owned(fallback) } else { m },
        None => owned(fallback),
    }
}

/// The first status code present is zero, or
/// there is none.
pub open spec fn douyin_success_spec(v: JsonValue) -> bool {
    match first_i64_spec(v, seq!["status_code", "code", "errCode", "errcode"]) {
        Some(c) => c == 0,
        None => true,
    }
}

/// A response succeeded unless its status code is there and not 0.
pub fn douyin_response_success(value: &JsonValue) -> (r: bool)
    ensures
        r == douyin_success_spec(*value),
{
    let keys: [&str; 4] = ["status_code", "code", "errCode", "errcode"];
    assert(keys@ =~= seq!["status_code", "code", "errCode", "errcode"]);
    match first_i64(value, &keys) {
        Some(c) => c == 0,
        None => true,
    }
}

/// A metric spec as plain values: key, label, metric field, kind, fallback
/// field.
pub open spec fn metric_spec_view(s: DouyinMetricSpec) -> (Seq<char>, Seq<char>, Seq<char>, DouyinMetricValueKind, Option<Seq<char>>) {
    (s.key@, s.label@, s.metric_key@, s.value_kind, opt_str_view(s.fallback_key))
}

pub open spec fn is_article_type(t: Option<Seq<char>>) -> bool {
    t == Some("article"@) || t == Some("image"@) || t == Some("note"@)
}

/// The detail metrics shown for a work type: spread rate and images viewed
/// for image posts, watch time and completion for videos, spread rate
/// otherwise.
pub open spec fn work_spec_table(t: Option<Seq<char>>) -> Seq<(Seq<char>, Seq<char>, Seq<char>, DouyinMetricValueKind, Option<Seq<char>>)> {
    if is_article_type(t) {
        seq![
            ("descriptionSpreadRate"@, "文案展开率"@, "description_spread_rate"@, DouyinMetricValueKind::Percent, None),
            ("imageAvgViewCount"@, "平均浏览图片"@, "image_avg_view_count"@, DouyinMetricValueKind::Number, None),
        ]
    } else if t == Some("video"@) {
        seq![
            ("avgViewSecond"@, "平均播放时长"@, "avg_view_second"@, DouyinMetricValueKind::Seconds, None),
            ("completionRate"@, "完播率"@, "completion_rate"@, DouyinMetricValueKind::Percent, None),
        ]
    } else {
        seq![("descriptionSpreadRate"@, "文案展开率"@, "description_spread_rate"@, DouyinMetricValueKind::Percent, None)]
    }
}

/// The figures of a latest work read from its detail: its counts, then
/// those its type shows (watch figures for videos, reading figures for
/// image posts, spread and bounce rates otherwise).
pub open spec fn latest_spec_table(t: Option<Seq<char>>) -> Seq<(Seq<char>, Seq<char>, Seq<char>, DouyinMetricValueKind, Option<Seq<char>>)> {
    let base = seq![
            ("play"@, "播放量"@, "view_count"@, DouyinMetricValueKind::Count, Some("play_count"@)),
            ("like"@, "点赞量"@, "like_count"@, DouyinMetricValueKind::Count, Some("digg_count"@)),
            ("comment"@, "评论量"@, "comment_count"@, DouyinMetricValueKind::Count, Some("comment_count"@)),
            ("share"@, "分享量"@, "share_count"@, DouyinMetricValueKind::Count, Some("share_count"@)),
            ("favorite"@, "收藏量"@, "favorite_count"@, DouyinMetricValueKind::Count, Some("collect_count"@)),
        ];
    if t == Some("video"@) {
        base + seq![
            ("danmaku"@, "弹幕量"@, "danmaku_count"@, DouyinMetricValueKind::Count, None),
            ("completionRate"@, "完播率"@, "completion_rate"@, DouyinMetricValueKind::Percent, Some("play_finish_ratio"@)),
            ("bounceRate"@, "2s跳出率"@, "bounce_rate_2s"@, DouyinMetricValueKind::Percent, None),
            ("avgViewSecond"@, "平均播放时长"@, "avg_view_second"@, DouyinMetricValueKind::Seconds, Some("play_avg_time"@)),
            ("completionRate5s"@, "5s完播率"@, "completion_rate_5s"@, DouyinMetricValueKind::Percent, None),
            ("avgViewProportion"@, "平均播放占比"@, "avg_view_proportion"@, DouyinMetricValueKind::Percent, None),
            ("subscribe"@, "涨粉量"@, "subscribe_count"@, DouyinMetricValueKind::Count, Some("new_fans_count"@)),
            ("subscribeRate"@, "涨粉率"@, "subscribe_rate"@, DouyinMetricValueKind::Percent, None),
            ("unsubscribe"@, "脱粉量"@, "unsubscribe_count"@, DouyinMetricValueKind::Count, None),
            ("unsubscribeRate"@, "脱粉率"@, "unsubscribe_rate"@, DouyinMetricValueKind::Percent, None),
            ("dislike"@, "不感兴趣量"@, "dislike_count"@, DouyinMetricValueKind::Count, None),
            ("dislikeRate"@, "不感兴趣率"@, "dislike_rate"@, DouyinMetricValueKind::Percent, None),
        ]
    } else if is_article_type(t) {
        base + seq![
            ("descriptionSpreadRate"@, "文案展开率"@, "description_spread_rate"@, DouyinMetricValueKind::Percent, None),
            ("imageAvgViewCount"@, "平均浏览图片数"@, "image_avg_view_count"@, DouyinMetricValueKind::Number, None),
            ("coverClickRate"@, "封面点击率"@, "cover_click_rate"@, DouyinMetricValueKind::Percent, None),
            ("descriptionCompletionRate"@, "文案完读率"@, "description_completion_rate"@, DouyinMetricValueKind::Percent, None),
            ("commentEntryRate"@, "评论进入率"@, "comment_entry_rate"@, DouyinMetricValueKind::Percent, None),
            ("likeRate"@, "点赞率"@, "like_rate"@, DouyinMetricValueKind::Percent, None),
            ("commentRate"@, "评论率"@, "comment_rate"@, DouyinMetricValueKind::Percent, None),
            ("download"@, "下载量"@, "download_count"@, DouyinMetricValueKind::Count, None),
            ("favoriteRate"@, "收藏率"@, "favorite_rate"@, DouyinMetricValueKind::Percent, None),
            ("shareRate"@, "分享率"@, "share_rate"@, DouyinMetricValueKind::Percent, None),
            ("dislikeRate"@, "不感兴趣率"@, "dislike_rate"@, DouyinMetricValueKind::Percent, None),
            ("subscribe"@, "涨粉量"@, "subscribe_count"@, DouyinMetricValueKind::Count, Some("new_fans_count"@)),
        ]
    } else {
        base + seq![
            ("descriptionSpreadRate"@, "文案展开率"@, "description_spread_rate"@, DouyinMetricValueKind::Percent, None),
            ("bounceRate"@, "划走率"@, "bounce_rate_2s"@, DouyinMetricValueKind::Percent, None),
        ]
    }
}

/// Whether a latest work's extra figures fall back to its summary data
/// (videos and image posts do; other works have no fallback).
pub open spec fn latest_uses_summary(t: Option<Seq<char>>) -> bool {
    t == Some("video"@) || is_article_type(t)
}

/// The specs of the figures shown for a latest work of a type, and how many
/// of them, from the start, are its counts (which fall back to the legacy
/// statistics; the rest fall back to the summary data where
/// `latest_uses_summary` says so).
#[verifier::rlimit(40)]
pub fn douyin_latest_work_metric_specs(work_type: Option<&str>) -> (r: (Vec<DouyinMetricSpec>, usize, bool))
    ensures
        r.0@.map_values(|x: DouyinMetricSpec| metric_spec_view(x)) == latest_spec_table(opt_str_view(work_type)),
        r.1 == 5,
        r.2 == latest_uses_summary(opt_str_view(work_type)),
{
    let ghost t = opt_str_view(work_type);
    let is_video = match work_type { Some(w) => str_eq(w, "video"), None => false };
    let is_article = match work_type {
        Some(w) => str_eq(w, "article") || str_eq(w, "image") || str_eq(w, "note"),
        None => false,
    };
    let mut out: Vec<DouyinMetricSpec> = Vec::new();
    out.push(DouyinMetricSpec::count("play", "播放量", "view_count", Some("play_count")));
    out.push(DouyinMetricSpec::count("like", "点赞量", "like_count", Some("digg_count")));
    out.push(DouyinMetricSpec::count("comment", "评论量", "comment_count", Some("comment_count")));
    out.push(DouyinMetricSpec::count("share", "分享量", "share_count", Some("share_count")));
    out.push(DouyinMetricSpec::count("favorite", "收藏量", "favorite_count", Some("collect_count")));
    if is_video {
        out.push(DouyinMetricSpec::count("danmaku", "弹幕量", "danmaku_count", None));
        out.push(DouyinMetricSpec::percent("completionRate", "完播率", "completion_rate", Some("play_finish_ratio")));
        out.push(DouyinMetricSpec::percent("bounceRate", "2s跳出率", "bounce_rate_2s", None));
        out.push(DouyinMetricSpec::seconds("avgViewSecond", "平均播放时长", "avg_view_second", Some("play_avg_time")));
        out.push(DouyinMetricSpec::percent("completionRate5s", "5s完播率", "completion_rate_5s", None));
        out.push(DouyinMetricSpec::percent("avgViewProportion", "平均播放占比", "avg_view_proportion", None));
        out.push(DouyinMetricSpec::count("subscribe", "涨粉量", "subscribe_count", Some("new_fans_count")));
        out.push(DouyinMetricSpec::percent("subscribeRate", "涨粉率", "subscribe_rate", None));
        out.push(DouyinMetricSpec::count("unsubscribe", "脱粉量", "unsubscribe_count", None));
        out.push(DouyinMetricSpec::percent("unsubscribeRate", "脱粉率", "unsubscribe_rate", None));
        out.push(DouyinMetricSpec::count("dislike", "不感兴趣量", "dislike_count", None));
        out.push(DouyinMetricSpec::percent("dislikeRate", "不感兴趣率", "dislike_rate", None));
    } else if is_article {
        out.push(DouyinMetricSpec::percent("descriptionSpreadRate", "文案展开率", "description_spread_rate", None));
        out.push(DouyinMetricSpec::number("imageAvgViewCount", "平均浏览图片数", "image_avg_view_count"));
        out.push(DouyinMetricSpec::percent("coverClickRate", "封面点击率", "cover_click_rate", None));
        out.push(DouyinMetricSpec::percent("descriptionCompletionRate", "文案完读率", "description_completion_rate", None));
        out.push(DouyinMetricSpec::percent("commentEntryRate", "评论进入率", "comment_entry_rate", None));
        out.push(DouyinMetricSpec::percent("likeRate", "点赞率", "like_rate", None));
        out.push(DouyinMetricSpec::percent("commentRate", "评论率", "comment_rate", None));
        out.push(DouyinMetricSpec::count("download", "下载量", "download_count", None));
        out.push(DouyinMetricSpec::percent("favoriteRate", "收藏率", "favorite_rate", None));
        out.push(DouyinMetricSpec::percent("shareRate", "分享率", "share_rate", None));
        out.push(DouyinMetricSpec::percent("dislikeRate", "不感兴趣率", "dislike_rate", None));
        out.push(DouyinMetricSpec::count("subscribe", "涨粉量", "subscribe_count", Some("new_fans_count")));
    } else {
        out.push(DouyinMetricSpec::percent("descriptionSpreadRate", "文案展开率", "description_spread_rate", None));
        out.push(DouyinMetricSpec::percent("bounceRate", "划走率", "bounce_rate_2s", None));
    }
    assert(out@.map_values(|x: DouyinMetricSpec| metric_spec_view(x)) =~= latest_spec_table(t));
    (out, 5, is_video || is_article)
}

/// The detail metric specs that apply to a work type.
pub fn douyin_work_metric_specs(work_type: Option<&str>) -> (r: Vec<DouyinMetricSpec>)
    ensures
        r@.map_values(|x: DouyinMetricSpec| metric_spec_view(x)) == work_spec_table(opt_str_view(work_type)),
{
    let ghost t = opt_str_view(work_type);
    let is_article = match work_type {
        Some(w) => str_eq(w, "article") || str_eq(w, "image") || str_eq(w, "note"),
        None => false,
    };
    let is_video = match work_type {
        Some(w) => str_eq(w, "video"),
        None => false,
    };
    let mut out: Vec<DouyinMetricSpec> = Vec::new();
    if is_article {
        out.push(DouyinMetricSpec::percent("descriptionSpreadRate", "文案展开率", "description_spread_rate", None));
        out.push(DouyinMetricSpec::number("imageAvgViewCount", "平均浏览图片", "image_avg_view_count"));
    } else if is_video {
        out.push(DouyinMetricSpec::seconds("avgViewSecond", "平均播放时长", "avg_view_second", None));
        out.push(DouyinMetricSpec::percent("completionRate", "完播率", "completion_rate", None));
    } else {
        out.push(DouyinMetricSpec::percent("descriptionSpreadRate", "文案展开率", "description_spread_rate", None));
    }
    assert(out@.map_values(|x: DouyinMetricSpec| metric_spec_view(x)) =~= work_spec_table(t));
    out
}

/// The detail metrics with no detail object to read: every metric
/// of the specs, in order, without a value.
pub fn douyin_metrics_without_detail(specs: &[DouyinMetricSpec]) -> (r: Vec<ChannelWorkMetric>)
    ensures
        work_metrics_view(r@) == specs@.map_values(|x: DouyinMetricSpec| (x.key@, x.label@, None::<Seq<char>>)),
{
    let mut out: Vec<ChannelWorkMetric> = Vec::new();
    let mut i: usize = 0;
    while i < specs.len()
        invariant
            i <= specs@.len(),
            work_metrics_view(out@) == specs@.take(i as int).map_values(|x: DouyinMetricSpec| (x.key@, x.label@, None::<Seq<char>>)),
        decreases specs@.len() - i,
    {
        let m = douyin_work_metric(specs[i].key, specs[i].label, None);
        let ghost before = out@;
        out.push(m);
        assert(work_metrics_view(out@) =~= work_metrics_view(before).push(work_metric_view(m)));
        assert(specs@.take(i + 1) =~= specs@.take(i as int).push(specs@[i as int]));
        i += 1;
    }
    assert(specs@.take(specs@.len() as int) =~= specs@);
    out
}

pub open spec fn count_metric_view(key: Seq<char>, label: Seq<char>, v: Option<u64>) -> (Seq<char>, Seq<char>, Option<Seq<char>>) {
    (key, label, match v { Some(n) => Some(dec(n as nat)), None => None })
}

/// Play, like, comment and collect counts, the share
/// count for works that are neither image posts nor videos, then the detail
/// metrics of the work type.
pub open spec fn douyin_metrics_spec(
    t: Option<Seq<char>>,
    views: Option<u64>,
    likes: Option<u64>,
    comments: Option<u64>,
    collects: Option<u64>,
    shares: Option<u64>,
    detail: Seq<(Seq<char>, Seq<char>, Option<Seq<char>>)>,
) -> Seq<(Seq<char>, Seq<char>, Option<Seq<char>>)> {
    let base = seq![
        count_metric_view("play"@, "播放"@, views),
        count_metric_view("like"@, "点赞"@, likes),
        count_metric_view("comment"@, "评论"@, comments),
        count_metric_view("collect"@, "收藏"@, collects),
    ];
    if is_article_type(t) || t == Some("video"@) {
        base + detail
    } else {
        base.push(count_metric_view("share"@, "分享"@, shares)) + detail
    }
}

/// The detail metrics follow the specs of the table: one each, in order,
/// with its key and label.
pub open spec fn details_follow_table(d: Seq<ChannelWorkMetric>, table: Seq<(Seq<char>, Seq<char>, Seq<char>, DouyinMetricValueKind, Option<Seq<char>>)>) -> bool {
    &&& d.len() == table.len()
    &&& forall|i: int| 0 <= i < d.len() ==> (#[trigger] d[i]).key@ == table[i].0 && d[i].label@ == table[i].1
}

/// The six metric keys of a work of type `t`: play, like, comment and
/// collect, then spread rate and images viewed for image posts, watch time
/// and completion for videos, share and spread rate otherwise.
pub open spec fn work_metric_keys(t: Option<Seq<char>>) -> Seq<Seq<char>> {
    let base = seq!["play"@, "like"@, "comment"@, "collect"@];
    if is_article_type(t) {
        base + seq!["descriptionSpreadRate"@, "imageAvgViewCount"@]
    } else if t == Some("video"@) {
        base + seq!["avgViewSecond"@, "completionRate"@]
    } else {
        base + seq!["share"@, "descriptionSpreadRate"@]
    }
}

/// The metrics of a work: its counts, then `detail_metrics`, the values of
/// `douyin_work_metric_specs(work_type)` read from its detail.
pub fn douyin_work_metrics(
    work_type: Option<&str>,
    views: Option<u64>,
    likes: Option<u64>,
    comments: Option<u64>,
    collects: Option<u64>,
    shares: Option<u64>,
    detail_metrics: Vec<ChannelWorkMetric>,
) -> (r: Vec<ChannelWorkMetric>)
    requires
        details_follow_table(detail_metrics@, work_spec_table(opt_str_view(work_type))),
    ensures
        r@.len() == 6,
        forall|i: int| 0 <= i < 6 ==> (#[trigger] r@[i]).key@ == work_metric_keys(opt_str_view(work_type))[i],
        work_metrics_view(r@) == douyin_metrics_spec(opt_str_view(work_type), views, likes, comments, collects, shares, work_metrics_view(detail_metrics@)),
{
    let mut metrics: Vec<ChannelWorkMetric> = Vec::new();
    metrics.push(douyin_count_value_metric("play", "播放", views));
    metrics.push(douyin_count_value_metric("like", "点赞", likes));
    metrics.push(douyin_count_value_metric("comment", "评论", comments));
    metrics.push(douyin_count_value_metric("collect", "收藏", collects));
    let typed = match work_type {
        Some(w) => str_eq(w, "article") || str_eq(w, "image") || str_eq(w, "note") || str_eq(w, "video"),
        None => false,
    };
    if !typed {
        metrics.push(douyin_count_value_metric("share", "分享", shares));
    }
    let ghost base = metrics@;
    let mut detail = detail_metrics;
    let ghost d = detail@;
    metrics.append(&mut detail);
    assert(metrics@ =~= base + d);
    assert(work_metrics_view(metrics@) =~= work_metrics_view(base) + work_metrics_view(d));
    proof {
        let t = opt_str_view(work_type);
        let keys = work_metric_keys(t);
        assert forall|i: int| 0 <= i < 6 implies (#[trigger] metrics@[i]).key@ == keys[i] by {
            if i >= base.len() {
                assert(metrics@[i] == d[i - base.len()]);
            } else {
                assert(metrics@[i] == base[i]);
            }
        }
    }
    metrics
}

pub open spec fn work_id_keys() -> Seq<&'static str> {
    seq!["item_id_plain", "aweme_id", "awemeId", "item_id", "itemId", "id"]
}

pub open spec fn work_title_keys() -> Seq<&'static str> {
    seq!["title", "desc", "description"]
}

pub open spec fn work_cover_keys() -> Seq<&'static str> {
    seq!["Cover", "cover_image_url", "cover_url", "coverUrl", "cover", "image", "images", "url_list"]
}

pub open spec fn work_link_keys() -> Seq<&'static str> {
    seq!["item_link", "share_url", "shareUrl", "url", "link"]
}

pub open spec fn work_time_keys() -> Seq<&'static str> {
    seq!["create_time", "publish_time", "publishTime"]
}

pub open spec fn work_view_keys() -> Seq<&'static str> {
    seq!["play_count", "playCount", "play_cnt", "playCnt", "view_count", "viewCount"]
}

pub open spec fn work_like_keys() -> Seq<&'static str> {
    seq!["like_count", "likeCount", "like_cnt", "likeCnt", "digg_count", "diggCount"]
}

pub open spec fn work_comment_keys() -> Seq<&'static str> {
    seq!["comment_count", "commentCount", "comment_cnt", "commentCnt"]
}

pub open spec fn work_share_keys() -> Seq<&'static str> {
    seq!["share_count", "shareCount", "share_cnt", "shareCnt"]
}

pub open spec fn work_collect_keys() -> Seq<&'static str> {
    seq!["collect_count", "collectCount", "favorite_count", "favoriteCount"]
}

/// A listed work with an id, with its counts, its
/// type's detail metrics left blank, and its badges.
pub open spec fn douyin_work_spec(v: JsonValue, account_id: Seq<char>) -> Option<WorkView> {
    match text_deep(v, work_id_keys(), false) {
        None => None,
        Some(id) => {
            let t = douyin_work_type_spec(v);
            let views = count_deep(v, work_view_keys());
            let likes = count_deep(v, work_like_keys());
            let comments = count_deep(v, work_comment_keys());
            let collects = count_deep(v, work_collect_keys());
            let shares = count_deep(v, work_share_keys());
            Some(WorkView {
                id: id,
                platform_id: "douyin"@,
                account_id: account_id,
                title: match string_deep(v, work_title_keys()) { Some(x) => x, None => "未命名作品"@ },
                cover_url: match profile_image(v, work_cover_keys()) {
                    Some(u) => Some(platform_image_url_spec("douyin"@, u)),
                    None => None,
                },
                link: string_deep(v, work_link_keys()),
                published_at: time_deep(v, work_time_keys(), TimeStyle::Douyin),
                status: "published"@,
                views: views,
                impressions: None,
                likes: likes,
                collects: collects,
                comments: comments,
                shares: shares,
                cover_click_rate: None,
                avg_view_time: None,
                gained_followers: None,
                data_updated_at: None,
                metrics: douyin_metrics_spec(t, views, likes, comments, collects, shares,
                    work_spec_table(t).map_values(|x: (Seq<char>, Seq<char>, Seq<char>, DouyinMetricValueKind, Option<Seq<char>>)| (x.0, x.1, None::<Seq<char>>))),
                badges: douyin_badges_spec(v),
                work_type: t,
            })
        },
    }
}

/// Reads a work of a Douyin works list; one without an id gives nothing.
pub fn parse_douyin_work(value: &JsonValue, account_id: &str) -> (r: Option<ChannelContentWork>)
    ensures
        crate::domain::opt_work_view(r) == douyin_work_spec(*value, account_id@),
{
    let id_keys: [&str; 6] = ["item_id_plain", "aweme_id", "awemeId", "item_id", "itemId", "id"];
    assert(id_keys@ =~= work_id_keys());
    let id = match first_string_or_number_deep(value, &id_keys) {
        Some(id) => id,
        None => return None,
    };
    let title_keys: [&str; 3] = ["title", "desc", "description"];
    assert(title_keys@ =~= work_title_keys());
    let title = match first_string_deep(value, &title_keys) {
        Some(x) => x,
        None => owned("未命名作品"),
    };
    let view_keys: [&str; 6] = ["play_count", "playCount", "play_cnt", "playCnt", "view_count", "viewCount"];
    assert(view_keys@ =~= work_view_keys());
    let like_keys: [&str; 6] = ["like_count", "likeCount", "like_cnt", "likeCnt", "digg_count", "diggCount"];
    assert(like_keys@ =~= work_like_keys());
    let comment_keys: [&str; 4] = ["comment_count", "commentCount", "comment_cnt", "commentCnt"];
    assert(comment_keys@ =~= work_comment_keys());
    let share_keys: [&str; 4] = ["share_count", "shareCount", "share_cnt", "shareCnt"];
    assert(share_keys@ =~= work_share_keys());
    let collect_keys: [&str; 4] = ["collect_count", "collectCount", "favorite_count", "favoriteCount"];
    assert(collect_keys@ =~= work_collect_keys());
    let cover_keys: [&str; 8] = ["Cover", "cover_image_url", "cover_url", "coverUrl", "cover", "image", "images", "url_list"];
    assert(cover_keys@ =~= work_cover_keys());
    let link_keys: [&str; 5] = ["item_link", "share_url", "shareUrl", "url", "link"];
    assert(link_keys@ =~= work_link_keys());
    let time_keys_a: [&str; 3] = ["create_time", "publish_time", "publishTime"];
    assert(time_keys_a@ =~= work_time_keys());
    let views = first_count(value, &view_keys);
    let likes = first_count(value, &like_keys);
    let comments = first_count(value, &comment_keys);
    let shares = first_count(value, &share_keys);
    let collects = first_count(value, &collect_keys);
    let work_type = douyin_work_type(value);
    let specs = match &work_type {
        Some(w) => douyin_work_metric_specs(Some(w.as_str())),
        None => douyin_work_metric_specs(None),
    };
    let blank = douyin_metrics_without_detail(specs.as_slice());
    proof {
        let t = opt_string_view(work_type);
        assert(specs@.map_values(|x: DouyinMetricSpec| (x.key@, x.label@, None::<Seq<char>>)) =~=
            work_spec_table(t).map_values(|x: (Seq<char>, Seq<char>, Seq<char>, DouyinMetricValueKind, Option<Seq<char>>)| (x.0, x.1, None::<Seq<char>>)));
        let table = work_spec_table(t);
        assert(work_metrics_view(blank@).len() == table.len());
        assert forall|i: int| 0 <= i < blank@.len() implies (#[trigger] blank@[i]).key@ == table[i].0 && blank@[i].label@ == table[i].1 by {
            assert(work_metrics_view(blank@)[i] == work_metric_view(blank@[i]));
        }
    }
    let metrics = match &work_type {
        Some(w) => douyin_work_metrics(Some(w.as_str()), views, likes, comments, collects, shares, blank),
        None => douyin_work_metrics(None, views, likes, comments, collects, shares, blank),
    };
    let cover_url = match first_profile_image(value, &cover_keys) {
        Some(u) => Some(normalize_platform_image_url("douyin", u)),
        None => None,
    };
    Some(ChannelContentWork {
        id,
        platform_id: owned("douyin"),
        account_id: owned(account_id),
        title,
        cover_url,
        link: first_string_deep(value, &link_keys),
        published_at: first_time_deep(value, &time_keys_a, TimeStyle::Douyin),
        status: owned("published"),
        views,
        impressions: None,
        likes,
        collects,
        comments,
        shares,
        cover_click_rate: None,
        avg_view_time: None,
        gained_followers: None,
        data_updated_at: None,
        metrics,
        badges: douyin_work_badges(value),
        work_type,
    })
}

pub open spec fn dy_pc_user_id_keys() -> Seq<&'static str> {
    seq!["uid", "user_id", "userId", "sec_uid", "secUid"]
}

pub open spec fn dy_creator_user_id_keys() -> Seq<&'static str> {
    seq!["douyin_unique_id", "unique_id", "uniqueId", "uid", "user_id", "userId", "sec_uid", "secUid"]
}

pub open spec fn dy_nickname_keys() -> Seq<&'static str> {
    seq!["nick_name", "nickName", "nickname", "name", "display_name", "displayName"]
}

pub open spec fn dy_avatar_keys() -> Seq<&'static str> {
    seq!["avatar_url", "avatarUrl", "avatar", "avatar_thumb", "avatarThumb", "head_img", "headImg"]
}

pub open spec fn dy_follower_keys() -> Seq<&'static str> {
    seq!["fans_count", "fansCount", "fans", "fan_count", "fanCount", "follower_count", "followerCount", "followers", "followers_count", "followersCount", "displayFans", "fansDisplay"]
}

pub open spec fn dy_following_keys() -> Seq<&'static str> {
    seq!["following_count", "followingCount", "follow_count", "followCount", "follow_num", "followNum", "following", "followings", "attention_count", "attentionCount"]
}

pub open spec fn dy_like_keys() -> Seq<&'static str> {
    seq!["total_favorited", "totalFavorited", "favorited_count", "favoritedCount", "liked_count", "likedCount", "like_count", "likeCount", "digg_count", "diggCount", "total_like_count", "totalLikeCount"]
}

pub open spec fn dy_verify_info(user: JsonValue) -> Option<JsonValue> {
    either(jget(user, "douyin_user_verify_info"@), jget(user, "user_profile"@))
}

pub open spec fn dy_string(v: Option<JsonValue>, keys: Seq<&str>) -> Option<Seq<char>> {
    match v { Some(x) => string_deep(x, keys), None => None }
}

pub open spec fn dy_image(v: Option<JsonValue>, keys: Seq<&str>) -> Option<Seq<char>> {
    match v { Some(x) => profile_image(x, keys), None => None }
}

pub open spec fn dy_count(v: Option<JsonValue>, keys: Seq<&str>) -> Option<u64> {
    match v { Some(x) => count_deep(x, keys), None => None }
}

/// The account read from the creator centre's account and profile
/// responses: both must report success; the id, nickname and avatar come
/// from the verification info (or the profile), then the whole response,
/// with the cookie's stable label and the platform name as last resorts.
pub open spec fn douyin_account_spec(pc_user: JsonValue, user: JsonValue, cookie_header: &str, login_cookie: Seq<char>) -> Result<ProfileView, Seq<char>> {
    if !douyin_success_spec(pc_user) {
        Err("抖音网页登录态已失效，请重新登录后再打开创作中心。"@)
    } else if !douyin_success_spec(user) {
        Err("抖音创作者中心资料读取失败，请重新登录后再同步。"@)
    } else {
        let info = dy_verify_info(user);
        let uid = match either(dy_string(info, dy_creator_user_id_keys()),
            either(string_deep(user, dy_creator_user_id_keys()), string_deep(pc_user, dy_pc_user_id_keys()))) {
            Some(x) => x,
            None => hex_fixed(fnv1a(cookie_header.spec_bytes(), label_seed()) as nat, 16),
        };
        Ok(ProfileView {
            uid: uid,
            account: uid,
            nickname: match either(dy_string(info, dy_nickname_keys()), string_deep(user, dy_nickname_keys())) {
                Some(x) => x,
                None => match platform_view("douyin"@) { Some(p) => p.name, None => "渠道账号"@ },
            },
            avatar: match either(dy_image(info, dy_avatar_keys()), profile_image(user, dy_avatar_keys())) {
                Some(x) => x,
                None => Seq::empty(),
            },
            fans_count: either(dy_count(info, dy_follower_keys()), count_deep(user, dy_follower_keys())),
            following_count: either(dy_count(info, dy_following_keys()), count_deep(user, dy_following_keys())),
            like_count: either(dy_count(info, dy_like_keys()), count_deep(user, dy_like_keys())),
            login_cookie: login_cookie,
        })
    }
}

pub open spec fn profile_string_result(r: Result<PluginAccountInfo, String>) -> Result<ProfileView, Seq<char>> {
    match r {
        Ok(p) => Ok(p@),
        Err(e) => Err(e@),
    }
}

fn dy_first_string(v: Option<&JsonValue>, keys: &[&str]) -> (r: Option<String>)
    ensures
        opt_string_view(r) == dy_string(opt_ref(v), keys@),
{
    match v { Some(x) => first_string_deep(x, keys), None => None }
}

fn dy_first_image(v: Option<&JsonValue>, keys: &[&str]) -> (r: Option<String>)
    ensures
        opt_string_view(r) == dy_image(opt_ref(v), keys@),
{
    match v { Some(x) => first_profile_image(x, keys), None => None }
}

fn dy_first_count(v: Option<&JsonValue>, keys: &[&str]) -> (r: Option<u64>)
    ensures
        r == dy_count(opt_ref(v), keys@),
{
    match v { Some(x) => first_count(x, keys), None => None }
}

/// Whether the creator centre's account response (`pc_user`) lets the
/// profile be asked for: refused with the lost-login message when its
/// status code says it failed, in which case no profile request is made.
pub fn douyin_pc_user_verdict(pc_user: &JsonValue) -> (r: Result<(), String>)
    ensures
        r is Ok <==> douyin_success_spec(*pc_user),
        r matches Err(e) ==> e@ == "抖音网页登录态已失效，请重新登录后再打开创作中心。"@,
{
    if douyin_response_success(pc_user) {
        Ok(())
    } else {
        Err(owned("抖音网页登录态已失效，请重新登录后再打开创作中心。"))
    }
}

/// Reads a Douyin account from the creator centre's account response
/// (`pc_user`) and profile response (`user`). The caller asks for the
/// profile only when `douyin_response_success(pc_user)` holds.
pub fn douyin_account_from_responses(pc_user: &JsonValue, user: &JsonValue, cookie_header: &str, login_cookie: String) -> (r: Result<PluginAccountInfo, String>)
    ensures
        profile_string_result(r) == douyin_account_spec(*pc_user, *user, cookie_header, login_cookie@),
{
    if !douyin_response_success(pc_user) {
        return Err(owned("抖音网页登录态已失效，请重新登录后再打开创作中心。"));
    }
    if !douyin_response_success(user) {
        return Err(owned("抖音创作者中心资料读取失败，请重新登录后再同步。"));
    }
    let pc_keys: [&str; 5] = ["uid", "user_id", "userId", "sec_uid", "secUid"];
    assert(pc_keys@ =~= dy_pc_user_id_keys());
    let id_keys: [&str; 8] = ["douyin_unique_id", "unique_id", "uniqueId", "uid", "user_id", "userId", "sec_uid", "secUid"];
    assert(id_keys@ =~= dy_creator_user_id_keys());
    let nickname_keys: [&str; 6] = ["nick_name", "nickName", "nickname", "name", "display_name", "displayName"];
    assert(nickname_keys@ =~= dy_nickname_keys());
    let avatar_keys: [&str; 7] = ["avatar_url", "avatarUrl", "avatar", "avatar_thumb", "avatarThumb", "head_img", "headImg"];
    assert(avatar_keys@ =~= dy_avatar_keys());
    let follower_keys: [&str; 12] = ["fans_count", "fansCount", "fans", "fan_count", "fanCount", "follower_count", "followerCount", "followers", "followers_count", "followersCount", "displayFans", "fansDisplay"];
    assert(follower_keys@ =~= dy_follower_keys());
    let following_keys: [&str; 10] = ["following_count", "followingCount", "follow_count", "followCount", "follow_num", "followNum", "following", "followings", "attention_count", "attentionCount"];
    assert(following_keys@ =~= dy_following_keys());
    let like_keys: [&str; 12] = ["total_favorited", "totalFavorited", "favorited_count", "favoritedCount", "liked_count", "likedCount", "like_count", "likeCount", "digg_count", "diggCount", "total_like_count", "totalLikeCount"];
    assert(like_keys@ =~= dy_like_keys());
    let info = match user.get("douyin_user_verify_info") {
        Some(x) => Some(x),
        None => user.get("user_profile"),
    };
    let uid = match dy_first_string(info, &id_keys) {
        Some(x) => x,
        None => match first_string_deep(user, &id_keys) {
            Some(x) => x,
            None => match first_string_deep(pc_user, &pc_keys) {
                Some(x) => x,
                None => stable_label_fragment(cookie_header),
            },
        },
    };
    let nickname = match dy_first_string(info, &nickname_keys) {
        Some(x) => x,
        None => match first_string_deep(user, &nickname_keys) {
            Some(x) => x,
            None => owned(platform_name("douyin")),
        },
    };
    let avatar = match dy_first_image(info, &avatar_keys) {
        Some(x) => x,
        None => match first_profile_image(user, &avatar_keys) {
            Some(x) => x,
            None => String::new(),
        },
    };
    let fans_count = match dy_first_count(info, &follower_keys) {
        Some(n) => Some(n),
        None => first_count(user, &follower_keys),
    };
    let following_count = match dy_first_count(info, &following_keys) {
        Some(n) => Some(n),
        None => first_count(user, &following_keys),
    };
    let like_count = match dy_first_count(info, &like_keys) {
        Some(n) => Some(n),
        None => first_count(user, &like_keys),
    };
    let account = uid.clone();
    Ok(PluginAccountInfo { uid, account, nickname, avatar, fans_count, following_count, like_count, login_cookie })
}


fn copy_opt_work(w: &Option<ChannelContentWork>) -> (r: Option<ChannelContentWork>)
    ensures
        crate::domain::opt_work_view(r) == crate::domain::opt_work_view(*w),
{
    match w {
        Some(x) => Some(crate::platforms::xhs_content::copy_work(x)),
        None => None,
    }
}

/// The Douyin board read at `now`: the profile's counts, the overviews of
/// yesterday, seven and thirty days, and the latest work shown for each.
pub fn douyin_account_content(
    account_id: &str,
    profile: &PluginAccountInfo,
    yesterday: crate::domain::ChannelAccountOverview,
    seven: crate::domain::ChannelAccountOverview,
    thirty: crate::domain::ChannelAccountOverview,
    latest_work: Option<ChannelContentWork>,
    now: crate::domain::UtcTime,
) -> (r: crate::domain::ChannelAccountContent)
    requires
        yesterday.period_days == 1,
        seven.period_days == 7,
        thirty.period_days == 30,
    ensures
        r.account_id@ == account_id@,
        r.platform_id@ == "douyin"@,
        r.profile matches Some(s) && {
            &&& s.account_id@ == account_id@
            &&& s.platform_id@ == "douyin"@
            &&& s.followers == profile.fans_count
            &&& s.following == profile.following_count
            &&& s.likes == profile.like_count
            &&& s.last_sync_at == Some(now)
            &&& s.updated_at == Some(now)
            &&& s.sync_status@ == "synced"@
            &&& s.error is None
        },
        r.overview_yesterday == Some(yesterday) && r.overview_yesterday->0.period_days == 1,
        r.overview_seven == Some(seven) && r.overview_seven->0.period_days == 7,
        r.overview_thirty == Some(thirty) && r.overview_thirty->0.period_days == 30,
        r.overview_ninety is None,
        r.overview_history is None,
        r.overview_total is None,
        crate::domain::opt_work_view(r.latest_work) == crate::domain::opt_work_view(latest_work),
        crate::domain::opt_work_view(r.latest_work_seven) == crate::domain::opt_work_view(latest_work),
        crate::domain::opt_work_view(r.latest_work_thirty) == crate::domain::opt_work_view(latest_work),
        r.sync_status@ == "synced"@,
        r.error is None,
{
    let latest_seven = copy_opt_work(&latest_work);
    let latest_thirty = copy_opt_work(&latest_work);
    crate::domain::ChannelAccountContent {
        account_id: owned(account_id),
        platform_id: owned("douyin"),
        profile: Some(crate::domain::ChannelAccountProfileSnapshot {
            account_id: owned(account_id),
            platform_id: owned("douyin"),
            followers: profile.fans_count,
            following: profile.following_count,
            likes: profile.like_count,
            last_sync_at: Some(now),
            updated_at: Some(now),
            sync_status: owned("synced"),
            error: None,
        }),
        overview_yesterday: Some(yesterday),
        overview_seven: Some(seven),
        overview_thirty: Some(thirty),
        overview_ninety: None,
        overview_history: None,
        overview_total: None,
        latest_work,
        latest_work_seven: latest_seven,
        latest_work_thirty: latest_thirty,
        sync_status: owned("synced"),
        error: None,
    }
}

} // verus!


