//! WeChat Channels: work kinds, post-list requests, and how its assistant
//! API responses are read into badges and metrics.

use vstd::prelude::*;
use crate::domain::{ChannelContentWork, ChannelWorkMetric, ChannelOverviewMetric, WorkView, strings_view, work_metrics_view, work_metric_view};
use crate::json_ext::{count_deep, first_count, first_string_deep, string_deep};
use crate::platforms::images::{first_profile_image, image_url_spec, normalize_image_url, profile_image};
use crate::time::{first_time_deep, time_deep, TimeStyle};
use crate::domain::{AuthErrorView, PluginAccountInfo, PluginAuthError, ProfileView, auth_error_view, profile_result_view};
use crate::platforms::{platform_name, platform_view};
use crate::json::{JsonValue, jget, number_text, opt_ref};
use crate::json_ext::{first_i64, first_i64_spec, first_string, first_string_spec, opt_string_view};
use crate::number::{dec, dec_signed, i64_to_string, u64_to_string, parse_i64, parse_i64_str};
use crate::platforms::fields::{push_unique_badge, push_unique_spec};
use crate::strs::{owned, opt_str_view};
use crate::text::{chars_of, concat_str, contains, is_blank, lower, lower_str, push_str, str_contains, str_eq, trim, trim_str};

verus! {

/// The two kinds of WeChat Channels works.
#[derive(Debug, Clone, Copy, PartialEq, Eq, Structural)]
pub enum WxWorkKind {
    Video,
    Article,
}

pub open spec fn wx_kind_of(value: Option<Seq<char>>) -> WxWorkKind {
    let t = trim(match value { Some(v) => v, None => Seq::empty() });
    if t == "article"@ || t == "photo"@ || t == "image"@ || t == "new-life"@ || t == "newlife"@ {
        WxWorkKind::Article
    } else {
        WxWorkKind::Video
    }
}

impl WxWorkKind {
    /// The kind a work-type filter names: image posts are articles,
    /// anything else is video.
    pub fn from_option(value: Option<&str>) -> (r: Self)
        ensures
            r == wx_kind_of(opt_str_view(value)),
    {
        let t = match value {
            Some(v) => trim_str(v),
            None => String::new(),
        };
        let t = t.as_str();
        if str_eq(t, "article") || str_eq(t, "photo") || str_eq(t, "image") || str_eq(t, "new-life") || str_eq(t, "newlife") {
            WxWorkKind::Article
        } else {
            WxWorkKind::Video
        }
    }

    pub fn as_str(self) -> (r: &'static str)
        ensures
            r@ == (if self == WxWorkKind::Video { "video"@ } else { "article"@ }),
    {
        match self {
            WxWorkKind::Video => "video",
            WxWorkKind::Article => "article",
        }
    }

    /// The post-list type code for this kind: 11 for videos, 10 for photos.
    pub fn userpage_type(self) -> (r: i64)
        ensures
            r == (if self == WxWorkKind::Video { 11i64 } else { 10i64 }),
    {
        match self {
            WxWorkKind::Video => 11,
            WxWorkKind::Article => 10,
        }
    }

    /// The label of the views figure: plays for videos, reads for articles.
    pub fn views_label(self) -> (r: &'static str)
        ensures
            r@ == (if self == WxWorkKind::Video { "播放"@ } else { "阅读"@ }),
    {
        match self {
            WxWorkKind::Video => "播放",
            WxWorkKind::Article => "阅读",
        }
    }

    /// Whether play-through figures apply (videos only).
    pub fn includes_play_metrics(self) -> (r: bool)
        ensures
            r == (self == WxWorkKind::Video),
    {
        match self {
            WxWorkKind::Video => true,
            WxWorkKind::Article => false,
        }
    }
}

/// Where a post list is requested from.
#[derive(Debug, Clone, Copy, PartialEq, Eq, Structural)]
pub enum WxPostListSource {
    WorksTab,
    LatestCard,
}

/// The page a post-list request claims to come from, and how it pages.
#[derive(Debug, Clone, Copy)]
pub struct WxPostListRequestConfig {
    pub referer: &'static str,
    pub page_url_param: &'static str,
    pub page_size: i64,
    pub sticky_order: bool,
}

impl WxPostListSource {
    /// The request settings for a source and a kind of work: the latest-post
    /// card pages five at a time; the works tab twenty at a time, pinned
    /// first, from the article or the video list page.
    pub fn request_config(self, work_kind: WxWorkKind) -> (r: WxPostListRequestConfig)
        ensures
            self == WxPostListSource::LatestCard ==> r.referer@ == "https://channels.weixin.qq.com/micro/content/iframe/post-card.html"@
                && r.page_url_param@ == "https:%2F%2Fchannels.weixin.qq.com%2Fmicro%2Fcontent%2Fiframe%2Fpost-card.html"@
                && r.page_size == 5 && !r.sticky_order,
            self == WxPostListSource::WorksTab && work_kind == WxWorkKind::Article ==>
                r.referer@ == "https://channels.weixin.qq.com/micro/content/post/finderNewLifePostList"@
                && r.page_url_param@ == "https:%2F%2Fchannels.weixin.qq.com%2Fmicro%2Fcontent%2Fpost%2FfinderNewLifePostList"@
                && r.page_size == 20 && r.sticky_order,
            self == WxPostListSource::WorksTab && work_kind == WxWorkKind::Video ==>
                r.referer@ == "https://channels.weixin.qq.com/micro/content/post/list"@
                && r.page_url_param@ == "https:%2F%2Fchannels.weixin.qq.com%2Fmicro%2Fcontent%2Fpost%2Flist"@
                && r.page_size == 20 && r.sticky_order,
    {
        match self {
            WxPostListSource::LatestCard => WxPostListRequestConfig {
                referer: "https://channels.weixin.qq.com/micro/content/iframe/post-card.html",
                page_url_param: "https:%2F%2Fchannels.weixin.qq.com%2Fmicro%2Fcontent%2Fiframe%2Fpost-card.html",
                page_size: 5,
                sticky_order: false,
            },
            WxPostListSource::WorksTab => {
                if work_kind == WxWorkKind::Article {
                    WxPostListRequestConfig {
                        referer: "https://channels.weixin.qq.com/micro/content/post/finderNewLifePostList",
                        page_url_param: "https:%2F%2Fchannels.weixin.qq.com%2Fmicro%2Fcontent%2Fpost%2FfinderNewLifePostList",
                        page_size: 20,
                        sticky_order: true,
                    }
                } else {
                    WxPostListRequestConfig {
                        referer: "https://channels.weixin.qq.com/micro/content/post/list",
                        page_url_param: "https:%2F%2Fchannels.weixin.qq.com%2Fmicro%2Fcontent%2Fpost%2Flist",
                        page_size: 20,
                        sticky_order: true,
                    }
                }
            },
        }
    }
}

pub open spec fn post_list_api() -> Seq<char> {
    "https://channels.weixin.qq.com/micro/content/cgi-bin/mmfinderassistant-bin/post/post_list"@
}

impl WxPostListRequestConfig {
    /// The post-list address, with the page it claims to come from.
    pub fn url(self) -> (r: String)
        ensures
            r@ == post_list_api() + "?_pageUrl="@ + self.page_url_param@,
    {
        let mut out = owned("https://channels.weixin.qq.com/micro/content/cgi-bin/mmfinderassistant-bin/post/post_list");
        push_str(&mut out, "?_pageUrl=");
        push_str(&mut out, self.page_url_param);
        out
    }
}

/// Success for error code 0 (or none); an expired
/// login for the login codes or a message about logging in; else the
/// message with its code.
pub open spec fn wx_success_spec(value: JsonValue, fallback: Seq<char>) -> Result<(), Seq<char>> {
    let code = match first_i64_spec(value, seq!["errCode", "errcode", "code"]) { Some(c) => c, None => 0 };
    let message = match first_string_spec(value, seq!["errMsg", "errmsg", "message", "msg"]) { Some(m) => m, None => fallback };
    if code == 0 {
        Ok(())
    } else if code == 300333 || code == 300334 || contains(message, "登录"@) {
        Err("视频号登录已过期，请重新登录。"@)
    } else {
        Err(message + " ("@ + dec_signed(code as int) + ")"@)
    }
}

/// Checks an assistant API response: an expired login and any other error
/// become messages.
pub fn ensure_wx_success(value: &JsonValue, fallback: &str) -> (r: Result<(), String>)
    ensures
        match r {
            Ok(()) => wx_success_spec(*value, fallback@) == Ok::<(), Seq<char>>(()),
            Err(e) => wx_success_spec(*value, fallback@) == Err::<(), Seq<char>>(e@),
        },
{
    let codes: [&str; 3] = ["errCode", "errcode", "code"];
    assert(codes@ =~= seq!["errCode", "errcode", "code"]);
    let msgs: [&str; 4] = ["errMsg", "errmsg", "message", "msg"];
    assert(msgs@ =~= seq!["errMsg", "errmsg", "message", "msg"]);
    let code = match first_i64(value, &codes) { Some(c) => c, None => 0 };
    if code == 0 {
        return Ok(());
    }
    let message = match first_string(value, &msgs) { Some(m) => m, None => owned(fallback) };
    if code == 300333 || code == 300334 || str_contains(message.as_str(), "登录") {
        return Err(owned("视频号登录已过期，请重新登录。"));
    }
    let mut out = message;
    push_str(&mut out, " (");
    push_str(&mut out, i64_to_string(code).as_str());
    push_str(&mut out, ")");
    Err(out)
}

/// The first of "data", "resp" and "result" that is
/// there, unless it is null.
pub open spec fn response_data_spec(v: JsonValue) -> Option<JsonValue> {
    let d = if jget(v, "data"@) is Some {
        jget(v, "data"@)
    } else if jget(v, "resp"@) is Some {
        jget(v, "resp"@)
    } else {
        jget(v, "result"@)
    };
    match d {
        Some(x) if !(x is Null) => Some(x),
        _ => None,
    }
}

/// The payload of a response.
pub fn response_data(value: &JsonValue) -> (r: Option<&JsonValue>)
    ensures
        opt_ref(r) == response_data_spec(*value),
{
    let d = match value.get("data") {
        Some(x) => Some(x),
        None => match value.get("resp") {
            Some(x) => Some(x),
            None => value.get("result"),
        },
    };
    match d {
        Some(x) => if x.is_null() { None } else { Some(x) },
        None => None,
    }
}

/// An overview figure with no comparison; "-" where the value is missing.
pub fn overview_metric(key: &str, label: &str, value: Option<i64>) -> (r: ChannelOverviewMetric)
    ensures
        r.key@ == key@,
        r.label@ == label@,
        opt_string_view(r.value) == Some(match value { Some(v) => dec_signed(v as int), None => "-"@ }),
        r.compare_label is None,
        r.trend is None,
        r.tone is None,
{
    ChannelOverviewMetric {
        key: owned(key),
        label: owned(label),
        value: Some(match value { Some(v) => i64_to_string(v), None => owned("-") }),
        compare_label: None,
        trend: None,
        tone: None,
    }
}

/// The member `target` of an object, else the first
/// found in its members; in an array, the first found in its elements.
pub open spec fn find_key(v: JsonValue, target: Seq<char>) -> Option<JsonValue>
    decreases v, 1int,
{
    match v {
        JsonValue::Object(es) => match jget(v, target) {
            Some(x) => Some(x),
            None => find_key_entries(es@, target),
        },
        JsonValue::Array(items) => find_key_items(items@, target),
        _ => None,
    }
}

pub open spec fn find_key_items(s: Seq<JsonValue>, target: Seq<char>) -> Option<JsonValue>
    decreases s, 0int,
{
    if s.len() == 0 {
        None
    } else {
        match find_key(s[0], target) {
            Some(x) => Some(x),
            None => find_key_items(s.drop_first(), target),
        }
    }
}

pub open spec fn find_key_entries(s: Seq<(String, JsonValue)>, target: Seq<char>) -> Option<JsonValue>
    decreases s, 0int,
{
    if s.len() == 0 {
        None
    } else {
        match find_key(s[0].1, target) {
            Some(x) => Some(x),
            None => find_key_entries(s.drop_first(), target),
        }
    }
}

/// The first member named `target` at any depth.
pub fn find_value_by_key<'a>(value: &'a JsonValue, target: &str) -> (r: Option<&'a JsonValue>)
    ensures
        opt_ref(r) == find_key(*value, target@),
    decreases value, 1int,
{
    match value {
        JsonValue::Object(es) => {
            let direct = value.get(target);
            if direct.is_some() {
                return direct;
            }
            let mut j: usize = 0;
            assert(es@.skip(0) =~= es@);
            while j < es.len()
                invariant
                    j <= es@.len(),
                    *value == JsonValue::Object(*es),
                    jget(*value, target@) is None,
                    find_key_entries(es@, target@) == find_key_entries(es@.skip(j as int), target@),
                decreases es@.len() - j,
            {
                proof {
                    assert(es@.skip(j as int).drop_first() =~= es@.skip(j + 1));
                    assert(es@.skip(j as int)[0] == es@[j as int]);
                }
                let found = find_value_by_key(&es[j].1, target);
                if found.is_some() {
                    return found;
                }
                j += 1;
            }
            None
        },
        JsonValue::Array(items) => {
            let mut i: usize = 0;
            assert(items@.skip(0) =~= items@);
            while i < items.len()
                invariant
                    i <= items@.len(),
                    *value == JsonValue::Array(*items),
                    find_key_items(items@, target@) == find_key_items(items@.skip(i as int), target@),
                decreases items@.len() - i,
            {
                proof {
                    assert(items@.skip(i as int).drop_first() =~= items@.skip(i + 1));
                    assert(items@.skip(i as int)[0] == items@[i as int]);
                }
                let found = find_value_by_key(&items[i], target);
                if found.is_some() {
                    return found;
                }
                i += 1;
            }
            None
        },
        _ => None,
    }
}

/// `value_to_text` as WeChat fields need it: trimmed non-empty text, a
/// number's text, or "true"/"false".
pub open spec fn wx_text_spec(v: JsonValue) -> Option<Seq<char>> {
    match v {
        JsonValue::String(t) => if trim(t@).len() == 0 { None } else { Some(trim(t@)) },
        JsonValue::Number(n) => Some(number_text(n)),
        JsonValue::Bool(b) => Some(if b { "true"@ } else { "false"@ }),
        _ => None,
    }
}

/// The text of a field: trimmed text, a number, or a boolean.
pub fn value_to_text(value: &JsonValue) -> (r: Option<String>)
    ensures
        opt_string_view(r) == wx_text_spec(*value),
{
    match value {
        JsonValue::String(t) => if is_blank(t.as_str()) { None } else { Some(trim_str(t.as_str())) },
        JsonValue::Number(n) => Some(n.to_text()),
        JsonValue::Bool(b) => Some(if *b { owned("true") } else { owned("false") }),
        _ => None,
    }
}

/// The audience a visibility text or code names.
pub open spec fn visible_type_spec(value: Seq<char>) -> Option<Seq<char>> {
    let t = trim(value);
    let l = lower(t);
    if t.len() == 0 {
        None
    } else if contains(t, "公开"@) || contains(l, "public"@) {
        Some("公开"@)
    } else if contains(t, "仅自己"@) || contains(t, "私密"@) || contains(l, "private"@) {
        Some("仅自己可见"@)
    } else if contains(t, "关注"@) || contains(l, "follow"@) {
        Some("关注可见"@)
    } else if contains(t, "好友"@) || contains(l, "friend"@) {
        Some("好友可见"@)
    } else if t == "0"@ || t == "1"@ {
        Some("公开"@)
    } else if t == "2"@ {
        Some("关注可见"@)
    } else if t == "3"@ {
        Some("仅自己可见"@)
    } else if t.len() <= 12 {
        Some(t)
    } else {
        None
    }
}

/// The visibility shown for a visibility text or code.
pub fn wx_visible_type_label(value: &str) -> (r: Option<String>)
    ensures
        opt_string_view(r) == visible_type_spec(value@),
{
    if is_blank(value) {
        return None;
    }
    let t = trim_str(value);
    let l = lower_str(t.as_str());
    let t = t.as_str();
    let l = l.as_str();
    if str_contains(t, "公开") || str_contains(l, "public") {
        return Some(owned("公开"));
    }
    if str_contains(t, "仅自己") || str_contains(t, "私密") || str_contains(l, "private") {
        return Some(owned("仅自己可见"));
    }
    if str_contains(t, "关注") || str_contains(l, "follow") {
        return Some(owned("关注可见"));
    }
    if str_contains(t, "好友") || str_contains(l, "friend") {
        return Some(owned("好友可见"));
    }
    if str_eq(t, "0") || str_eq(t, "1") {
        Some(owned("公开"))
    } else if str_eq(t, "2") {
        Some(owned("关注可见"))
    } else if str_eq(t, "3") {
        Some(owned("仅自己可见"))
    } else if chars_of(t).len() <= 12 {
        Some(owned(t))
    } else {
        None
    }
}

/// Private or public from a privacy text, code
/// or flag.
pub open spec fn private_status_spec(value: Seq<char>) -> Option<Seq<char>> {
    let t = trim(value);
    let l = lower(t);
    if t.len() == 0 {
        None
    } else if contains(t, "仅自己"@) || contains(t, "私密"@) || contains(l, "private"@) {
        Some("仅自己可见"@)
    } else if contains(t, "公开"@) || contains(l, "public"@) {
        Some("公开"@)
    } else if t == "0"@ || t == "false"@ {
        Some("公开"@)
    } else if t == "1"@ || t == "true"@ {
        Some("仅自己可见"@)
    } else if t.len() <= 12 {
        Some(t)
    } else {
        None
    }
}

/// The visibility shown for a privacy text, code or flag.
pub fn wx_private_status_label(value: &str) -> (r: Option<String>)
    ensures
        opt_string_view(r) == private_status_spec(value@),
{
    if is_blank(value) {
        return None;
    }
    let t = trim_str(value);
    let l = lower_str(t.as_str());
    let t = t.as_str();
    let l = l.as_str();
    if str_contains(t, "仅自己") || str_contains(t, "私密") || str_contains(l, "private") {
        return Some(owned("仅自己可见"));
    }
    if str_contains(t, "公开") || str_contains(l, "public") {
        return Some(owned("公开"));
    }
    if str_eq(t, "0") || str_eq(t, "false") {
        Some(owned("公开"))
    } else if str_eq(t, "1") || str_eq(t, "true") {
        Some(owned("仅自己可见"))
    } else if chars_of(t).len() <= 12 {
        Some(owned(t))
    } else {
        None
    }
}

/// The label a field found at any depth under `key` gives through `f`.
pub open spec fn visible_label_at(v: JsonValue, key: Seq<char>) -> Option<Seq<char>> {
    match find_key(v, key) {
        Some(x) => match wx_text_spec(x) {
            Some(t) => visible_type_spec(t),
            None => None,
        },
        None => None,
    }
}

pub open spec fn private_label_at(v: JsonValue, key: Seq<char>) -> Option<Seq<char>> {
    match find_key(v, key) {
        Some(x) => match wx_text_spec(x) {
            Some(t) => private_status_spec(t),
            None => None,
        },
        None => None,
    }
}

pub open spec fn first_label(v: JsonValue, keys: Seq<&str>, private: bool) -> Option<Seq<char>>
    decreases keys.len(),
{
    if keys.len() == 0 {
        None
    } else {
        let l = if private { private_label_at(v, keys[0]@) } else { visible_label_at(v, keys[0]@) };
        match l {
            Some(x) => Some(x),
            None => first_label(v, keys.drop_first(), private),
        }
    }
}

pub open spec fn visible_keys() -> Seq<&'static str> {
    seq!["visibleType", "visible_type", "visibleRange", "visible_range", "visibility"]
}

pub open spec fn private_keys() -> Seq<&'static str> {
    seq!["privateStatus", "private_status", "privateType", "private_type"]
}

/// A visibility field first, then a privacy field.
pub open spec fn wx_visibility_spec(v: JsonValue) -> Option<Seq<char>> {
    match first_label(v, visible_keys(), false) {
        Some(x) => Some(x),
        None => first_label(v, private_keys(), true),
    }
}

fn first_label_exec(value: &JsonValue, keys: &[&str], private: bool) -> (r: Option<String>)
    ensures
        opt_string_view(r) == first_label(*value, keys@, private),
{
    let mut i: usize = 0;
    assert(keys@.skip(0) =~= keys@);
    while i < keys.len()
        invariant
            i <= keys@.len(),
            first_label(*value, keys@, private) == first_label(*value, keys@.skip(i as int), private),
        decreases keys@.len() - i,
    {
        proof {
            assert(keys@.skip(i as int).drop_first() =~= keys@.skip(i + 1));
            assert(keys@.skip(i as int)[0] == keys@[i as int]);
        }
        if let Some(x) = find_value_by_key(value, keys[i]) {
            if let Some(t) = value_to_text(x) {
                let l = if private { wx_private_status_label(t.as_str()) } else { wx_visible_type_label(t.as_str()) };
                if l.is_some() {
                    return l;
                }
            }
        }
        i += 1;
    }
    None
}

/// The visibility badge of a work, from its visibility or privacy fields.
pub fn wx_visibility_badge(value: &JsonValue) -> (r: Option<String>)
    ensures
        opt_string_view(r) == wx_visibility_spec(*value),
{
    let visible: [&str; 5] = ["visibleType", "visible_type", "visibleRange", "visible_range", "visibility"];
    assert(visible@ =~= visible_keys());
    let private: [&str; 4] = ["privateStatus", "private_status", "privateType", "private_type"];
    assert(private@ =~= private_keys());
    let l = first_label_exec(value, &visible, false);
    if l.is_some() {
        return l;
    }
    first_label_exec(value, &private, true)
}

pub open spec fn text_or_dash(v: Option<Seq<char>>) -> Option<Seq<char>> {
    match v { Some(t) => Some(t), None => Some("-"@) }
}

pub open spec fn count_or_dash(v: Option<u64>) -> Option<Seq<char>> {
    match v { Some(n) => Some(dec(n as nat)), None => Some("-"@) }
}

/// The metrics of a WeChat Channels work of a kind, each with "-" where
/// its value is missing.
pub open spec fn wx_metrics_spec(
    kind: WxWorkKind,
    views: Option<u64>,
    likes: Option<u64>,
    comments: Option<u64>,
    collects: Option<u64>,
    shares: Option<u64>,
    full_play_rate: Option<Seq<char>>,
    avg_play_time: Option<Seq<char>>,
) -> Seq<(Seq<char>, Seq<char>, Option<Seq<char>>)> {
    let base = seq![
        ("views"@, if kind == WxWorkKind::Video { "播放"@ } else { "阅读"@ }, count_or_dash(views)),
        ("likes"@, "点赞"@, count_or_dash(likes)),
        ("comments"@, "评论"@, count_or_dash(comments)),
        ("collects"@, "收藏"@, count_or_dash(collects)),
        ("shares"@, "转发"@, count_or_dash(shares)),
    ];
    if kind == WxWorkKind::Video {
        base + seq![
            ("fullPlayRate"@, "完播率"@, text_or_dash(full_play_rate)),
            ("avgPlayTime"@, "平均播放时长"@, text_or_dash(avg_play_time)),
        ]
    } else {
        base
    }
}

fn dash_metric(key: &str, label: &str, value: Option<String>) -> (r: ChannelWorkMetric)
    ensures
        work_metric_view(r) == (key@, label@, text_or_dash(opt_string_view(value))),
{
    ChannelWorkMetric {
        key: owned(key),
        label: owned(label),
        value: match value { Some(v) => Some(v), None => Some(owned("-")) },
    }
}

fn count_or_dash_exec(v: Option<u64>) -> (r: Option<String>)
    ensures
        text_or_dash(opt_string_view(r)) == count_or_dash(v),
{
    match v { Some(n) => Some(u64_to_string(n)), None => None }
}

/// The metrics of a work: views, likes, comments, favorites and shares,
/// and for a video its completion rate and average play time; "-" for
/// what is missing.
pub fn wx_work_metrics(
    work_kind: WxWorkKind,
    views: Option<u64>,
    likes: Option<u64>,
    comments: Option<u64>,
    collects: Option<u64>,
    shares: Option<u64>,
    full_play_rate: Option<String>,
    avg_play_time: Option<String>,
) -> (r: Vec<ChannelWorkMetric>)
    ensures
        work_metrics_view(r@) == wx_metrics_spec(work_kind, views, likes, comments, collects, shares,
            opt_string_view(full_play_rate), opt_string_view(avg_play_time)),
{
    let mut metrics: Vec<ChannelWorkMetric> = Vec::new();
    metrics.push(dash_metric("views", work_kind.views_label(), count_or_dash_exec(views)));
    metrics.push(dash_metric("likes", "点赞", count_or_dash_exec(likes)));
    metrics.push(dash_metric("comments", "评论", count_or_dash_exec(comments)));
    metrics.push(dash_metric("collects", "收藏", count_or_dash_exec(collects)));
    metrics.push(dash_metric("shares", "转发", count_or_dash_exec(shares)));
    if work_kind.includes_play_metrics() {
        metrics.push(dash_metric("fullPlayRate", "完播率", full_play_rate));
        metrics.push(dash_metric("avgPlayTime", "平均播放时长", avg_play_time));
        assert(work_metrics_view(metrics@) =~= wx_metrics_spec(work_kind, views, likes, comments, collects, shares,
            opt_string_view(full_play_rate), opt_string_view(avg_play_time)));
    } else {
        assert(work_metrics_view(metrics@) =~= wx_metrics_spec(work_kind, views, likes, comments, collects, shares,
            opt_string_view(full_play_rate), opt_string_view(avg_play_time)));
    }
    metrics
}

/// The page a page key names: a positive number, else the first page.
pub fn wx_page_number(page_key: &str) -> (r: i64)
    ensures
        r == (match parse_i64(trim(page_key@)) { Some(n) if n > 0 => n, _ => 1 }),
{
    let t = trim_str(page_key);
    match parse_i64_str(t.as_str()) {
        Some(n) => if n > 0 { n } else { 1 },
        None => 1,
    }
}

pub open spec fn refs_view(v: Seq<&JsonValue>) -> Seq<JsonValue> {
    v.map_values(|r: &JsonValue| *r)
}

/// The array under the first of `ks` that holds one.
pub open spec fn list_keys(v: JsonValue, ks: Seq<&str>) -> Option<Seq<JsonValue>>
    decreases ks.len(),
{
    if ks.len() == 0 {
        None
    } else {
        match jget(v, ks[0]@) {
            Some(JsonValue::Array(items)) => Some(items@),
            _ => list_keys(v, ks.drop_first()),
        }
    }
}

/// An array itself; in an object, the array under the first
/// of `keys` that holds one, else the first non-empty list found in its
/// members; otherwise nothing.
pub open spec fn list_of(v: JsonValue, keys: Seq<&str>) -> Seq<JsonValue>
    decreases v, 1int,
{
    match v {
        JsonValue::Array(items) => items@,
        JsonValue::Object(es) => match list_keys(v, keys) {
            Some(items) => items,
            None => list_entries(es@, keys),
        },
        _ => seq![],
    }
}

pub open spec fn list_entries(s: Seq<(String, JsonValue)>, keys: Seq<&str>) -> Seq<JsonValue>
    decreases s, 0int,
{
    if s.len() == 0 {
        seq![]
    } else {
        let n = list_of(s[0].1, keys);
        if n.len() > 0 { n } else { list_entries(s.drop_first(), keys) }
    }
}

fn refs_of(items: &Vec<JsonValue>) -> (r: Vec<&JsonValue>)
    ensures
        refs_view(r@) == items@,
{
    let mut out: Vec<&JsonValue> = Vec::new();
    let mut i: usize = 0;
    while i < items.len()
        invariant
            i <= items@.len(),
            refs_view(out@) == items@.take(i as int),
        decreases items@.len() - i,
    {
        let ghost before = out@;
        out.push(&items[i]);
        assert(refs_view(out@) =~= refs_view(before).push(items@[i as int]));
        assert(items@.take(i + 1) =~= items@.take(i as int).push(items@[i as int]));
        i += 1;
    }
    assert(items@.take(items@.len() as int) =~= items@);
    out
}

/// The list of items in a response: the value itself when it is an array,
/// else the array under the first of `keys`, else the first non-empty list
/// found inside it.
pub fn first_list<'a>(value: &'a JsonValue, keys: &[&str]) -> (r: Vec<&'a JsonValue>)
    ensures
        refs_view(r@) == list_of(*value, keys@),
    decreases value, 1int,
{
    match value {
        JsonValue::Array(items) => refs_of(items),
        JsonValue::Object(es) => {
            let mut i: usize = 0;
            assert(keys@.skip(0) =~= keys@);
            while i < keys.len()
                invariant
                    i <= keys@.len(),
                    list_keys(*value, keys@) == list_keys(*value, keys@.skip(i as int)),
                decreases keys@.len() - i,
            {
                proof {
                    assert(keys@.skip(i as int).drop_first() =~= keys@.skip(i + 1));
                    assert(keys@.skip(i as int)[0] == keys@[i as int]);
                }
                if let Some(JsonValue::Array(items)) = value.get(keys[i]) {
                    return refs_of(items);
                }
                i += 1;
            }
            let mut j: usize = 0;
            assert(es@.skip(0) =~= es@);
            while j < es.len()
                invariant
                    j <= es@.len(),
                    *value == JsonValue::Object(*es),
                    list_keys(*value, keys@) is None,
                    list_entries(es@, keys@) == list_entries(es@.skip(j as int), keys@),
                decreases es@.len() - j,
            {
                proof {
                    assert(es@.skip(j as int).drop_first() =~= es@.skip(j + 1));
                    assert(es@.skip(j as int)[0] == es@[j as int]);
                }
                let nested = first_list(&es[j].1, keys);
                if nested.len() > 0 {
                    return nested;
                }
                j += 1;
            }
            let r: Vec<&JsonValue> = Vec::new();
            assert(refs_view(r@) =~= Seq::<JsonValue>::empty());
            r
        },
        _ => {
            let r: Vec<&JsonValue> = Vec::new();
            assert(refs_view(r@) =~= Seq::<JsonValue>::empty());
            r
        },
    }
}

/// "置顶" when the sticky status is 2, then the
/// visibility, each once.
pub open spec fn wx_badges_spec(v: JsonValue, sticky_op_status: Option<i64>) -> Seq<Seq<char>> {
    let a: Seq<Seq<char>> = if sticky_op_status == Some(2i64) { push_unique_spec(seq![], "置顶"@) } else { seq![] };
    match wx_visibility_spec(v) {
        Some(label) => push_unique_spec(a, label),
        None => a,
    }
}

/// The badges of a work: pinned (its `stickyOpStatus`, which the caller
/// reads as a number, is 2) and its visibility.
pub fn wx_work_badges(value: &JsonValue, sticky_op_status: Option<i64>) -> (r: Vec<String>)
    ensures
        strings_view(r@) == wx_badges_spec(*value, sticky_op_status),
{
    let mut badges: Vec<String> = Vec::new();
    assert(strings_view(badges@) =~= Seq::<Seq<char>>::empty());
    if sticky_op_status == Some(2i64) {
        push_unique_badge(&mut badges, owned("置顶"));
    }
    match wx_visibility_badge(value) {
        Some(label) => push_unique_badge(&mut badges, label),
        None => {},
    }
    badges
}

pub open spec fn wx_work_id_keys() -> Seq<&'static str> {
    seq!["objectId", "object_id", "exportId", "export_id", "feedId", "feed_id", "id", "nonceId", "nonce_id"]
}

pub open spec fn wx_work_title_keys() -> Seq<&'static str> {
    seq!["richTextTitle", "title", "shortTitle", "description", "content", "desc"]
}

pub open spec fn wx_work_cover_keys() -> Seq<&'static str> {
    seq!["thumbUrl", "thumb_url", "coverUrl", "cover_url", "cover", "url", "imageUrl", "image_url"]
}

pub open spec fn wx_work_link_keys() -> Seq<&'static str> {
    seq!["url", "link", "detailUrl", "detail_url", "shortLink", "short_link"]
}

pub open spec fn wx_work_time_keys() -> Seq<&'static str> {
    seq!["createTime", "create_time", "createTimestamp", "create_timestamp", "createtime", "publishTime", "publish_time", "publishTimestamp", "publish_timestamp", "timestamp"]
}

pub open spec fn wx_work_view_keys() -> Seq<&'static str> {
    seq!["browse", "browseCount", "readCount", "read_count", "playCount", "play_count", "views"]
}

pub open spec fn wx_work_like_keys() -> Seq<&'static str> {
    seq!["like", "likeCount", "like_count", "likes"]
}

pub open spec fn wx_work_comment_keys() -> Seq<&'static str> {
    seq!["comment", "commentCount", "comment_count", "comments"]
}

pub open spec fn wx_work_collect_keys() -> Seq<&'static str> {
    seq!["favCount", "fav_count", "favoriteCount", "favorite_count", "collectCount", "collect_count"]
}

pub open spec fn wx_work_share_keys() -> Seq<&'static str> {
    seq!["forwardCount", "forward_count", "share", "shareCount", "share_count", "shares"]
}

/// A post with an id, its id prefixed by the work kind,
/// its trimmed title, counts and metrics.
pub open spec fn wx_work_spec(
    v: JsonValue,
    account_id: Seq<char>,
    kind: WxWorkKind,
    full_play_rate: Option<Seq<char>>,
    avg_play_time: Option<Seq<char>>,
    sticky_op_status: Option<i64>,
) -> Option<WorkView> {
    let kind_name = if kind == WxWorkKind::Video { "video"@ } else { "article"@ };
    match string_deep(v, wx_work_id_keys()) {
        None => None,
        Some(id) => {
            let views = count_deep(v, wx_work_view_keys());
            let likes = count_deep(v, wx_work_like_keys());
            let comments = count_deep(v, wx_work_comment_keys());
            let collects = count_deep(v, wx_work_collect_keys());
            let shares = count_deep(v, wx_work_share_keys());
            Some(WorkView {
                id: "wechat-channels-"@ + kind_name + "-"@ + id,
                platform_id: "wechat-channels"@,
                account_id: account_id,
                title: match string_deep(v, wx_work_title_keys()) {
                    Some(t) if trim(t).len() > 0 => trim(t),
                    _ => "未命名作品"@,
                },
                cover_url: match profile_image(v, wx_work_cover_keys()) {
                    Some(u) => Some(image_url_spec(u)),
                    None => None,
                },
                link: string_deep(v, wx_work_link_keys()),
                published_at: time_deep(v, wx_work_time_keys(), TimeStyle::Wechat),
                status: "published"@,
                views: views,
                impressions: None,
                likes: likes,
                collects: collects,
                comments: comments,
                shares: shares,
                cover_click_rate: full_play_rate,
                avg_view_time: avg_play_time,
                gained_followers: None,
                data_updated_at: None,
                metrics: wx_metrics_spec(kind, views, likes, comments, collects, shares, full_play_rate, avg_play_time),
                badges: wx_badges_spec(v, sticky_op_status),
                work_type: Some(kind_name),
            })
        },
    }
}

/// Reads a post of a WeChat Channels works list; one without an id gives
/// nothing. The completion rate and average play time arrive as decimals
/// and the sticky status may be one, so the caller reads those three and
/// passes the texts shown for the first two and the status.
pub fn parse_wx_work(
    value: &JsonValue,
    account_id: &str,
    work_kind: WxWorkKind,
    full_play_rate: Option<String>,
    avg_play_time: Option<String>,
    sticky_op_status: Option<i64>,
) -> (r: Option<ChannelContentWork>)
    ensures
        crate::domain::opt_work_view(r) == wx_work_spec(*value, account_id@, work_kind,
            opt_string_view(full_play_rate), opt_string_view(avg_play_time), sticky_op_status),
{
    let id_keys: [&str; 9] = ["objectId", "object_id", "exportId", "export_id", "feedId", "feed_id", "id", "nonceId", "nonce_id"];
    assert(id_keys@ =~= wx_work_id_keys());
    let id = match first_string_deep(value, &id_keys) {
        Some(id) => id,
        None => return None,
    };
    let title_keys: [&str; 6] = ["richTextTitle", "title", "shortTitle", "description", "content", "desc"];
    assert(title_keys@ =~= wx_work_title_keys());
    let title = match first_string_deep(value, &title_keys) {
        Some(t) => {
            let tt = trim_str(t.as_str());
            if is_blank(t.as_str()) { owned("未命名作品") } else { tt }
        },
        None => owned("未命名作品"),
    };
    let cover_keys: [&str; 8] = ["thumbUrl", "thumb_url", "coverUrl", "cover_url", "cover", "url", "imageUrl", "image_url"];
    assert(cover_keys@ =~= wx_work_cover_keys());
    let link_keys: [&str; 6] = ["url", "link", "detailUrl", "detail_url", "shortLink", "short_link"];
    assert(link_keys@ =~= wx_work_link_keys());
    let time_keys_a: [&str; 10] = ["createTime", "create_time", "createTimestamp", "create_timestamp", "createtime", "publishTime", "publish_time", "publishTimestamp", "publish_timestamp", "timestamp"];
    assert(time_keys_a@ =~= wx_work_time_keys());
    let view_keys: [&str; 7] = ["browse", "browseCount", "readCount", "read_count", "playCount", "play_count", "views"];
    assert(view_keys@ =~= wx_work_view_keys());
    let like_keys: [&str; 4] = ["like", "likeCount", "like_count", "likes"];
    assert(like_keys@ =~= wx_work_like_keys());
    let comment_keys: [&str; 4] = ["comment", "commentCount", "comment_count", "comments"];
    assert(comment_keys@ =~= wx_work_comment_keys());
    let collect_keys: [&str; 6] = ["favCount", "fav_count", "favoriteCount", "favorite_count", "collectCount", "collect_count"];
    assert(collect_keys@ =~= wx_work_collect_keys());
    let share_keys: [&str; 6] = ["forwardCount", "forward_count", "share", "shareCount", "share_count", "shares"];
    assert(share_keys@ =~= wx_work_share_keys());
    let cover_url = match first_profile_image(value, &cover_keys) {
        Some(u) => Some(normalize_image_url(u)),
        None => None,
    };
    let views = first_count(value, &view_keys);
    let likes = first_count(value, &like_keys);
    let comments = first_count(value, &comment_keys);
    let collects = first_count(value, &collect_keys);
    let shares = first_count(value, &share_keys);
    let rate_copy = match &full_play_rate { Some(x) => Some(x.clone()), None => None };
    let time_copy = match &avg_play_time { Some(x) => Some(x.clone()), None => None };
    let metrics = wx_work_metrics(work_kind, views, likes, comments, collects, shares, rate_copy, time_copy);
    let kind_name = work_kind.as_str();
    let mut full_id = owned("wechat-channels-");
    push_str(&mut full_id, kind_name);
    push_str(&mut full_id, "-");
    push_str(&mut full_id, id.as_str());
    Some(ChannelContentWork {
        id: full_id,
        platform_id: owned("wechat-channels"),
        account_id: owned(account_id),
        title,
        cover_url,
        link: first_string_deep(value, &link_keys),
        published_at: first_time_deep(value, &time_keys_a, TimeStyle::Wechat),
        status: owned("published"),
        views,
        impressions: None,
        likes,
        collects,
        comments,
        shares,
        cover_click_rate: full_play_rate,
        avg_view_time: avg_play_time,
        gained_followers: None,
        data_updated_at: None,
        metrics,
        badges: wx_work_badges(value, sticky_op_status),
        work_type: Some(owned(kind_name)),
    })
}

/// An account read from a cookie, on a failed request: an HTTP
/// 401 or 403 means the login expired; anything else is a failure with the
/// request's message.
pub open spec fn wx_request_error_spec(error: Seq<char>) -> AuthErrorView {
    if contains(error, "401"@) || contains(error, "403"@) {
        AuthErrorView::NotLoggedIn("视频号登录已过期，请重新登录。"@)
    } else {
        AuthErrorView::Failed(error)
    }
}

/// The sign-in error a failed account request stands for.
pub fn wx_account_request_error(error: String) -> (r: PluginAuthError)
    ensures
        auth_error_view(r) == wx_request_error_spec(error@),
{
    if str_contains(error.as_str(), "401") || str_contains(error.as_str(), "403") {
        PluginAuthError::NotLoggedIn(owned("视频号登录已过期，请重新登录。"))
    } else {
        PluginAuthError::Failed(error)
    }
}

pub open spec fn wx_uid_keys() -> Seq<&'static str> {
    seq!["uniqId", "uniq_id", "finderUsername", "finderUserName", "finder_user_name", "finderUserId", "finder_user_id", "username", "userName", "wxUsername", "wxUserName", "openId", "open_id", "uin", "id"]
}

pub open spec fn wx_nickname_keys() -> Seq<&'static str> {
    seq!["nickname", "nickName", "name", "displayName", "finderNickname"]
}

pub open spec fn wx_avatar_keys() -> Seq<&'static str> {
    seq!["headImgUrl", "head_img_url", "avatar", "avatarUrl", "avatar_url", "headImg", "image", "imageUrl"]
}

pub open spec fn wx_follower_keys() -> Seq<&'static str> {
    seq!["fans_count", "fansCount", "fans", "fan_count", "fanCount", "followers", "followers_count", "followersCount", "follower_count", "followerCount"]
}

pub open spec fn wx_following_keys() -> Seq<&'static str> {
    seq!["following_count", "followingCount", "follow_count", "followCount", "follow_num", "followNum", "following", "followings", "attention_count", "attentionCount"]
}

pub open spec fn wx_like_keys() -> Seq<&'static str> {
    seq!["like_count", "likeCount", "liked_count", "likedCount", "likes", "liked", "total_liked", "totalLiked"]
}

pub open spec fn wx_message_or(v: JsonValue, fallback: Seq<char>) -> Seq<char> {
    match first_string_spec(v, seq!["errMsg", "errmsg", "message"]) {
        Some(m) => m,
        None => fallback,
    }
}

pub open spec fn wx_finder_user(v: JsonValue) -> Option<JsonValue> {
    match jget(v, "data"@) {
        Some(d) => jget(d, "finderUser"@),
        None => None,
    }
}

pub open spec fn wx_platform_name() -> Seq<char> {
    match platform_view("wechat-channels"@) {
        Some(p) => p.name,
        None => "渠道账号"@,
    }
}

/// The account the sign-in data response describes: an expired login for
/// codes 300333 and 300334, no login without a finder user or with another
/// non-zero code, and no account without an id or nickname.
pub open spec fn wx_account_spec(v: JsonValue, login_cookie: Seq<char>) -> Result<ProfileView, AuthErrorView> {
    let code = match first_i64_spec(v, seq!["errCode", "errcode", "code"]) { Some(c) => c, None => 0 };
    if code == 300333 || code == 300334 {
        Err(AuthErrorView::NotLoggedIn("视频号登录已过期，请重新登录。"@))
    } else {
        match wx_finder_user(v) {
            None => Err(AuthErrorView::NotLoggedIn(wx_message_or(v, "请先在打开的视频号窗口完成登录。"@))),
            Some(finder) => if code != 0 {
                Err(AuthErrorView::NotLoggedIn(wx_message_or(v, "视频号登录没有完成。"@)))
            } else {
                let uid = match string_deep(finder, wx_uid_keys()) { Some(x) => x, None => Seq::empty() };
                let nickname = match string_deep(finder, wx_nickname_keys()) { Some(x) => x, None => wx_platform_name() };
                let account = if trim(uid).len() == 0 { nickname } else { uid };
                if trim(account).len() == 0 || account == wx_platform_name() {
                    Err(AuthErrorView::NotLoggedIn("视频号已登录，但没有读取到账号 ID，请进入视频号后台后再检查状态。"@))
                } else {
                    Ok(ProfileView {
                        uid: account,
                        account: account,
                        nickname: nickname,
                        avatar: match profile_image(finder, wx_avatar_keys()) { Some(x) => image_url_spec(x), None => Seq::empty() },
                        fans_count: count_deep(finder, wx_follower_keys()),
                        following_count: count_deep(finder, wx_following_keys()),
                        like_count: count_deep(finder, wx_like_keys()),
                        login_cookie: login_cookie,
                    })
                }
            },
        }
    }
}

fn wx_message_or_exec(value: &JsonValue, fallback: &str) -> (r: String)
    ensures
        r@ == wx_message_or(*value, fallback@),
{
    let keys: [&str; 3] = ["errMsg", "errmsg", "message"];
    assert(keys@ =~= seq!["errMsg", "errmsg", "message"]);
    match first_string(value, &keys) {
        Some(m) => m,
        None => owned(fallback),
    }
}

/// Reads a WeChat Channels account from the sign-in data response.
pub fn wx_channels_account_from_response(value: &JsonValue, login_cookie: String) -> (r: Result<PluginAccountInfo, PluginAuthError>)
    ensures
        profile_result_view(r) == wx_account_spec(*value, login_cookie@),
{
    let code_keys: [&str; 3] = ["errCode", "errcode", "code"];
    assert(code_keys@ =~= seq!["errCode", "errcode", "code"]);
    let code = match first_i64(value, &code_keys) { Some(c) => c, None => 0 };
    if code == 300333 || code == 300334 {
        return Err(PluginAuthError::NotLoggedIn(owned("视频号登录已过期，请重新登录。")));
    }
    let finder = match value.get("data") {
        Some(d) => d.get("finderUser"),
        None => None,
    };
    let finder = match finder {
        Some(f) => f,
        None => return Err(PluginAuthError::NotLoggedIn(wx_message_or_exec(value, "请先在打开的视频号窗口完成登录。"))),
    };
    if code != 0 {
        return Err(PluginAuthError::NotLoggedIn(wx_message_or_exec(value, "视频号登录没有完成。")));
    }
    let uid_keys: [&str; 15] = ["uniqId", "uniq_id", "finderUsername", "finderUserName", "finder_user_name", "finderUserId", "finder_user_id", "username", "userName", "wxUsername", "wxUserName", "openId", "open_id", "uin", "id"];
    assert(uid_keys@ =~= wx_uid_keys());
    let nickname_keys: [&str; 5] = ["nickname", "nickName", "name", "displayName", "finderNickname"];
    assert(nickname_keys@ =~= wx_nickname_keys());
    let avatar_keys: [&str; 8] = ["headImgUrl", "head_img_url", "avatar", "avatarUrl", "avatar_url", "headImg", "image", "imageUrl"];
    assert(avatar_keys@ =~= wx_avatar_keys());
    let follower_keys: [&str; 10] = ["fans_count", "fansCount", "fans", "fan_count", "fanCount", "followers", "followers_count", "followersCount", "follower_count", "followerCount"];
    assert(follower_keys@ =~= wx_follower_keys());
    let following_keys: [&str; 10] = ["following_count", "followingCount", "follow_count", "followCount", "follow_num", "followNum", "following", "followings", "attention_count", "attentionCount"];
    assert(following_keys@ =~= wx_following_keys());
    let like_keys: [&str; 8] = ["like_count", "likeCount", "liked_count", "likedCount", "likes", "liked", "total_liked", "totalLiked"];
    assert(like_keys@ =~= wx_like_keys());
    let uid = match first_string_deep(finder, &uid_keys) { Some(x) => x, None => String::new() };
    let nickname = match first_string_deep(finder, &nickname_keys) {
        Some(x) => x,
        None => owned(platform_name("wechat-channels")),
    };
    let account = if is_blank(uid.as_str()) { nickname.clone() } else { uid };
    if is_blank(account.as_str()) || str_eq(account.as_str(), platform_name("wechat-channels")) {
        return Err(PluginAuthError::NotLoggedIn(owned("视频号已登录，但没有读取到账号 ID，请进入视频号后台后再检查状态。")));
    }
    let avatar = match first_profile_image(finder, &avatar_keys) {
        Some(x) => normalize_image_url(x),
        None => String::new(),
    };
    let uid_copy = account.clone();
    Ok(PluginAccountInfo {
        uid: uid_copy,
        account,
        nickname,
        avatar,
        fans_count: first_count(finder, &follower_keys),
        following_count: first_count(finder, &following_keys),
        like_count: first_count(finder, &like_keys),
        login_cookie,
    })
}

} // verus!


