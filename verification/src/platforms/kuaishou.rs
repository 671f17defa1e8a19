//! Kuaishou: how its creator API responses are read into works, badges,
//! metrics and overviews.

use vstd::prelude::*;
use crate::domain::{ChannelContentWork, ChannelWorkMetric, UtcTime, WorkView, strings_view, work_metrics_view, work_metric_view};
use crate::json_ext::{count_deep, first_count, first_string, first_string_spec};
use crate::platforms::images::{first_profile_image, normalize_platform_image_url, platform_image_url_spec, profile_image};
use crate::text::concat_str;
use crate::domain::{PluginAccountInfo, ProfileView, either};
use crate::platforms::{platform_name, platform_view};
use crate::platforms::cookies::{kuaishou_account_from_login_cookie, kuaishou_cookie_account_spec};
use crate::json::{JsonValue, jget, opt_ref};
use crate::json_ext::{first_i64, first_i64_spec, first_string_deep, string_deep, opt_string_view};
use crate::number::{dec, dec_signed, i64_to_string, u64_to_string, parse_i64, parse_i64_str};
use crate::platforms::fields::{value_to_bool, value_to_bool_spec};
use crate::strs::owned;
use crate::order::{sorted_unique, strictly_sorted};
use crate::text::{
    chars_of, contains, is_blank, push_str, str_contains, str_eq, string_from_range, trim,
    trim_str,
};

verus! {

/// A response object that holds a "list" array.
pub open spec fn has_list(v: JsonValue) -> bool {
    match jget(v, "list"@) {
        Some(JsonValue::Array(_)) => true,
        _ => false,
    }
}

/// The object holding the works list,
/// looked for at the top, under "data", under "data.data", then under
/// "result".
pub open spec fn management_data_spec(v: JsonValue) -> Option<JsonValue> {
    if has_list(v) {
        Some(v)
    } else if jget(v, "data"@) is Some && has_list(jget(v, "data"@)->0) {
        jget(v, "data"@)
    } else {
        let nested = match jget(v, "data"@) { Some(d) => jget(d, "data"@), None => None };
        if nested is Some && has_list(nested->0) {
            nested
        } else if jget(v, "result"@) is Some && has_list(jget(v, "result"@)->0) {
            jget(v, "result"@)
        } else {
            None
        }
    }
}

fn has_list_exec(v: &JsonValue) -> (r: bool)
    ensures
        r == has_list(*v),
{
    match v.get("list") {
        Some(JsonValue::Array(_)) => true,
        _ => false,
    }
}

/// The part of a works-management response that holds the "list" of works.
pub fn kuaishou_management_works_data(value: &JsonValue) -> (r: Option<&JsonValue>)
    ensures
        opt_ref(r) == management_data_spec(*value),
{
    if has_list_exec(value) {
        return Some(value);
    }
    if let Some(data) = value.get("data") {
        if has_list_exec(data) {
            return Some(data);
        }
        if let Some(nested) = data.get("data") {
            if has_list_exec(nested) {
                return Some(nested);
            }
        }
    }
    if let Some(result) = value.get("result") {
        if has_list_exec(result) {
            return Some(result);
        }
    }
    None
}

/// The key of an overview figure, from its tab or,
/// failing that, from words in its label.
pub open spec fn overview_key_spec(tab: Seq<char>, label: Seq<char>) -> Seq<char> {
    if tab == "PLAY"@ { "play"@ }
    else if tab == "LIKE"@ { "like"@ }
    else if tab == "PURE_INCREASE_FAN"@ { "netFollowers"@ }
    else if tab == "COMPLETE_RATIO"@ { "completionRate"@ }
    else if tab == "COMMENT"@ { "comment"@ }
    else if tab == "SHARE"@ { "share"@ }
    else if tab == "WORKS"@ { "works"@ }
    else if contains(label, "粉丝"@) { "netFollowers"@ }
    else if contains(label, "完播"@) { "completionRate"@ }
    else if contains(label, "评论"@) { "comment"@ }
    else if contains(label, "点赞"@) { "like"@ }
    else if contains(label, "分享"@) { "share"@ }
    else if contains(label, "作品"@) { "works"@ }
    else { "metric"@ }
}

/// The key of an overview figure from its tab name or its label.
pub fn kuaishou_overview_key(tab: &str, label: &str) -> (r: &'static str)
    ensures
        r@ == overview_key_spec(tab@, label@),
{
    if str_eq(tab, "PLAY") { "play" }
    else if str_eq(tab, "LIKE") { "like" }
    else if str_eq(tab, "PURE_INCREASE_FAN") { "netFollowers" }
    else if str_eq(tab, "COMPLETE_RATIO") { "completionRate" }
    else if str_eq(tab, "COMMENT") { "comment" }
    else if str_eq(tab, "SHARE") { "share" }
    else if str_eq(tab, "WORKS") { "works" }
    else if str_contains(label, "粉丝") { "netFollowers" }
    else if str_contains(label, "完播") { "completionRate" }
    else if str_contains(label, "评论") { "comment" }
    else if str_contains(label, "点赞") { "like" }
    else if str_contains(label, "分享") { "share" }
    else if str_contains(label, "作品") { "works" }
    else { "metric" }
}

/// The key of a work-detail figure, from its
/// English name or, failing that, from words in its name.
pub open spec fn detail_key_spec(en_name: Seq<char>, name: Seq<char>) -> Seq<char> {
    if en_name == "PLAY_CNT"@ { "play"@ }
    else if en_name == "AVG_PLAY_DURATION"@ { "avgViewTime"@ }
    else if en_name == "OUTSIDE_CTR"@ { "coverClickRate"@ }
    else if en_name == "TWO_SECONDS_EXIT"@ { "twoSecondExitRate"@ }
    else if en_name == "FIVE_SECONDS_FPR"@ { "fiveSecondCompletionRate"@ }
    else if en_name == "FPR"@ { "completionRate"@ }
    else if en_name == "LIKE_CNT"@ { "like"@ }
    else if en_name == "COMMENT_CNT"@ { "comment"@ }
    else if en_name == "SHARE_CNT"@ { "share"@ }
    else if en_name == "COLLECT_CNT"@ { "collect"@ }
    else if en_name == "FOLLOW_CNT"@ || en_name == "FAN_CNT"@ || en_name == "PURE_INCREASE_FAN"@ { "followers"@ }
    else if contains(name, "播放"@) { "play"@ }
    else if contains(name, "点赞"@) { "like"@ }
    else if contains(name, "评论"@) { "comment"@ }
    else if contains(name, "分享"@) { "share"@ }
    else if contains(name, "收藏"@) { "collect"@ }
    else if contains(name, "粉"@) { "followers"@ }
    else { "metric"@ }
}

/// The key of a work-detail figure from its English name or its name.
pub fn kuaishou_detail_metric_key(en_name: &str, name: &str) -> (r: &'static str)
    ensures
        r@ == detail_key_spec(en_name@, name@),
{
    if str_eq(en_name, "PLAY_CNT") { "play" }
    else if str_eq(en_name, "AVG_PLAY_DURATION") { "avgViewTime" }
    else if str_eq(en_name, "OUTSIDE_CTR") { "coverClickRate" }
    else if str_eq(en_name, "TWO_SECONDS_EXIT") { "twoSecondExitRate" }
    else if str_eq(en_name, "FIVE_SECONDS_FPR") { "fiveSecondCompletionRate" }
    else if str_eq(en_name, "FPR") { "completionRate" }
    else if str_eq(en_name, "LIKE_CNT") { "like" }
    else if str_eq(en_name, "COMMENT_CNT") { "comment" }
    else if str_eq(en_name, "SHARE_CNT") { "share" }
    else if str_eq(en_name, "COLLECT_CNT") { "collect" }
    else if str_eq(en_name, "FOLLOW_CNT") || str_eq(en_name, "FAN_CNT") || str_eq(en_name, "PURE_INCREASE_FAN") { "followers" }
    else if str_contains(name, "播放") { "play" }
    else if str_contains(name, "点赞") { "like" }
    else if str_contains(name, "评论") { "comment" }
    else if str_contains(name, "分享") { "share" }
    else if str_contains(name, "收藏") { "collect" }
    else if str_contains(name, "粉") { "followers" }
    else { "metric" }
}

/// Where a work-detail figure is listed.
pub open spec fn detail_order_spec(key: Seq<char>) -> u8 {
    if key == "play"@ { 0 }
    else if key == "avgViewTime"@ { 1 }
    else if key == "coverClickRate"@ { 2 }
    else if key == "completionRate"@ { 3 }
    else if key == "fiveSecondCompletionRate"@ { 4 }
    else if key == "twoSecondExitRate"@ { 5 }
    else if key == "like"@ { 6 }
    else if key == "comment"@ { 7 }
    else if key == "collect"@ { 8 }
    else if key == "share"@ { 9 }
    else if key == "followers"@ { 10 }
    else { 99 }
}

/// The position of a work-detail figure in the listing, unknown ones last.
pub fn kuaishou_detail_metric_order(key: &str) -> (r: u8)
    ensures
        r == detail_order_spec(key@),
{
    if str_eq(key, "play") { 0 }
    else if str_eq(key, "avgViewTime") { 1 }
    else if str_eq(key, "coverClickRate") { 2 }
    else if str_eq(key, "completionRate") { 3 }
    else if str_eq(key, "fiveSecondCompletionRate") { 4 }
    else if str_eq(key, "twoSecondExitRate") { 5 }
    else if str_eq(key, "like") { 6 }
    else if str_eq(key, "comment") { 7 }
    else if str_eq(key, "collect") { 8 }
    else if str_eq(key, "share") { 9 }
    else if str_eq(key, "followers") { 10 }
    else { 99 }
}

pub open spec fn any_contains(badges: Seq<Seq<char>>, word: Seq<char>) -> bool {
    exists|i: int| 0 <= i < badges.len() && contains(badges[i], word)
}

/// Failed, reviewing, draft or published, from the
/// words in its badges.
pub open spec fn work_status_spec(badges: Seq<Seq<char>>) -> Seq<char> {
    if any_contains(badges, "失败"@) || any_contains(badges, "未通过"@) || any_contains(badges, "封禁"@) {
        "failed"@
    } else if any_contains(badges, "审核"@) {
        "reviewing"@
    } else if any_contains(badges, "草稿"@) {
        "draft"@
    } else {
        "published"@
    }
}

fn any_contains_exec(badges: &[String], word: &str) -> (r: bool)
    ensures
        r == any_contains(strings_view(badges@), word@),
{
    let mut i: usize = 0;
    while i < badges.len()
        invariant
            i <= badges@.len(),
            forall|j: int| 0 <= j < i ==> !contains(#[trigger] strings_view(badges@)[j], word@),
        decreases badges@.len() - i,
    {
        assert(strings_view(badges@)[i as int] == badges@[i as int]@);
        if str_contains(badges[i].as_str(), word) {
            return true;
        }
        i += 1;
    }
    false
}

/// The status of a work as its badges show it.
pub fn kuaishou_work_status(badges: &[String]) -> (r: &'static str)
    ensures
        r@ == work_status_spec(strings_view(badges@)),
{
    if any_contains_exec(badges, "失败") || any_contains_exec(badges, "未通过") || any_contains_exec(badges, "封禁") {
        "failed"
    } else if any_contains_exec(badges, "审核") {
        "reviewing"
    } else if any_contains_exec(badges, "草稿") {
        "draft"
    } else {
        "published"
    }
}

/// A work metric from its parts.
pub fn kuaishou_work_metric(key: &str, label: &str, value: Option<String>) -> (r: ChannelWorkMetric)
    ensures
        r.key@ == key@,
        r.label@ == label@,
        opt_string_view(r.value) == opt_string_view(value),
{
    ChannelWorkMetric { key: owned(key), label: owned(label), value }
}

pub open spec fn count_text(v: Option<u64>) -> Option<Seq<char>> {
    match v { Some(n) => Some(dec(n as nat)), None => None }
}

/// The metrics of a Kuaishou work, in display order.
pub fn kuaishou_work_metrics(
    views: Option<u64>,
    likes: Option<u64>,
    comments: Option<u64>,
    completion_rate: Option<String>,
    gained_followers: Option<i64>,
    collects: Option<u64>,
) -> (r: Vec<ChannelWorkMetric>)
    ensures
        work_metrics_view(r@) == seq![
            ("play"@, "播放"@, count_text(views)),
            ("like"@, "点赞"@, count_text(likes)),
            ("comment"@, "评论"@, count_text(comments)),
            ("completionRate"@, "完播率"@, opt_string_view(completion_rate)),
            ("followers"@, "涨粉"@, match gained_followers { Some(n) => Some(dec_signed(n as int)), None => None }),
            ("collect"@, "收藏"@, count_text(collects)),
        ],
{
    let text = |v: Option<u64>| -> (t: Option<String>)
        ensures
            opt_string_view(t) == count_text(v),
    {
        match v { Some(n) => Some(u64_to_string(n)), None => None }
    };
    let followers = match gained_followers { Some(n) => Some(i64_to_string(n)), None => None };
    let r = vec![
        kuaishou_work_metric("play", "播放", text(views)),
        kuaishou_work_metric("like", "点赞", text(likes)),
        kuaishou_work_metric("comment", "评论", text(comments)),
        kuaishou_work_metric("completionRate", "完播率", completion_rate),
        kuaishou_work_metric("followers", "涨粉", followers),
        kuaishou_work_metric("collect", "收藏", text(collects)),
    ];
    assert(work_metrics_view(r@) =~= seq![
        work_metric_view(r@[0]), work_metric_view(r@[1]), work_metric_view(r@[2]),
        work_metric_view(r@[3]), work_metric_view(r@[4]), work_metric_view(r@[5]),
    ]);
    r
}

/// A flag as Kuaishou writes it: a boolean, a non-zero number, or a yes/no
/// word.
pub fn kuaishou_value_to_bool(value: &JsonValue) -> (r: Option<bool>)
    ensures
        r == value_to_bool_spec(*value),
{
    value_to_bool(value)
}

pub open spec fn flag_at(v: JsonValue, key: Seq<char>) -> Option<bool> {
    match jget(v, key) { Some(x) => value_to_bool_spec(x), None => None }
}

/// An atlas or a non-video is an article, a video is a
/// video, else the type code decides.
pub open spec fn kuaishou_work_type_spec(item: JsonValue) -> Option<Seq<char>> {
    if flag_at(item, "showAtlasIcon"@) == Some(true) {
        Some("article"@)
    } else if flag_at(item, "video"@) == Some(false) {
        Some("article"@)
    } else if flag_at(item, "video"@) == Some(true) {
        Some("video"@)
    } else {
        match first_i64_spec(item, seq!["photoType", "workType", "type"]) {
            Some(t) => if t == 2 { Some("article"@) } else if t == 1 { Some("video"@) } else { None },
            None => None,
        }
    }
}

fn flag_at_exec(v: &JsonValue, key: &str) -> (r: Option<bool>)
    ensures
        r == flag_at(*v, key@),
{
    match v.get(key) { Some(x) => value_to_bool(x), None => None }
}

/// Whether a work is a video or an article, where it says.
pub fn kuaishou_work_type(item: &JsonValue) -> (r: Option<String>)
    ensures
        opt_string_view(r) == kuaishou_work_type_spec(*item),
{
    if flag_at_exec(item, "showAtlasIcon") == Some(true) {
        return Some(owned("article"));
    }
    let video = flag_at_exec(item, "video");
    if video == Some(false) {
        return Some(owned("article"));
    }
    if video == Some(true) {
        return Some(owned("video"));
    }
    let keys: [&str; 3] = ["photoType", "workType", "type"];
    assert(keys@ =~= seq!["photoType", "workType", "type"]);
    match first_i64(item, &keys) {
        Some(t) => if t == 2 { Some(owned("article")) } else if t == 1 { Some(owned("video")) } else { None },
        None => None,
    }
}

pub open spec fn response_code_keys() -> Seq<&'static str> {
    seq!["result", "code", "errCode", "errcode"]
}

/// A response succeeded when its result code (0 where missing) is 1.
pub fn kuaishou_response_success(value: &JsonValue) -> (r: bool)
    ensures
        r == ((match first_i64_spec(*value, response_code_keys()) { Some(c) => c, None => 0 }) == 1),
{
    let keys: [&str; 4] = ["result", "code", "errCode", "errcode"];
    assert(keys@ =~= response_code_keys());
    let c = match first_i64(value, &keys) { Some(c) => c, None => 0 };
    c == 1
}

pub open spec fn message_keys() -> Seq<&'static str> {
    seq!["message", "msg", "errorMessage", "error_msg", "errorMsg", "reason", "tips"]
}

/// The response's message, else the fallback with
/// its result code, else the fallback.
pub open spec fn kuaishou_error_spec(value: JsonValue, fallback: Seq<char>) -> Seq<char> {
    match string_deep(value, message_keys()) {
        Some(m) if trim(m).len() > 0 => m,
        _ => match first_i64_spec(value, response_code_keys()) {
            Some(c) => fallback + ": "@ + dec_signed(c as int),
            None => fallback,
        },
    }
}

/// The message to show for a failed response.
pub fn kuaishou_error_message(value: &JsonValue, fallback: &str) -> (r: String)
    ensures
        r@ == kuaishou_error_spec(*value, fallback@),
{
    let keys: [&str; 7] = ["message", "msg", "errorMessage", "error_msg", "errorMsg", "reason", "tips"];
    assert(keys@ =~= message_keys());
    if let Some(m) = first_string_deep(value, &keys) {
        if !is_blank(m.as_str()) {
            return m;
        }
    }
    let codes: [&str; 4] = ["result", "code", "errCode", "errcode"];
    assert(codes@ =~= response_code_keys());
    match first_i64(value, &codes) {
        Some(c) => {
            let mut out = owned(fallback);
            push_str(&mut out, ": ");
            push_str(&mut out, i64_to_string(c).as_str());
            out
        },
        None => owned(fallback),
    }
}

/// The page a page key names: a number of zero or more, else the first (0).
pub fn kuaishou_page_number(page_key: &str) -> (r: i64)
    ensures
        r == (match parse_i64(trim(page_key@)) { Some(n) if n >= 0 => n, _ => 0 }),
{
    let t = trim_str(page_key);
    match parse_i64_str(t.as_str()) {
        Some(n) => if n >= 0 { n } else { 0 },
        None => 0,
    }
}

/// `s` without the run of `c` at its end.
pub open spec fn strip_trailing(s: Seq<char>, c: char) -> Seq<char>
    decreases s.len(),
{
    if s.len() > 0 && s.last() == c { strip_trailing(s.drop_last(), c) } else { s }
}

proof fn lemma_strip_trailing_at(s: Seq<char>, c: char, k: int)
    requires
        0 <= k <= s.len(),
        forall|j: int| k <= j < s.len() ==> s[j] == c,
        k == 0 || s[k - 1] != c,
    ensures
        strip_trailing(s, c) == s.take(k),
    decreases s.len(),
{
    if k < s.len() {
        assert forall|j: int| k <= j < s.len() - 1 implies s.drop_last()[j] == c by {
            assert(s.drop_last()[j] == s[j]);
        }
        lemma_strip_trailing_at(s.drop_last(), c, k);
        assert(s.drop_last().take(k) =~= s.take(k));
    } else {
        assert(s.take(k) =~= s);
    }
}

fn strip_trailing_exec(v: &[char], hi: usize, c: char) -> (k: usize)
    requires
        hi <= v@.len(),
    ensures
        k <= hi,
        strip_trailing(v@.take(hi as int), c) == v@.take(k as int),
{
    let mut k = hi;
    while k > 0 && v[k - 1] == c
        invariant
            k <= hi <= v@.len(),
            forall|j: int| k <= j < hi ==> v@[j] == c,
        decreases k,
    {
        k -= 1;
    }
    proof {
        let t = v@.take(hi as int);
        assert forall|j: int| k <= j < t.len() implies t[j] == c by {
            assert(t[j] == v@[j]);
        }
        if k > 0 {
            assert(t[k - 1] == v@[k - 1]);
        }
        lemma_strip_trailing_at(t, c, k as int);
        assert(t.take(k as int) =~= v@.take(k as int));
    }
    k
}

/// A formatted decimal without trailing zeros and without a trailing point.
pub fn trim_number_text(value: &str) -> (r: String)
    ensures
        r@ == strip_trailing(strip_trailing(value@, '0'), '.'),
{
    let v = chars_of(value);
    assert(v@.take(v@.len() as int) =~= v@);
    let k = strip_trailing_exec(&v, v.len(), '0');
    let m = strip_trailing_exec(&v, k, '.');
    let r = string_from_range(&v, 0, m);
    assert(r@ =~= v@.take(m as int));
    r
}

/// The "tagText" strings of status tags that are not blank, in order.
pub open spec fn tag_texts(tags: Seq<JsonValue>) -> Seq<Seq<char>>
    decreases tags.len(),
{
    if tags.len() == 0 {
        seq![]
    } else {
        let rest = tag_texts(tags.drop_last());
        match jget(tags.last(), "tagText"@) {
            Some(JsonValue::String(t)) if trim(t@).len() > 0 => rest.push(t@),
            _ => rest,
        }
    }
}

/// The non-blank string under `key`, as a one-element list.
pub open spec fn desc_badge(item: JsonValue, key: Seq<char>) -> Seq<Seq<char>> {
    match jget(item, key) {
        Some(JsonValue::String(t)) if trim(t@).len() > 0 => seq![t@],
        _ => seq![],
    }
}

/// Every badge a work's fields give, before sorting: its status tags, its
/// promotion, negative and bonus notes, pinned, its privacy and its
/// publishing state.
pub open spec fn kuaishou_badges_raw(item: JsonValue) -> Seq<Seq<char>> {
    let tags = match jget(item, "photoStatusTags"@) {
        Some(JsonValue::Array(ts)) => tag_texts(ts@),
        _ => seq![],
    };
    let descs = desc_badge(item, "promotionDesc"@) + desc_badge(item, "negativeDesc"@) + desc_badge(item, "bonusDesc"@);
    let top: Seq<Seq<char>> = if flag_at(item, "photoTop"@) == Some(true) { seq!["置顶"@] } else { seq![] };
    let privacy: Seq<Seq<char>> = match first_i64_spec(item, seq!["photoStatus"]) {
        Some(1) => seq!["私密"@],
        Some(3) => seq!["仅好友可见"@],
        _ => seq![],
    };
    let publish: Seq<Seq<char>> = match first_i64_spec(item, seq!["publishStatus"]) {
        Some(p) => if p == 3 || p == 6 || p == 9 {
            seq!["发布失败"@]
        } else if p == 10 {
            seq!["审核中"@]
        } else if p == 11 {
            seq!["审核未通过"@]
        } else if p == 15 {
            seq!["上传权限封禁"@]
        } else {
            seq![]
        },
        None => seq![],
    };
    tags + descs + top + privacy + publish
}

fn push_desc(badges: &mut Vec<String>, item: &JsonValue, key: &str)
    ensures
        strings_view(final(badges)@) == strings_view(old(badges)@) + desc_badge(*item, key@),
{
    match item.get(key) {
        Some(JsonValue::String(t)) => {
            if !is_blank(t.as_str()) {
                let ghost before = badges@;
                badges.push(t.clone());
                assert(strings_view(badges@) =~= strings_view(before) + seq![t@]);
                return;
            }
        },
        _ => {},
    }
    assert(strings_view(badges@) =~= strings_view(badges@) + Seq::<Seq<char>>::empty());
}

fn push_label(badges: &mut Vec<String>, label: &str)
    ensures
        strings_view(final(badges)@) == strings_view(old(badges)@) + seq![label@],
{
    let ghost before = badges@;
    badges.push(owned(label));
    assert(strings_view(badges@) =~= strings_view(before) + seq![label@]);
}

/// The badges of a work: its status tags and notes, pinned, privacy and
/// publishing state, sorted and without repeats.
pub fn kuaishou_work_badges(item: &JsonValue) -> (r: Vec<String>)
    ensures
        strictly_sorted(strings_view(r@)),
        strings_view(r@).to_set() == kuaishou_badges_raw(*item).to_set(),
{
    let mut badges: Vec<String> = Vec::new();
    if let Some(JsonValue::Array(tags)) = item.get("photoStatusTags") {
        let mut i: usize = 0;
        while i < tags.len()
            invariant
                i <= tags@.len(),
                strings_view(badges@) == tag_texts(tags@.take(i as int)),
            decreases tags@.len() - i,
        {
            assert(tags@.take(i + 1).drop_last() =~= tags@.take(i as int));
            assert(tags@.take(i + 1).last() == tags@[i as int]);
            match tags[i].get("tagText") {
                Some(JsonValue::String(t)) => {
                    if !is_blank(t.as_str()) {
                        let ghost before = badges@;
                        badges.push(t.clone());
                        assert(strings_view(badges@) =~= strings_view(before).push(t@));
                    }
                },
                _ => {},
            }
            i += 1;
        }
        assert(tags@.take(tags@.len() as int) =~= tags@);
    }
    let ghost tags_part = strings_view(badges@);
    push_desc(&mut badges, item, "promotionDesc");
    push_desc(&mut badges, item, "negativeDesc");
    push_desc(&mut badges, item, "bonusDesc");
    let ghost descs_part = strings_view(badges@);
    if flag_at_exec(item, "photoTop") == Some(true) {
        push_label(&mut badges, "置顶");
    }
    let ghost top_part = strings_view(badges@);
    let status_key: [&str; 1] = ["photoStatus"];
    assert(status_key@ =~= seq!["photoStatus"]);
    match first_i64(item, &status_key) {
        Some(1) => push_label(&mut badges, "私密"),
        Some(3) => push_label(&mut badges, "仅好友可见"),
        _ => {},
    }
    let ghost privacy_part = strings_view(badges@);
    let publish_key: [&str; 1] = ["publishStatus"];
    assert(publish_key@ =~= seq!["publishStatus"]);
    match first_i64(item, &publish_key) {
        Some(p) => {
            if p == 3 || p == 6 || p == 9 {
                push_label(&mut badges, "发布失败");
            } else if p == 10 {
                push_label(&mut badges, "审核中");
            } else if p == 11 {
                push_label(&mut badges, "审核未通过");
            } else if p == 15 {
                push_label(&mut badges, "上传权限封禁");
            }
        },
        None => {},
    }
    assert(strings_view(badges@) =~= kuaishou_badges_raw(*item));
    sorted_unique(badges)
}

pub open spec fn ks_cover_keys() -> Seq<&'static str> {
    seq!["cover", "coverUrl", "cover_url", "publishCoverUrl", "thumbnail", "image", "images"]
}

/// `parse_kuaishou_work` for a work with the given id: its fields as the
/// item gives them, its badges sorted without repeats and its status read
/// from them.
pub open spec fn kuaishou_work_ok(
    w: WorkView,
    item: JsonValue,
    account_id: Seq<char>,
    photo_id: Seq<char>,
    completion_rate: Option<Seq<char>>,
    gained_followers: Option<i64>,
    published_at: Option<UtcTime>,
    now: UtcTime,
) -> bool {
    let views = count_deep(item, seq!["playCount", "play_count", "viewCount", "views"]);
    let likes = count_deep(item, seq!["likeCount", "like_count", "likes"]);
    let comments = count_deep(item, seq!["commentCount", "comment_count", "comments"]);
    let collects = count_deep(item, seq!["collectCount", "collect_count", "collects"]);
    &&& strictly_sorted(w.badges)
    &&& w.badges.to_set() == kuaishou_badges_raw(item).to_set()
    &&& w == WorkView {
        id: photo_id,
        platform_id: "kuaishou"@,
        account_id: account_id,
        title: match first_string_spec(item, seq!["title", "caption", "desc"]) { Some(t) => t, None => "快手作品"@ },
        cover_url: match profile_image(item, ks_cover_keys()) {
            Some(u) => Some(platform_image_url_spec("kuaishou"@, u)),
            None => None,
        },
        link: Some("https://cp.kuaishou.com/statistics/article/detail/"@ + photo_id),
        published_at: published_at,
        status: work_status_spec(w.badges),
        views: views,
        impressions: None,
        likes: likes,
        collects: collects,
        comments: comments,
        shares: count_deep(item, seq!["shareCount", "share_count", "shares"]),
        cover_click_rate: None,
        avg_view_time: None,
        gained_followers: gained_followers,
        data_updated_at: Some(now),
        metrics: seq![
            ("play"@, "播放"@, count_text(views)),
            ("like"@, "点赞"@, count_text(likes)),
            ("comment"@, "评论"@, count_text(comments)),
            ("completionRate"@, "完播率"@, completion_rate),
            ("followers"@, "涨粉"@, match gained_followers { Some(n) => Some(dec_signed(n as int)), None => None }),
            ("collect"@, "收藏"@, count_text(collects)),
        ],
        badges: w.badges,
        work_type: kuaishou_work_type_spec(item),
    }
}

/// Reads an item of a Kuaishou works list; one without an id gives nothing.
/// The completion rate, follower gain and publish time arrive as decimals,
/// so the caller reads them and passes the rate's text, the gain and the
/// time, with `now` as the moment the figures were read.
pub fn parse_kuaishou_work(
    item: &JsonValue,
    account_id: &str,
    completion_rate: Option<String>,
    gained_followers: Option<i64>,
    published_at: Option<UtcTime>,
    now: UtcTime,
) -> (r: Option<ChannelContentWork>)
    ensures
        match first_string_spec(*item, seq!["photoId", "workId", "publishId", "id"]) {
            None => r is None,
            Some(photo_id) => r is Some && kuaishou_work_ok(r->0@, *item, account_id@, photo_id,
                opt_string_view(completion_rate), gained_followers, published_at, now),
        },
{
    let id_keys: [&str; 4] = ["photoId", "workId", "publishId", "id"];
    assert(id_keys@ =~= seq!["photoId", "workId", "publishId", "id"]);
    let photo_id = match first_string(item, &id_keys) {
        Some(id) => id,
        None => return None,
    };
    let title_keys: [&str; 3] = ["title", "caption", "desc"];
    assert(title_keys@ =~= seq!["title", "caption", "desc"]);
    let title = match first_string(item, &title_keys) {
        Some(t) => t,
        None => owned("快手作品"),
    };
    let cover_keys: [&str; 7] = ["cover", "coverUrl", "cover_url", "publishCoverUrl", "thumbnail", "image", "images"];
    assert(cover_keys@ =~= ks_cover_keys());
    let cover_url = match first_profile_image(item, &cover_keys) {
        Some(u) => Some(normalize_platform_image_url("kuaishou", u)),
        None => None,
    };
    let view_keys: [&str; 4] = ["playCount", "play_count", "viewCount", "views"];
    assert(view_keys@ =~= seq!["playCount", "play_count", "viewCount", "views"]);
    let like_keys: [&str; 3] = ["likeCount", "like_count", "likes"];
    assert(like_keys@ =~= seq!["likeCount", "like_count", "likes"]);
    let comment_keys: [&str; 3] = ["commentCount", "comment_count", "comments"];
    assert(comment_keys@ =~= seq!["commentCount", "comment_count", "comments"]);
    let collect_keys: [&str; 3] = ["collectCount", "collect_count", "collects"];
    assert(collect_keys@ =~= seq!["collectCount", "collect_count", "collects"]);
    let share_keys: [&str; 3] = ["shareCount", "share_count", "shares"];
    assert(share_keys@ =~= seq!["shareCount", "share_count", "shares"]);
    let views = first_count(item, &view_keys);
    let likes = first_count(item, &like_keys);
    let comments = first_count(item, &comment_keys);
    let collects = first_count(item, &collect_keys);
    let work_type = kuaishou_work_type(item);
    let badges = kuaishou_work_badges(item);
    let status = kuaishou_work_status(badges.as_slice());
    let metrics = kuaishou_work_metrics(views, likes, comments, completion_rate, gained_followers, collects);
    let link = concat_str("https://cp.kuaishou.com/statistics/article/detail/", photo_id.as_str());
    let w = ChannelContentWork {
        id: photo_id,
        platform_id: owned("kuaishou"),
        account_id: owned(account_id),
        title,
        cover_url,
        link: Some(link),
        published_at,
        status: owned(status),
        views,
        impressions: None,
        likes,
        collects,
        comments,
        shares: first_count(item, &share_keys),
        cover_click_rate: None,
        avg_view_time: None,
        gained_followers,
        data_updated_at: Some(now),
        metrics,
        badges,
        work_type,
    };
    Some(w)
}

pub open spec fn ks_uid_keys() -> Seq<&'static str> {
    seq!["userKwaiId", "kwaiId", "kuaishouId", "userId", "id", "uid"]
}

pub open spec fn ks_nickname_keys() -> Seq<&'static str> {
    seq!["userName", "user_name", "nickname", "nickName", "name", "displayName"]
}

pub open spec fn ks_avatar_keys() -> Seq<&'static str> {
    seq!["userAvatar", "avatar", "avatarUrl", "avatar_url", "headUrl", "head_url", "headurl"]
}

pub open spec fn ks_follower_keys() -> Seq<&'static str> {
    seq!["fansCnt", "fansNum", "fansCount", "fans", "followers"]
}

pub open spec fn ks_following_keys() -> Seq<&'static str> {
    seq!["followCnt", "followNum", "followCount", "followingCount", "following", "followings", "attentionCount"]
}

pub open spec fn ks_like_keys() -> Seq<&'static str> {
    seq!["likeCnt", "likeCount", "likes"]
}

pub open spec fn non_null(v: Option<JsonValue>) -> Option<JsonValue> {
    match v {
        Some(JsonValue::Null) => None,
        other => other,
    }
}

pub open spec fn ks_platform_name() -> Seq<char> {
    match platform_view("kuaishou"@) { Some(p) => p.name, None => "渠道账号"@ }
}

/// The account a creator home response
/// describes (its user info first, then its payload); without an id or a
/// real nickname, the account the login cookie names, if any.
pub open spec fn ks_creator_spec(v: JsonValue, login_cookie: Seq<char>, decoded: Option<JsonValue>) -> Result<ProfileView, Seq<char>> {
    let payload = match non_null(jget(v, "data"@)) { Some(d) => d, None => v };
    let info = non_null(jget(v, "userInfo"@));
    let uid = match either(match info { Some(i) => string_deep(i, ks_uid_keys()), None => None },
        either(string_deep(payload, ks_uid_keys()),
            match count_deep(payload, ks_uid_keys()) { Some(n) if n > 0 => Some(dec(n as nat)), _ => None })) {
        Some(x) => x,
        None => Seq::empty(),
    };
    let nickname = match either(match info { Some(i) => string_deep(i, ks_nickname_keys()), None => None },
        string_deep(payload, ks_nickname_keys())) {
        Some(x) => x,
        None => ks_platform_name(),
    };
    if !(trim(uid).len() > 0 || nickname != ks_platform_name()) {
        match kuaishou_cookie_account_spec(login_cookie, decoded) {
            Some(a) => Ok(ProfileView {
                uid: a.0,
                account: a.0,
                nickname: a.1,
                avatar: Seq::empty(),
                fans_count: None,
                following_count: None,
                like_count: None,
                login_cookie: login_cookie,
            }),
            None => Err("请先在打开的快手创作者中心完成登录。"@),
        }
    } else {
        let account = if trim(uid).len() == 0 { nickname } else { uid };
        Ok(ProfileView {
            uid: account,
            account: account,
            nickname: nickname,
            avatar: match either(match info { Some(i) => profile_image(i, ks_avatar_keys()), None => None },
                profile_image(payload, ks_avatar_keys())) {
                Some(x) => x,
                None => Seq::empty(),
            },
            fans_count: count_deep(payload, ks_follower_keys()),
            following_count: count_deep(payload, ks_following_keys()),
            like_count: count_deep(payload, ks_like_keys()),
            login_cookie: login_cookie,
        })
    }
}

fn ks_first_string(v: Option<&JsonValue>, keys: &[&str]) -> (r: Option<String>)
    ensures
        opt_string_view(r) == match opt_ref(v) { Some(i) => string_deep(i, keys@), None => None },
{
    match v { Some(x) => first_string_deep(x, keys), None => None }
}

fn ks_first_image(v: Option<&JsonValue>, keys: &[&str]) -> (r: Option<String>)
    ensures
        opt_string_view(r) == match opt_ref(v) { Some(i) => profile_image(i, keys@), None => None },
{
    match v { Some(x) => first_profile_image(x, keys), None => None }
}

fn non_null_ref(v: Option<&JsonValue>) -> (r: Option<&JsonValue>)
    ensures
        opt_ref(r) == non_null(opt_ref(v)),
{
    match v {
        Some(x) => if x.is_null() { None } else { Some(x) },
        None => None,
    }
}

/// Reads a Kuaishou account from a creator home response. `decoded` is the
/// login cookie decoded as a JSON cookie list, where it is one.
pub fn kuaishou_creator_account(value: &JsonValue, login_cookie: String, decoded: Option<&JsonValue>) -> (r: Result<PluginAccountInfo, String>)
    ensures
        match r {
            Ok(p) => ks_creator_spec(*value, login_cookie@, opt_ref(decoded)) == Ok::<ProfileView, Seq<char>>(p@),
            Err(e) => ks_creator_spec(*value, login_cookie@, opt_ref(decoded)) == Err::<ProfileView, Seq<char>>(e@),
        },
{
    let uid_keys: [&str; 6] = ["userKwaiId", "kwaiId", "kuaishouId", "userId", "id", "uid"];
    assert(uid_keys@ =~= ks_uid_keys());
    let nickname_keys: [&str; 6] = ["userName", "user_name", "nickname", "nickName", "name", "displayName"];
    assert(nickname_keys@ =~= ks_nickname_keys());
    let avatar_keys: [&str; 7] = ["userAvatar", "avatar", "avatarUrl", "avatar_url", "headUrl", "head_url", "headurl"];
    assert(avatar_keys@ =~= ks_avatar_keys());
    let follower_keys: [&str; 5] = ["fansCnt", "fansNum", "fansCount", "fans", "followers"];
    assert(follower_keys@ =~= ks_follower_keys());
    let following_keys: [&str; 7] = ["followCnt", "followNum", "followCount", "followingCount", "following", "followings", "attentionCount"];
    assert(following_keys@ =~= ks_following_keys());
    let like_keys: [&str; 3] = ["likeCnt", "likeCount", "likes"];
    assert(like_keys@ =~= ks_like_keys());
    let payload = match non_null_ref(value.get("data")) { Some(d) => d, None => value };
    let info = non_null_ref(value.get("userInfo"));
    let uid = match ks_first_string(info, &uid_keys) {
        Some(x) => x,
        None => match first_string_deep(payload, &uid_keys) {
            Some(x) => x,
            None => match first_count(payload, &uid_keys) {
                Some(n) => if n > 0 { u64_to_string(n) } else { String::new() },
                None => String::new(),
            },
        },
    };
    let nickname = match ks_first_string(info, &nickname_keys) {
        Some(x) => x,
        None => match first_string_deep(payload, &nickname_keys) {
            Some(x) => x,
            None => owned(platform_name("kuaishou")),
        },
    };
    let has_profile = !is_blank(uid.as_str()) || !str_eq(nickname.as_str(), platform_name("kuaishou"));
    if !has_profile {
        let copy = login_cookie.clone();
        return match kuaishou_account_from_login_cookie(copy.as_str(), decoded) {
            Some(a) => {
                let ghost lc = login_cookie@;
                assert(a.login_cookie@ == lc);
                Ok(a)
            },
            None => Err(owned("请先在打开的快手创作者中心完成登录。")),
        };
    }
    let avatar = match ks_first_image(info, &avatar_keys) {
        Some(x) => x,
        None => match first_profile_image(payload, &avatar_keys) {
            Some(x) => x,
            None => String::new(),
        },
    };
    let account = if is_blank(uid.as_str()) { nickname.clone() } else { uid };
    let uid_copy = account.clone();
    Ok(PluginAccountInfo {
        uid: uid_copy,
        account,
        nickname,
        avatar,
        fans_count: first_count(payload, &follower_keys),
        following_count: first_count(payload, &following_keys),
        like_count: first_count(payload, &like_keys),
        login_cookie,
    })
}


/// How many bytes a character takes in UTF-8.
pub open spec fn char_width(c: char) -> nat {
    if (c as u32) < 0x80 {
        1
    } else if (c as u32) < 0x800 {
        2
    } else if (c as u32) < 0x10000 {
        3
    } else {
        4
    }
}

/// How many bytes a text takes in UTF-8.
pub open spec fn utf8_len(s: Seq<char>) -> nat
    decreases s.len(),
{
    if s.len() == 0 {
        0
    } else {
        utf8_len(s.drop_last()) + char_width(s.last())
    }
}

/// The number of characters, from the `k`-th on, whose UTF-8 bytes end
/// exactly at byte `b`, where there is one.
pub open spec fn boundary_from(s: Seq<char>, b: nat, k: int) -> Option<int>
    decreases s.len() + 1 - k,
{
    if k < 0 || k > s.len() {
        None
    } else if utf8_len(s.take(k)) == b {
        Some(k)
    } else if utf8_len(s.take(k)) > b {
        None
    } else {
        boundary_from(s, b, k + 1)
    }
}

proof fn lemma_utf8_prefix_step(s: Seq<char>, k: int)
    requires
        0 <= k < s.len(),
    ensures
        utf8_len(s.take(k + 1)) == utf8_len(s.take(k)) + char_width(s[k]),
{
    assert(s.take(k + 1).drop_last() =~= s.take(k));
}

proof fn lemma_utf8_prefix_le(s: Seq<char>, k: int)
    requires
        0 <= k <= s.len(),
    ensures
        utf8_len(s.take(k)) <= utf8_len(s),
    decreases s.len(),
{
    if k == s.len() {
        assert(s.take(k) =~= s);
    } else {
        assert(s.drop_last().take(k) =~= s.take(k));
        lemma_utf8_prefix_le(s.drop_last(), k);
    }
}

fn char_width_exec(c: char) -> (r: usize)
    ensures
        r == char_width(c),
{
    let n = c as u32;
    if n < 0x80 {
        1
    } else if n < 0x800 {
        2
    } else if n < 0x10000 {
        3
    } else {
        4
    }
}

/// Where byte `b` falls between two characters of `v`: the number of
/// characters before it.
fn byte_boundary(v: &[char], b: usize) -> (r: Option<usize>)
    ensures
        match r {
            Some(k) => boundary_from(v@, b as nat, 0) == Some(k as int),
            None => boundary_from(v@, b as nat, 0) is None,
        },
{
    let mut i: usize = 0;
    let mut bytes: usize = 0;
    while i < v.len()
        invariant
            i <= v@.len(),
            bytes == utf8_len(v@.take(i as int)),
            bytes <= b,
            boundary_from(v@, b as nat, 0) == boundary_from(v@, b as nat, i as int),
        decreases v@.len() - i,
    {
        if bytes == b {
            return Some(i);
        }
        proof { lemma_utf8_prefix_step(v@, i as int); }
        let w = char_width_exec(v[i]);
        if w > b - bytes {
            assert(boundary_from(v@, b as nat, i + 1) is None);
            return None;
        }
        bytes = bytes + w;
        i += 1;
    }
    if bytes == b {
        Some(i)
    } else {
        assert(boundary_from(v@, b as nat, i + 1) is None);
        None
    }
}

/// Whether the byte slicing of a trimmed data date can be done:
/// an eight-byte date must have character boundaries at bytes 4 and 6.
pub open spec fn data_date_slices(t: Seq<char>) -> bool {
    utf8_len(t) == 8 ==> boundary_from(t, 4, 0) is Some && boundary_from(t, 6, 0) is Some
}

/// A trimmed date of eight bytes as
/// `yyyy-mm-dd`, any other trimmed as it is.
pub open spec fn data_date_spec(value: Seq<char>) -> Seq<char> {
    let t = trim(value);
    if utf8_len(t) == 8 {
        let a = boundary_from(t, 4, 0)->0;
        let b = boundary_from(t, 6, 0)->0;
        t.take(a) + "-"@ + t.subrange(a, b) + "-"@ + t.skip(b)
    } else {
        t
    }
}

/// Whether `format_kuaishou_data_date` can format `value`.
pub fn kuaishou_data_date_fits(value: &str) -> (r: bool)
    ensures
        r == data_date_slices(trim(value@)),
{
    let t = trim_str(value);
    let v = chars_of(t.as_str());
    let whole = byte_boundary(v.as_slice(), 8);
    let eight = match whole {
        Some(k) => k == v.len(),
        None => false,
    };
    proof {
        lemma_byte_len_eight(v@, whole);
    }
    if !eight {
        return true;
    }
    byte_boundary(v.as_slice(), 4).is_some() && byte_boundary(v.as_slice(), 6).is_some()
}

proof fn lemma_boundary_found(s: Seq<char>, b: nat, k: int)
    requires
        boundary_from(s, b, k) is Some,
    ensures
        0 <= boundary_from(s, b, k)->0 <= s.len(),
        utf8_len(s.take(boundary_from(s, b, k)->0)) == b,
    decreases s.len() + 1 - k,
{
    if utf8_len(s.take(k)) != b {
        lemma_boundary_found(s, b, k + 1);
    }
}

proof fn lemma_boundary_reaches(s: Seq<char>, b: nat, k: int, j: int)
    requires
        0 <= k <= j <= s.len(),
        utf8_len(s.take(j)) == b,
        forall|m: int| k <= m < j ==> utf8_len(#[trigger] s.take(m)) < b,
    ensures
        boundary_from(s, b, k) == Some(j),
    decreases j - k,
{
    if k < j {
        assert(utf8_len(s.take(k)) < b);
        lemma_boundary_reaches(s, b, k + 1, j);
    }
}

proof fn lemma_prefix_strict(s: Seq<char>, m: int, j: int)
    requires
        0 <= m < j <= s.len(),
    ensures
        utf8_len(s.take(m)) < utf8_len(s.take(j)),
    decreases j - m,
{
    lemma_utf8_prefix_step(s, m);
    if m + 1 < j {
        lemma_prefix_strict(s, m + 1, j);
    }
}

/// A text is eight bytes long exactly when byte 8 falls after its last
/// character.
proof fn lemma_byte_len_eight(s: Seq<char>, whole: Option<usize>)
    requires
        match whole {
            Some(k) => boundary_from(s, 8, 0) == Some(k as int),
            None => boundary_from(s, 8, 0) is None,
        },
    ensures
        (utf8_len(s) == 8) == (whole is Some && whole->0 == s.len()),
{
    assert(s.take(s.len() as int) =~= s);
    if utf8_len(s) == 8 {
        assert forall|m: int| 0 <= m < s.len() implies utf8_len(#[trigger] s.take(m)) < 8 by {
            lemma_prefix_strict(s, m, s.len() as int);
        }
        lemma_boundary_reaches(s, 8, 0, s.len() as int);
    }
    if whole is Some && whole->0 == s.len() {
        lemma_boundary_found(s, 8, 0);
    }
}

/// A Kuaishou data date shown with dashes: a trimmed date of eight bytes
/// split after its fourth and sixth bytes, any other text trimmed as it is.
pub fn format_kuaishou_data_date(value: &str) -> (r: String)
    requires
        data_date_slices(trim(value@)),
    ensures
        r@ == data_date_spec(value@),
{
    let t = trim_str(value);
    let v = chars_of(t.as_str());
    let whole = byte_boundary(v.as_slice(), 8);
    let eight = match whole {
        Some(k) => k == v.len(),
        None => false,
    };
    proof {
        lemma_byte_len_eight(v@, whole);
    }
    if !eight {
        return t;
    }
    let a = byte_boundary(v.as_slice(), 4);
    let b = byte_boundary(v.as_slice(), 6);
    match (a, b) {
        (Some(a), Some(b)) => {
            proof {
                lemma_boundary_found(v@, 4, 0);
                lemma_boundary_found(v@, 6, 0);
                if b < a {
                    lemma_prefix_strict(v@, b as int, a as int);
                }
            }
            let mut out = string_from_range(v.as_slice(), 0, a);
            push_str(&mut out, "-");
            let mid = string_from_range(v.as_slice(), a, b);
            push_str(&mut out, mid.as_str());
            push_str(&mut out, "-");
            let tail = string_from_range(v.as_slice(), b, v.len());
            push_str(&mut out, tail.as_str());
            proof {
                reveal_strlit("-");
                assert(v@.subrange(0, a as int) =~= v@.take(a as int));
                assert(v@.subrange(b as int, v@.len() as int) =~= v@.skip(b as int));
            }
            out
        },
        _ => t,
    }
}

/// "数据更新至" and the formatted date of a
/// non-blank "dataUpdateTime".
pub open spec fn ks_summary_spec(data: JsonValue) -> Option<Seq<char>> {
    match jget(data, "dataUpdateTime"@) {
        Some(JsonValue::String(t)) => if trim(t@).len() > 0 {
            Some("数据更新至 "@ + data_date_spec(t@))
        } else {
            None
        },
        _ => None,
    }
}

/// What `kuaishou_overview_summary` needs of the data's date.
pub open spec fn ks_summary_fits(data: JsonValue) -> bool {
    match jget(data, "dataUpdateTime"@) {
        Some(JsonValue::String(t)) => data_date_slices(trim(t@)),
        _ => true,
    }
}

/// The summary line of a Kuaishou overview.
pub fn kuaishou_overview_summary(data: &JsonValue) -> (r: Option<String>)
    requires
        ks_summary_fits(*data),
    ensures
        opt_string_view(r) == ks_summary_spec(*data),
{
    match data.get("dataUpdateTime") {
        Some(JsonValue::String(t)) => {
            if is_blank(t.as_str()) {
                None
            } else {
                let date = format_kuaishou_data_date(t.as_str());
                proof { reveal_strlit("数据更新至 "); }
                Some(concat_str("数据更新至 ", date.as_str()))
            }
        },
        _ => None,
    }
}

} // verus!


