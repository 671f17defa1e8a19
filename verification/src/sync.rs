//! What a content or works sync decides around its requests: which
//! platforms have data, how works pages are keyed, when a cached read is
//! still fresh, and how a failed read is reported.

use vstd::prelude::*;
use crate::domain::{ChannelAccountContent, ChannelAccountOverview, ChannelAccountProfileSnapshot, ChannelContentWork, ChannelWorksPage, UtcTime};
use crate::platforms::{normalize_platform_id, normalized_id};
use crate::strs::{opt_str_view, opt_string_view, owned};
use crate::text::{chars_of, concat_str, starts_with, str_contains, str_eq, str_starts_with, string_from_range, trim, trim_str, contains};

verus! {

/// Whether a failure message says the login is gone.
pub open spec fn login_expired_spec(m: Seq<char>) -> bool {
    contains(m, "登录已失效"@) || contains(m, "登录已过期"@) || contains(m, "请重新登录"@) || contains(m, "请先在打开的"@)
}

/// Whether a failure message says the login is gone, so that the account
/// is marked expired.
pub fn is_login_expired_message(message: &str) -> (r: bool)
    ensures
        r == login_expired_spec(message@),
{
    str_contains(message, "登录已失效") || str_contains(message, "登录已过期") || str_contains(message, "请重新登录")
        || str_contains(message, "请先在打开的")
}

/// The platforms whose data board and works lists are read.
pub open spec fn data_platform(p: Seq<char>) -> bool {
    let n = normalized_id(p);
    n == "xiaohongshu"@ || n == "wechat-channels"@ || n == "douyin"@ || n == "bilibili"@ || n == "kuaishou"@
}

fn is_data_platform(platform_id: &str) -> (r: bool)
    ensures
        r == data_platform(platform_id@),
{
    let n = normalize_platform_id(platform_id);
    let s = n.as_str();
    str_eq(s, "xiaohongshu") || str_eq(s, "wechat-channels") || str_eq(s, "douyin") || str_eq(s, "bilibili")
        || str_eq(s, "kuaishou")
}

/// Whether a platform's data board is read.
pub fn platform_supports_account_content(platform_id: &str) -> (r: bool)
    ensures
        r == data_platform(platform_id@),
{
    is_data_platform(platform_id)
}

/// Whether a platform's works list is read.
pub fn platform_supports_works_pages(platform_id: &str) -> (r: bool)
    ensures
        r == data_platform(platform_id@),
{
    is_data_platform(platform_id)
}

/// The names a works list request may give for articles.
pub open spec fn article_alias(v: Seq<char>) -> bool {
    v == "article"@ || v == "photo"@ || v == "image"@ || v == "new-life"@ || v == "newlife"@
}

/// The works list kind a request asks for: WeChat Channels and Bilibili
/// tell articles from videos, Kuaishou lists videos only, the other
/// platforms have one list.
pub open spec fn works_type_spec(platform_id: Seq<char>, value: Option<Seq<char>>) -> Option<Seq<char>> {
    let n = normalized_id(platform_id);
    if !(n == "wechat-channels"@ || n == "bilibili"@ || n == "kuaishou"@) {
        None
    } else if n == "kuaishou"@ {
        Some("video"@)
    } else if (match value { Some(v) => article_alias(trim(v)), None => false }) {
        Some("article"@)
    } else {
        Some("video"@)
    }
}

/// The works list kind of a request.
pub fn normalize_works_work_type(platform_id: &str, value: Option<&str>) -> (r: Option<String>)
    ensures
        opt_string_view(r) == works_type_spec(platform_id@, opt_str_view(value)),
{
    let n = normalize_platform_id(platform_id);
    let s = n.as_str();
    if !(str_eq(s, "wechat-channels") || str_eq(s, "bilibili") || str_eq(s, "kuaishou")) {
        return None;
    }
    if str_eq(s, "kuaishou") {
        return Some(owned("video"));
    }
    let article = match value {
        Some(v) => {
            let t = trim_str(v);
            let ts = t.as_str();
            str_eq(ts, "article") || str_eq(ts, "photo") || str_eq(ts, "image") || str_eq(ts, "new-life") || str_eq(ts, "newlife")
        },
        None => false,
    };
    if article {
        Some(owned("article"))
    } else {
        Some(owned("video"))
    }
}

/// The page key a platform is asked for: the trimmed key without the
/// `kind:` prefix a cached page key carries.
pub open spec fn raw_page_key_spec(page_key: Seq<char>, work_type: Option<Seq<char>>) -> Seq<char> {
    let t = trim(page_key);
    match work_type {
        None => t,
        Some(w) => if starts_with(t, w + ":"@) {
            t.skip((w + ":"@).len() as int)
        } else {
            t
        },
    }
}

/// The page key to ask the platform for.
pub fn raw_works_page_key(page_key: &str, work_type: Option<&str>) -> (r: String)
    ensures
        r@ == raw_page_key_spec(page_key@, opt_str_view(work_type)),
{
    let t = trim_str(page_key);
    match work_type {
        None => t,
        Some(w) => {
            let prefix = concat_str(w, ":");
            if str_starts_with(t.as_str(), prefix.as_str()) {
                let v = chars_of(t.as_str());
                let p = chars_of(prefix.as_str());
                let r = string_from_range(v.as_slice(), p.len(), v.len());
                assert(v@.subrange(p@.len() as int, v@.len() as int) =~= v@.skip(p@.len() as int));
                r
            } else {
                t
            }
        },
    }
}

/// The key a works page is cached under: `kind:` and the trimmed key where
/// the list has kinds.
pub open spec fn cache_page_key_spec(page_key: Seq<char>, work_type: Option<Seq<char>>) -> Seq<char> {
    match work_type {
        Some(w) => w + ":"@ + trim(page_key),
        None => trim(page_key),
    }
}

/// The key a works page is cached under.
pub fn works_cache_page_key(page_key: &str, work_type: Option<&str>) -> (r: String)
    ensures
        r@ == cache_page_key_spec(page_key@, opt_str_view(work_type)),
{
    let t = trim_str(page_key);
    match work_type {
        Some(w) => {
            let prefix = concat_str(w, ":");
            concat_str(prefix.as_str(), t.as_str())
        },
        None => t,
    }
}

/// Gives a page read from a platform the cache keys of its list kind.
pub fn apply_works_cache_keys(page: &mut ChannelWorksPage, work_type: Option<&str>)
    ensures
        final(page).page_key@ == cache_page_key_spec(old(page).page_key@, opt_str_view(work_type)),
        opt_string_view(final(page).work_type) == opt_str_view(work_type),
        opt_string_view(final(page).next_page_key) == match old(page).next_page_key {
            Some(n) => Some(cache_page_key_spec(n@, opt_str_view(work_type))),
            None => None,
        },
        final(page).account_id == old(page).account_id,
        final(page).platform_id == old(page).platform_id,
        final(page).has_more == old(page).has_more,
        final(page).works == old(page).works,
        final(page).updated_at == old(page).updated_at,
        final(page).sync_status == old(page).sync_status,
        final(page).error == old(page).error,
{
    page.page_key = works_cache_page_key(page.page_key.as_str(), work_type);
    page.work_type = match work_type {
        Some(w) => Some(owned(w)),
        None => None,
    };
    let next = match &page.next_page_key {
        Some(n) => Some(works_cache_page_key(n.as_str(), work_type)),
        None => None,
    };
    page.next_page_key = next;
}

/// Whether a work carries a metric under `key`.
pub open spec fn has_metric(work: ChannelContentWork, key: Seq<char>) -> bool {
    exists|i: int| 0 <= i < work.metrics@.len() && (#[trigger] work.metrics@[i]).key@ == key
}

/// Whether a work carries every metric of `keys`.
pub open spec fn has_all_metrics(work: ChannelContentWork, keys: Seq<Seq<char>>) -> bool {
    forall|k: int| 0 <= k < keys.len() ==> has_metric(work, #[trigger] keys[k])
}

/// Whether a work carries some metric of `keys`.
pub open spec fn has_any_metric(work: ChannelContentWork, keys: Seq<Seq<char>>) -> bool {
    exists|k: int| 0 <= k < keys.len() && has_metric(work, #[trigger] keys[k])
}

pub open spec fn keys_view(keys: Seq<&str>) -> Seq<Seq<char>> {
    keys.map_values(|s: &str| s@)
}

/// Whether a work carries a metric under `key`.
pub fn work_has_metric(work: &ChannelContentWork, key: &str) -> (r: bool)
    ensures
        r == has_metric(*work, key@),
{
    let mut i: usize = 0;
    while i < work.metrics.len()
        invariant
            i <= work.metrics@.len(),
            forall|j: int| 0 <= j < i ==> (#[trigger] work.metrics@[j]).key@ != key@,
        decreases work.metrics@.len() - i,
    {
        if str_eq(work.metrics[i].key.as_str(), key) {
            return true;
        }
        i += 1;
    }
    false
}

/// Whether a work carries every metric of `keys`.
pub fn work_has_all_metrics(work: &ChannelContentWork, keys: &[&str]) -> (r: bool)
    ensures
        r == has_all_metrics(*work, keys_view(keys@)),
{
    let mut i: usize = 0;
    while i < keys.len()
        invariant
            i <= keys@.len(),
            forall|k: int| 0 <= k < i ==> has_metric(*work, #[trigger] keys_view(keys@)[k]),
        decreases keys@.len() - i,
    {
        if !work_has_metric(work, keys[i]) {
            assert(!has_metric(*work, keys_view(keys@)[i as int]));
            return false;
        }
        i += 1;
    }
    true
}

/// Whether a work carries some metric of `keys`.
pub fn work_has_any_metric(work: &ChannelContentWork, keys: &[&str]) -> (r: bool)
    ensures
        r == has_any_metric(*work, keys_view(keys@)),
{
    let mut i: usize = 0;
    while i < keys.len()
        invariant
            i <= keys@.len(),
            forall|k: int| 0 <= k < i ==> !has_metric(*work, #[trigger] keys_view(keys@)[k]),
        decreases keys@.len() - i,
    {
        if work_has_metric(work, keys[i]) {
            assert(has_metric(*work, keys_view(keys@)[i as int]));
            return true;
        }
        i += 1;
    }
    false
}

/// The metrics a cached Douyin latest video must carry.
pub open spec fn douyin_video_required() -> Seq<Seq<char>> {
    seq![
        "danmaku"@, "avgViewSecond"@, "completionRate"@, "bounceRate"@, "completionRate5s"@, "avgViewProportion"@,
        "subscribe"@, "subscribeRate"@, "unsubscribe"@, "unsubscribeRate"@, "dislike"@, "dislikeRate"@,
    ]
}

/// The detail metrics of a Douyin article or image post.
pub open spec fn douyin_article_detail() -> Seq<Seq<char>> {
    seq!["descriptionSpreadRate"@, "imageAvgViewCount"@]
}

/// The detail metrics of a video on a Douyin works page.
pub open spec fn douyin_page_video_detail() -> Seq<Seq<char>> {
    seq!["avgViewSecond"@, "completionRate"@]
}

fn douyin_video_required_keys() -> (r: [&'static str; 12])
    ensures
        keys_view(r@) == douyin_video_required(),
{
    let r = [
        "danmaku", "avgViewSecond", "completionRate", "bounceRate", "completionRate5s", "avgViewProportion",
        "subscribe", "subscribeRate", "unsubscribe", "unsubscribeRate", "dislike", "dislikeRate",
    ];
    assert(keys_view(r@) =~= douyin_video_required());
    r
}

fn douyin_article_detail_keys() -> (r: [&'static str; 2])
    ensures
        keys_view(r@) == douyin_article_detail(),
{
    let r = ["descriptionSpreadRate", "imageAvgViewCount"];
    assert(keys_view(r@) =~= douyin_article_detail());
    r
}

fn douyin_page_video_detail_keys() -> (r: [&'static str; 2])
    ensures
        keys_view(r@) == douyin_page_video_detail(),
{
    let r = ["avgViewSecond", "completionRate"];
    assert(keys_view(r@) =~= douyin_page_video_detail());
    r
}

/// A Xiaohongshu work read with its detail figures: views, impressions,
/// cover click rate, data time and average view time, and some
/// interaction count.
pub open spec fn xhs_detail_spec(w: ChannelContentWork) -> bool {
    &&& w.views is Some
    &&& w.impressions is Some
    &&& w.cover_click_rate is Some
    &&& w.data_updated_at is Some
    &&& w.avg_view_time is Some
    &&& (w.likes is Some || w.comments is Some || w.collects is Some || w.shares is Some)
}

/// Whether a Xiaohongshu work was read with its detail figures.
pub fn xhs_work_has_detail_metrics(work: &ChannelContentWork) -> (r: bool)
    ensures
        r == xhs_detail_spec(*work),
{
    work.views.is_some() && work.impressions.is_some() && work.cover_click_rate.is_some()
        && work.data_updated_at.is_some() && work.avg_view_time.is_some()
        && (work.likes.is_some() || work.comments.is_some() || work.collects.is_some() || work.shares.is_some())
}

pub open spec fn opt_detail(w: Option<ChannelContentWork>) -> bool {
    match w {
        Some(w) => xhs_detail_spec(w),
        None => false,
    }
}

/// Cached Xiaohongshu latest works are fresh when there are none or one of
/// them carries its detail figures.
pub open spec fn xhs_latest_fresh_spec(c: ChannelAccountContent) -> bool {
    if c.latest_work is None && c.latest_work_seven is None && c.latest_work_thirty is None {
        true
    } else {
        opt_detail(c.latest_work) || opt_detail(c.latest_work_seven) || opt_detail(c.latest_work_thirty)
    }
}

fn opt_has_detail(w: &Option<ChannelContentWork>) -> (r: bool)
    ensures
        r == opt_detail(*w),
{
    match w {
        Some(w) => xhs_work_has_detail_metrics(w),
        None => false,
    }
}

/// Whether the cached Xiaohongshu latest works carry their detail figures.
pub fn xhs_latest_work_metrics_are_fresh(content: &ChannelAccountContent) -> (r: bool)
    ensures
        r == xhs_latest_fresh_spec(*content),
{
    if content.latest_work.is_none() && content.latest_work_seven.is_none() && content.latest_work_thirty.is_none() {
        return true;
    }
    opt_has_detail(&content.latest_work) || opt_has_detail(&content.latest_work_seven)
        || opt_has_detail(&content.latest_work_thirty)
}

/// The second of its day an instant falls in.
pub open spec fn second_of_day(secs: i64) -> int {
    (secs as int) % 86400
}

/// The leap second chrono counts between two instants: one more where
/// `then` lies in a leap second and `now` later in its day, one less where
/// `now` lies in a leap second and `then` later in its day.
pub open spec fn leap_adjust(now: UtcTime, then: UtcTime) -> int {
    let a = second_of_day(now.secs);
    let b = second_of_day(then.secs);
    if a > b && then.nanos >= 1_000_000_000 {
        1
    } else if a < b && now.nanos >= 1_000_000_000 {
        -1
    } else {
        0
    }
}

/// `now.signed_duration_since(then)` in nanoseconds.
pub open spec fn elapsed_ns(now: UtcTime, then: UtcTime) -> int {
    (now.secs - then.secs + leap_adjust(now, then)) * 1_000_000_000 + (now.nanos - then.nanos)
}

fn second_of_day_exec(secs: i64) -> (r: i64)
    ensures
        r == second_of_day(secs),
{
    let shifted: i128 = secs as i128 + 9_223_372_036_854_806_400i128;
    let u: u128 = shifted as u128;
    let r: u128 = u % 86400;
    proof {
        vstd::arithmetic::div_mod::lemma_mod_multiples_vanish(106_751_991_167_301, secs as int, 86400);
        assert(86400 * 106_751_991_167_301 + secs as int == shifted as int);
    }
    r as i64
}

fn elapsed_ns_exec(now: UtcTime, then: UtcTime) -> (r: i128)
    ensures
        r == elapsed_ns(now, then),
{
    let a = second_of_day_exec(now.secs);
    let b = second_of_day_exec(then.secs);
    let adjust: i128 = if a > b && then.nanos >= 1_000_000_000 {
        1
    } else if a < b && now.nanos >= 1_000_000_000 {
        -1
    } else {
        0
    };
    (now.secs as i128 - then.secs as i128 + adjust) * 1_000_000_000 + (now.nanos as i128 - then.nanos as i128)
}

/// A cached read is fresh for five minutes: chrono's whole seconds since
/// it, counted toward zero, are fewer than 300.
pub open spec fn cache_time_fresh(updated_at: UtcTime, now: UtcTime) -> bool {
    elapsed_ns(now, updated_at) < 300_000_000_000
}

/// Whether a cached read made at `updated_at` is still fresh at `now`.
pub fn is_cache_time_fresh(updated_at: UtcTime, now: UtcTime) -> (r: bool)
    ensures
        r == cache_time_fresh(updated_at, now),
{
    elapsed_ns_exec(now, updated_at) < 300_000_000_000i128
}

/// A cached Douyin board is current when its latest work, of a known kind,
/// was published at most 35 days ago and carries its views and the metrics
/// of its kind.
pub open spec fn douyin_content_current_spec(c: ChannelAccountContent, now: UtcTime) -> bool {
    match c.latest_work {
        None => false,
        Some(w) => match w.work_type {
            None => false,
            Some(t) => {
                let too_old = match w.published_at {
                    Some(p) => elapsed_ns(now, p) > 35 * 86400 * 1_000_000_000,
                    None => false,
                };
                let typed = if t@ == "video"@ {
                    has_all_metrics(w, douyin_video_required())
                } else if t@ == "article"@ || t@ == "image"@ || t@ == "note"@ {
                    has_any_metric(w, douyin_article_detail())
                } else {
                    false
                };
                !too_old && typed && w.views is Some
            },
        },
    }
}

/// Whether a cached Douyin board is still current at `now`.
pub fn douyin_account_content_cache_is_current(content: &ChannelAccountContent, now: UtcTime) -> (r: bool)
    ensures
        r == douyin_content_current_spec(*content, now),
{
    let work = match &content.latest_work {
        Some(w) => w,
        None => return false,
    };
    let work_type = match &work.work_type {
        Some(t) => t.as_str(),
        None => return false,
    };
    let too_old = match work.published_at {
        Some(p) => elapsed_ns_exec(now, p) > 35 * 86400 * 1_000_000_000i128,
        None => false,
    };
    if too_old {
        return false;
    }
    let typed = if str_eq(work_type, "video") {
        let keys = douyin_video_required_keys();
        work_has_all_metrics(work, &keys)
    } else if str_eq(work_type, "article") || str_eq(work_type, "image") || str_eq(work_type, "note") {
        let keys = douyin_article_detail_keys();
        work_has_any_metric(work, &keys)
    } else {
        false
    };
    typed && work.views.is_some()
}

/// Which of two instants comes first.
pub open spec fn time_le(a: UtcTime, b: UtcTime) -> bool {
    a.secs < b.secs || (a.secs == b.secs && a.nanos <= b.nanos)
}

/// The earliest of the instants that are there.
pub open spec fn earliest(s: Seq<Option<UtcTime>>) -> Option<UtcTime>
    decreases s.len(),
{
    if s.len() == 0 {
        None
    } else {
        let rest = earliest(s.drop_last());
        match s.last() {
            None => rest,
            Some(t) => match rest {
                None => Some(t),
                Some(m) => if time_le(m, t) { Some(m) } else { Some(t) },
            },
        }
    }
}

pub open spec fn overview_time(o: Option<ChannelAccountOverview>) -> Option<UtcTime> {
    match o {
        Some(o) => o.updated_at,
        None => None,
    }
}

pub open spec fn profile_time(p: Option<ChannelAccountProfileSnapshot>) -> Option<UtcTime> {
    match p {
        Some(p) => p.updated_at,
        None => None,
    }
}

/// When each part of a board was read.
pub open spec fn content_times(c: ChannelAccountContent) -> Seq<Option<UtcTime>> {
    seq![
        profile_time(c.profile),
        overview_time(c.overview_yesterday),
        overview_time(c.overview_seven),
        overview_time(c.overview_thirty),
        overview_time(c.overview_ninety),
        overview_time(c.overview_history),
        overview_time(c.overview_total),
    ]
}

/// A cached board is fresh when the parts its platform needs are there
/// and its oldest part was read less than five minutes before `now`.
pub open spec fn content_fresh_spec(c: ChannelAccountContent, now: UtcTime) -> bool {
    let p = c.platform_id@;
    if p == "xiaohongshu"@ && c.latest_work is Some && c.latest_work_thirty is None {
        false
    } else if p == "xiaohongshu"@ && !xhs_latest_fresh_spec(c) {
        false
    } else if p == "douyin"@ && !douyin_content_current_spec(c, now) {
        false
    } else if p == "wechat-channels"@ && c.latest_work is None && c.latest_work_seven is None {
        false
    } else if p == "bilibili"@ && (c.overview_ninety is None || c.overview_history is None || c.overview_total is None
        || (c.latest_work is None && c.latest_work_seven is None)) {
        false
    } else if p == "kuaishou"@ && c.overview_ninety is None {
        false
    } else {
        match earliest(content_times(c)) {
            Some(m) => cache_time_fresh(m, now),
            None => false,
        }
    }
}

fn opt_overview_time(o: &Option<ChannelAccountOverview>) -> (r: Option<UtcTime>)
    ensures
        r == overview_time(*o),
{
    match o {
        Some(o) => o.updated_at,
        None => None,
    }
}

/// The earliest of the instants that are there.
fn earliest_exec(times: &Vec<Option<UtcTime>>) -> (r: Option<UtcTime>)
    ensures
        r == earliest(times@),
{
    let mut m: Option<UtcTime> = None;
    let mut i: usize = 0;
    while i < times.len()
        invariant
            i <= times@.len(),
            m == earliest(times@.take(i as int)),
        decreases times@.len() - i,
    {
        assert(times@.take(i + 1).drop_last() =~= times@.take(i as int));
        match times[i] {
            None => {},
            Some(t) => {
                m = match m {
                    None => Some(t),
                    Some(x) => if x.secs < t.secs || (x.secs == t.secs && x.nanos <= t.nanos) { Some(x) } else { Some(t) },
                };
            },
        }
        i += 1;
    }
    assert(times@.take(times@.len() as int) =~= times@);
    m
}

/// Whether a cached board can be shown without reading it again at `now`.
pub fn account_content_cache_is_fresh(content: &ChannelAccountContent, now: UtcTime) -> (r: bool)
    ensures
        r == content_fresh_spec(*content, now),
{
    let p = content.platform_id.as_str();
    if str_eq(p, "xiaohongshu") && content.latest_work.is_some() && content.latest_work_thirty.is_none() {
        return false;
    }
    if str_eq(p, "xiaohongshu") && !xhs_latest_work_metrics_are_fresh(content) {
        return false;
    }
    if str_eq(p, "douyin") && !douyin_account_content_cache_is_current(content, now) {
        return false;
    }
    if str_eq(p, "wechat-channels") && content.latest_work.is_none() && content.latest_work_seven.is_none() {
        return false;
    }
    if str_eq(p, "bilibili") && (content.overview_ninety.is_none() || content.overview_history.is_none()
        || content.overview_total.is_none() || (content.latest_work.is_none() && content.latest_work_seven.is_none())) {
        return false;
    }
    if str_eq(p, "kuaishou") && content.overview_ninety.is_none() {
        return false;
    }
    let profile_updated = match &content.profile {
        Some(p) => p.updated_at,
        None => None,
    };
    let times = vec![
        profile_updated,
        opt_overview_time(&content.overview_yesterday),
        opt_overview_time(&content.overview_seven),
        opt_overview_time(&content.overview_thirty),
        opt_overview_time(&content.overview_ninety),
        opt_overview_time(&content.overview_history),
        opt_overview_time(&content.overview_total),
    ];
    assert(times@ =~= content_times(*content));
    match earliest_exec(&times) {
        Some(m) => is_cache_time_fresh(m, now),
        None => false,
    }
}

/// A work on a cached Douyin page carries the detail metrics of its kind.
pub open spec fn douyin_page_item_spec(w: ChannelContentWork) -> bool {
    match w.work_type {
        Some(t) => if t@ == "video"@ {
            has_any_metric(w, douyin_page_video_detail())
        } else if t@ == "article"@ || t@ == "image"@ || t@ == "note"@ {
            has_any_metric(w, douyin_article_detail())
        } else {
            false
        },
        None => false,
    }
}

/// Whether a work on a Douyin page carries the detail metrics of its kind.
pub fn douyin_work_page_item_has_detail_metrics(work: &ChannelContentWork) -> (r: bool)
    ensures
        r == douyin_page_item_spec(*work),
{
    match &work.work_type {
        Some(t) => {
            if str_eq(t.as_str(), "video") {
                let keys = douyin_page_video_detail_keys();
                work_has_any_metric(work, &keys)
            } else if str_eq(t.as_str(), "article") || str_eq(t.as_str(), "image") || str_eq(t.as_str(), "note") {
                let keys = douyin_article_detail_keys();
                work_has_any_metric(work, &keys)
            } else {
                false
            }
        },
        None => false,
    }
}

/// A cached Douyin page is current when it is empty or one of its works
/// carries its detail metrics.
pub open spec fn douyin_page_current_spec(p: ChannelWorksPage) -> bool {
    p.works@.len() == 0 || exists|i: int| 0 <= i < p.works@.len() && douyin_page_item_spec(#[trigger] p.works@[i])
}

/// Whether a cached Douyin page is current.
pub fn douyin_works_page_cache_is_current(page: &ChannelWorksPage) -> (r: bool)
    ensures
        r == douyin_page_current_spec(*page),
{
    if page.works.len() == 0 {
        return true;
    }
    let mut i: usize = 0;
    while i < page.works.len()
        invariant
            i <= page.works@.len(),
            forall|j: int| 0 <= j < i ==> !douyin_page_item_spec(#[trigger] page.works@[j]),
        decreases page.works@.len() - i,
    {
        if douyin_work_page_item_has_detail_metrics(&page.works[i]) {
            return true;
        }
        i += 1;
    }
    false
}

/// A cached works page is fresh when, for Douyin, it is current, for
/// Kuaishou, it lists videos, and it was read less than five minutes before
/// `now`.
pub open spec fn works_page_fresh_spec(p: ChannelWorksPage, now: UtcTime) -> bool {
    if p.platform_id@ == "douyin"@ && !douyin_page_current_spec(p) {
        false
    } else if p.platform_id@ == "kuaishou"@ && opt_string_view(p.work_type) != Some("video"@) {
        false
    } else {
        match p.updated_at {
            Some(u) => cache_time_fresh(u, now),
            None => false,
        }
    }
}

/// Whether a cached works page can be shown without reading it again at
/// `now`.
pub fn works_page_cache_is_fresh(page: &ChannelWorksPage, now: UtcTime) -> (r: bool)
    ensures
        r == works_page_fresh_spec(*page, now),
{
    if str_eq(page.platform_id.as_str(), "douyin") && !douyin_works_page_cache_is_current(page) {
        return false;
    }
    if str_eq(page.platform_id.as_str(), "kuaishou") {
        let video = match &page.work_type {
            Some(t) => str_eq(t.as_str(), "video"),
            None => false,
        };
        if !video {
            return false;
        }
    }
    match page.updated_at {
        Some(u) => is_cache_time_fresh(u, now),
        None => false,
    }
}

/// An overview marked as failed with `error`, all else kept.
pub open spec fn failed_overview(o: Option<ChannelAccountOverview>, r: Option<ChannelAccountOverview>, error: Seq<char>) -> bool {
    match (o, r) {
        (None, None) => true,
        (Some(a), Some(b)) => {
            &&& b.sync_status@ == "failed"@
            &&& opt_string_view(b.error) == Some(error)
            &&& b.account_id == a.account_id
            &&& b.platform_id == a.platform_id
            &&& b.period_days == a.period_days
            &&& b.metrics == a.metrics
            &&& b.summary == a.summary
            &&& b.updated_at == a.updated_at
        },
        _ => false,
    }
}

fn overview_with_error(o: Option<ChannelAccountOverview>, error: &str) -> (r: Option<ChannelAccountOverview>)
    ensures
        failed_overview(o, r, error@),
{
    match o {
        Some(mut x) => {
            x.sync_status = owned("failed");
            x.error = Some(owned(error));
            Some(x)
        },
        None => None,
    }
}

/// A cached board shown after a failed read: it and its profile and
/// overviews marked as failed with the message, the figures kept.
pub fn cached_with_error(content: ChannelAccountContent, error: &str) -> (r: ChannelAccountContent)
    ensures
        r.sync_status@ == "failed"@,
        opt_string_view(r.error) == Some(error@),
        r.account_id == content.account_id,
        r.platform_id == content.platform_id,
        match (content.profile, r.profile) {
            (None, None) => true,
            (Some(a), Some(b)) => b.sync_status@ == "failed"@ && opt_string_view(b.error) == Some(error@)
                && b.account_id == a.account_id && b.platform_id == a.platform_id && b.followers == a.followers
                && b.following == a.following && b.likes == a.likes && b.last_sync_at == a.last_sync_at
                && b.updated_at == a.updated_at,
            _ => false,
        },
        failed_overview(content.overview_yesterday, r.overview_yesterday, error@),
        failed_overview(content.overview_seven, r.overview_seven, error@),
        failed_overview(content.overview_thirty, r.overview_thirty, error@),
        failed_overview(content.overview_ninety, r.overview_ninety, error@),
        failed_overview(content.overview_history, r.overview_history, error@),
        failed_overview(content.overview_total, r.overview_total, error@),
        r.latest_work == content.latest_work,
        r.latest_work_seven == content.latest_work_seven,
        r.latest_work_thirty == content.latest_work_thirty,
{
    let ChannelAccountContent {
        account_id, platform_id, profile, overview_yesterday, overview_seven, overview_thirty, overview_ninety,
        overview_history, overview_total, latest_work, latest_work_seven, latest_work_thirty, sync_status: _, error: _,
    } = content;
    let profile = match profile {
        Some(mut p) => {
            p.sync_status = owned("failed");
            p.error = Some(owned(error));
            Some(p)
        },
        None => None,
    };
    ChannelAccountContent {
        account_id,
        platform_id,
        profile,
        overview_yesterday: overview_with_error(overview_yesterday, error),
        overview_seven: overview_with_error(overview_seven, error),
        overview_thirty: overview_with_error(overview_thirty, error),
        overview_ninety: overview_with_error(overview_ninety, error),
        overview_history: overview_with_error(overview_history, error),
        overview_total: overview_with_error(overview_total, error),
        latest_work,
        latest_work_seven,
        latest_work_thirty,
        sync_status: owned("failed"),
        error: Some(owned(error)),
    }
}

/// A cached works page shown after a failed read, marked as failed with
/// the message.
pub fn works_page_with_error(page: ChannelWorksPage, error: &str) -> (r: ChannelWorksPage)
    ensures
        r.sync_status@ == "failed"@,
        opt_string_view(r.error) == Some(error@),
        r.account_id == page.account_id,
        r.platform_id == page.platform_id,
        r.page_key == page.page_key,
        r.work_type == page.work_type,
        r.next_page_key == page.next_page_key,
        r.has_more == page.has_more,
        r.works == page.works,
        r.updated_at == page.updated_at,
{
    let mut p = page;
    p.sync_status = owned("failed");
    p.error = Some(owned(error));
    p
}

} // verus!
