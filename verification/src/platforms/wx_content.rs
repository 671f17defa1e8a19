//! WeChat Channels' board: yesterday's key-point figures of the assistant's
//! statistics replies, and the account content built from them.

use vstd::prelude::*;
use crate::domain::{
    ChannelAccountContent, ChannelAccountOverview, ChannelAccountProfileSnapshot, ChannelContentWork, ChannelOverviewMetric,
    PluginAccountInfo, UtcTime, opt_text, overview_metric_view,
};
use crate::json::{JsonNumber, JsonValue, jget, opt_ref};
use crate::number::{all_digits_range, dec_signed, digit_value, digits_value, digits_value_upto};
use crate::platforms::wechat_channels::{
    ensure_wx_success, find_key, find_value_by_key, overview_metric, response_data, response_data_spec, wx_success_spec,
};
use crate::strs::owned;
use crate::text::{all_digits, chars_of, find_char, find_char_exec, string_from_range, trim, trim_str};

verus! {

/// `n` cast to `i64` the way a float cast saturates.
pub open spec fn saturate_i64(n: int) -> i64 {
    if n > i64::MAX {
        i64::MAX
    } else if n < i64::MIN {
        i64::MIN
    } else {
        n as i64
    }
}

/// A decimal text: an optional sign, digits, and optionally a point with
/// more digits, at least one digit in all; its value rounded half away
/// from zero.
pub open spec fn decimal_rounded(t: Seq<char>) -> Option<int> {
    let neg = t.len() > 0 && t[0] == '-';
    let body = if t.len() > 0 && (t[0] == '-' || t[0] == '+') { t.drop_first() } else { t };
    let int_part = match find_char(body, '.') { Some(p) => body.take(p), None => body };
    let frac = match find_char(body, '.') { Some(p) => body.skip(p + 1), None => Seq::<char>::empty() };
    if all_digits(int_part) && all_digits(frac) && int_part.len() + frac.len() > 0 {
        let m = digits_value(int_part) + if frac.len() > 0 && digit_value(frac[0]) >= 5 { 1int } else { 0int };
        Some(if neg { -m } else { m })
    } else {
        None
    }
}

/// The whole number a WeChat Channels statistic value stands for: an
/// integer as it is (one past the `i64` range saturated), a float rounded, a
/// decimal text (trimmed) rounded and saturated.
pub open spec fn wx_signed_spec(v: JsonValue) -> Option<i64> {
    match v {
        JsonValue::Number(JsonNumber::PosInt(u)) => Some(if u <= i64::MAX { u as i64 } else { i64::MAX }),
        JsonValue::Number(JsonNumber::NegInt(i)) => Some(i),
        JsonValue::Number(JsonNumber::Float(f)) => Some(f.rounded),
        JsonValue::String(s) => match decimal_rounded(trim(s@)) {
            Some(n) => Some(saturate_i64(n)),
            None => None,
        },
        _ => None,
    }
}

proof fn lemma_find_char_in(s: Seq<char>, c: char)
    ensures
        find_char(s, c) matches Some(i) ==> 0 <= i < s.len() && s[i] == c,
    decreases s.len(),
{
    if s.len() > 0 && s[0] != c {
        lemma_find_char_in(s.drop_first(), c);
    }
}

/// A decimal text rounded and saturated.
fn decimal_text_rounded(s: &str) -> (r: Option<i64>)
    ensures
        r == match decimal_rounded(trim(s@)) { Some(n) => Some(saturate_i64(n)), None => None },
{
    let trimmed = trim_str(s);
    let t = chars_of(trimmed.as_str());
    let neg = t.len() > 0 && t[0] == '-';
    let start: usize = if t.len() > 0 && (t[0] == '-' || t[0] == '+') { 1 } else { 0 };
    let body_text = string_from_range(&t, start, t.len());
    let body = chars_of(body_text.as_str());
    proof {
        if start == 1 {
            assert(t@.drop_first() =~= t@.subrange(1, t@.len() as int));
        } else {
            assert(t@ =~= t@.subrange(0, t@.len() as int));
        }
    }
    let n = body.len();
    proof {
        lemma_find_char_in(body@, '.');
    }
    let (int_end, frac_start) = match find_char_exec(&body, '.') {
        Some(p) => (p, p + 1),
        None => (n, n),
    };
    proof {
        lemma_find_char_in(body@, '.');
        assert(body@.take(int_end as int) =~= body@.subrange(0, int_end as int));
        assert(body@ =~= body@.subrange(0, n as int));
        assert(body@.skip(frac_start as int) =~= body@.subrange(frac_start as int, n as int));
        assert(Seq::<char>::empty() =~= body@.subrange(n as int, n as int));
    }
    if !all_digits_range(&body, 0, int_end) || !all_digits_range(&body, frac_start, n) || (int_end == 0 && frac_start == n) {
        return None;
    }
    let bump: u64 = if frac_start < n && body[frac_start] >= '5' { 1 } else { 0 };
    proof {
        if frac_start < n {
            let frac = body@.subrange(frac_start as int, n as int);
            assert(frac[0] == body@[frac_start as int]);
            assert(crate::text::is_digit(frac[0]));
        }
    }
    match digits_value_upto(&body, 0, int_end, 9223372036854775808u64) {
        None => Some(if neg { i64::MIN } else { i64::MAX }),
        Some(x) => {
            let m = x + bump;
            if neg {
                if m >= 9223372036854775808u64 {
                    Some(i64::MIN)
                } else {
                    Some(-(m as i64))
                }
            } else if m > 9223372036854775807u64 {
                Some(i64::MAX)
            } else {
                Some(m as i64)
            }
        },
    }
}

/// The whole number a statistic value stands for.
pub fn wx_signed_number(value: &JsonValue) -> (r: Option<i64>)
    ensures
        r == wx_signed_spec(*value),
{
    match value {
        JsonValue::Number(JsonNumber::PosInt(u)) => Some(if *u <= 9223372036854775807u64 { *u as i64 } else { i64::MAX }),
        JsonValue::Number(JsonNumber::NegInt(i)) => Some(*i),
        JsonValue::Number(JsonNumber::Float(f)) => Some(f.rounded),
        JsonValue::String(s) => decimal_text_rounded(s.as_str()),
        _ => None,
    }
}

/// The pin status of a work item: its first "stickyOpStatus" (else
/// "sticky_op_status") at any depth, as a whole number.
pub open spec fn sticky_op_status_spec(v: JsonValue) -> Option<i64> {
    let found = match find_key(v, "stickyOpStatus"@) {
        Some(x) => Some(x),
        None => find_key(v, "sticky_op_status"@),
    };
    match found {
        Some(x) => wx_signed_spec(x),
        None => None,
    }
}

/// The pin status of a work item (2 for a pinned work).
pub fn wx_sticky_op_status(value: &JsonValue) -> (r: Option<i64>)
    ensures
        r == sticky_op_status_spec(*value),
{
    let found = match find_value_by_key(value, "stickyOpStatus") {
        Some(x) => Some(x),
        None => find_value_by_key(value, "sticky_op_status"),
    };
    match found {
        Some(x) => wx_signed_number(x),
        None => None,
    }
}

/// The value a key-point figure contributes to a sum: its whole number, or
/// nothing.
pub open spec fn signed_or_zero(v: JsonValue) -> int {
    match wx_signed_spec(v) {
        Some(n) => n as int,
        None => 0,
    }
}

/// The sum of the whole numbers among `s`.
pub open spec fn signed_sum(s: Seq<JsonValue>) -> int
    decreases s.len(),
{
    if s.len() == 0 {
        0
    } else {
        signed_sum(s.drop_last()) + signed_or_zero(s.last())
    }
}

/// The latest figure of a key point: for a series, the sum over its second
/// half (the whole series when it has one point; nothing when empty); for
/// an object, its "now" (else "value"); else the value itself.
pub open spec fn keypoint_now_spec(v: JsonValue) -> Option<int> {
    match v {
        JsonValue::Array(items) => {
            let n = items@.len();
            if n == 0 {
                None
            } else {
                let start: int = if n > 1 { (n / 2) as int } else { 0 };
                Some(signed_sum(items@.subrange(start, n as int)))
            }
        },
        JsonValue::Object(_) => {
            let inner = match jget(v, "now"@) {
                Some(x) => Some(x),
                None => jget(v, "value"@),
            };
            match inner {
                Some(x) => match wx_signed_spec(x) { Some(n) => Some(n as int), None => None },
                None => None,
            }
        },
        _ => match wx_signed_spec(v) { Some(n) => Some(n as int), None => None },
    }
}

/// The first of `keys` found at any depth of `v`.
pub open spec fn first_found(v: JsonValue, keys: Seq<&str>) -> Option<JsonValue>
    decreases keys.len(),
{
    if keys.len() == 0 {
        None
    } else {
        match find_key(v, keys[0]@) {
            Some(x) => Some(x),
            None => first_found(v, keys.drop_first()),
        }
    }
}

/// Where a statistics reply keeps its totals: "totalData" (else
/// "total_data") of its payload, else the payload itself; the payload is
/// the reply when it has none.
pub open spec fn keypoint_totals(value: JsonValue) -> JsonValue {
    let data = match response_data_spec(value) { Some(d) => d, None => value };
    match jget(data, "totalData"@) {
        Some(t) => t,
        None => match jget(data, "total_data"@) {
            Some(t) => t,
            None => data,
        },
    }
}

/// Yesterday's figure of the first of `keys` in a statistics reply.
pub open spec fn keypoint_sum_spec(value: JsonValue, keys: Seq<&str>) -> Option<int> {
    match first_found(keypoint_totals(value), keys) {
        Some(found) => keypoint_now_spec(found),
        None => None,
    }
}

/// Whether the figure fits an `i64` (the sum of a series need not).
pub open spec fn keypoint_fits(value: JsonValue, keys: Seq<&str>) -> bool {
    match keypoint_sum_spec(value, keys) {
        Some(n) => i64::MIN <= n <= i64::MAX,
        None => true,
    }
}

pub open spec fn opt_int(r: Option<i64>) -> Option<int> {
    match r {
        Some(n) => Some(n as int),
        None => None,
    }
}

proof fn lemma_signed_sum_bound(s: Seq<JsonValue>)
    ensures
        -(s.len() * 9223372036854775808) <= signed_sum(s) <= s.len() * 9223372036854775808,
    decreases s.len(),
{
    if s.len() > 0 {
        lemma_signed_sum_bound(s.drop_last());
        assert((s.len() - 1) * 9223372036854775808 + 9223372036854775808 == s.len() * 9223372036854775808) by (nonlinear_arith);
    }
}

/// The sum of the whole numbers among `items[start..]`, exactly.
fn signed_sum_from(items: &Vec<JsonValue>, start: usize) -> (r: i128)
    requires
        start <= items@.len(),
    ensures
        r as int == signed_sum(items@.subrange(start as int, items@.len() as int)),
{
    let ghost all = items@.subrange(start as int, items@.len() as int);
    let mut acc: i128 = 0;
    let mut i = start;
    while i < items.len()
        invariant
            start <= i <= items@.len(),
            all == items@.subrange(start as int, items@.len() as int),
            acc as int == signed_sum(all.take(i - start)),
        decreases items@.len() - i,
    {
        let ghost prefix = all.take(i - start + 1);
        proof {
            assert(prefix.drop_last() =~= all.take(i - start));
            assert(prefix.last() == items@[i as int]);
            lemma_signed_sum_bound(prefix);
            assert(prefix.len() <= usize::MAX);
            assert(prefix.len() * 9223372036854775808 <= 18446744073709551615 * 9223372036854775808) by (nonlinear_arith)
                requires prefix.len() <= 18446744073709551615;
        }
        let add: i128 = match wx_signed_number(&items[i]) { Some(n) => n as i128, None => 0 };
        acc = acc + add;
        i += 1;
    }
    assert(all.take(items@.len() - start) =~= all);
    acc
}

/// The latest figure of a key point, exactly.
fn keypoint_now(value: &JsonValue) -> (r: Option<i128>)
    ensures
        match r { Some(n) => keypoint_now_spec(*value) == Some(n as int), None => keypoint_now_spec(*value) is None },
{
    match value {
        JsonValue::Array(items) => {
            let n = items.len();
            if n == 0 {
                None
            } else {
                let start: usize = if n > 1 { n / 2 } else { 0 };
                Some(signed_sum_from(items, start))
            }
        },
        JsonValue::Object(_) => {
            let inner = match value.get("now") {
                Some(x) => Some(x),
                None => value.get("value"),
            };
            match inner {
                Some(x) => match wx_signed_number(x) { Some(k) => Some(k as i128), None => None },
                None => None,
            }
        },
        _ => match wx_signed_number(value) { Some(k) => Some(k as i128), None => None },
    }
}

/// The first of `keys` found at any depth.
fn first_found_exec<'a>(value: &'a JsonValue, keys: &[&str]) -> (r: Option<&'a JsonValue>)
    ensures
        opt_ref(r) == first_found(*value, keys@),
{
    let mut i: usize = 0;
    assert(keys@.skip(0) =~= keys@);
    while i < keys.len()
        invariant
            i <= keys@.len(),
            first_found(*value, keys@) == first_found(*value, keys@.skip(i as int)),
        decreases keys@.len() - i,
    {
        proof {
            assert(keys@.skip(i as int).drop_first() =~= keys@.skip(i + 1));
            assert(keys@.skip(i as int)[0] == keys@[i as int]);
        }
        match find_value_by_key(value, keys[i]) {
            Some(x) => return Some(x),
            None => {},
        }
        i += 1;
    }
    None
}

/// Where a statistics reply keeps its totals.
fn keypoint_totals_exec(value: &JsonValue) -> (r: &JsonValue)
    ensures
        *r == keypoint_totals(*value),
{
    let data = match response_data(value) { Some(d) => d, None => value };
    match data.get("totalData") {
        Some(t) => t,
        None => match data.get("total_data") {
            Some(t) => t,
            None => data,
        },
    }
}

/// Yesterday's figure of the first of `keys` in a statistics reply,
/// exactly, or nothing.
fn keypoint_total(value: &JsonValue, keys: &[&str]) -> (r: Option<i128>)
    ensures
        match r { Some(n) => keypoint_sum_spec(*value, keys@) == Some(n as int), None => keypoint_sum_spec(*value, keys@) is None },
{
    match first_found_exec(keypoint_totals_exec(value), keys) {
        Some(found) => keypoint_now(found),
        None => None,
    }
}

/// Whether yesterday's figure of `keys` in a statistics reply fits an `i64`.
pub fn wx_keypoint_sum_fits(value: &JsonValue, keys: &[&str]) -> (b: bool)
    ensures
        b == keypoint_fits(*value, keys@),
{
    match keypoint_total(value, keys) {
        Some(n) => -9223372036854775808i128 <= n && n <= 9223372036854775807i128,
        None => true,
    }
}

/// Yesterday's figure of the first of `keys` found in a statistics reply.
pub fn wx_keypoint_sum(value: &JsonValue, keys: &[&str]) -> (r: Option<i64>)
    requires
        keypoint_fits(*value, keys@),
    ensures
        opt_int(r) == keypoint_sum_spec(*value, keys@),
{
    match keypoint_total(value, keys) {
        Some(n) => Some(n as i64),
        None => None,
    }
}

pub open spec fn net_add_keys() -> Seq<&'static str> {
    seq!["netAdd", "net_add", "newFollow", "newFollowCount"]
}

pub open spec fn browse_keys() -> Seq<&'static str> {
    seq!["browse", "play", "playCount", "readCount"]
}

pub open spec fn like_keys() -> Seq<&'static str> {
    seq!["like", "likeCount", "likedCount"]
}

pub open spec fn comment_keys() -> Seq<&'static str> {
    seq!["comment", "commentCount", "comments"]
}

/// The four key points fit an `i64`.
pub open spec fn wx_figures_fit(fans_value: JsonValue, post_value: JsonValue) -> bool {
    &&& keypoint_fits(fans_value, net_add_keys())
    &&& keypoint_fits(post_value, browse_keys())
    &&& keypoint_fits(post_value, like_keys())
    &&& keypoint_fits(post_value, comment_keys())
}

/// An overview figure's value: the number, or "-".
pub open spec fn figure_text(n: Option<int>) -> Option<Seq<char>> {
    Some(match n { Some(v) => dec_signed(v), None => "-"@ })
}

/// Yesterday's WeChat Channels overview: period 1, the net new followers,
/// new plays, likes and comments, and the window it covers.
pub open spec fn wx_overview_ok(o: ChannelAccountOverview, account_id: Seq<char>, fans_value: JsonValue, post_value: JsonValue, now: UtcTime) -> bool {
    &&& o.account_id@ == account_id
    &&& o.platform_id@ == "wechat-channels"@
    &&& o.period_days == 1
    &&& o.metrics@.len() == 4
    &&& overview_metric_view(o.metrics@[0]) == ("netAdd"@, "净增关注"@, figure_text(keypoint_sum_spec(fans_value, net_add_keys())),
        None::<Seq<char>>, None::<Seq<char>>, None::<Seq<char>>)
    &&& overview_metric_view(o.metrics@[1]) == ("browse"@, "新增播放"@, figure_text(keypoint_sum_spec(post_value, browse_keys())),
        None::<Seq<char>>, None::<Seq<char>>, None::<Seq<char>>)
    &&& overview_metric_view(o.metrics@[2]) == ("like"@, "新增点赞"@, figure_text(keypoint_sum_spec(post_value, like_keys())),
        None::<Seq<char>>, None::<Seq<char>>, None::<Seq<char>>)
    &&& overview_metric_view(o.metrics@[3]) == ("comment"@, "新增评论"@, figure_text(keypoint_sum_spec(post_value, comment_keys())),
        None::<Seq<char>>, None::<Seq<char>>, None::<Seq<char>>)
    &&& opt_text(o.summary) == Some("数据统计时间为昨日 00:00 至 23:59"@)
    &&& o.updated_at == Some(now)
    &&& o.sync_status@ == "synced"@
    &&& o.error is None
}

fn figure(key: &str, label: &str, value: &JsonValue, keys: &[&str]) -> (m: ChannelOverviewMetric)
    requires
        keypoint_fits(*value, keys@),
    ensures
        overview_metric_view(m) == (key@, label@, figure_text(keypoint_sum_spec(*value, keys@)),
            None::<Seq<char>>, None::<Seq<char>>, None::<Seq<char>>),
{
    overview_metric(key, label, wx_keypoint_sum(value, keys))
}

/// Yesterday's overview from the fans-trend and post-total replies.
fn wx_yesterday_overview(account_id: &str, fans_value: &JsonValue, post_value: &JsonValue, now: UtcTime) -> (o: ChannelAccountOverview)
    requires
        wx_figures_fit(*fans_value, *post_value),
    ensures
        wx_overview_ok(o, account_id@, *fans_value, *post_value, now),
{
    let k1: [&str; 4] = ["netAdd", "net_add", "newFollow", "newFollowCount"];
    assert(k1@ =~= net_add_keys());
    let k2: [&str; 4] = ["browse", "play", "playCount", "readCount"];
    assert(k2@ =~= browse_keys());
    let k3: [&str; 3] = ["like", "likeCount", "likedCount"];
    assert(k3@ =~= like_keys());
    let k4: [&str; 3] = ["comment", "commentCount", "comments"];
    assert(k4@ =~= comment_keys());
    let mut metrics: Vec<ChannelOverviewMetric> = Vec::new();
    metrics.push(figure("netAdd", "净增关注", fans_value, &k1));
    metrics.push(figure("browse", "新增播放", post_value, &k2));
    metrics.push(figure("like", "新增点赞", post_value, &k3));
    metrics.push(figure("comment", "新增评论", post_value, &k4));
    ChannelAccountOverview {
        account_id: owned(account_id),
        platform_id: owned("wechat-channels"),
        period_days: 1,
        metrics,
        summary: Some(owned("数据统计时间为昨日 00:00 至 23:59")),
        updated_at: Some(now),
        sync_status: owned("synced"),
        error: None,
    }
}

/// The WeChat Channels board read at `now`: the profile's counts,
/// yesterday's overview (also shown as the 7-day one), the latest video
/// and article; refused with the first of the two statistics replies'
/// failures.
pub fn wx_channels_account_content(
    account_id: &str,
    profile: &PluginAccountInfo,
    fans_value: &JsonValue,
    post_value: &JsonValue,
    latest_video: Option<ChannelContentWork>,
    latest_article: Option<ChannelContentWork>,
    now: UtcTime,
) -> (r: Result<ChannelAccountContent, String>)
    requires
        wx_success_spec(*fans_value, "视频号关注数据同步失败"@) is Ok && wx_success_spec(*post_value, "视频号作品数据同步失败"@) is Ok
            ==> wx_figures_fit(*fans_value, *post_value),
    ensures
        match wx_success_spec(*fans_value, "视频号关注数据同步失败"@) {
            Err(e) => r matches Err(m) && m@ == e,
            Ok(()) => match wx_success_spec(*post_value, "视频号作品数据同步失败"@) {
                Err(e) => r matches Err(m) && m@ == e,
                Ok(()) => r matches Ok(c) && {
                    &&& c.account_id@ == account_id@
                    &&& c.platform_id@ == "wechat-channels"@
                    &&& (c.profile matches Some(s) && {
                        &&& s.account_id@ == account_id@
                        &&& s.platform_id@ == "wechat-channels"@
                        &&& s.followers == profile.fans_count
                        &&& s.following == profile.following_count
                        &&& s.likes == profile.like_count
                        &&& s.last_sync_at == Some(now)
                        &&& s.updated_at == Some(now)
                        &&& s.sync_status@ == "synced"@
                        &&& s.error is None
                    })
                    &&& (c.overview_yesterday matches Some(o) && wx_overview_ok(o, account_id@, *fans_value, *post_value, now))
                    &&& (c.overview_seven matches Some(o) && wx_overview_ok(o, account_id@, *fans_value, *post_value, now))
                    &&& c.overview_thirty is None
                    &&& c.overview_ninety is None
                    &&& c.overview_history is None
                    &&& c.overview_total is None
                    &&& c.latest_work == latest_video
                    &&& c.latest_work_seven == latest_article
                    &&& c.latest_work_thirty is None
                    &&& c.sync_status@ == "synced"@
                    &&& c.error is None
                },
            },
        },
{
    match ensure_wx_success(fans_value, "视频号关注数据同步失败") {
        Err(e) => return Err(e),
        Ok(()) => {},
    }
    match ensure_wx_success(post_value, "视频号作品数据同步失败") {
        Err(e) => return Err(e),
        Ok(()) => {},
    }
    let yesterday = wx_yesterday_overview(account_id, fans_value, post_value, now);
    let seven = wx_yesterday_overview(account_id, fans_value, post_value, now);
    Ok(ChannelAccountContent {
        account_id: owned(account_id),
        platform_id: owned("wechat-channels"),
        profile: Some(ChannelAccountProfileSnapshot {
            account_id: owned(account_id),
            platform_id: owned("wechat-channels"),
            followers: profile.fans_count,
            following: profile.following_count,
            likes: profile.like_count,
            last_sync_at: Some(now),
            updated_at: Some(now),
            sync_status: owned("synced"),
            error: None,
        }),
        overview_yesterday: Some(yesterday),
        overview_seven: Some(seven),
        overview_thirty: None,
        overview_ninety: None,
        overview_history: None,
        overview_total: None,
        latest_work: latest_video,
        latest_work_seven: latest_article,
        latest_work_thirty: None,
        sync_status: owned("synced"),
        error: None,
    })
}

} // verus!
