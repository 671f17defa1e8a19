//! Works list pages read from the platforms' creator APIs: which works a
//! response lists, and whether and where the list goes on.

use vstd::prelude::*;
use crate::domain::{ChannelContentWork, ChannelWorksPage, UtcTime, WorkView};
use crate::json::{JsonValue, jget, number_text};
use crate::json_ext::{first_i64_spec, first_string_spec};
use crate::number::{dec_signed, i64_to_string};
use crate::platforms::bilibili::{
    bili_article_work_spec, bili_error_spec, bili_video_work_spec, bilibili_error_message, bilibili_response_success,
    count_key, count_key_spec, parse_bilibili_article_work, parse_bilibili_video_work,
};
use crate::platforms::kuaishou::{
    kuaishou_error_message, kuaishou_error_spec, kuaishou_management_works_data, kuaishou_response_success, kuaishou_work_ok,
    management_data_spec, parse_kuaishou_work, response_code_keys,
};
use crate::platforms::plugin::{plugin_success_spec, response_success};
use crate::platforms::wechat_channels::{
    WxWorkKind, ensure_wx_success, first_list, list_of, parse_wx_work, refs_view, response_data, response_data_spec,
    wx_success_spec, wx_work_spec,
};
use crate::json_ext::{count_deep, first_count};
use crate::platforms::xiaohongshu::{page_key_from_value, page_key_spec, parse_xhs_work, payload_spec, xhs_response_payload, xhs_work_spec};
use crate::strs::{opt_string_view, owned};
use crate::text::{is_blank, str_eq, trim, trim_str};

verus! {

pub open spec fn works_view(ws: Seq<ChannelContentWork>) -> Seq<WorkView> {
    ws.map_values(|w: ChannelContentWork| w@)
}

/// The works a parser makes of a list, in order, leaving out the items it
/// cannot read.
pub open spec fn parsed_works(items: Seq<JsonValue>, f: spec_fn(JsonValue) -> Option<WorkView>) -> Seq<WorkView>
    decreases items.len(),
{
    if items.len() == 0 {
        seq![]
    } else {
        let rest = parsed_works(items.drop_last(), f);
        match f(items.last()) {
            Some(w) => rest.push(w),
            None => rest,
        }
    }
}

/// The array under `key`, or nothing.
pub open spec fn array_at(v: JsonValue, key: Seq<char>) -> Seq<JsonValue> {
    match jget(v, key) {
        Some(JsonValue::Array(a)) => a@,
        _ => seq![],
    }
}

fn array_at_exec<'a>(v: &'a JsonValue, key: &str) -> (r: &'a [JsonValue])
    ensures
        r@ == array_at(*v, key@),
{
    match v.get(key) {
        Some(JsonValue::Array(a)) => a.as_slice(),
        _ => &[],
    }
}

fn xhs_works(items: &[JsonValue], account_id: &str) -> (r: Vec<ChannelContentWork>)
    ensures
        works_view(r@) == parsed_works(items@, |v: JsonValue| xhs_work_spec(v, account_id@, "list"@)),
{
    let ghost f = |v: JsonValue| xhs_work_spec(v, account_id@, "list"@);
    let mut out: Vec<ChannelContentWork> = Vec::new();
    let mut i: usize = 0;
    while i < items.len()
        invariant
            i <= items@.len(),
            f == (|v: JsonValue| xhs_work_spec(v, account_id@, "list"@)),
            works_view(out@) == parsed_works(items@.take(i as int), f),
        decreases items@.len() - i,
    {
        assert(items@.take(i + 1).drop_last() =~= items@.take(i as int));
        assert(items@.take(i + 1).last() == items@[i as int]);
        let parsed = parse_xhs_work(&items[i], account_id, "list");
        assert(f(items@[i as int]) == crate::domain::opt_work_view(parsed));
        match parsed {
            Some(w) => {
                let ghost before = out@;
                out.push(w);
                assert(works_view(out@) =~= works_view(before).push(out@.last()@));
            },
            None => {},
        }
        i += 1;
    }
    assert(items@.take(items@.len() as int) =~= items@);
    out
}

/// Whether a Xiaohongshu page key names a further page.
pub open spec fn xhs_more_spec(next: Option<Seq<char>>) -> bool {
    match next {
        Some(v) => v != "-1"@ && trim(v).len() > 0,
        None => false,
    }
}

/// The key of the page after a Xiaohongshu page.
pub open spec fn xhs_next_spec(data: JsonValue) -> Option<Seq<char>> {
    match jget(data, "page"@) {
        Some(p) => page_key_spec(p),
        None => None,
    }
}

/// The message of a refused Xiaohongshu works request.
pub open spec fn xhs_refusal_spec(value: JsonValue) -> Seq<char> {
    match jget(value, "msg"@) {
        Some(JsonValue::String(m)) => m@,
        _ => "小红书作品列表同步失败"@,
    }
}

/// A Xiaohongshu works page read at `now` from the posted-notes response:
/// its notes that can be read, and the next page where the response names
/// one other than "-1"; the response's message when it is refused.
pub fn xhs_works_page(value: &JsonValue, account_id: &str, page_key: &str, now: UtcTime) -> (r: Result<ChannelWorksPage, String>)
    ensures
        match r {
            Err(e) => !plugin_success_spec(*value) && e@ == xhs_refusal_spec(*value),
            Ok(p) => {
                let data = payload_spec(*value);
                let next = xhs_next_spec(data);
                &&& plugin_success_spec(*value)
                &&& p.account_id@ == account_id@
                &&& p.platform_id@ == "xiaohongshu"@
                &&& p.page_key@ == page_key@
                &&& p.work_type is None
                &&& works_view(p.works@) == parsed_works(array_at(data, "notes"@), |v: JsonValue| xhs_work_spec(v, account_id@, "list"@))
                &&& p.has_more == xhs_more_spec(next)
                &&& opt_string_view(p.next_page_key) == (if xhs_more_spec(next) { next } else { None })
                &&& p.updated_at == Some(now)
                &&& p.sync_status@ == "synced"@
                &&& p.error is None
            },
        },
{
    if !response_success(value) {
        return Err(match value.get("msg") {
            Some(JsonValue::String(m)) => m.clone(),
            _ => owned("小红书作品列表同步失败"),
        });
    }
    let data = match xhs_response_payload(value) {
        Some(d) => d,
        None => value,
    };
    let works = xhs_works(array_at_exec(data, "notes"), account_id);
    let next = match data.get("page") {
        Some(p) => page_key_from_value(p),
        None => None,
    };
    let has_more = match &next {
        Some(v) => !str_eq(v.as_str(), "-1") && !is_blank(v.as_str()),
        None => false,
    };
    proof { reveal_strlit("-1"); }
    Ok(ChannelWorksPage {
        account_id: owned(account_id),
        platform_id: owned("xiaohongshu"),
        page_key: owned(page_key),
        work_type: None,
        next_page_key: if has_more { next } else { None },
        has_more,
        works,
        updated_at: Some(now),
        sync_status: owned("synced"),
        error: None,
    })
}

/// The number of works a Bilibili works page holds.
pub open spec fn bili_page_size() -> int {
    10
}

pub open spec fn bili_success(value: JsonValue) -> bool {
    match first_i64_spec(value, seq!["code"]) {
        Some(c) => c == 0,
        None => false,
    }
}

/// The "data" of a Bilibili response, or the response itself.
pub open spec fn bili_data(value: JsonValue) -> JsonValue {
    match jget(value, "data"@) {
        Some(d) => d,
        None => value,
    }
}

/// The video list of a Bilibili response: under "arc_audits" where that
/// key is there, else under "archives".
pub open spec fn bili_video_items(data: JsonValue) -> Seq<JsonValue> {
    match jget(data, "arc_audits"@) {
        Some(JsonValue::Array(a)) => a@,
        Some(_) => seq![],
        None => array_at(data, "archives"@),
    }
}

fn bili_video_items_exec(data: &JsonValue) -> (r: &[JsonValue])
    ensures
        r@ == bili_video_items(*data),
{
    match data.get("arc_audits") {
        Some(JsonValue::Array(a)) => a.as_slice(),
        Some(_) => &[],
        None => array_at_exec(data, "archives"),
    }
}

fn bili_video_works(items: &[JsonValue], account_id: &str) -> (r: Vec<ChannelContentWork>)
    ensures
        works_view(r@) == parsed_works(items@, |v: JsonValue| bili_video_work_spec(v, account_id@)),
{
    let ghost f = |v: JsonValue| bili_video_work_spec(v, account_id@);
    let mut out: Vec<ChannelContentWork> = Vec::new();
    let mut i: usize = 0;
    while i < items.len()
        invariant
            i <= items@.len(),
            f == (|v: JsonValue| bili_video_work_spec(v, account_id@)),
            works_view(out@) == parsed_works(items@.take(i as int), f),
        decreases items@.len() - i,
    {
        assert(items@.take(i + 1).drop_last() =~= items@.take(i as int));
        assert(items@.take(i + 1).last() == items@[i as int]);
        let parsed = parse_bilibili_video_work(&items[i], account_id);
        assert(f(items@[i as int]) == crate::domain::opt_work_view(parsed));
        match parsed {
            Some(w) => {
                let ghost before = out@;
                out.push(w);
                assert(works_view(out@) =~= works_view(before).push(out@.last()@));
            },
            None => {},
        }
        i += 1;
    }
    assert(items@.take(items@.len() as int) =~= items@);
    out
}

fn bili_article_works(items: &[JsonValue], account_id: &str) -> (r: Vec<ChannelContentWork>)
    ensures
        works_view(r@) == parsed_works(items@, |v: JsonValue| bili_article_work_spec(v, account_id@)),
{
    let ghost f = |v: JsonValue| bili_article_work_spec(v, account_id@);
    let mut out: Vec<ChannelContentWork> = Vec::new();
    let mut i: usize = 0;
    while i < items.len()
        invariant
            i <= items@.len(),
            f == (|v: JsonValue| bili_article_work_spec(v, account_id@)),
            works_view(out@) == parsed_works(items@.take(i as int), f),
        decreases items@.len() - i,
    {
        assert(items@.take(i + 1).drop_last() =~= items@.take(i as int));
        assert(items@.take(i + 1).last() == items@[i as int]);
        let parsed = parse_bilibili_article_work(&items[i], account_id);
        assert(f(items@[i as int]) == crate::domain::opt_work_view(parsed));
        match parsed {
            Some(w) => {
                let ghost before = out@;
                out.push(w);
                assert(works_view(out@) =~= works_view(before).push(out@.last()@));
            },
            None => {},
        }
        i += 1;
    }
    assert(items@.take(items@.len() as int) =~= items@);
    out
}

/// Whether more works follow page `page` of a list of `total` works, as an
/// `i64` comparison: a total beyond `i64` reads as negative.
pub open spec fn bili_more_than(page: i64, total: u64) -> bool {
    total <= i64::MAX && page * bili_page_size() < total
}

/// What a Bilibili works page has in common: its account, the page number
/// as its key, its kind, the next page where there are more, read at `now`.
pub open spec fn bili_page_ok(p: ChannelWorksPage, account_id: Seq<char>, page: i64, kind: Seq<char>, has_more: bool, now: UtcTime) -> bool {
    &&& p.account_id@ == account_id
    &&& p.platform_id@ == "bilibili"@
    &&& p.page_key@ == dec_signed(page as int)
    &&& opt_string_view(p.work_type) == Some(kind)
    &&& p.has_more == has_more
    &&& opt_string_view(p.next_page_key) == (if has_more { Some(dec_signed(page + 1)) } else { None })
    &&& p.updated_at == Some(now)
    &&& p.sync_status@ == "synced"@
    &&& p.error is None
}

fn bili_page(account_id: &str, page: i64, kind: &str, has_more: bool, works: Vec<ChannelContentWork>, now: UtcTime) -> (r: ChannelWorksPage)
    requires
        1 <= page <= i64::MAX / 10,
    ensures
        bili_page_ok(r, account_id@, page, kind@, has_more, now),
        r.works == works,
{
    ChannelWorksPage {
        account_id: owned(account_id),
        platform_id: owned("bilibili"),
        page_key: i64_to_string(page),
        work_type: Some(owned(kind)),
        next_page_key: if has_more { Some(i64_to_string(page + 1)) } else { None },
        has_more,
        works,
        updated_at: Some(now),
        sync_status: owned("synced"),
        error: None,
    }
}

/// Page `page` of a Bilibili account's videos, read at `now`: the videos
/// that can be read, and more pages while fewer than the total were shown;
/// the response's message when it is refused. `page` is the one
/// `bilibili_page_number` gives, small enough that its works can be
/// counted.
pub fn bilibili_video_works_page(value: &JsonValue, account_id: &str, page: i64, now: UtcTime) -> (r: Result<ChannelWorksPage, String>)
    requires
        1 <= page <= i64::MAX / 10,
    ensures
        match r {
            Err(e) => !bili_success(*value) && e@ == bili_error_spec(*value, "B 站视频列表读取失败"@),
            Ok(p) => {
                let data = bili_data(*value);
                let works = parsed_works(bili_video_items(data), |v: JsonValue| bili_video_work_spec(v, account_id@));
                let total: u64 = match jget(data, "page"@) {
                    Some(pg) => match count_key_spec(pg, "count"@) {
                        Some(n) => n,
                        None => works.len() as u64,
                    },
                    None => works.len() as u64,
                };
                &&& bili_success(*value)
                &&& works_view(p.works@) == works
                &&& bili_page_ok(p, account_id@, page, "video"@, bili_more_than(page, total), now)
            },
        },
{
    if !bilibili_response_success(value) {
        return Err(bilibili_error_message(value, "B 站视频列表读取失败"));
    }
    let data = match value.get("data") {
        Some(d) => d,
        None => value,
    };
    let works = bili_video_works(bili_video_items_exec(data), account_id);
    let total: u64 = match data.get("page") {
        Some(pg) => match count_key(pg, "count") {
            Some(n) => n,
            None => works.len() as u64,
        },
        None => works.len() as u64,
    };
    let has_more = total <= i64::MAX as u64 && page * 10 < total as i64;
    Ok(bili_page(account_id, page, "video", has_more, works, now))
}

/// Whether more articles follow: as the response says, else while fewer
/// than its total were shown.
pub open spec fn bili_article_more(data: JsonValue, page: i64) -> bool {
    match jget(data, "has_more"@) {
        Some(JsonValue::Bool(b)) => b,
        _ => match count_key_spec(data, "total"@) {
            Some(t) => bili_more_than(page, t),
            None => false,
        },
    }
}

/// Page `page` of a Bilibili account's articles, read at `now`.
pub fn bilibili_article_works_page(value: &JsonValue, account_id: &str, page: i64, now: UtcTime) -> (r: Result<ChannelWorksPage, String>)
    requires
        1 <= page <= i64::MAX / 10,
    ensures
        match r {
            Err(e) => !bili_success(*value) && e@ == bili_error_spec(*value, "B 站图文列表读取失败"@),
            Ok(p) => {
                let data = bili_data(*value);
                &&& bili_success(*value)
                &&& works_view(p.works@) == parsed_works(array_at(data, "items"@), |v: JsonValue| bili_article_work_spec(v, account_id@))
                &&& bili_page_ok(p, account_id@, page, "article"@, bili_article_more(data, page), now)
            },
        },
{
    if !bilibili_response_success(value) {
        return Err(bilibili_error_message(value, "B 站图文列表读取失败"));
    }
    let data = match value.get("data") {
        Some(d) => d,
        None => value,
    };
    let works = bili_article_works(array_at_exec(data, "items"), account_id);
    let has_more = match data.get("has_more") {
        Some(JsonValue::Bool(b)) => *b,
        _ => match count_key(data, "total") {
            Some(t) => t <= i64::MAX as u64 && page * 10 < t as i64,
            None => false,
        },
    };
    Ok(bili_page(account_id, page, "article", has_more, works, now))
}

/// The works of a Kuaishou management response: the "list" where the
/// response has one, else under its "data".
pub open spec fn ks_items(value: JsonValue) -> Seq<JsonValue> {
    match management_data_spec(value) {
        Some(d) => array_at(d, "list"@),
        None => array_at(bili_data(value), "list"@),
    }
}

/// The works listed by a Kuaishou management response.
pub fn kuaishou_management_items(value: &JsonValue) -> (r: &[JsonValue])
    ensures
        r@ == ks_items(*value),
{
    match kuaishou_management_works_data(value) {
        Some(d) => array_at_exec(d, "list"),
        None => {
            let data = match value.get("data") {
                Some(d) => d,
                None => value,
            };
            array_at_exec(data, "list")
        },
    }
}

/// What a Kuaishou work needs besides its item: its completion rate, its
/// gained followers and its publication time, read from the item's
/// numbers.
pub type KuaishouWorkExtras = (Option<String>, Option<i64>, Option<UtcTime>);

/// The works made of Kuaishou items with their extras, in order, leaving
/// out the items without a photo id.
pub open spec fn ks_works_ok(ws: Seq<WorkView>, items: Seq<JsonValue>, extras: Seq<KuaishouWorkExtras>, account_id: Seq<char>, now: UtcTime) -> bool
    decreases items.len(),
{
    if items.len() == 0 {
        ws.len() == 0
    } else {
        match first_string_spec(items.last(), seq!["photoId", "workId", "publishId", "id"]) {
            None => ks_works_ok(ws, items.drop_last(), extras.drop_last(), account_id, now),
            Some(pid) => ws.len() > 0
                && kuaishou_work_ok(ws.last(), items.last(), account_id, pid, opt_string_view(extras.last().0), extras.last().1, extras.last().2, now)
                && ks_works_ok(ws.drop_last(), items.drop_last(), extras.drop_last(), account_id, now),
        }
    }
}

/// The next cursor of a Kuaishou management response: its text trimmed or
/// its number, unless empty or "no_more".
pub open spec fn ks_cursor_spec(data: JsonValue) -> Option<Seq<char>> {
    let c: Option<Seq<char>> = match jget(data, "nextCursor"@) {
        Some(JsonValue::String(t)) => Some(trim(t@)),
        Some(JsonValue::Number(n)) => Some(number_text(n)),
        _ => None,
    };
    match c {
        Some(t) => if t.len() > 0 && t != "no_more"@ { Some(t) } else { None },
        None => None,
    }
}

/// A page of a Kuaishou account's videos read at `now` from the works
/// management response, each work with its extras (one per listed item):
/// more pages while it names a next cursor; the response's message when it
/// has no list and is refused.
pub fn kuaishou_management_works_page(
    value: &JsonValue,
    account_id: &str,
    page_key: &str,
    extras: &Vec<KuaishouWorkExtras>,
    now: UtcTime,
) -> (r: Result<ChannelWorksPage, String>)
    requires
        extras@.len() == ks_items(*value).len(),
    ensures
        match r {
            Err(e) => management_data_spec(*value) is None
                && (match first_i64_spec(*value, response_code_keys()) { Some(c) => c, None => 0 }) != 1
                && e@ == kuaishou_error_spec(*value, "快手作品管理列表读取失败"@),
            Ok(p) => {
                let data = match management_data_spec(*value) { Some(d) => d, None => bili_data(*value) };
                &&& ks_works_ok(works_view(p.works@), ks_items(*value), extras@, account_id@, now)
                &&& p.account_id@ == account_id@
                &&& p.platform_id@ == "kuaishou"@
                &&& p.page_key@ == trim(page_key@)
                &&& opt_string_view(p.work_type) == Some("video"@)
                &&& opt_string_view(p.next_page_key) == ks_cursor_spec(data)
                &&& p.has_more == ks_cursor_spec(data) is Some
                &&& p.updated_at == Some(now)
                &&& p.sync_status@ == "synced"@
                &&& p.error is None
            },
        },
{
    let found = kuaishou_management_works_data(value);
    if found.is_none() && !kuaishou_response_success(value) {
        return Err(kuaishou_error_message(value, "快手作品管理列表读取失败"));
    }
    let data = match found {
        Some(d) => d,
        None => match value.get("data") {
            Some(d) => d,
            None => value,
        },
    };
    let items = kuaishou_management_items(value);
    let mut works: Vec<ChannelContentWork> = Vec::new();
    let mut i: usize = 0;
    while i < items.len()
        invariant
            i <= items@.len(),
            items@ == ks_items(*value),
            extras@.len() == items@.len(),
            ks_works_ok(works_view(works@), items@.take(i as int), extras@.take(i as int), account_id@, now),
        decreases items@.len() - i,
    {
        assert(items@.take(i + 1).drop_last() =~= items@.take(i as int));
        assert(extras@.take(i + 1).drop_last() =~= extras@.take(i as int));
        let (rate, gained, published) = &extras[i];
        let rate_copy = match rate {
            Some(t) => Some(t.clone()),
            None => None,
        };
        match parse_kuaishou_work(&items[i], account_id, rate_copy, *gained, *published, now) {
            Some(w) => {
                let ghost before = works@;
                works.push(w);
                assert(works_view(works@).drop_last() =~= works_view(before));
            },
            None => {},
        }
        i += 1;
    }
    assert(items@.take(items@.len() as int) =~= items@);
    assert(extras@.take(extras@.len() as int) =~= extras@);
    let next: Option<String> = match data.get("nextCursor") {
        Some(JsonValue::String(t)) => Some(trim_str(t.as_str())),
        Some(JsonValue::Number(n)) => Some(n.to_text()),
        _ => None,
    };
    let next = match next {
        Some(t) => if !t.as_str().is_empty() && !str_eq(t.as_str(), "no_more") { Some(t) } else { None },
        None => None,
    };
    let has_more = next.is_some();
    Ok(ChannelWorksPage {
        account_id: owned(account_id),
        platform_id: owned("kuaishou"),
        page_key: trim_str(page_key),
        work_type: Some(owned("video")),
        next_page_key: next,
        has_more,
        works,
        updated_at: Some(now),
        sync_status: owned("synced"),
        error: None,
    })
}

/// What a WeChat Channels work needs besides its item: its full play rate
/// and average play time as shown, and its pin status, read from the item's
/// numbers.
pub type WxWorkExtras = (Option<String>, Option<String>, Option<i64>);

/// The works made of WeChat Channels items with their extras, in order,
/// leaving out the items that cannot be read.
pub open spec fn wx_works(items: Seq<JsonValue>, extras: Seq<WxWorkExtras>, account_id: Seq<char>, kind: WxWorkKind) -> Seq<WorkView>
    decreases items.len(),
{
    if items.len() == 0 {
        seq![]
    } else {
        let rest = wx_works(items.drop_last(), extras.drop_last(), account_id, kind);
        let e = extras.last();
        match wx_work_spec(items.last(), account_id, kind, opt_string_view(e.0), opt_string_view(e.1), e.2) {
            Some(w) => rest.push(w),
            None => rest,
        }
    }
}

/// The works listed by a WeChat Channels post list response.
pub open spec fn wx_items(value: JsonValue) -> Seq<JsonValue> {
    match response_data_spec(value) {
        Some(d) => list_of(d, seq!["list", "feedList", "objectList", "items"]),
        None => list_of(value, seq!["list", "feedList", "objectList", "items"]),
    }
}

/// The works listed by a WeChat Channels post list response.
pub fn wx_list_items(value: &JsonValue) -> (r: Vec<&JsonValue>)
    ensures
        refs_view(r@) == wx_items(*value),
{
    let keys: [&str; 4] = ["list", "feedList", "objectList", "items"];
    assert(keys@ =~= seq!["list", "feedList", "objectList", "items"]);
    match response_data(value) {
        Some(d) => first_list(d, &keys),
        None => first_list(value, &keys),
    }
}

/// Whether more WeChat Channels works follow page `page`: while fewer than
/// the total were shown, else while the page was full.
pub open spec fn wx_more_spec(value: JsonValue, page: i64, page_size: i64, shown: nat) -> bool {
    match response_data_spec(value) {
        Some(d) => match count_deep(d, seq!["totalCount", "total_count", "total"]) {
            Some(t) => page * page_size < (if t <= i64::MAX { t as int } else { i64::MAX as int }),
            None => shown >= page_size,
        },
        None => shown >= page_size,
    }
}

/// Page `page` of a WeChat Channels account's works of one kind, read at
/// `now` from a post list response, each work with its extras (one per
/// listed item); the response's refusal otherwise.
pub fn wx_works_page(
    value: &JsonValue,
    account_id: &str,
    page_key: &str,
    kind: WxWorkKind,
    page: i64,
    page_size: i64,
    extras: &Vec<WxWorkExtras>,
    now: UtcTime,
) -> (r: Result<ChannelWorksPage, String>)
    requires
        1 <= page_size <= 20,
        1 <= page <= i64::MAX / 20,
        extras@.len() == wx_items(*value).len(),
    ensures
        match r {
            Err(e) => wx_success_spec(*value, "视频号作品列表同步失败"@) == Err::<(), Seq<char>>(e@),
            Ok(p) => {
                let works = wx_works(wx_items(*value), extras@, account_id@, kind);
                let more = wx_more_spec(*value, page, page_size, works.len());
                &&& wx_success_spec(*value, "视频号作品列表同步失败"@) is Ok
                &&& works_view(p.works@) == works
                &&& p.account_id@ == account_id@
                &&& p.platform_id@ == "wechat-channels"@
                &&& p.page_key@ == page_key@
                &&& opt_string_view(p.work_type) == Some(if kind == WxWorkKind::Video { "video"@ } else { "article"@ })
                &&& p.has_more == more
                &&& opt_string_view(p.next_page_key) == (if more { Some(dec_signed(page + 1)) } else { None })
                &&& p.updated_at == Some(now)
                &&& p.sync_status@ == "synced"@
                &&& p.error is None
            },
        },
{
    match ensure_wx_success(value, "视频号作品列表同步失败") {
        Err(e) => return Err(e),
        Ok(()) => {},
    }
    let items = wx_list_items(value);
    let mut works: Vec<ChannelContentWork> = Vec::new();
    let mut i: usize = 0;
    while i < items.len()
        invariant
            i <= items@.len(),
            refs_view(items@) == wx_items(*value),
            extras@.len() == items@.len(),
            works_view(works@) == wx_works(refs_view(items@).take(i as int), extras@.take(i as int), account_id@, kind),
        decreases items@.len() - i,
    {
        assert(refs_view(items@).take(i + 1).drop_last() =~= refs_view(items@).take(i as int));
        assert(extras@.take(i + 1).drop_last() =~= extras@.take(i as int));
        assert(refs_view(items@).take(i + 1).last() == *items@[i as int]);
        let (rate, time, sticky) = &extras[i];
        let rate_copy = match rate { Some(t) => Some(t.clone()), None => None };
        let time_copy = match time { Some(t) => Some(t.clone()), None => None };
        let parsed = parse_wx_work(items[i], account_id, kind, rate_copy, time_copy, *sticky);
        match parsed {
            Some(w) => {
                let ghost before = works@;
                works.push(w);
                assert(works_view(works@) =~= works_view(before).push(works@.last()@));
            },
            None => {},
        }
        i += 1;
    }
    assert(refs_view(items@).take(items@.len() as int) =~= refs_view(items@));
    assert(extras@.take(extras@.len() as int) =~= extras@);
    let keys: [&str; 3] = ["totalCount", "total_count", "total"];
    assert(keys@ =~= seq!["totalCount", "total_count", "total"]);
    let total = match response_data(value) {
        Some(d) => first_count(d, &keys),
        None => None,
    };
    let has_more = match total {
        Some(t) => {
            let limit: i64 = if t <= i64::MAX as u64 { t as i64 } else { i64::MAX };
            assert(page * page_size <= i64::MAX) by (nonlinear_arith)
                requires 1 <= page_size <= 20, 1 <= page <= i64::MAX / 20;
            page * page_size < limit
        },
        None => works.len() >= page_size as usize,
    };
    Ok(ChannelWorksPage {
        account_id: owned(account_id),
        platform_id: owned("wechat-channels"),
        page_key: owned(page_key),
        work_type: Some(owned(kind.as_str())),
        next_page_key: if has_more { Some(i64_to_string(page + 1)) } else { None },
        has_more,
        works,
        updated_at: Some(now),
        sync_status: owned("synced"),
        error: None,
    })
}

} // verus!
