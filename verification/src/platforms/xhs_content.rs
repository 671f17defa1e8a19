//! Xiaohongshu's data board: its latest note with the figures of the note
//! data pages, its overviews by period, and the board as a whole.

use vstd::prelude::*;
use crate::domain::{
    ChannelAccountContent, ChannelAccountOverview, ChannelAccountProfileSnapshot, ChannelContentWork, ChannelWorkMetric,
    PluginAccountInfo, UtcTime, WorkView, either, opt_text, opt_work_view, strings_view, work_metric_view, work_metrics_view,
};
use crate::json::{JsonValue, jget, jis_object, opt_ref};
use crate::platforms::xiaohongshu::{
    build_xhs_overview, fans_count, first_signed_direct, first_unsigned_direct, net_fans_spec, note_collect_keys,
    note_comment_keys, note_like_keys, note_share_keys, parse_xhs_work, signed_direct, signed_keys, unsigned_direct,
    unsigned_keys, xhs_work_spec,
};
use crate::strs::{opt_string_view, owned};
use crate::text::{concat_str, push_str};
use crate::time::{first_time, time_keys, TimeStyle};

verus! {

/// A copy of a work.
pub fn copy_work(w: &ChannelContentWork) -> (r: ChannelContentWork)
    ensures
        r@ == w@,
{
    let mut metrics: Vec<ChannelWorkMetric> = Vec::new();
    let mut i: usize = 0;
    while i < w.metrics.len()
        invariant
            i <= w.metrics@.len(),
            work_metrics_view(metrics@) == work_metrics_view(w.metrics@.take(i as int)),
        decreases w.metrics@.len() - i,
    {
        let m = &w.metrics[i];
        let ghost before = metrics@;
        let copied = ChannelWorkMetric { key: m.key.clone(), label: m.label.clone(), value: copy_text(&m.value) };
        metrics.push(copied);
        assert(w.metrics@.take(i + 1) =~= w.metrics@.take(i as int).push(w.metrics@[i as int]));
        assert(work_metrics_view(metrics@) =~= work_metrics_view(before).push(work_metric_view(copied)));
        i += 1;
    }
    assert(w.metrics@.take(w.metrics@.len() as int) =~= w.metrics@);
    let mut badges: Vec<String> = Vec::new();
    let mut j: usize = 0;
    while j < w.badges.len()
        invariant
            j <= w.badges@.len(),
            strings_view(badges@) == strings_view(w.badges@.take(j as int)),
        decreases w.badges@.len() - j,
    {
        let ghost before = badges@;
        let b = w.badges[j].clone();
        badges.push(b);
        assert(w.badges@.take(j + 1) =~= w.badges@.take(j as int).push(w.badges@[j as int]));
        assert(strings_view(badges@) =~= strings_view(before).push(b@));
        j += 1;
    }
    assert(w.badges@.take(w.badges@.len() as int) =~= w.badges@);
    ChannelContentWork {
        id: w.id.clone(),
        platform_id: w.platform_id.clone(),
        account_id: w.account_id.clone(),
        title: w.title.clone(),
        cover_url: copy_text(&w.cover_url),
        link: copy_text(&w.link),
        published_at: w.published_at,
        status: w.status.clone(),
        views: w.views,
        impressions: w.impressions,
        likes: w.likes,
        collects: w.collects,
        comments: w.comments,
        shares: w.shares,
        cover_click_rate: copy_text(&w.cover_click_rate),
        avg_view_time: copy_text(&w.avg_view_time),
        gained_followers: w.gained_followers,
        data_updated_at: w.data_updated_at,
        metrics,
        badges,
        work_type: copy_text(&w.work_type),
    }
}

fn copy_text(t: &Option<String>) -> (r: Option<String>)
    ensures
        opt_text(r) == opt_text(*t),
{
    match t {
        Some(s) => Some(s.clone()),
        None => None,
    }
}

/// The member under `key` where it is an object.
pub open spec fn obj_child(d: JsonValue, key: Seq<char>) -> Option<JsonValue> {
    match jget(d, key) {
        Some(v) => if jis_object(v) { Some(v) } else { None },
        None => None,
    }
}

fn obj_child_exec<'a>(d: &'a JsonValue, key: &str) -> (r: Option<&'a JsonValue>)
    ensures
        opt_ref(r) == obj_child(*d, key@),
{
    match d.get(key) {
        Some(v) => if v.is_object() { Some(v) } else { None },
        None => None,
    }
}

/// Where a note data page's figures are looked for, in order: its
/// "result", "viewData", "fansData" and "note_info" objects, then the page.
pub open spec fn note_sources(d: JsonValue) -> Seq<Option<JsonValue>> {
    seq![obj_child(d, "result"@), obj_child(d, "viewData"@), obj_child(d, "fansData"@), obj_child(d, "note_info"@), Some(d)]
}

/// The first count under one of `keys` in the first source that has one.
pub open spec fn unsigned_in(values: Seq<Option<JsonValue>>, keys: Seq<&str>) -> Option<u64>
    decreases values.len(),
{
    if values.len() == 0 {
        None
    } else {
        match values[0] {
            Some(v) if unsigned_keys(v, keys) is Some => unsigned_keys(v, keys),
            _ => unsigned_in(values.drop_first(), keys),
        }
    }
}

/// The first signed count under one of `keys` in the first source that
/// has one.
pub open spec fn signed_in(values: Seq<Option<JsonValue>>, keys: Seq<&str>) -> Option<i64>
    decreases values.len(),
{
    if values.len() == 0 {
        None
    } else {
        match values[0] {
            Some(v) if signed_keys(v, keys) is Some => signed_keys(v, keys),
            _ => signed_in(values.drop_first(), keys),
        }
    }
}

proof fn lemma_direct_in(values: Seq<Option<&JsonValue>>, keys: Seq<&str>)
    ensures
        unsigned_direct(values, keys) == unsigned_in(values.map_values(|x: Option<&JsonValue>| opt_ref(x)), keys),
        signed_direct(values, keys) == signed_in(values.map_values(|x: Option<&JsonValue>| opt_ref(x)), keys),
    decreases values.len(),
{
    if values.len() > 0 {
        lemma_direct_in(values.drop_first(), keys);
        assert(values.drop_first().map_values(|x: Option<&JsonValue>| opt_ref(x))
            =~= values.map_values(|x: Option<&JsonValue>| opt_ref(x)).drop_first());
    }
}

pub open spec fn detail_impression_keys() -> Seq<&'static str> {
    seq!["implCount", "impl_count", "impCount", "imp_count", "exposureCount", "exposure_count"]
}

pub open spec fn detail_view_keys() -> Seq<&'static str> {
    seq!["viewCount", "view_count", "views"]
}

pub open spec fn detail_gained_keys() -> Seq<&'static str> {
    seq!["riseFansCount", "rise_fans_count", "followFromDiscovery", "netRiseFansCount"]
}

pub open spec fn detail_updated_keys() -> Seq<&'static str> {
    seq![
        "basicDataLastUpdateTime", "analyseInfosLastUpdateTime", "dataLastUpdateTime", "data_update_time", "dataUpdateTime",
        "lastUpdateTime", "basic_data_last_update_time", "analyse_infos_last_update_time", "data_last_update_time", "end_time",
    ]
}

/// The cover click rate and average view time a note data page gives, as
/// shown: read from its decimals by the caller.
pub type NoteRateTexts = (Option<String>, Option<String>);

pub open spec fn rate_view(t: NoteRateTexts) -> (Option<Seq<char>>, Option<Seq<char>>) {
    (opt_string_view(t.0), opt_string_view(t.1))
}

/// A work given the figures of a note data page: each one the page has
/// replaces the work's.
pub open spec fn note_applied(w: WorkView, detail: Option<JsonValue>, rates: (Option<Seq<char>>, Option<Seq<char>>)) -> WorkView {
    match detail {
        None => w,
        Some(d) => {
            let src = note_sources(d);
            WorkView {
                impressions: either(unsigned_in(src, detail_impression_keys()), w.impressions),
                views: either(unsigned_in(src, detail_view_keys()), w.views),
                likes: either(unsigned_in(src, note_like_keys()), w.likes),
                comments: either(unsigned_in(src, note_comment_keys()), w.comments),
                collects: either(unsigned_in(src, note_collect_keys()), w.collects),
                shares: either(unsigned_in(src, note_share_keys()), w.shares),
                cover_click_rate: either(rates.0, w.cover_click_rate),
                avg_view_time: either(rates.1, w.avg_view_time),
                gained_followers: either(signed_in(src, detail_gained_keys()), w.gained_followers),
                data_updated_at: either(time_keys(d, detail_updated_keys(), TimeStyle::Xiaohongshu), w.data_updated_at),
                ..w
            }
        },
    }
}

fn take_if_some<T>(target: &mut Option<T>, value: Option<T>)
    ensures
        *final(target) == either(value, *old(target)),
{
    if value.is_some() {
        *target = value;
    }
}

fn take_text_if_some(target: &mut Option<String>, value: Option<String>)
    ensures
        opt_text(*final(target)) == either(opt_text(value), opt_text(*old(target))),
{
    if value.is_some() {
        *target = value;
    }
}

/// Gives a work the figures of a note data page; the cover click rate and
/// average view time come with it, as shown.
pub fn apply_note_base_to_work(work: &mut ChannelContentWork, detail: Option<&JsonValue>, cover_click_rate: Option<String>, avg_view_time: Option<String>)
    ensures
        final(work)@ == note_applied(old(work)@, opt_ref(detail), (opt_string_view(cover_click_rate), opt_string_view(avg_view_time))),
{
    let d = match detail {
        Some(d) => d,
        None => return,
    };
    let values: [Option<&JsonValue>; 5] = [
        obj_child_exec(d, "result"),
        obj_child_exec(d, "viewData"),
        obj_child_exec(d, "fansData"),
        obj_child_exec(d, "note_info"),
        Some(d),
    ];
    proof {
        lemma_direct_in(values@, detail_impression_keys());
        lemma_direct_in(values@, detail_view_keys());
        lemma_direct_in(values@, note_like_keys());
        lemma_direct_in(values@, note_comment_keys());
        lemma_direct_in(values@, note_collect_keys());
        lemma_direct_in(values@, note_share_keys());
        lemma_direct_in(values@, detail_gained_keys());
        assert(values@.map_values(|x: Option<&JsonValue>| opt_ref(x)) =~= note_sources(*d));
    }
    let impression_keys: [&str; 6] = ["implCount", "impl_count", "impCount", "imp_count", "exposureCount", "exposure_count"];
    assert(impression_keys@ =~= detail_impression_keys());
    let view_keys: [&str; 3] = ["viewCount", "view_count", "views"];
    assert(view_keys@ =~= detail_view_keys());
    let like_keys: [&str; 5] = ["likes", "like_count", "likeCount", "liked_count", "likedCount"];
    assert(like_keys@ =~= note_like_keys());
    let comment_keys: [&str; 4] = ["comments_count", "comment_count", "commentCount", "comments"];
    assert(comment_keys@ =~= note_comment_keys());
    let collect_keys: [&str; 6] = ["collected_count", "collect_count", "collectCount", "collects", "fav_count", "favCount"];
    assert(collect_keys@ =~= note_collect_keys());
    let share_keys: [&str; 4] = ["shared_count", "share_count", "shareCount", "shares"];
    assert(share_keys@ =~= note_share_keys());
    let gained_keys: [&str; 4] = ["riseFansCount", "rise_fans_count", "followFromDiscovery", "netRiseFansCount"];
    assert(gained_keys@ =~= detail_gained_keys());
    let updated_keys: [&str; 10] = [
        "basicDataLastUpdateTime", "analyseInfosLastUpdateTime", "dataLastUpdateTime", "data_update_time", "dataUpdateTime",
        "lastUpdateTime", "basic_data_last_update_time", "analyse_infos_last_update_time", "data_last_update_time", "end_time",
    ];
    assert(updated_keys@ =~= detail_updated_keys());
    take_if_some(&mut work.impressions, first_unsigned_direct(&values, &impression_keys));
    take_if_some(&mut work.views, first_unsigned_direct(&values, &view_keys));
    take_if_some(&mut work.likes, first_unsigned_direct(&values, &like_keys));
    take_if_some(&mut work.comments, first_unsigned_direct(&values, &comment_keys));
    take_if_some(&mut work.collects, first_unsigned_direct(&values, &collect_keys));
    take_if_some(&mut work.shares, first_unsigned_direct(&values, &share_keys));
    take_text_if_some(&mut work.cover_click_rate, cover_click_rate);
    take_text_if_some(&mut work.avg_view_time, avg_view_time);
    take_if_some(&mut work.gained_followers, first_signed_direct(&values, &gained_keys));
    take_if_some(&mut work.data_updated_at, first_time(d, &updated_keys, TimeStyle::Xiaohongshu));
}

/// The member under `key` of an optional object.
pub open spec fn detail_at(d: Option<JsonValue>, key: Seq<char>) -> Option<JsonValue> {
    match d {
        Some(x) => jget(x, key),
        None => None,
    }
}

fn detail_at_exec<'a>(d: Option<&'a JsonValue>, key: &str) -> (r: Option<&'a JsonValue>)
    ensures
        opt_ref(r) == detail_at(opt_ref(d), key@),
{
    match d {
        Some(x) => x.get(key),
        None => None,
    }
}

pub open spec fn texts_view(t: NoteRateTexts) -> (Option<Seq<char>>, Option<Seq<char>>) {
    rate_view(t)
}

/// The latest note three ways: as published, with the figures of the
/// latest-note data and of its base page, and then with those of its 7-day
/// and of its 30-day data; none where the latest note cannot be read.
pub open spec fn latest_works_spec(
    info: Option<JsonValue>,
    latest: Option<JsonValue>,
    base: Option<JsonValue>,
    detail: Option<JsonValue>,
    account_id: Seq<char>,
    rates: Seq<(Option<Seq<char>>, Option<Seq<char>>)>,
) -> (Option<WorkView>, Option<WorkView>, Option<WorkView>) {
    let w0 = match info {
        Some(v) => xhs_work_spec(v, account_id, "latest"@),
        None => None,
    };
    match w0 {
        None => (None, None, None),
        Some(w) => {
            let w1 = note_applied(note_applied(w, latest, rates[0]), base, rates[1]);
            (
                Some(w1),
                Some(note_applied(w1, detail_at(detail, "seven"@), rates[2])),
                Some(note_applied(w1, detail_at(detail, "thirty"@), rates[3])),
            )
        },
    }
}

/// The latest note of a Xiaohongshu account three ways, each data page
/// coming with its cover click rate and average view time as shown.
pub fn xhs_latest_works(
    info: Option<&JsonValue>,
    latest: Option<&JsonValue>,
    base: Option<&JsonValue>,
    detail: Option<&JsonValue>,
    account_id: &str,
    latest_rates: NoteRateTexts,
    base_rates: NoteRateTexts,
    seven_rates: NoteRateTexts,
    thirty_rates: NoteRateTexts,
) -> (r: (Option<ChannelContentWork>, Option<ChannelContentWork>, Option<ChannelContentWork>))
    ensures
        (opt_work_view(r.0), opt_work_view(r.1), opt_work_view(r.2)) == latest_works_spec(opt_ref(info), opt_ref(latest), opt_ref(base),
            opt_ref(detail), account_id@, seq![rate_view(latest_rates), rate_view(base_rates), rate_view(seven_rates), rate_view(thirty_rates)]),
{
    let parsed = match info {
        Some(v) => parse_xhs_work(v, account_id, "latest"),
        None => None,
    };
    let mut w = match parsed {
        Some(w) => w,
        None => return (None, None, None),
    };
    apply_note_base_to_work(&mut w, latest, latest_rates.0, latest_rates.1);
    apply_note_base_to_work(&mut w, base, base_rates.0, base_rates.1);
    let mut seven = copy_work(&w);
    apply_note_base_to_work(&mut seven, detail_at_exec(detail, "seven"), seven_rates.0, seven_rates.1);
    let mut thirty = copy_work(&w);
    apply_note_base_to_work(&mut thirty, detail_at_exec(detail, "thirty"), thirty_rates.0, thirty_rates.1);
    (Some(w), Some(seven), Some(thirty))
}

/// The key a period's figures are kept under: "thirty" for 30 days,
/// "seven" otherwise.
pub open spec fn period_key(period_days: u16) -> Seq<char> {
    if period_days == 30 { "thirty"@ } else { "seven"@ }
}

/// What `build_xhs_overview` makes of a period's note and fan summaries.
pub open spec fn fallback_overview_ok(o: ChannelAccountOverview, account_id: Seq<char>, period_days: u16, note: Option<JsonValue>,
    fans: Option<JsonValue>, now: UtcTime) -> bool {
    &&& o.account_id@ == account_id
    &&& o.platform_id@ == "xiaohongshu"@
    &&& o.period_days == period_days
    &&& o.metrics@.len() == crate::platforms::xiaohongshu::fallback_specs().len()
    &&& forall|i: int| 0 <= i < o.metrics@.len() ==> crate::platforms::xiaohongshu::fallback_metric_ok(#[trigger] o.metrics@[i], note,
        crate::platforms::xiaohongshu::fallback_specs()[i], fans_count(fans, "rise_fans_count"@), fans_count(fans, "leave_fans_count"@),
        crate::platforms::xiaohongshu::net_fans_i64(fans))
    &&& opt_text(o.summary) == crate::platforms::xiaohongshu::xhs_note_summary(note)
    &&& o.updated_at == Some(now)
    &&& o.sync_status@ == "synced"@
    &&& o.error is None
}

/// The net change of followers of a period's fan summary fits an `i64`.
pub open spec fn net_fans_fit(fans: Option<JsonValue>) -> bool {
    match net_fans_spec(fans_count(fans, "rise_fans_count"@), fans_count(fans, "leave_fans_count"@)) {
        Some(n) => i64::MIN <= n <= i64::MAX,
        None => true,
    }
}

/// A period's overview: the one read from the account's data-center
/// figures where they have the period (`datacenter`, made from them by the
/// caller), else the one the note and fan summaries give.
pub fn xhs_period_overview(
    account_id: &str,
    period_days: u16,
    account_base: Option<&JsonValue>,
    note_detail: Option<&JsonValue>,
    fans_overall: Option<&JsonValue>,
    datacenter: Option<ChannelAccountOverview>,
    now: UtcTime,
) -> (r: ChannelAccountOverview)
    requires
        (detail_at(opt_ref(account_base), period_key(period_days)) is Some) == (datacenter is Some),
        datacenter is None ==> net_fans_fit(detail_at(opt_ref(fans_overall), period_key(period_days))),
        datacenter matches Some(d) ==> d.period_days == period_days,
    ensures
        r.period_days == period_days,
        match datacenter {
            Some(d) => r == d,
            None => fallback_overview_ok(r, account_id@, period_days, detail_at(opt_ref(note_detail), period_key(period_days)),
                detail_at(opt_ref(fans_overall), period_key(period_days)), now),
        },
{
    match datacenter {
        Some(d) => d,
        None => {
            let key = if period_days == 30 { "thirty" } else { "seven" };
            build_xhs_overview(account_id, period_days, detail_at_exec(note_detail, key), detail_at_exec(fans_overall, key), now)
        },
    }
}

/// The message of a Xiaohongshu board read that returned nothing: the
/// failures met, or that nothing came back.
pub open spec fn no_data_message(errors: Seq<Seq<char>>) -> Seq<char> {
    if errors.len() == 0 {
        "小红书创作中心没有返回可用数据"@
    } else {
        crate::platforms::cookies::join(errors, "；"@)
    }
}

/// The Xiaohongshu board read at `now`: the profile's counts, the 7-day
/// and 30-day overviews, and the latest note three ways; refused with
/// `no_data_message` when neither the account figures, the latest note nor
/// its data came back.
pub fn xhs_account_content(
    account_id: &str,
    profile: &PluginAccountInfo,
    account_base: Option<&JsonValue>,
    latest_note: Option<&JsonValue>,
    note_detail: Option<&JsonValue>,
    fans_overall: Option<&JsonValue>,
    sync_errors: &Vec<String>,
    latest_works: (Option<ChannelContentWork>, Option<ChannelContentWork>, Option<ChannelContentWork>),
    datacenter_seven: Option<ChannelAccountOverview>,
    datacenter_thirty: Option<ChannelAccountOverview>,
    now: UtcTime,
) -> (r: Result<ChannelAccountContent, String>)
    requires
        (detail_at(opt_ref(account_base), "seven"@) is Some) == (datacenter_seven is Some),
        (detail_at(opt_ref(account_base), "thirty"@) is Some) == (datacenter_thirty is Some),
        datacenter_seven is None ==> net_fans_fit(detail_at(opt_ref(fans_overall), "seven"@)),
        datacenter_thirty is None ==> net_fans_fit(detail_at(opt_ref(fans_overall), "thirty"@)),
        datacenter_seven matches Some(d) ==> d.period_days == 7,
        datacenter_thirty matches Some(d) ==> d.period_days == 30,
    ensures
        match r {
            Err(e) => account_base is None && latest_note is None && note_detail is None && e@ == no_data_message(strings_view(sync_errors@)),
            Ok(c) => {
                &&& !(account_base is None && latest_note is None && note_detail is None)
                &&& c.account_id@ == account_id@
                &&& c.platform_id@ == "xiaohongshu"@
                &&& (c.profile matches Some(s) && {
                    &&& s.account_id@ == account_id@
                    &&& s.platform_id@ == "xiaohongshu"@
                    &&& s.followers == profile.fans_count
                    &&& s.following == profile.following_count
                    &&& s.likes == profile.like_count
                    &&& s.last_sync_at == Some(now)
                    &&& s.updated_at == Some(now)
                    &&& s.sync_status@ == "synced"@
                    &&& s.error is None
                })
                &&& c.overview_yesterday is None
                &&& (c.overview_seven matches Some(o) && o.period_days == 7 && match datacenter_seven {
                    Some(d) => o == d,
                    None => fallback_overview_ok(o, account_id@, 7, detail_at(opt_ref(note_detail), "seven"@), detail_at(opt_ref(fans_overall), "seven"@), now),
                })
                &&& (c.overview_thirty matches Some(o) && o.period_days == 30 && match datacenter_thirty {
                    Some(d) => o == d,
                    None => fallback_overview_ok(o, account_id@, 30, detail_at(opt_ref(note_detail), "thirty"@), detail_at(opt_ref(fans_overall), "thirty"@), now),
                })
                &&& c.overview_ninety is None
                &&& c.overview_history is None
                &&& c.overview_total is None
                &&& c.latest_work == latest_works.0
                &&& c.latest_work_seven == latest_works.1
                &&& c.latest_work_thirty == latest_works.2
                &&& c.sync_status@ == "synced"@
                &&& c.error is None
            },
        },
{
    if account_base.is_none() && latest_note.is_none() && note_detail.is_none() {
        if sync_errors.len() == 0 {
            return Err(owned("小红书创作中心没有返回可用数据"));
        }
        return Err(crate::oauth::join_strings(sync_errors, "；"));
    }
    proof {
        reveal_strlit("seven");
        reveal_strlit("thirty");
    }
    let seven = xhs_period_overview(account_id, 7, account_base, note_detail, fans_overall, datacenter_seven, now);
    let thirty = xhs_period_overview(account_id, 30, account_base, note_detail, fans_overall, datacenter_thirty, now);
    let (latest_work, latest_work_seven, latest_work_thirty) = latest_works;
    Ok(ChannelAccountContent {
        account_id: owned(account_id),
        platform_id: owned("xiaohongshu"),
        profile: Some(ChannelAccountProfileSnapshot {
            account_id: owned(account_id),
            platform_id: owned("xiaohongshu"),
            followers: profile.fans_count,
            following: profile.following_count,
            likes: profile.like_count,
            last_sync_at: Some(now),
            updated_at: Some(now),
            sync_status: owned("synced"),
            error: None,
        }),
        overview_yesterday: None,
        overview_seven: Some(seven),
        overview_thirty: Some(thirty),
        overview_ninety: None,
        overview_history: None,
        overview_total: None,
        latest_work,
        latest_work_seven,
        latest_work_thirty,
        sync_status: owned("synced"),
        error: None,
    })
}

} // verus!
