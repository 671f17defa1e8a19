//! What the readers of platform replies, the refresh of an account, the
//! sign-in task status and the board cache take from their inputs, stated
//! over the JSON lookups and the stored account fields themselves.

use vstd::prelude::*;
use crate::domain::{AccountStatus, ChannelAccountContent, PluginAccountInfo, UtcTime};
use crate::json::{JsonNumber, JsonValue, jget};
use crate::json_ext::count_deep;
use crate::storage::AccountView;

verus! {

/// A Xiaohongshu note's comment count is the count found under the comment
/// keys ("comments_count", "comment_count", "commentCount", "comments") and
/// its share count the one under the share keys; neither is read from the
/// other's keys.
pub proof fn law_xhs_note_counts(v: JsonValue, account_id: Seq<char>, source: Seq<char>)
    ensures
        crate::platforms::xiaohongshu::xhs_work_spec(v, account_id, source) matches Some(w) ==> {
            &&& w.comments == count_deep(v, seq!["comments_count", "comment_count", "commentCount", "comments"])
            &&& w.shares == count_deep(v, seq!["shared_count", "share_count", "shareCount", "shares"])
            &&& w.likes == count_deep(v, seq!["likes", "like_count", "likeCount", "liked_count", "likedCount"])
            &&& w.views == count_deep(v, seq!["view_count", "viewCount", "views", "read_count", "readCount"])
            &&& w.impressions == count_deep(v, seq!["impl_count", "exposure_count", "exposureCount", "impression_count", "impressionCount"])
            &&& w.collects == count_deep(v, seq!["collected_count", "collect_count", "collectCount", "collects", "fav_count", "favCount"])
        },
{
    assert(crate::platforms::xiaohongshu::note_view_keys() =~= seq!["view_count", "viewCount", "views", "read_count", "readCount"]);
    assert(crate::platforms::xiaohongshu::note_impression_keys() =~= seq!["impl_count", "exposure_count", "exposureCount", "impression_count", "impressionCount"]);
    assert(crate::platforms::xiaohongshu::note_collect_keys() =~= seq!["collected_count", "collect_count", "collectCount", "collects", "fav_count", "favCount"]);
    assert(crate::platforms::xiaohongshu::note_comment_keys() =~= seq!["comments_count", "comment_count", "commentCount", "comments"]);
    assert(crate::platforms::xiaohongshu::note_share_keys() =~= seq!["shared_count", "share_count", "shareCount", "shares"]);
    assert(crate::platforms::xiaohongshu::note_like_keys() =~= seq!["likes", "like_count", "likeCount", "liked_count", "likedCount"]);
}

/// A Douyin profile's counts are read, each from its own keys, first in the
/// verification info (or the user profile) and then anywhere in the
/// profile reply: likes from the like keys, following from the following
/// keys, followers from the follower keys.
pub proof fn law_douyin_profile_counts(pc_user: JsonValue, user: JsonValue, cookie_header: &str, login_cookie: Seq<char>)
    ensures
        crate::platforms::douyin::douyin_account_spec(pc_user, user, cookie_header, login_cookie) matches Ok(p) ==> {
            let info = match jget(user, "douyin_user_verify_info"@) {
                Some(x) => Some(x),
                None => jget(user, "user_profile"@),
            };
            let like_keys = seq!["total_favorited", "totalFavorited", "favorited_count", "favoritedCount", "liked_count", "likedCount",
                "like_count", "likeCount", "digg_count", "diggCount", "total_like_count", "totalLikeCount"];
            let following_keys = seq!["following_count", "followingCount", "follow_count", "followCount", "follow_num", "followNum",
                "following", "followings", "attention_count", "attentionCount"];
            let fan_keys = seq!["fans_count", "fansCount", "fans", "fan_count", "fanCount", "follower_count", "followerCount", "followers",
                "followers_count", "followersCount", "displayFans", "fansDisplay"];
            let in_info = |keys: Seq<&str>| match info { Some(x) => count_deep(x, keys), None => None };
            &&& p.like_count == match in_info(like_keys) { Some(n) => Some(n), None => count_deep(user, like_keys) }
            &&& p.following_count == match in_info(following_keys) { Some(n) => Some(n), None => count_deep(user, following_keys) }
            &&& p.fans_count == match in_info(fan_keys) { Some(n) => Some(n), None => count_deep(user, fan_keys) }
        },
{
    assert(crate::platforms::douyin::dy_follower_keys() =~= seq!["fans_count", "fansCount", "fans", "fan_count", "fanCount", "follower_count",
        "followerCount", "followers", "followers_count", "followersCount", "displayFans", "fansDisplay"]);
    assert(crate::platforms::douyin::dy_like_keys() =~= seq!["total_favorited", "totalFavorited", "favorited_count", "favoritedCount",
        "liked_count", "likedCount", "like_count", "likeCount", "digg_count", "diggCount", "total_like_count", "totalLikeCount"]);
    assert(crate::platforms::douyin::dy_following_keys() =~= seq!["following_count", "followingCount", "follow_count", "followCount",
        "follow_num", "followNum", "following", "followings", "attention_count", "attentionCount"]);
}

/// Refreshing an account from a session check whose profile has a count
/// takes that count: followers, following and likes become the profile's
/// where it has them and stay as they were where it has none; the account
/// becomes active, synced at `now`.
pub proof fn law_refresh_takes_profile_counts(a: AccountView, p: PluginAccountInfo, now: UtcTime)
    ensures
        ({
            let r = crate::refresh::refreshed_by_status(a, Some(p), now);
            &&& (p.like_count matches Some(n) ==> r.likes == Some(n))
            &&& (p.like_count is None ==> r.likes == a.likes)
            &&& (p.fans_count matches Some(n) ==> r.followers == Some(n))
            &&& (p.fans_count is None ==> r.followers == a.followers)
            &&& (p.following_count matches Some(n) ==> r.following == Some(n))
            &&& (p.following_count is None ==> r.following == a.following)
            &&& (crate::text::trim(p.avatar@).len() > 0 ==> r.avatar == p.avatar@)
            &&& (crate::text::trim(p.avatar@).len() == 0 ==> r.avatar == a.avatar)
            &&& (crate::text::trim(p.nickname@).len() == 0 ==> r.nickname == a.nickname)
            &&& r.status == AccountStatus::Active
            &&& r.last_sync_at == Some(now)
            &&& r.updated_at == now
            &&& r.id == a.id
            &&& r.platform_id == a.platform_id
            &&& r.created_at == a.created_at
        }),
{
}

/// A check without a profile changes no count of the account.
pub proof fn law_refresh_without_profile_keeps_counts(a: AccountView, now: UtcTime)
    ensures
        crate::refresh::refreshed_by_status(a, None, now).likes == a.likes,
        crate::refresh::refreshed_by_status(a, None, now).followers == a.followers,
        crate::refresh::refreshed_by_status(a, None, now).following == a.following,
{
}

/// A sign-in task only ever resolves to an account with the task's id or,
/// while it is pending, an account of the task's own platform added no
/// earlier than the task started: an account of another platform, with
/// another id, is never the task's.
pub proof fn law_task_account_platform(a: AccountView, task_id: Seq<char>, platform_id: Seq<char>, started: UtcTime)
    ensures
        crate::auth_task::task_account(a, task_id, Some((platform_id, started)))
            ==> a.id == task_id || (a.platform_id == platform_id && crate::auth_task::utc_le(started, a.created_at)),
        a.id != task_id && a.platform_id != platform_id ==> !crate::auth_task::task_account(a, task_id, Some((platform_id, started))),
        crate::auth_task::task_account(a, task_id, None) ==> a.id == task_id,
{
}

/// A Douyin board whose latest work is an image post (type "article",
/// "image" or "note" — "article" is what the Douyin work reader gives
/// image posts), published less than 35 days before `now` or at no known
/// time, with a view count and an image-post detail metric
/// ("descriptionSpreadRate" or "imageAvgViewCount"), is current.
pub proof fn law_douyin_image_post_board_current(c: ChannelAccountContent, now: UtcTime, k: int)
    requires
        c.latest_work matches Some(w) && {
            &&& w.work_type matches Some(t) && (t@ == "article"@ || t@ == "image"@ || t@ == "note"@)
            &&& w.views is Some
            &&& (w.published_at matches Some(p) ==> crate::sync::elapsed_ns(now, p) <= 35 * 86400 * 1_000_000_000)
            &&& 0 <= k < w.metrics@.len()
            &&& (w.metrics@[k].key@ == "imageAvgViewCount"@ || w.metrics@[k].key@ == "descriptionSpreadRate"@)
        },
    ensures
        crate::sync::douyin_content_current_spec(c, now),
{
    let w = c.latest_work->0;
    let t = w.work_type->0;
    reveal_strlit("video");
    reveal_strlit("article");
    reveal_strlit("image");
    reveal_strlit("note");
    assert(t@ != "video"@) by {
        if t@ == "article"@ { assert(t@[0] != "video"@[0]); }
        if t@ == "image"@ { assert(t@[0] != "video"@[0]); }
        if t@ == "note"@ { assert(t@[0] != "video"@[0]); }
    }
    let keys = crate::sync::douyin_article_detail();
    if w.metrics@[k].key@ == "imageAvgViewCount"@ {
        assert(crate::sync::has_metric(w, keys[1]));
    } else {
        assert(crate::sync::has_metric(w, keys[0]));
    }
}


proof fn lemma_count_at_key_found(es: Seq<(String, JsonValue)>, key: Seq<char>, keys: Seq<&str>, i: int)
    requires
        0 <= i < es.len(),
        es[i].0@ == key,
        forall|j: int| 0 <= j < i ==> (#[trigger] es[j]).0@ != key,
    ensures
        crate::json_ext::count_at_key(es, key, keys) == crate::json_ext::count_value(es[i].1, keys),
    decreases i,
{
    if i > 0 {
        assert(es[0].0@ != key);
        assert forall|j: int| 0 <= j < i - 1 implies (#[trigger] es.drop_first()[j]).0@ != key by {
            assert(es.drop_first()[j] == es[j + 1]);
        }
        lemma_count_at_key_found(es.drop_first(), key, keys, i - 1);
    }
}

proof fn lemma_count_keys_absent(es: Seq<(String, JsonValue)>, ks: Seq<&str>, keys: Seq<&str>)
    requires
        forall|m: int, j: int| 0 <= m < ks.len() && 0 <= j < es.len() ==> (#[trigger] es[j]).0@ != (#[trigger] ks[m])@,
    ensures
        crate::json_ext::count_keys(es, ks, keys) is None,
    decreases ks.len(),
{
    if ks.len() > 0 {
        lemma_count_at_key_absent(es, ks[0]@, keys);
        assert forall|m: int, j: int| 0 <= m < ks.drop_first().len() && 0 <= j < es.len()
            implies (#[trigger] es[j]).0@ != (#[trigger] ks.drop_first()[m])@ by {
            assert(ks.drop_first()[m] == ks[m + 1]);
        }
        lemma_count_keys_absent(es, ks.drop_first(), keys);
    }
}

proof fn lemma_count_at_key_absent(es: Seq<(String, JsonValue)>, key: Seq<char>, keys: Seq<&str>)
    requires
        forall|j: int| 0 <= j < es.len() ==> (#[trigger] es[j]).0@ != key,
    ensures
        crate::json_ext::count_at_key(es, key, keys) is None,
    decreases es.len(),
{
    if es.len() > 0 {
        assert forall|j: int| 0 <= j < es.drop_first().len() implies (#[trigger] es.drop_first()[j]).0@ != key by {
            assert(es.drop_first()[j] == es[j + 1]);
        }
        lemma_count_at_key_absent(es.drop_first(), key, keys);
    }
}

/// No value is an object or an array: nothing is nested.
pub open spec fn flat_entries(es: Seq<(String, JsonValue)>) -> bool {
    forall|j: int| 0 <= j < es.len() ==> !((#[trigger] es[j]).1 is Object) && !(es[j].1 is Array)
}

proof fn lemma_count_entries_flat(es: Seq<(String, JsonValue)>, keys: Seq<&str>)
    requires
        flat_entries(es),
    ensures
        crate::json_ext::count_entries(es, keys) is None,
    decreases es.len(),
{
    if es.len() > 0 {
        assert(!(es[0].1 is Object) && !(es[0].1 is Array));
        assert(crate::json_ext::count_deep(es[0].1, keys) is None);
        assert forall|j: int| 0 <= j < es.drop_first().len() implies
            !((#[trigger] es.drop_first()[j]).1 is Object) && !(es.drop_first()[j].1 is Array) by {
            assert(es.drop_first()[j] == es[j + 1]);
        }
        lemma_count_entries_flat(es.drop_first(), keys);
    }
}

/// The first entry of `es` under `key` holds the whole number `n`.
pub open spec fn first_entry_is(es: Seq<(String, JsonValue)>, key: Seq<char>, n: u64) -> bool {
    exists|i: int| 0 <= i < es.len() && (#[trigger] es[i]).0@ == key && es[i].1 == JsonValue::Number(JsonNumber::PosInt(n))
        && forall|j: int| 0 <= j < i ==> (#[trigger] es[j]).0@ != key
}

/// A note whose first "comments_count" member is the number `n` has `n`
/// comments, whatever else it holds.
pub proof fn law_xhs_comments_count_read(es: Vec<(String, JsonValue)>, n: u64, account_id: Seq<char>, source: Seq<char>)
    requires
        first_entry_is(es@, "comments_count"@, n),
    ensures
        crate::platforms::xiaohongshu::xhs_work_spec(JsonValue::Object(es), account_id, source) matches Some(w) ==> w.comments == Some(n),
{
    let i = choose|i: int| 0 <= i < es@.len() && (#[trigger] es@[i]).0@ == "comments_count"@
        && es@[i].1 == JsonValue::Number(JsonNumber::PosInt(n)) && forall|j: int| 0 <= j < i ==> (#[trigger] es@[j]).0@ != "comments_count"@;
    let keys = crate::platforms::xiaohongshu::note_comment_keys();
    lemma_count_at_key_found(es@, "comments_count"@, keys, i);
    assert(keys[0]@ == "comments_count"@);
}

/// A flat note with no member under a comment key has no comment count,
/// whatever share or like counts it holds.
pub proof fn law_xhs_no_comment_keys_no_comments(es: Vec<(String, JsonValue)>, account_id: Seq<char>, source: Seq<char>)
    requires
        flat_entries(es@),
        forall|j: int| 0 <= j < es@.len() ==> {
            let k = (#[trigger] es@[j]).0@;
            k != "comments_count"@ && k != "comment_count"@ && k != "commentCount"@ && k != "comments"@
        },
    ensures
        crate::platforms::xiaohongshu::xhs_work_spec(JsonValue::Object(es), account_id, source) matches Some(w) ==> w.comments is None,
{
    let keys = crate::platforms::xiaohongshu::note_comment_keys();
    assert forall|m: int, j: int| 0 <= m < keys.len() && 0 <= j < es@.len() implies (#[trigger] es@[j]).0@ != (#[trigger] keys[m])@ by {
        assert(keys[m]@ == "comments_count"@ || keys[m]@ == "comment_count"@ || keys[m]@ == "commentCount"@ || keys[m]@ == "comments"@);
    }
    lemma_count_keys_absent(es@, keys, keys);
    lemma_count_entries_flat(es@, keys);
}

/// A Douyin profile reply without verification info whose first
/// "total_favorited" member is the number `n` gives `n` likes, whatever
/// following or follower counts it holds.
pub proof fn law_douyin_total_favorited_read(pc_user: JsonValue, es: Vec<(String, JsonValue)>, n: u64, cookie_header: &str, login_cookie: Seq<char>)
    requires
        first_entry_is(es@, "total_favorited"@, n),
        jget(JsonValue::Object(es), "douyin_user_verify_info"@) is None,
        jget(JsonValue::Object(es), "user_profile"@) is None,
    ensures
        crate::platforms::douyin::douyin_account_spec(pc_user, JsonValue::Object(es), cookie_header, login_cookie) matches Ok(p)
            ==> p.like_count == Some(n),
{
    let i = choose|i: int| 0 <= i < es@.len() && (#[trigger] es@[i]).0@ == "total_favorited"@
        && es@[i].1 == JsonValue::Number(JsonNumber::PosInt(n)) && forall|j: int| 0 <= j < i ==> (#[trigger] es@[j]).0@ != "total_favorited"@;
    let keys = crate::platforms::douyin::dy_like_keys();
    lemma_count_at_key_found(es@, "total_favorited"@, keys, i);
    assert(keys[0]@ == "total_favorited"@);
}


/// A Douyin board is current only with a recent typed latest work that has
/// a view count: no latest work, no type, no view count, or a latest work
/// published 35 days or more before `now` makes it stale; so does a type
/// other than video or an image post.
pub proof fn law_douyin_board_stale(c: ChannelAccountContent, now: UtcTime)
    ensures
        crate::sync::douyin_content_current_spec(c, now) ==> (c.latest_work matches Some(w) && {
            &&& w.views is Some
            &&& (w.work_type matches Some(t) && (t@ == "video"@ || t@ == "article"@ || t@ == "image"@ || t@ == "note"@))
            &&& (w.published_at matches Some(p) ==> crate::sync::elapsed_ns(now, p) <= 35 * 86400 * 1_000_000_000)
        }),
{
}

/// A Douyin board whose latest work is a video is current only when the
/// video carries every one of its required detail metrics.
pub proof fn law_douyin_video_board_needs_metrics(c: ChannelAccountContent, now: UtcTime, key: Seq<char>)
    requires
        (c.latest_work matches Some(w) && (w.work_type matches Some(t) && t@ == "video"@)),
        key == "danmaku"@ || key == "avgViewSecond"@ || key == "completionRate"@ || key == "bounceRate"@
            || key == "completionRate5s"@ || key == "avgViewProportion"@ || key == "subscribe"@ || key == "subscribeRate"@
            || key == "unsubscribe"@ || key == "unsubscribeRate"@ || key == "dislike"@ || key == "dislikeRate"@,
    ensures
        crate::sync::douyin_content_current_spec(c, now) ==> crate::sync::has_metric(c.latest_work->0, key),
{
    let w = c.latest_work->0;
    let req = crate::sync::douyin_video_required();
    if crate::sync::douyin_content_current_spec(c, now) {
        let m: int = if key == "danmaku"@ { 0 } else if key == "avgViewSecond"@ { 1 } else if key == "completionRate"@ { 2 }
            else if key == "bounceRate"@ { 3 } else if key == "completionRate5s"@ { 4 } else if key == "avgViewProportion"@ { 5 }
            else if key == "subscribe"@ { 6 } else if key == "subscribeRate"@ { 7 } else if key == "unsubscribe"@ { 8 }
            else if key == "unsubscribeRate"@ { 9 } else if key == "dislike"@ { 10 } else { 11 };
        assert(req[m] == key);
        assert(crate::sync::has_metric(w, req[m]));
    }
}


/// A WeChat Channels post's counts are each read from their own keys:
/// views from the browse and play keys, likes, comments, favourites and
/// forwards from theirs.
pub proof fn law_wx_work_counts(v: JsonValue, account_id: Seq<char>, kind: crate::platforms::wechat_channels::WxWorkKind,
    rate: Option<Seq<char>>, time: Option<Seq<char>>, sticky: Option<i64>)
    ensures
        crate::platforms::wechat_channels::wx_work_spec(v, account_id, kind, rate, time, sticky) matches Some(w) ==> {
            &&& w.views == count_deep(v, seq!["browse", "browseCount", "readCount", "read_count", "playCount", "play_count", "views"])
            &&& w.likes == count_deep(v, seq!["like", "likeCount", "like_count", "likes"])
            &&& w.comments == count_deep(v, seq!["comment", "commentCount", "comment_count", "comments"])
            &&& w.collects == count_deep(v, seq!["favCount", "fav_count", "favoriteCount", "favorite_count", "collectCount", "collect_count"])
            &&& w.shares == count_deep(v, seq!["forwardCount", "forward_count", "share", "shareCount", "share_count", "shares"])
        },
{
    assert(crate::platforms::wechat_channels::wx_work_view_keys() =~= seq!["browse", "browseCount", "readCount", "read_count", "playCount", "play_count", "views"]);
    assert(crate::platforms::wechat_channels::wx_work_like_keys() =~= seq!["like", "likeCount", "like_count", "likes"]);
    assert(crate::platforms::wechat_channels::wx_work_comment_keys() =~= seq!["comment", "commentCount", "comment_count", "comments"]);
    assert(crate::platforms::wechat_channels::wx_work_collect_keys() =~= seq!["favCount", "fav_count", "favoriteCount", "favorite_count", "collectCount", "collect_count"]);
    assert(crate::platforms::wechat_channels::wx_work_share_keys() =~= seq!["forwardCount", "forward_count", "share", "shareCount", "share_count", "shares"]);
}

/// A WeChat Channels profile's counts are read from the finder user, each
/// from its own keys.
pub proof fn law_wx_profile_counts(v: JsonValue, login_cookie: Seq<char>)
    ensures
        crate::platforms::wechat_channels::wx_account_spec(v, login_cookie) matches Ok(p) ==> {
            let finder = crate::platforms::wechat_channels::wx_finder_user(v)->0;
            &&& p.fans_count == count_deep(finder, seq!["fans_count", "fansCount", "fans", "fan_count", "fanCount", "followers", "followers_count", "followersCount", "follower_count", "followerCount"])
            &&& p.following_count == count_deep(finder, seq!["following_count", "followingCount", "follow_count", "followCount", "follow_num", "followNum", "following", "followings", "attention_count", "attentionCount"])
            &&& p.like_count == count_deep(finder, seq!["like_count", "likeCount", "liked_count", "likedCount", "likes", "liked", "total_liked", "totalLiked"])
        },
{
    assert(crate::platforms::wechat_channels::wx_follower_keys() =~= seq!["fans_count", "fansCount", "fans", "fan_count", "fanCount", "followers", "followers_count", "followersCount", "follower_count", "followerCount"]);
    assert(crate::platforms::wechat_channels::wx_following_keys() =~= seq!["following_count", "followingCount", "follow_count", "followCount", "follow_num", "followNum", "following", "followings", "attention_count", "attentionCount"]);
    assert(crate::platforms::wechat_channels::wx_like_keys() =~= seq!["like_count", "likeCount", "liked_count", "likedCount", "likes", "liked", "total_liked", "totalLiked"]);
}

/// A Douyin work's counts are each read from their own keys.
pub proof fn law_douyin_work_counts(v: JsonValue, account_id: Seq<char>)
    ensures
        crate::platforms::douyin::douyin_work_spec(v, account_id) matches Some(w) ==> {
            &&& w.views == count_deep(v, seq!["play_count", "playCount", "play_cnt", "playCnt", "view_count", "viewCount"])
            &&& w.likes == count_deep(v, seq!["like_count", "likeCount", "like_cnt", "likeCnt", "digg_count", "diggCount"])
            &&& w.comments == count_deep(v, seq!["comment_count", "commentCount", "comment_cnt", "commentCnt"])
            &&& w.shares == count_deep(v, seq!["share_count", "shareCount", "share_cnt", "shareCnt"])
            &&& w.collects == count_deep(v, seq!["collect_count", "collectCount", "favorite_count", "favoriteCount"])
        },
{
    assert(crate::platforms::douyin::work_view_keys() =~= seq!["play_count", "playCount", "play_cnt", "playCnt", "view_count", "viewCount"]);
    assert(crate::platforms::douyin::work_like_keys() =~= seq!["like_count", "likeCount", "like_cnt", "likeCnt", "digg_count", "diggCount"]);
    assert(crate::platforms::douyin::work_comment_keys() =~= seq!["comment_count", "commentCount", "comment_cnt", "commentCnt"]);
    assert(crate::platforms::douyin::work_share_keys() =~= seq!["share_count", "shareCount", "share_cnt", "shareCnt"]);
    assert(crate::platforms::douyin::work_collect_keys() =~= seq!["collect_count", "collectCount", "favorite_count", "favoriteCount"]);
}


/// A Bilibili profile's counts are read from the reply's data, each from
/// its own keys.
pub proof fn law_bilibili_profile_counts(v: JsonValue, login_cookie: Seq<char>)
    ensures
        crate::platforms::bilibili::bili_nav_spec(v, login_cookie) matches Ok(p) ==> {
            let d = jget(v, "data"@)->0;
            &&& p.fans_count == count_deep(d, seq!["follower", "fans_count", "fansCount", "fans", "followers", "followers_count", "followersCount"])
            &&& p.following_count == count_deep(d, seq!["following", "following_count", "followingCount", "follow_count", "followCount", "followings", "attention_count", "attentionCount"])
            &&& p.like_count == count_deep(d, seq!["likes", "like_count", "likeCount", "liked_count", "likedCount"])
        },
{
    assert(crate::platforms::bilibili::bili_follower_keys() =~= seq!["follower", "fans_count", "fansCount", "fans", "followers", "followers_count", "followersCount"]);
    assert(crate::platforms::bilibili::bili_following_keys() =~= seq!["following", "following_count", "followingCount", "follow_count", "followCount", "followings", "attention_count", "attentionCount"]);
    assert(crate::platforms::bilibili::bili_like_keys() =~= seq!["likes", "like_count", "likeCount", "liked_count", "likedCount"]);
}

/// A Kuaishou creator profile's counts are read from the reply's payload
/// (its non-null "data", else the reply), each from its own keys; a
/// profile taken from the login cookie alone has no counts.
pub proof fn law_kuaishou_profile_counts(v: JsonValue, login_cookie: Seq<char>, decoded: Option<JsonValue>)
    ensures
        crate::platforms::kuaishou::ks_creator_spec(v, login_cookie, decoded) matches Ok(p) ==> {
            let payload = match jget(v, "data"@) { Some(d) => if d is Null { v } else { d }, None => v };
            ||| (p.fans_count is None && p.following_count is None && p.like_count is None)
            ||| {
                &&& p.fans_count == count_deep(payload, seq!["fansCnt", "fansNum", "fansCount", "fans", "followers"])
                &&& p.following_count == count_deep(payload, seq!["followCnt", "followNum", "followCount", "followingCount", "following", "followings", "attentionCount"])
                &&& p.like_count == count_deep(payload, seq!["likeCnt", "likeCount", "likes"])
            }
        },
{
    assert(crate::platforms::kuaishou::ks_follower_keys() =~= seq!["fansCnt", "fansNum", "fansCount", "fans", "followers"]);
    assert(crate::platforms::kuaishou::ks_following_keys() =~= seq!["followCnt", "followNum", "followCount", "followingCount", "following", "followings", "attentionCount"]);
    assert(crate::platforms::kuaishou::ks_like_keys() =~= seq!["likeCnt", "likeCount", "likes"]);
}


/// The count under `keys` of the first of the payloads that has one.
pub open spec fn first_count_of(payloads: Seq<Option<JsonValue>>, keys: Seq<&str>) -> Option<u64>
    decreases payloads.len(),
{
    if payloads.len() == 0 {
        None
    } else {
        match payloads[0] {
            Some(x) => match count_deep(x, keys) {
                Some(n) => Some(n),
                None => first_count_of(payloads.drop_first(), keys),
            },
            None => first_count_of(payloads.drop_first(), keys),
        }
    }
}

/// A Xiaohongshu profile's counts come from the creator profile first,
/// then the user info, then the web profile, each from its own keys.
pub proof fn law_xhs_profile_counts(user: Option<JsonValue>, edith: Option<JsonValue>, creator: Option<JsonValue>,
    login_cookie: Seq<char>, login_target: Option<Seq<char>>)
    ensures
        crate::platforms::xiaohongshu::xhs_profile_spec(user, edith, creator, login_cookie, login_target) matches Ok(p) ==> {
            let payloads = seq![crate::platforms::xiaohongshu::opt_payload(creator), crate::platforms::xiaohongshu::opt_payload(user), crate::platforms::xiaohongshu::opt_payload(edith)];
            &&& p.fans_count == first_count_of(payloads, seq!["fans_count", "fansCount", "fans", "fan_count", "fanCount", "fans_num", "fansNum", "followers", "followers_count", "followersCount", "fans_count_show", "fansCountShow", "fansNumShow"])
            &&& p.following_count == first_count_of(payloads, seq!["following_count", "followingCount", "follow_count", "followCount", "follow_num", "followNum", "follows", "follows_count", "followsCount", "followings", "attention_count", "attentionCount"])
            &&& p.like_count == first_count_of(payloads, seq!["liked_count", "likedCount", "like_count", "likeCount", "likes", "liked", "faved_count", "favedCount", "like_collect_count", "likeCollectCount", "liked_collect_count", "likedCollectCount", "liked_num_show", "likedNumShow", "total_liked", "totalLiked"])
        },
{
    assert(crate::platforms::xiaohongshu::xhs_follower_keys() =~= seq!["fans_count", "fansCount", "fans", "fan_count", "fanCount", "fans_num", "fansNum", "followers", "followers_count", "followersCount", "fans_count_show", "fansCountShow", "fansNumShow"]);
    assert(crate::platforms::xiaohongshu::xhs_following_keys() =~= seq!["following_count", "followingCount", "follow_count", "followCount", "follow_num", "followNum", "follows", "follows_count", "followsCount", "followings", "attention_count", "attentionCount"]);
    assert(crate::platforms::xiaohongshu::xhs_like_keys() =~= seq!["liked_count", "likedCount", "like_count", "likeCount", "likes", "liked", "faved_count", "favedCount", "like_collect_count", "likeCollectCount", "liked_collect_count", "likedCollectCount", "liked_num_show", "likedNumShow", "total_liked", "totalLiked"]);
    let payloads = seq![crate::platforms::xiaohongshu::opt_payload(creator), crate::platforms::xiaohongshu::opt_payload(user), crate::platforms::xiaohongshu::opt_payload(edith)];
    assert(payloads.drop_first() =~= seq![crate::platforms::xiaohongshu::opt_payload(user), crate::platforms::xiaohongshu::opt_payload(edith)]);
    assert(payloads.drop_first().drop_first() =~= seq![crate::platforms::xiaohongshu::opt_payload(edith)]);
    assert(payloads.drop_first().drop_first().drop_first() =~= Seq::<Option<JsonValue>>::empty());
    reveal_with_fuel(first_count_of, 4);
}


/// Away from leap seconds, a cached read is fresh exactly when it was made
/// less than five minutes before `now`; one made exactly five minutes
/// before is stale.
pub proof fn law_cache_fresh_five_minutes(updated_at: UtcTime, now: UtcTime)
    requires
        updated_at.nanos < 1_000_000_000,
        now.nanos < 1_000_000_000,
    ensures
        crate::sync::cache_time_fresh(updated_at, now)
            <==> (now.secs - updated_at.secs) * 1_000_000_000 + (now.nanos - updated_at.nanos) < 300_000_000_000,
        now.secs == updated_at.secs + 300 && now.nanos == updated_at.nanos ==> !crate::sync::cache_time_fresh(updated_at, now),
{
}

} // verus!
