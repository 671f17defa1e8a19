use channel_nest::auth_task::{
    auth_status_after_profile_error, auth_status_after_snapshot_error, auth_status_from_store,
    auth_status_waiting_for_login, existing_plugin_account_for_profile, record_authorized_profile,
};
use channel_nest::browser::login_cookie_to_cdp_cookies;
use channel_nest::domain::{AccountStatus, ChannelAccount, PluginAccountInfo, PluginAuthError, UtcTime};
use channel_nest::json::{JsonNumber, JsonValue};
use channel_nest::platforms::bilibili::{parse_bilibili_article_work, parse_bilibili_video_work};
use channel_nest::platforms::douyin::{
    douyin_account_from_responses, douyin_metrics_without_detail, douyin_work_metric_specs, douyin_work_metrics,
    parse_douyin_work,
};
use channel_nest::platforms::kuaishou::parse_kuaishou_work;
use channel_nest::platforms::wechat_channels::{
    parse_wx_work, wx_account_request_error, wx_channels_account_from_response, wx_work_badges, WxWorkKind,
};
use channel_nest::platforms::xiaohongshu::{parse_xhs_work, xhs_plugin_account_from_responses};
use channel_nest::settings::default_auth_settings;
use channel_nest::storage::{user_accounts, StoreFile};
use channel_nest::time::{first_time, first_time_deep, parse_bilibili_datetime, time_from_value, TimeStyle};

fn s(x: &str) -> JsonValue {
    JsonValue::String(x.to_string())
}

fn n(x: u64) -> JsonValue {
    JsonValue::Number(JsonNumber::PosInt(x))
}

fn obj(entries: Vec<(&str, JsonValue)>) -> JsonValue {
    JsonValue::Object(entries.into_iter().map(|(k, v)| (k.to_string(), v)).collect())
}

fn arr(items: Vec<JsonValue>) -> JsonValue {
    JsonValue::Array(items)
}

fn at(secs: i64) -> Option<UtcTime> {
    Some(UtcTime { secs, nanos: 0 })
}

fn empty_store() -> StoreFile {
    StoreFile { accounts: Vec::new(), settings: default_auth_settings(), account_secrets: Vec::new() }
}

fn profile(uid: &str, nickname: &str, cookie: &str) -> PluginAccountInfo {
    PluginAccountInfo {
        uid: uid.to_string(),
        account: uid.to_string(),
        nickname: nickname.to_string(),
        avatar: String::new(),
        fans_count: Some(5),
        following_count: None,
        like_count: None,
        login_cookie: cookie.to_string(),
    }
}

#[test]
fn timestamps_in_seconds_and_milliseconds() {
    assert_eq!(time_from_value(&n(1_700_000_000), TimeStyle::Wechat), at(1_700_000_000));
    assert_eq!(time_from_value(&n(1_700_000_000_123), TimeStyle::Wechat), at(1_700_000_000));
    assert_eq!(time_from_value(&n(1_700_000_000_123), TimeStyle::Douyin), at(1_700_000_000));
    assert_eq!(time_from_value(&n(10_000_000_000), TimeStyle::Douyin), at(10_000_000_000));
    assert_eq!(time_from_value(&n(10_000_000_000), TimeStyle::Wechat), at(10_000_000));
    assert_eq!(time_from_value(&s(" 1700000000 "), TimeStyle::Wechat), at(1_700_000_000));
    assert_eq!(time_from_value(&s("1700000000"), TimeStyle::Douyin), None);
    assert_eq!(time_from_value(&s("   "), TimeStyle::Xiaohongshu), None);
    assert_eq!(time_from_value(&JsonValue::Bool(true), TimeStyle::Xiaohongshu), None);
}

#[test]
fn wall_times_are_china_standard_time() {
    assert_eq!(time_from_value(&s("2024-05-01 12:30:45"), TimeStyle::Xiaohongshu), at(1_714_537_845));
    assert_eq!(time_from_value(&s("2024-05-01 12:30"), TimeStyle::Xiaohongshu), at(1_714_537_800));
    assert_eq!(time_from_value(&s("2024-05-01 12:30"), TimeStyle::Wechat), None);
    assert_eq!(time_from_value(&s("发布于2024年05月01日 12:30"), TimeStyle::Douyin), at(1_714_537_800));
    assert_eq!(time_from_value(&s("2024-05-01T12:30:00+08:00"), TimeStyle::Wechat), at(1_714_537_800));
    assert_eq!(time_from_value(&s("2024-05-01T04:30:00Z"), TimeStyle::Douyin), at(1_714_537_800));
    assert_eq!(time_from_value(&s("yesterday"), TimeStyle::Xiaohongshu), None);
    assert_eq!(time_from_value(&s("-262143-01-01 08:00:00"), TimeStyle::Xiaohongshu), at(-8_334_601_228_800));
    assert_eq!(time_from_value(&s("-262143-01-01 07:59:59"), TimeStyle::Xiaohongshu), None);
}

#[test]
fn bilibili_times_and_range() {
    assert_eq!(parse_bilibili_datetime(" 1700000000 "), at(1_700_000_000));
    assert_eq!(parse_bilibili_datetime("2024-05-01 12:30"), at(1_714_537_800));
    assert_eq!(parse_bilibili_datetime("8210266876799"), at(8_210_266_876_799));
    assert_eq!(parse_bilibili_datetime("8210266876800"), None);
    assert_eq!(parse_bilibili_datetime("-8334601228800"), at(-8_334_601_228_800));
    assert_eq!(parse_bilibili_datetime("-8334601228801"), None);
    assert_eq!(parse_bilibili_datetime("2024-05-01T12:30:00Z"), None);
    assert_eq!(parse_bilibili_datetime(""), None);
}

#[test]
fn times_found_by_key_and_deep() {
    let v = obj(vec![("a", s("x")), ("time", n(1_700_000_000))]);
    assert_eq!(first_time(&v, &["postTime", "time"], TimeStyle::Xiaohongshu), at(1_700_000_000));
    let nested = obj(vec![("item", arr(vec![obj(vec![("create_time", n(1_700_000_000))])]))]);
    assert_eq!(first_time_deep(&nested, &["create_time"], TimeStyle::Douyin), at(1_700_000_000));
    assert_eq!(first_time(&nested, &["create_time"], TimeStyle::Douyin), None);
}

#[test]
fn xiaohongshu_notes_become_works() {
    let note = obj(vec![
        ("note_id", s("n1")),
        ("title", s("标题")),
        ("cover", s("//img.x/a.jpg")),
        ("likes", n(5)),
        ("view_count", s("1.2万")),
        ("time", n(1_700_000_000)),
        ("share_url", s("https://x/n1")),
    ]);
    let w = parse_xhs_work(&note, "acc", "latest").unwrap();
    assert_eq!(w.id, "xiaohongshu-latest-n1");
    assert_eq!(w.platform_id, "xiaohongshu");
    assert_eq!(w.account_id, "acc");
    assert_eq!(w.title, "标题");
    assert_eq!(w.cover_url.as_deref(), Some("https://img.x/a.jpg"));
    assert_eq!(w.link.as_deref(), Some("https://x/n1"));
    assert_eq!(w.published_at, at(1_700_000_000));
    assert_eq!(w.views, Some(12000));
    assert_eq!(w.likes, Some(5));
    assert_eq!(w.status, "published");
    assert!(w.metrics.is_empty());
    assert!(parse_xhs_work(&obj(vec![("title", s("t"))]), "acc", "latest").is_none());
    let untitled = parse_xhs_work(&obj(vec![("id", s("n2"))]), "acc", "posted").unwrap();
    assert_eq!(untitled.title, "未命名作品");
}

#[test]
fn douyin_works_and_metrics() {
    let item = obj(vec![
        ("aweme_id", n(123)),
        ("desc", s("视频")),
        ("create_time", n(1_700_000_000)),
        ("media_type", n(4)),
        ("cover", obj(vec![("url_list", arr(vec![s("https://p.douyinpic.com/a.jpg")]))])),
        ("statistics", obj(vec![("play_count", n(10)), ("digg_count", n(3))])),
    ]);
    let w = parse_douyin_work(&item, "acc").unwrap();
    assert_eq!(w.id, "123");
    assert_eq!(w.title, "视频");
    assert_eq!(w.work_type.as_deref(), Some("video"));
    assert_eq!(w.cover_url.as_deref(), Some("https://p.douyinpic.com/a.jpg"));
    assert_eq!(w.published_at, at(1_700_000_000));
    assert_eq!(w.views, Some(10));
    assert_eq!(w.likes, Some(3));
    let keys: Vec<&str> = w.metrics.iter().map(|m| m.key.as_str()).collect();
    assert_eq!(keys, vec!["play", "like", "comment", "collect", "avgViewSecond", "completionRate"]);
    assert_eq!(w.metrics[0].value.as_deref(), Some("10"));
    assert_eq!(w.metrics[4].value, None);

    let specs = douyin_work_metric_specs(None);
    let metrics = douyin_work_metrics(None, Some(1), None, None, None, Some(2), douyin_metrics_without_detail(&specs));
    let keys: Vec<&str> = metrics.iter().map(|m| m.key.as_str()).collect();
    assert_eq!(keys, vec!["play", "like", "comment", "collect", "share", "descriptionSpreadRate"]);
    assert_eq!(metrics[4].value.as_deref(), Some("2"));
    assert_eq!(douyin_work_metric_specs(Some("note")).len(), 2);
}

#[test]
fn wechat_posts_become_works() {
    let post = obj(vec![
        ("objectId", s("o1")),
        ("title", s("  标题  ")),
        ("readCount", n(7)),
        ("createTime", n(1_700_000_000)),
    ]);
    let w = parse_wx_work(&post, "acc", WxWorkKind::Article, None, None, Some(2)).unwrap();
    assert_eq!(w.id, "wechat-channels-article-o1");
    assert_eq!(w.title, "标题");
    assert_eq!(w.views, Some(7));
    assert_eq!(w.published_at, at(1_700_000_000));
    assert_eq!(w.badges, vec!["置顶".to_string()]);
    assert_eq!(w.metrics.len(), 5);
    assert_eq!(w.metrics[0].label, "阅读");
    assert_eq!(w.work_type.as_deref(), Some("article"));
    let video = parse_wx_work(&post, "acc", WxWorkKind::Video, Some("50%".to_string()), Some("3秒".to_string()), None).unwrap();
    assert_eq!(video.metrics.len(), 7);
    assert_eq!(video.cover_click_rate.as_deref(), Some("50%"));
    assert_eq!(video.metrics[5].value.as_deref(), Some("50%"));
    assert!(video.badges.is_empty());
    assert!(wx_work_badges(&post, Some(1)).is_empty());
}

#[test]
fn bilibili_items_become_works() {
    let item = obj(vec![
        ("Archive", obj(vec![("aid", n(100)), ("bvid", s("BV1x")), ("title", s("T")), ("ptime", n(1_700_000_000)), ("state", n(0))])),
        ("stat", obj(vec![("view", n(9)), ("like", n(2))])),
    ]);
    let w = parse_bilibili_video_work(&item, "acc").unwrap();
    assert_eq!(w.id, "bilibili-video-BV1x");
    assert_eq!(w.link.as_deref(), Some("https://www.bilibili.com/video/BV1x"));
    assert_eq!(w.published_at, at(1_700_000_000));
    assert_eq!(w.views, Some(9));
    assert_eq!(w.status, "published");
    let no_bvid = obj(vec![("aid", s("77"))]);
    let w2 = parse_bilibili_video_work(&no_bvid, "acc").unwrap();
    assert_eq!(w2.id, "bilibili-video-77");
    assert_eq!(w2.link.as_deref(), Some("https://www.bilibili.com/video/av77"));
    assert_eq!(w2.title, "未命名视频");
    assert!(parse_bilibili_video_work(&obj(vec![("title", s("x"))]), "acc").is_none());

    let article = obj(vec![
        ("dyn_id", s("555")),
        ("title", s("A")),
        ("pub_time", s("2024-05-01 12:30")),
        ("stat", obj(vec![("view", n(3))])),
    ]);
    let a = parse_bilibili_article_work(&article, "acc").unwrap();
    assert_eq!(a.id, "bilibili-article-555");
    assert_eq!(a.link.as_deref(), Some("https://www.bilibili.com/opus/555"));
    assert_eq!(a.published_at, at(1_714_537_800));
    assert_eq!(a.views, Some(3));
    assert_eq!(a.work_type.as_deref(), Some("article"));
}

#[test]
fn kuaishou_items_become_works() {
    let now = UtcTime { secs: 42, nanos: 7 };
    let item = obj(vec![("photoId", s("p1")), ("caption", s("c")), ("playCount", n(11)), ("likeCount", n(1))]);
    let w = parse_kuaishou_work(&item, "acc", Some("50%".to_string()), Some(3), at(9), now).unwrap();
    assert_eq!(w.id, "p1");
    assert_eq!(w.title, "c");
    assert_eq!(w.link.as_deref(), Some("https://cp.kuaishou.com/statistics/article/detail/p1"));
    assert_eq!(w.status, "published");
    assert_eq!(w.data_updated_at, Some(now));
    assert_eq!(w.published_at, at(9));
    assert_eq!(w.views, Some(11));
    assert_eq!(w.metrics[3].value.as_deref(), Some("50%"));
    assert_eq!(w.metrics[4].value.as_deref(), Some("3"));
    assert!(parse_kuaishou_work(&obj(vec![("caption", s("c"))]), "acc", None, None, None, now).is_none());
}

#[test]
fn xiaohongshu_accounts_from_responses() {
    let user = obj(vec![("success", JsonValue::Bool(true)), ("data", obj(vec![("redId", s("r123")), ("userName", s("U"))]))]);
    let creator = obj(vec![("success", JsonValue::Bool(true)), ("data", obj(vec![("name", s("Creator")), ("fans_count", n(10))]))]);
    let p = xhs_plugin_account_from_responses(Some(&user), None, Some(&creator), "c=1".to_string(), None).unwrap();
    assert_eq!(p.uid, "r123");
    assert_eq!(p.account, "r123");
    assert_eq!(p.nickname, "Creator");
    assert_eq!(p.fans_count, Some(10));
    assert_eq!(p.login_cookie, "c=1");
    assert_eq!(
        xhs_plugin_account_from_responses(Some(&user), None, None, String::new(), None),
        Err(PluginAuthError::NotLoggedIn("请先在打开的小红书创作中心完成登录。".to_string()))
    );
    assert_eq!(
        xhs_plugin_account_from_responses(None, None, Some(&creator), String::new(), Some("home")),
        Err(PluginAuthError::NotLoggedIn("请先在打开的小红书主页完成登录。".to_string()))
    );
    let named = obj(vec![("data", obj(vec![("redId", s("小红书"))]))]);
    assert_eq!(
        xhs_plugin_account_from_responses(Some(&named), None, Some(&creator), String::new(), None),
        Err(PluginAuthError::NotLoggedIn("小红书已登录，但没有读取到账号 ID，请进入创作者中心后再检查状态。".to_string()))
    );
}

#[test]
fn douyin_accounts_from_responses() {
    let pc = obj(vec![("status_code", n(0)), ("user", obj(vec![("uid", s("42"))]))]);
    let user = obj(vec![
        ("status_code", n(0)),
        ("douyin_user_verify_info", obj(vec![("nick_name", s("N")), ("avatar_url", s("https://a"))])),
        ("follower_count", n(8)),
    ]);
    let p = douyin_account_from_responses(&pc, &user, "sessionid=1", "sessionid=1".to_string()).unwrap();
    assert_eq!(p.uid, "42");
    assert_eq!(p.nickname, "N");
    assert_eq!(p.avatar, "https://a");
    assert_eq!(p.fans_count, Some(8));
    let bare = obj(vec![("status_code", n(0))]);
    let q = douyin_account_from_responses(&bare, &bare, "sessionid=1", String::new()).unwrap();
    assert_eq!(q.uid, "84d7d77085a138dc");
    assert_eq!(q.nickname, "抖音");
    let failed = obj(vec![("status_code", n(8))]);
    assert_eq!(
        douyin_account_from_responses(&failed, &user, "", String::new()).unwrap_err(),
        "抖音网页登录态已失效，请重新登录后再打开创作中心。"
    );
    assert_eq!(
        douyin_account_from_responses(&pc, &failed, "", String::new()).unwrap_err(),
        "抖音创作者中心资料读取失败，请重新登录后再同步。"
    );
}

#[test]
fn wechat_accounts_from_responses() {
    let ok = obj(vec![
        ("errCode", n(0)),
        ("data", obj(vec![("finderUser", obj(vec![("uniqId", s("w1")), ("nickname", s("W")), ("headImgUrl", s("//h/a.png")), ("fansCount", n(3))]))])),
    ]);
    let p = wx_channels_account_from_response(&ok, "k=v".to_string()).unwrap();
    assert_eq!(p.uid, "w1");
    assert_eq!(p.avatar, "https://h/a.png");
    assert_eq!(p.fans_count, Some(3));
    assert_eq!(
        wx_channels_account_from_response(&obj(vec![("errCode", n(300333))]), String::new()),
        Err(PluginAuthError::NotLoggedIn("视频号登录已过期，请重新登录。".to_string()))
    );
    assert_eq!(
        wx_channels_account_from_response(&obj(vec![("errCode", n(0)), ("errMsg", s("x")), ("data", obj(vec![]))]), String::new()),
        Err(PluginAuthError::NotLoggedIn("x".to_string()))
    );
    assert_eq!(
        wx_account_request_error("HTTP 401 Unauthorized".to_string()),
        PluginAuthError::NotLoggedIn("视频号登录已过期，请重新登录。".to_string())
    );
    assert_eq!(wx_account_request_error("boom".to_string()), PluginAuthError::Failed("boom".to_string()));
}

#[test]
fn sign_in_task_statuses() {
    let waiting = auth_status_waiting_for_login("t".to_string());
    assert_eq!(waiting.status, "pending");
    assert_eq!(waiting.message.as_deref(), Some("请先在打开的浏览器窗口完成登录。"));
    let (failed, over) = auth_status_after_profile_error("t".to_string(), PluginAuthError::Failed("bad".to_string()));
    assert_eq!((failed.status.as_str(), over), ("failed", true));
    let (pending, over) = auth_status_after_profile_error("t".to_string(), PluginAuthError::NotLoggedIn("wait".to_string()));
    assert_eq!((pending.status.as_str(), over, pending.message.as_deref()), ("pending", false, Some("wait")));
    let (gone, over) = auth_status_after_snapshot_error("t".to_string(), "授权浏览器已关闭".to_string(), 9);
    assert_eq!((gone.status.as_str(), over), ("failed", true));
    let (young, over) = auth_status_after_snapshot_error("t".to_string(), "授权浏览器已关闭".to_string(), 8);
    assert_eq!((young.status.as_str(), over), ("pending", false));
    let (other, over) = auth_status_after_snapshot_error("t".to_string(), "timeout".to_string(), 100);
    assert_eq!((other.status.as_str(), over), ("pending", false));
}

#[test]
fn profiles_from_sign_in_are_saved_once() {
    let mut store = empty_store();
    let now = UtcTime { secs: 100, nanos: 0 };
    let p = profile("u-1", "Nick", "sid=1");
    let a = record_authorized_profile(&mut store, " user1 ", "douyin", &p, "session-9", now).unwrap();
    assert_eq!(a.user_id.as_deref(), Some("user1"));
    assert_eq!(a.status, AccountStatus::Active);
    assert_eq!(store.accounts.len(), 1);
    let secret = store.account_secrets.iter().find(|(k, _)| k == &a.id).map(|(_, v)| v).unwrap();
    assert_eq!(secret.login_cookie.as_deref(), Some("sid=1"));
    assert_eq!(secret.webview_session_id.as_deref(), Some("session-9"));
    let existing = existing_plugin_account_for_profile(&store, "user1", "douyin", &p).unwrap();
    assert_eq!(existing.id, a.id);
    assert!(existing_plugin_account_for_profile(&store, "user2", "douyin", &p).is_none());

    let later = UtcTime { secs: 200, nanos: 0 };
    let again = record_authorized_profile(&mut store, "user1", "douyin", &profile("u-1", "Renamed", "sid=2"), "", later).unwrap();
    assert_eq!(again.id, a.id);
    assert_eq!(again.nickname, "Renamed");
    assert_eq!(store.accounts.len(), 1);
    assert_eq!(
        record_authorized_profile(&mut store, "  ", "douyin", &p, "", now),
        Err("当前登录状态无效，请重新登录".to_string())
    );

    let status = auth_status_from_store(&store, "user1", a.id.clone(), None);
    assert_eq!(status.status, "success");
    assert_eq!(status.account.as_ref().map(|x| x.id.clone()), Some(a.id.clone()));
    let since = auth_status_from_store(&store, "user1", "task".to_string(), Some(("douyin", UtcTime { secs: 50, nanos: 0 })));
    assert_eq!(since.status, "success");
    let pending = auth_status_from_store(&store, "user1", "task".to_string(), Some(("douyin", UtcTime { secs: 150, nanos: 0 })));
    assert_eq!(pending.status, "pending");
    let unknown = auth_status_from_store(&store, "user2", a.id.clone(), None);
    assert_eq!(unknown.status, "unknown");
    assert_eq!(user_accounts(&store, "user1").len(), 1);
}

fn account_for(user: &str) -> ChannelAccount {
    ChannelAccount {
        id: "x".to_string(),
        user_id: Some(user.to_string()),
        platform_id: "douyin".to_string(),
        uid: "u".to_string(),
        nickname: "n".to_string(),
        avatar: String::new(),
        followers: None,
        following: None,
        likes: None,
        status: AccountStatus::Active,
        created_at: UtcTime { secs: 0, nanos: 0 },
        updated_at: UtcTime { secs: 0, nanos: 0 },
        last_sync_at: None,
    }
}

#[test]
fn saved_accounts_are_found_by_their_task() {
    let mut store = empty_store();
    store.accounts.push(account_for("user1"));
    assert_eq!(auth_status_from_store(&store, "user1", "x".to_string(), None).status, "success");
    assert_eq!(auth_status_from_store(&store, "user1", "y".to_string(), None).status, "unknown");
}

#[test]
fn browser_cookies_from_saved_logins() {
    let header = login_cookie_to_cdp_cookies("douyin", " a=1; b = 2 ; =x; junk ", Err("unused".to_string())).unwrap();
    let names: Vec<(&str, &str)> = header.iter().map(|c| (c.name.as_str(), c.value.as_str())).collect();
    assert_eq!(names, vec![("a", "1"), ("b", "2")]);
    assert!(header.iter().all(|c| c.domain == ".douyin.com" && c.path == "/" && c.secure && !c.http_only));
    assert_eq!(header[0].url, "https://creator.douyin.com/creator-micro/home?enter_from=dou_web");

    let list = arr(vec![
        obj(vec![("name", s("sid")), ("value", s("v")), ("domain", s(".douyin.com")), ("expires", n(1_700_000_000)), ("httpOnly", JsonValue::Bool(true))]),
        obj(vec![("name", s("x")), ("value", s("y")), ("domain", s("evil.com"))]),
        obj(vec![("name", s("plain")), ("value", s("z"))]),
    ]);
    let cookies = login_cookie_to_cdp_cookies("douyin", "[...]", Ok(&list)).unwrap();
    assert_eq!(cookies.len(), 2);
    assert_eq!(cookies[0].name, "sid");
    assert!(cookies[0].http_only);
    assert!(matches!(cookies[0].expires, Some(JsonNumber::PosInt(1_700_000_000))));
    assert_eq!(cookies[1].domain, ".douyin.com");
    assert!(cookies[1].expires.is_none());
    assert_eq!(
        login_cookie_to_cdp_cookies("douyin", "[bad", Err("eof".to_string())).unwrap_err(),
        "登录态 Cookie 格式无效: eof"
    );
    assert!(login_cookie_to_cdp_cookies("weibo", "a=1", Err(String::new())).unwrap().is_empty());
    assert!(login_cookie_to_cdp_cookies("douyin", "   ", Err(String::new())).unwrap().is_empty());
}
