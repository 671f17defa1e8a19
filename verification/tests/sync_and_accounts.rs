use channel_nest::accounts::{
    account_with_secrets, delete_account_for_user, kuaishou_headless_login_cookie, kuaishou_local_account_profile,
    kuaishou_saved_creator_session, kuaishou_session_after_cookie_check, update_account_from_content_profile,
};
use channel_nest::domain::{
    AccountStatus, ChannelAccount, ChannelAccountContent, ChannelAccountOverview, ChannelAccountProfileSnapshot,
    ChannelContentWork, ChannelWorkMetric, ChannelWorksPage, PluginAccountInfo, UtcTime,
};
use channel_nest::refresh::CreatorSessionStatus;
use channel_nest::settings::default_auth_settings;
use channel_nest::storage::{scoped_account_id, AccountSecret, StoreFile};
use channel_nest::sync::{
    account_content_cache_is_fresh, apply_works_cache_keys, cached_with_error, douyin_account_content_cache_is_current,
    douyin_works_page_cache_is_current, is_cache_time_fresh, is_login_expired_message, normalize_works_work_type,
    platform_supports_account_content, platform_supports_works_pages, raw_works_page_key, work_has_all_metrics,
    work_has_any_metric, work_has_metric, works_cache_page_key, works_page_cache_is_fresh, works_page_with_error,
    xhs_latest_work_metrics_are_fresh, xhs_work_has_detail_metrics,
};

fn t(secs: i64) -> UtcTime {
    UtcTime { secs, nanos: 0 }
}

fn account(id: &str, user: Option<&str>, platform_id: &str) -> ChannelAccount {
    ChannelAccount {
        id: id.to_string(),
        user_id: user.map(|u| u.to_string()),
        platform_id: platform_id.to_string(),
        uid: "uid-1".to_string(),
        nickname: "昵称".to_string(),
        avatar: "a.png".to_string(),
        followers: Some(10),
        following: Some(20),
        likes: Some(30),
        status: AccountStatus::Expired,
        created_at: t(1),
        updated_at: t(1),
        last_sync_at: None,
    }
}

fn store(accounts: Vec<ChannelAccount>, secrets: Vec<(&str, Option<&str>, Option<&str>)>) -> StoreFile {
    StoreFile {
        accounts,
        settings: default_auth_settings(),
        account_secrets: secrets
            .into_iter()
            .map(|(k, c, w)| {
                (k.to_string(), AccountSecret { login_cookie: c.map(|x| x.to_string()), webview_session_id: w.map(|x| x.to_string()) })
            })
            .collect(),
    }
}

fn work(metric_keys: &[&str]) -> ChannelContentWork {
    ChannelContentWork {
        id: "w".to_string(),
        platform_id: "douyin".to_string(),
        account_id: "a".to_string(),
        title: "t".to_string(),
        cover_url: None,
        link: None,
        published_at: None,
        status: "published".to_string(),
        views: None,
        impressions: None,
        likes: None,
        collects: None,
        comments: None,
        shares: None,
        cover_click_rate: None,
        avg_view_time: None,
        gained_followers: None,
        data_updated_at: None,
        metrics: metric_keys
            .iter()
            .map(|k| ChannelWorkMetric { key: k.to_string(), label: k.to_string(), value: None })
            .collect(),
        badges: vec![],
        work_type: None,
    }
}

fn overview(updated: Option<UtcTime>) -> ChannelAccountOverview {
    ChannelAccountOverview {
        account_id: "a".to_string(),
        platform_id: "kuaishou".to_string(),
        period_days: 7,
        metrics: vec![],
        summary: None,
        updated_at: updated,
        sync_status: "synced".to_string(),
        error: None,
    }
}

fn content(platform_id: &str) -> ChannelAccountContent {
    ChannelAccountContent {
        account_id: "a".to_string(),
        platform_id: platform_id.to_string(),
        profile: Some(ChannelAccountProfileSnapshot {
            account_id: "a".to_string(),
            platform_id: platform_id.to_string(),
            followers: Some(1),
            following: None,
            likes: None,
            last_sync_at: None,
            updated_at: Some(t(1000)),
            sync_status: "synced".to_string(),
            error: None,
        }),
        overview_yesterday: Some(overview(Some(t(1100)))),
        overview_seven: None,
        overview_thirty: None,
        overview_ninety: Some(overview(Some(t(1200)))),
        overview_history: None,
        overview_total: None,
        latest_work: None,
        latest_work_seven: None,
        latest_work_thirty: None,
        sync_status: "synced".to_string(),
        error: None,
    }
}

fn page(platform_id: &str, work_type: Option<&str>, works: Vec<ChannelContentWork>) -> ChannelWorksPage {
    ChannelWorksPage {
        account_id: "a".to_string(),
        platform_id: platform_id.to_string(),
        page_key: " 2 ".to_string(),
        work_type: work_type.map(|w| w.to_string()),
        next_page_key: Some("3".to_string()),
        has_more: true,
        works,
        updated_at: Some(t(1000)),
        sync_status: "synced".to_string(),
        error: None,
    }
}

#[test]
fn login_expiry_messages() {
    assert!(is_login_expired_message("小红书登录已失效，请重新登录后再打开创作中心。"));
    assert!(is_login_expired_message("会话登录已过期"));
    assert!(is_login_expired_message("请先在打开的浏览器窗口完成登录。"));
    assert!(!is_login_expired_message("网络错误"));
}

#[test]
fn supported_data_platforms() {
    assert!(platform_supports_account_content("xhs"));
    assert!(platform_supports_works_pages("kuaishou"));
    assert!(!platform_supports_account_content("weibo"));
}

#[test]
fn works_kinds_and_keys() {
    assert_eq!(normalize_works_work_type("douyin", Some("article")), None);
    assert_eq!(normalize_works_work_type("kuaishou", Some("article")).as_deref(), Some("video"));
    assert_eq!(normalize_works_work_type("bilibili", Some(" new-life ")).as_deref(), Some("article"));
    assert_eq!(normalize_works_work_type("wechat-channels", None).as_deref(), Some("video"));
    assert_eq!(raw_works_page_key(" article:cursor-9 ", Some("article")), "cursor-9");
    assert_eq!(raw_works_page_key("video:3", Some("article")), "video:3");
    assert_eq!(raw_works_page_key(" 7 ", None), "7");
    assert_eq!(works_cache_page_key(" 7 ", Some("video")), "video:7");
    assert_eq!(works_cache_page_key(" 7 ", None), "7");
    let mut p = page("bilibili", None, vec![]);
    apply_works_cache_keys(&mut p, Some("video"));
    assert_eq!(p.page_key, "video:2");
    assert_eq!(p.next_page_key.as_deref(), Some("video:3"));
    assert_eq!(p.work_type.as_deref(), Some("video"));
    let key = works_cache_page_key("  next ", Some("article"));
    assert_eq!(raw_works_page_key(&key, Some("article")), "next");
}

#[test]
fn work_metric_lookups() {
    let w = work(&["avgViewSecond", "likes"]);
    assert!(work_has_metric(&w, "likes"));
    assert!(!work_has_metric(&w, "shares"));
    assert!(work_has_all_metrics(&w, &["likes", "avgViewSecond"]));
    assert!(!work_has_all_metrics(&w, &["likes", "shares"]));
    assert!(work_has_any_metric(&w, &["shares", "likes"]));
    assert!(!work_has_any_metric(&w, &[]));
}

#[test]
fn cache_freshness_window() {
    assert!(is_cache_time_fresh(t(1000), t(1299)));
    assert!(is_cache_time_fresh(t(1000), UtcTime { secs: 1299, nanos: 999_999_999 }));
    assert!(!is_cache_time_fresh(t(1000), t(1300)));
    assert!(is_cache_time_fresh(t(1000), t(900)));
}

#[test]
fn content_cache_freshness() {
    let c = content("kuaishou");
    assert!(account_content_cache_is_fresh(&c, t(1299)));
    assert!(!account_content_cache_is_fresh(&c, t(1300)));
    let mut no_ninety = content("kuaishou");
    no_ninety.overview_ninety = None;
    assert!(!account_content_cache_is_fresh(&no_ninety, t(1001)));
    let mut no_times = content("kuaishou");
    no_times.profile = None;
    no_times.overview_yesterday = None;
    no_times.overview_ninety = Some(overview(None));
    assert!(!account_content_cache_is_fresh(&no_times, t(1001)));
    let wx = content("wechat-channels");
    assert!(!account_content_cache_is_fresh(&wx, t(1001)));
}

#[test]
fn xiaohongshu_detail_metrics() {
    let mut w = work(&[]);
    w.views = Some(1);
    w.impressions = Some(2);
    w.cover_click_rate = Some("3%".to_string());
    w.data_updated_at = Some(t(5));
    w.avg_view_time = Some("4秒".to_string());
    assert!(!xhs_work_has_detail_metrics(&w));
    w.shares = Some(0);
    assert!(xhs_work_has_detail_metrics(&w));
    let mut c = content("xiaohongshu");
    assert!(xhs_latest_work_metrics_are_fresh(&c));
    c.latest_work_seven = Some(work(&[]));
    assert!(!xhs_latest_work_metrics_are_fresh(&c));
    c.latest_work_thirty = Some(w);
    assert!(xhs_latest_work_metrics_are_fresh(&c));
}

#[test]
fn douyin_content_currency() {
    let keys = [
        "danmaku", "avgViewSecond", "completionRate", "bounceRate", "completionRate5s", "avgViewProportion",
        "subscribe", "subscribeRate", "unsubscribe", "unsubscribeRate", "dislike", "dislikeRate",
    ];
    let mut w = work(&keys);
    w.work_type = Some("video".to_string());
    w.views = Some(100);
    w.published_at = Some(t(0));
    let mut c = content("douyin");
    c.latest_work = Some(w);
    assert!(douyin_account_content_cache_is_current(&c, t(35 * 86400)));
    assert!(!douyin_account_content_cache_is_current(&c, t(35 * 86400 + 1)));
    let mut partial = work(&keys[..11]);
    partial.work_type = Some("video".to_string());
    partial.views = Some(1);
    c.latest_work = Some(partial);
    assert!(!douyin_account_content_cache_is_current(&c, t(10)));
    let mut article = work(&["imageAvgViewCount"]);
    article.work_type = Some("note".to_string());
    article.views = Some(1);
    c.latest_work = Some(article);
    assert!(douyin_account_content_cache_is_current(&c, t(10)));
}

#[test]
fn works_page_freshness() {
    assert!(works_page_cache_is_fresh(&page("bilibili", Some("video"), vec![]), t(1100)));
    assert!(!works_page_cache_is_fresh(&page("kuaishou", Some("article"), vec![]), t(1100)));
    assert!(works_page_cache_is_fresh(&page("kuaishou", Some("video"), vec![]), t(1100)));
    let mut plain = work(&["likes"]);
    plain.work_type = Some("video".to_string());
    let douyin = page("douyin", None, vec![plain]);
    assert!(!douyin_works_page_cache_is_current(&douyin));
    assert!(!works_page_cache_is_fresh(&douyin, t(1100)));
    let mut detailed = work(&["completionRate"]);
    detailed.work_type = Some("video".to_string());
    assert!(douyin_works_page_cache_is_current(&page("douyin", None, vec![detailed])));
}

#[test]
fn failed_reads_keep_cached_data() {
    let c = cached_with_error(content("kuaishou"), "请求失败");
    assert_eq!(c.sync_status, "failed");
    assert_eq!(c.error.as_deref(), Some("请求失败"));
    let p = c.profile.unwrap();
    assert_eq!(p.sync_status, "failed");
    assert_eq!(p.followers, Some(1));
    assert_eq!(c.overview_yesterday.unwrap().sync_status, "failed");
    assert!(c.overview_seven.is_none());
    let w = works_page_with_error(page("bilibili", None, vec![work(&[])]), "x");
    assert_eq!(w.sync_status, "failed");
    assert_eq!(w.works.len(), 1);
    assert_eq!(w.page_key, " 2 ");
}

#[test]
fn account_with_secrets_moves_legacy_secrets() {
    let scoped = scoped_account_id("u1", "acc");
    let mut s = store(
        vec![account(&scoped, Some("u1"), "douyin")],
        vec![("acc", Some("cookie=1"), Some("wv"))],
    );
    let (a, cookie, session, migrated) = account_with_secrets(&mut s, &scoped, "u1").unwrap();
    assert_eq!(a.id, scoped);
    assert_eq!(cookie.as_deref(), Some("cookie=1"));
    assert_eq!(session.as_deref(), Some("wv"));
    assert!(migrated);
    assert!(s.account_secrets.iter().any(|(k, _)| *k == scoped));
    assert_eq!(account_with_secrets(&mut s, &scoped, "u2").unwrap_err(), "账号不存在");
}

#[test]
fn delete_removes_only_the_users_account() {
    let mut s = store(
        vec![account("x", Some("u1"), "douyin"), account("x", Some("u2"), "douyin"), account("y", Some("u1"), "bilibili")],
        vec![("x", Some("c"), None), ("y", Some("d"), None)],
    );
    assert!(delete_account_for_user(&mut s, "u1", "x").is_ok());
    assert_eq!(s.accounts.len(), 2);
    assert_eq!(s.accounts[0].user_id.as_deref(), Some("u2"));
    assert_eq!(s.accounts[1].id, "y");
    assert_eq!(s.account_secrets.len(), 1);
    assert_eq!(s.account_secrets[0].0, "y");
    assert_eq!(delete_account_for_user(&mut s, "u1", "x").unwrap_err(), "账号不存在");
    assert_eq!(s.accounts.len(), 2);
}

#[test]
fn content_profile_updates_counts() {
    let mut s = store(vec![account("k", Some("u1"), "kuaishou"), account("d", Some("u1"), "douyin")], vec![]);
    let snapshot = ChannelAccountProfileSnapshot {
        account_id: "k".to_string(),
        platform_id: "kuaishou".to_string(),
        followers: Some(99),
        following: None,
        likes: None,
        last_sync_at: None,
        updated_at: Some(t(50)),
        sync_status: "synced".to_string(),
        error: None,
    };
    let k = update_account_from_content_profile(&mut s, "u1", "k", &snapshot, t(60)).unwrap();
    assert_eq!(k.followers, Some(99));
    assert_eq!(k.following, Some(20));
    assert_eq!(k.likes, Some(30));
    assert_eq!(k.status, AccountStatus::Active);
    assert_eq!(k.last_sync_at, Some(t(60)));
    let d = update_account_from_content_profile(&mut s, "u1", "d", &snapshot, t(70)).unwrap();
    assert_eq!(d.following, None);
    assert_eq!(d.likes, None);
    assert_eq!(s.accounts[1].followers, Some(99));
    assert!(update_account_from_content_profile(&mut s, "u9", "d", &snapshot, t(70)).is_err());
}

#[test]
fn kuaishou_saved_sessions() {
    let a = account("k", Some("u1"), "kuaishou");
    let p = kuaishou_local_account_profile(&a, "c=1".to_string());
    assert_eq!(p.uid, "uid-1");
    assert_eq!(p.account, "uid-1");
    assert_eq!(p.fans_count, Some(10));
    assert_eq!(p.login_cookie, "c=1");
    let s = kuaishou_saved_creator_session(&a, Some("  c=2  "), Some("  ")).unwrap();
    assert_eq!(s.login_cookie.as_deref(), Some("c=2"));
    assert_eq!(s.webview_session_id, None);
    assert_eq!(s.profile.unwrap().login_cookie, "c=2");
    assert_eq!(
        kuaishou_saved_creator_session(&a, Some(" "), None).unwrap_err(),
        "快手网页登录态已失效，请重新登录后再同步。"
    );
    assert_eq!(kuaishou_headless_login_cookie(Some(" "), Some("saved")).unwrap(), "saved");
    assert_eq!(kuaishou_headless_login_cookie(Some("fresh"), Some("saved")).unwrap(), "fresh");
    assert!(kuaishou_headless_login_cookie(None, None).is_err());
}

fn profile(nickname: &str) -> PluginAccountInfo {
    PluginAccountInfo {
        uid: "9".to_string(),
        account: "9".to_string(),
        nickname: nickname.to_string(),
        avatar: String::new(),
        fans_count: None,
        following_count: None,
        like_count: None,
        login_cookie: "from-check".to_string(),
    }
}

#[test]
fn kuaishou_cookie_check_outcomes() {
    let a = account("k", Some("u1"), "kuaishou");
    let fallback = kuaishou_session_after_cookie_check(&a, Some(" saved "), Some("wv"), true, Err("网络错误".to_string())).unwrap();
    assert_eq!(fallback.login_cookie.as_deref(), Some("saved"));
    assert_eq!(fallback.webview_session_id.as_deref(), Some("wv"));
    assert_eq!(fallback.profile.unwrap().nickname, "昵称");
    let expired = kuaishou_session_after_cookie_check(&a, Some("saved"), None, true, Err("登录已失效".to_string()));
    assert_eq!(expired.unwrap_err(), "登录已失效");
    let no_probe = kuaishou_session_after_cookie_check(&a, Some("saved"), None, false, Err("网络错误".to_string()));
    assert_eq!(no_probe.unwrap_err(), "网络错误");
    let placeholder = CreatorSessionStatus { login_cookie: None, webview_session_id: None, profile: Some(profile("快手账号 12")) };
    let kept = kuaishou_session_after_cookie_check(&a, Some("saved"), None, false, Ok(placeholder)).unwrap();
    assert_eq!(kept.login_cookie.as_deref(), Some("saved"));
    assert_eq!(kept.profile.unwrap().nickname, "昵称");
    let placeholder = CreatorSessionStatus { login_cookie: None, webview_session_id: None, profile: Some(profile("快手账号")) };
    assert_eq!(
        kuaishou_session_after_cookie_check(&a, None, None, false, Ok(placeholder)).unwrap_err(),
        "快手账号资料未能读取到真实昵称，请重新登录后再同步。"
    );
    let real = CreatorSessionStatus { login_cookie: Some("c".to_string()), webview_session_id: None, profile: Some(profile("真名")) };
    assert_eq!(kuaishou_session_after_cookie_check(&a, None, None, true, Ok(real)).unwrap().profile.unwrap().nickname, "真名");
}
