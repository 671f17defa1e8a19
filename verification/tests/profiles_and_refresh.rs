use channel_nest::browser::browser_cookie_snapshot;
use channel_nest::domain::{AccountStatus, ChannelAccount, PluginAccountInfo, PluginAuthError, UtcTime};
use channel_nest::json::{JsonNumber, JsonValue};
use channel_nest::platforms::bilibili::{
    bilibili_like_count, bilibili_nav_profile, bilibili_overview_fits, bilibili_relation_counts,
    bilibili_uid_queryable, build_bilibili_overview, complete_bilibili_profile,
};
use channel_nest::platforms::kuaishou::kuaishou_creator_account;
use channel_nest::refresh::{
    apply_creator_status, is_kuaishou_cookie_fallback_nickname, page_url_is_kuaishou_creator_home,
    reject_kuaishou_cookie_fallback_profile, should_update_account_nickname, CreatorSessionStatus,
};
use channel_nest::settings::default_auth_settings;
use channel_nest::storage::{AccountSecret, StoreFile};

fn s(x: &str) -> JsonValue {
    JsonValue::String(x.to_string())
}

fn n(x: u64) -> JsonValue {
    JsonValue::Number(JsonNumber::PosInt(x))
}

fn neg(x: i64) -> JsonValue {
    JsonValue::Number(JsonNumber::NegInt(x))
}

fn obj(entries: Vec<(&str, JsonValue)>) -> JsonValue {
    JsonValue::Object(entries.into_iter().map(|(k, v)| (k.to_string(), v)).collect())
}

fn arr(items: Vec<JsonValue>) -> JsonValue {
    JsonValue::Array(items)
}

fn account(id: &str, platform_id: &str, uid: &str, nickname: &str) -> ChannelAccount {
    ChannelAccount {
        id: id.to_string(),
        user_id: Some("user1".to_string()),
        platform_id: platform_id.to_string(),
        uid: uid.to_string(),
        nickname: nickname.to_string(),
        avatar: "old.png".to_string(),
        followers: Some(1),
        following: Some(2),
        likes: Some(3),
        status: AccountStatus::Expired,
        created_at: UtcTime { secs: 1, nanos: 0 },
        updated_at: UtcTime { secs: 1, nanos: 0 },
        last_sync_at: None,
    }
}

fn info(uid: &str, nickname: &str) -> PluginAccountInfo {
    PluginAccountInfo {
        uid: uid.to_string(),
        account: uid.to_string(),
        nickname: nickname.to_string(),
        avatar: String::new(),
        fans_count: Some(9),
        following_count: None,
        like_count: None,
        login_cookie: String::new(),
    }
}

#[test]
fn kuaishou_placeholder_nicknames() {
    assert!(is_kuaishou_cookie_fallback_nickname("快手账号"));
    assert!(is_kuaishou_cookie_fallback_nickname("快手账号 1234"));
    assert!(is_kuaishou_cookie_fallback_nickname("快手账号 "));
    assert!(!is_kuaishou_cookie_fallback_nickname("快手账号 12a4"));
    assert!(!is_kuaishou_cookie_fallback_nickname("小明"));
    let ks = account("a", "kwai", "u", "真名");
    assert!(!should_update_account_nickname(&ks, " 快手账号 1234 "));
    assert!(should_update_account_nickname(&ks, "新名字"));
    assert!(!should_update_account_nickname(&ks, "   "));
    let unnamed = account("a", "kuaishou", "u", " ");
    assert!(should_update_account_nickname(&unnamed, "快手账号 1234"));
    let dy = account("a", "douyin", "u", "真名");
    assert!(should_update_account_nickname(&dy, "快手账号 1234"));
    assert_eq!(
        reject_kuaishou_cookie_fallback_profile(info("1", "快手账号 0001")),
        Err(PluginAuthError::NotLoggedIn("已检测到快手登录态，但还没有读取到真实昵称，请稍后再试或重新登录。".to_string()))
    );
    assert_eq!(reject_kuaishou_cookie_fallback_profile(info("1", "真名")), Ok(info("1", "真名")));
}

#[test]
fn kuaishou_creator_home_pages() {
    assert!(page_url_is_kuaishou_creator_home("https://CP.kuaishou.com/profile?x=1"));
    assert!(page_url_is_kuaishou_creator_home("https://cp.kuaishou.com/profile/works"));
    assert!(!page_url_is_kuaishou_creator_home("https://cp.kuaishou.com/article"));
    assert!(!page_url_is_kuaishou_creator_home("https://www.kuaishou.com/profile"));
    assert!(!page_url_is_kuaishou_creator_home("not a url"));
}

fn store_with(accounts: Vec<ChannelAccount>) -> StoreFile {
    StoreFile { accounts, settings: default_auth_settings(), account_secrets: Vec::new() }
}

#[test]
fn creator_status_refreshes_accounts() {
    let mut store = store_with(vec![account("a", "douyin", "old-uid", "Old")]);
    let now = UtcTime { secs: 77, nanos: 0 };
    let status = CreatorSessionStatus {
        login_cookie: Some("sid=1".to_string()),
        webview_session_id: Some("  ".to_string()),
        profile: Some(info("new-uid", "New")),
    };
    let a = apply_creator_status(&mut store, "user1", "a", &status, now).unwrap();
    assert_eq!(a.nickname, "New");
    assert_eq!(a.uid, "new-uid");
    assert_eq!(a.avatar, "old.png");
    assert_eq!(a.followers, Some(9));
    assert_eq!(a.following, Some(2));
    assert_eq!(a.status, AccountStatus::Active);
    assert_eq!(a.last_sync_at, Some(now));
    assert_eq!(store.accounts[0], a);
    assert_eq!(
        store.account_secrets,
        vec![("a".to_string(), AccountSecret { login_cookie: Some("sid=1".to_string()), webview_session_id: None })]
    );

    let mut other = store_with(vec![account("b", "bilibili", "keep", "Old")]);
    let b = apply_creator_status(&mut other, "user1", "b", &status, now).unwrap();
    assert_eq!(b.uid, "keep");
    let empty = CreatorSessionStatus { login_cookie: None, webview_session_id: None, profile: None };
    let c = apply_creator_status(&mut other, "user1", "b", &empty, now).unwrap();
    assert_eq!(c.nickname, "New");
    assert_eq!(other.account_secrets.len(), 1);
    assert_eq!(apply_creator_status(&mut other, "user2", "b", &empty, now), Err("账号不存在".to_string()));
}

#[test]
fn browser_cookie_snapshots() {
    let reply = obj(vec![(
        "cookies",
        arr(vec![
            obj(vec![("name", s("sessionid")), ("value", s("abc")), ("domain", s(".douyin.com"))]),
            obj(vec![("name", s("blank")), ("value", s(" "))]),
            obj(vec![("name", s("other")), ("value", s("x")), ("domain", s("evil.com"))]),
            obj(vec![("name", s("ttwid")), ("value", s("t"))]),
        ]),
    )]);
    let (kept, header) = browser_cookie_snapshot("douyin", &reply).unwrap().unwrap();
    assert_eq!(kept, vec![0, 3]);
    assert_eq!(header, "sessionid=abc; ttwid=t");
    assert_eq!(browser_cookie_snapshot("douyin", &obj(vec![])).unwrap(), None);
    assert_eq!(browser_cookie_snapshot("weibo", &reply).unwrap_err(), "当前平台暂不支持");
}

#[test]
fn bilibili_profiles() {
    let nav = obj(vec![
        ("code", n(0)),
        ("data", obj(vec![("isLogin", JsonValue::Bool(true)), ("mid", n(123)), ("uname", s("B")), ("face", s("https://f"))])),
    ]);
    let p = bilibili_nav_profile(&nav, "c".to_string()).unwrap();
    assert_eq!(p.uid, "123");
    assert_eq!(p.nickname, "B");
    assert_eq!(p.avatar, "https://f");
    assert_eq!(p.fans_count, None);
    let out = obj(vec![("code", n(0)), ("data", obj(vec![("isLogin", JsonValue::Bool(false))]))]);
    assert_eq!(bilibili_nav_profile(&out, String::new()).unwrap_err(), "B 站登录已失效，请重新登录后再打开创作中心。");
    assert!(bilibili_uid_queryable(" 123 "));
    assert!(!bilibili_uid_queryable("12a"));
    assert!(!bilibili_uid_queryable(""));
    let relation = obj(vec![("code", n(0)), ("data", obj(vec![("follower", n(50)), ("following", n(4))]))]);
    assert_eq!(bilibili_relation_counts(&relation), Some((Some(50), Some(4))));
    assert_eq!(bilibili_relation_counts(&obj(vec![("code", neg(-101))])), None);
    let upstat = obj(vec![("code", n(0)), ("data", obj(vec![("likes", n(7))]))]);
    assert_eq!(bilibili_like_count(&upstat), Some(7));
    let full = complete_bilibili_profile(p, Some((Some(50), Some(4))), Some(7));
    assert_eq!((full.fans_count, full.following_count, full.like_count), (Some(50), Some(4), Some(7)));
}

#[test]
fn bilibili_overviews() {
    let data = obj(vec![("play", n(100)), ("play_last", n(90)), ("fan", n(5)), ("fan_last", n(8)), ("log_date", n(20240501))]);
    assert!(bilibili_overview_fits(&data));
    let now = UtcTime { secs: 3, nanos: 0 };
    let o = build_bilibili_overview("acc", 7, &data, false, now);
    assert_eq!(o.metrics.len(), 8);
    assert_eq!(o.metrics[0].value.as_deref(), Some("100"));
    assert_eq!(o.metrics[0].trend.as_deref(), Some("▲ 10"));
    assert_eq!(o.metrics[0].tone.as_deref(), Some("up"));
    assert_eq!(o.metrics[1].label, "净增粉丝");
    assert_eq!(o.metrics[1].trend.as_deref(), Some("▼ 3"));
    assert_eq!(o.summary.as_deref(), Some("更新至 2024-05-01"));
    assert_eq!(o.updated_at, Some(now));
    let cumulative = build_bilibili_overview("acc", 0, &data, true, now);
    assert_eq!(cumulative.metrics[1].label, "累计粉丝");
    let overflow = obj(vec![("play", JsonValue::Number(JsonNumber::PosInt(i64::MAX as u64))), ("play_last", neg(-1))]);
    assert!(!bilibili_overview_fits(&overflow));
}

#[test]
fn kuaishou_creator_accounts() {
    let home = obj(vec![
        ("result", n(1)),
        ("data", obj(vec![("userId", n(555)), ("userName", s("K")), ("userAvatar", s("https://k")), ("fansCnt", n(12))])),
    ]);
    let p = kuaishou_creator_account(&home, "c".to_string(), None).unwrap();
    assert_eq!(p.uid, "555");
    assert_eq!(p.nickname, "K");
    assert_eq!(p.avatar, "https://k");
    assert_eq!(p.fans_count, Some(12));
    let empty = obj(vec![("result", n(109))]);
    assert_eq!(kuaishou_creator_account(&empty, String::new(), None).unwrap_err(), "请先在打开的快手创作者中心完成登录。");
    let cookie = "kuaishou.web.cp.api_st=abc; userId=987654";
    let q = kuaishou_creator_account(&empty, cookie.to_string(), None).unwrap();
    assert_eq!(q.uid, "987654");
    assert_eq!(q.nickname, "快手账号 7654");
    assert_eq!(q.login_cookie, cookie);
}
