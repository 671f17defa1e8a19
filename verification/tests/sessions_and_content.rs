use channel_nest::domain::{AccountStatus, ChannelAccount, PluginAccountInfo, UtcTime};
use channel_nest::json::{JsonNumber, JsonValue};
use channel_nest::platforms::bilibili::bilibili_account_content;
use channel_nest::platforms::kuaishou::{format_kuaishou_data_date, kuaishou_data_date_fits, kuaishou_overview_summary};
use channel_nest::platforms::xiaohongshu::{build_xhs_overview, xhs_net_fans_fits};
use channel_nest::refresh::{creator_session_outcome, creator_session_probe, SessionProbe};

fn s(x: &str) -> JsonValue {
    JsonValue::String(x.to_string())
}

fn n(x: u64) -> JsonValue {
    JsonValue::Number(JsonNumber::PosInt(x))
}

fn neg(x: i64) -> JsonValue {
    JsonValue::Number(JsonNumber::NegInt(x))
}

fn obj(entries: Vec<(&str, JsonValue)>) -> JsonValue {
    JsonValue::Object(entries.into_iter().map(|(k, v)| (k.to_string(), v)).collect())
}

fn account(platform_id: &str, uid: &str, nickname: &str) -> ChannelAccount {
    ChannelAccount {
        id: "acc-1".to_string(),
        user_id: Some("user1".to_string()),
        platform_id: platform_id.to_string(),
        uid: uid.to_string(),
        nickname: nickname.to_string(),
        avatar: String::new(),
        followers: None,
        following: None,
        likes: None,
        status: AccountStatus::Active,
        created_at: UtcTime { secs: 1, nanos: 0 },
        updated_at: UtcTime { secs: 1, nanos: 0 },
        last_sync_at: None,
    }
}

fn profile(uid: &str, nickname: &str, cookie: &str) -> PluginAccountInfo {
    PluginAccountInfo {
        uid: uid.to_string(),
        account: uid.to_string(),
        nickname: nickname.to_string(),
        avatar: String::new(),
        fans_count: Some(12),
        following_count: Some(3),
        like_count: Some(40),
        login_cookie: cookie.to_string(),
    }
}

#[test]
fn session_probe_per_platform() {
    assert_eq!(creator_session_probe("weibo", Some("a=1"), None), SessionProbe::Unsupported);
    assert_eq!(
        creator_session_probe("xiaohongshu", None, None),
        SessionProbe::Expired("小红书登录已失效，请重新登录后再打开创作中心。".to_string())
    );
    assert_eq!(
        creator_session_probe("xiaohongshu", Some("a=1; b=2"), None),
        SessionProbe::Probe { cookie_header: "a=1; b=2".to_string(), login_cookie: "a=1; b=2".to_string() }
    );
    assert_eq!(
        creator_session_probe("wechat-channels", Some("   "), None),
        SessionProbe::Expired("视频号登录已失效，请重新登录后再打开创作中心。".to_string())
    );
    assert_eq!(
        creator_session_probe("bilibili", Some("  SESSDATA=x  "), None),
        SessionProbe::Probe { cookie_header: "SESSDATA=x".to_string(), login_cookie: "SESSDATA=x".to_string() }
    );
    assert_eq!(
        creator_session_probe("kuaishou", Some(""), None),
        SessionProbe::Expired("快手网页登录态已失效，请重新登录后再打开创作中心。".to_string())
    );
}

#[test]
fn douyin_probe_needs_a_login_cookie() {
    assert_eq!(
        creator_session_probe("douyin", Some("ttwid=1"), None),
        SessionProbe::Expired("抖音网页登录态已失效，请重新登录后再打开创作中心。".to_string())
    );
    assert_eq!(
        creator_session_probe("douyin", Some("ttwid=1; sessionid=abc"), None),
        SessionProbe::Probe {
            cookie_header: "ttwid=1; sessionid=abc".to_string(),
            login_cookie: "ttwid=1; sessionid=abc".to_string(),
        }
    );
}

#[test]
fn xiaohongshu_outcome_checks_the_account() {
    let acc = account("xiaohongshu", "red-1", "小红");
    let ok = creator_session_outcome(&acc, "sent".to_string(), Ok(profile("red-1", "小红", "fresh")), Some("wv-1")).unwrap();
    assert_eq!(ok.login_cookie.as_deref(), Some("fresh"));
    assert_eq!(ok.webview_session_id.as_deref(), Some("wv-1"));
    assert_eq!(ok.profile.unwrap().uid, "red-1");
    let other = creator_session_outcome(&acc, "sent".to_string(), Ok(profile("red-2", "别人", "fresh")), None);
    assert_eq!(other.unwrap_err(), "当前小红书登录态不属于这个账号，请重新登录。");
    let failed = creator_session_outcome(&acc, "sent".to_string(), Err("network".to_string()), None);
    assert_eq!(failed.unwrap_err(), "小红书登录已失效，请重新登录后再打开创作中心。");
}

#[test]
fn wechat_outcome_checks_the_account() {
    let acc = account("wechat-channels", "wx-1", "视频号");
    let ok = creator_session_outcome(&acc, "sent".to_string(), Ok(profile("wx-1", "视频号", "wx-cookie")), None).unwrap();
    assert_eq!(ok.login_cookie.as_deref(), Some("wx-cookie"));
    assert_eq!(ok.webview_session_id, None);
    let other = creator_session_outcome(&acc, "sent".to_string(), Ok(profile("wx-9", "另一个", "c")), None);
    assert_eq!(other.unwrap_err(), "当前视频号登录态不属于这个账号，请重新登录。");
}

#[test]
fn cookie_kept_per_platform() {
    let bili = creator_session_outcome(&account("bilibili", "1", "b"), "sent".to_string(), Ok(profile("1", "b", "from-profile")), None).unwrap();
    assert_eq!(bili.login_cookie.as_deref(), Some("from-profile"));
    let douyin = creator_session_outcome(&account("douyin", "1", "d"), "sent".to_string(), Ok(profile("1", "d", "from-profile")), None).unwrap();
    assert_eq!(douyin.login_cookie.as_deref(), Some("sent"));
    let failed = creator_session_outcome(&account("kuaishou", "1", "k"), "sent".to_string(), Err("请求失败".to_string()), None);
    assert_eq!(failed.unwrap_err(), "请求失败");
    let other = creator_session_outcome(&account("weibo", "1", "w"), "sent".to_string(), Err("x".to_string()), None).unwrap();
    assert_eq!(other.login_cookie, None);
    assert!(other.profile.is_none());
}

fn bili_period(play: u64, play_last: u64) -> JsonValue {
    obj(vec![("play", n(play)), ("play_last", n(play_last)), ("fan", n(500)), ("like", n(70)), ("log_date", n(20240315))])
}

#[test]
fn bilibili_content_from_periods() {
    let now = UtcTime { secs: 1_700_000_000, nanos: 0 };
    let p = profile("42", "up主", "c");
    let content = bilibili_account_content(
        "acc-1",
        &p,
        &bili_period(10, 4),
        &bili_period(70, 90),
        &bili_period(300, 300),
        &bili_period(900, 100),
        &obj(vec![("play", n(5000))]),
        None,
        None,
        now,
    );
    assert_eq!(content.platform_id, "bilibili");
    let snapshot = content.profile.unwrap();
    assert_eq!(snapshot.followers, Some(12));
    assert_eq!(snapshot.likes, Some(40));
    assert_eq!(snapshot.following, Some(3));
    let yesterday = content.overview_yesterday.unwrap();
    assert_eq!(yesterday.period_days, 1);
    assert_eq!(yesterday.metrics[0].value.as_deref(), Some("10"));
    assert_eq!(yesterday.metrics[0].trend.as_deref(), Some("▲ 6"));
    assert_eq!(yesterday.metrics[0].tone.as_deref(), Some("up"));
    assert_eq!(yesterday.summary.as_deref(), Some("更新至 2024-03-15"));
    let seven = content.overview_seven.unwrap();
    assert_eq!(seven.metrics[0].trend.as_deref(), Some("▼ 20"));
    assert_eq!(seven.metrics[0].tone.as_deref(), Some("down"));
    let thirty = content.overview_thirty.unwrap();
    assert_eq!(thirty.metrics[0].trend, None);
    assert_eq!(thirty.metrics[0].tone.as_deref(), Some("up"));
    let history = content.overview_history.unwrap();
    assert_eq!(history.period_days, 36500);
    assert_eq!(history.metrics[1].label, "累计粉丝");
    assert_eq!(content.overview_total.unwrap().period_days, 65535);
    assert_eq!(content.sync_status, "synced");
}

#[test]
fn bilibili_content_prefers_all_time_figures() {
    let now = UtcTime { secs: 5, nanos: 0 };
    let total = obj(vec![("fan", n(777)), ("like", n(888))]);
    let empty = obj(vec![]);
    let content = bilibili_account_content("a", &profile("1", "x", "c"), &empty, &empty, &empty, &empty, &total, None, None, now);
    let snapshot = content.profile.unwrap();
    assert_eq!(snapshot.followers, Some(777));
    assert_eq!(snapshot.likes, Some(888));
    assert_eq!(snapshot.last_sync_at, Some(now));
}

#[test]
fn xiaohongshu_fallback_overview() {
    let note = obj(vec![
        ("view_count", n(1200)),
        ("view_count_rate", neg(-5)),
        ("like_count", s("33")),
        ("like_count_rate", n(0)),
        ("summary", s("<b>近7日</b>数据 ")),
    ]);
    let fans = obj(vec![("rise_fans_count", n(20)), ("leave_fans_count", n(5))]);
    assert!(xhs_net_fans_fits(Some(&fans)));
    let now = UtcTime { secs: 9, nanos: 0 };
    let overview = build_xhs_overview("acc-1", 7, Some(&note), Some(&fans), now);
    assert_eq!(overview.metrics.len(), 12);
    assert_eq!(overview.metrics[0].key, "impressions");
    assert_eq!(overview.metrics[0].value, None);
    assert_eq!(overview.metrics[1].value.as_deref(), Some("1200"));
    assert_eq!(overview.metrics[1].trend.as_deref(), Some("-5%"));
    assert_eq!(overview.metrics[1].tone.as_deref(), Some("down"));
    assert_eq!(overview.metrics[1].compare_label.as_deref(), Some("环比"));
    assert_eq!(overview.metrics[2].value.as_deref(), Some("33"));
    assert_eq!(overview.metrics[2].trend.as_deref(), Some("-"));
    assert_eq!(overview.metrics[4].key, "netFans");
    assert_eq!(overview.metrics[4].value.as_deref(), Some("15"));
    assert_eq!(overview.metrics[5].value.as_deref(), Some("20"));
    assert_eq!(overview.metrics[10].value.as_deref(), Some("5"));
    assert_eq!(overview.summary.as_deref(), Some("近7日数据"));
    assert_eq!(overview.updated_at, Some(now));
}

#[test]
fn xiaohongshu_net_fans_overflow_is_detected() {
    let fans = obj(vec![("rise_fans_count", neg(i64::MIN)), ("leave_fans_count", n(1))]);
    assert!(!xhs_net_fans_fits(Some(&fans)));
    assert!(xhs_net_fans_fits(None));
    let rise_only = obj(vec![("rise_fans_count", n(3))]);
    let overview = build_xhs_overview("a", 1, None, Some(&rise_only), UtcTime { secs: 0, nanos: 0 });
    assert_eq!(overview.metrics[4].value.as_deref(), Some("3"));
    assert_eq!(overview.metrics[10].value, None);
    assert_eq!(overview.summary, None);
}

#[test]
fn kuaishou_data_dates() {
    assert_eq!(format_kuaishou_data_date(" 20240315 "), "2024-03-15");
    assert_eq!(format_kuaishou_data_date("2024-3-1"), "2024--3--1");
    assert_eq!(format_kuaishou_data_date("2024-3-10"), "2024-3-10");
    assert_eq!(format_kuaishou_data_date("ab¢¢¢"), "ab¢-¢-¢");
    assert!(kuaishou_data_date_fits("20240315"));
    assert!(!kuaishou_data_date_fits("abcd年e"));
    assert!(!kuaishou_data_date_fits("年月ab"));
    assert!(kuaishou_data_date_fits("年月日"));
    let data = obj(vec![("dataUpdateTime", s("20240102"))]);
    assert_eq!(kuaishou_overview_summary(&data).as_deref(), Some("数据更新至 2024-01-02"));
    assert_eq!(kuaishou_overview_summary(&obj(vec![("dataUpdateTime", s("  "))])), None);
    assert_eq!(kuaishou_overview_summary(&obj(vec![])), None);
}
