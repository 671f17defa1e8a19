use channel_nest::accounts::{kuaishou_refresh_first_step, kuaishou_status_from_headless, KuaishouRefreshStep};
use channel_nest::auth_task::{pending_task_for_user, prune_user_tasks, PendingTask};
use channel_nest::channel_urls::creator_home_url;
use channel_nest::domain::{AccountStatus, ChannelAccount, PluginAccountInfo, UtcTime};
use channel_nest::json::{JsonNumber, JsonValue};
use channel_nest::platforms::douyin::{douyin_account_content, douyin_latest_work_metric_specs, douyin_pc_user_verdict};
use channel_nest::domain::ChannelAccountOverview;
use channel_nest::platforms::images::avatar_data_url;

fn task(id: &str, user: &str, platform: &str) -> PendingTask<u32> {
    PendingTask { task_id: id.to_string(), user_id: user.to_string(), platform_id: platform.to_string(), session: 0 }
}

#[test]
fn pending_tasks_are_found_only_for_their_user() {
    let tasks = vec![task("t1", "alice", "douyin"), task("t2", "bob", "douyin"), task("t2", "alice", "bilibili")];
    assert_eq!(pending_task_for_user(&tasks, "alice", "t1"), Some(0));
    assert_eq!(pending_task_for_user(&tasks, "bob", "t1"), None);
    assert_eq!(pending_task_for_user(&tasks, "alice", "t2"), Some(2));
    assert_eq!(pending_task_for_user(&tasks, "carol", "t2"), None);
}

#[test]
fn saving_an_account_prunes_only_that_users_tasks() {
    let mut tasks = vec![
        task("t1", "alice", "douyin"),
        task("t2", "bob", "douyin"),
        task("acc-1", "alice", "bilibili"),
        task("t4", "alice", "kuaishou"),
    ];
    prune_user_tasks(&mut tasks, "alice", "acc-1", "douyin");
    let left: Vec<(&str, &str)> = tasks.iter().map(|t| (t.task_id.as_str(), t.user_id.as_str())).collect();
    assert_eq!(left, vec![("t2", "bob"), ("t4", "alice")]);
}

#[test]
fn douyin_profile_request_follows_the_account_reply() {
    let ok = JsonValue::Object(vec![("status_code".to_string(), JsonValue::Number(JsonNumber::PosInt(0)))]);
    assert_eq!(douyin_pc_user_verdict(&ok), Ok(()));
    let out = JsonValue::Object(vec![("status_code".to_string(), JsonValue::Number(JsonNumber::PosInt(8)))]);
    assert_eq!(douyin_pc_user_verdict(&out).unwrap_err(), "抖音网页登录态已失效，请重新登录后再打开创作中心。");
    assert_eq!(douyin_pc_user_verdict(&JsonValue::Object(vec![])), Ok(()));
}

#[test]
fn avatar_bytes_become_a_data_url() {
    assert_eq!(avatar_data_url(Some("image/png; charset=x"), b"abc").unwrap(), "data:image/png;base64,YWJj");
    assert_eq!(avatar_data_url(None, &[0x89, 0x50, 0x4E, 0x47, 0x0D, 0x0A, 0x1A, 0x0A]).unwrap(), "data:image/png;base64,iVBORw0KGgo=");
    assert_eq!(avatar_data_url(None, b"").unwrap_err(), "头像图片为空");
    assert_eq!(avatar_data_url(None, &vec![1u8; 2 * 1024 * 1024 + 1]).unwrap_err(), "头像图片过大");
    assert!(avatar_data_url(None, &vec![1u8; 2 * 1024 * 1024]).is_ok());
}

#[test]
fn creator_home_url_is_the_platform_address() {
    let url = creator_home_url("douyin", "抖音创作中心").unwrap();
    assert_eq!(url.as_str(), "https://creator.douyin.com/creator-micro/home?enter_from=dou_web");
    assert_eq!(creator_home_url("unknown", "x").unwrap_err(), "当前平台暂不支持");
}

fn ks_account(nickname: &str) -> ChannelAccount {
    ChannelAccount {
        id: "ks-1".to_string(),
        user_id: Some("alice".to_string()),
        platform_id: "kuaishou".to_string(),
        uid: "42".to_string(),
        nickname: nickname.to_string(),
        avatar: String::new(),
        followers: Some(3),
        following: None,
        likes: None,
        status: AccountStatus::Active,
        created_at: UtcTime { secs: 1, nanos: 0 },
        updated_at: UtcTime { secs: 1, nanos: 0 },
        last_sync_at: None,
    }
}

#[test]
fn kuaishou_refresh_steps() {
    match kuaishou_refresh_first_step(&ks_account("小明"), Some(" c=1 "), Some(" p1 ")) {
        KuaishouRefreshStep::Saved(s) => {
            assert_eq!(s.login_cookie.as_deref(), Some("c=1"));
            assert_eq!(s.webview_session_id.as_deref(), Some("p1"));
            assert_eq!(s.profile.unwrap().nickname, "小明");
        }
        other => panic!("unexpected {other:?}"),
    }
    match kuaishou_refresh_first_step(&ks_account("快手账号"), Some("c=1"), Some(" p1 ")) {
        KuaishouRefreshStep::Headless(id) => assert_eq!(id, "p1"),
        other => panic!("unexpected {other:?}"),
    }
    assert!(matches!(kuaishou_refresh_first_step(&ks_account("小明"), None, Some("  ")), KuaishouRefreshStep::CookieCheck));
    let profile = PluginAccountInfo {
        uid: "42".to_string(),
        account: "42".to_string(),
        nickname: "小明".to_string(),
        avatar: String::new(),
        fans_count: None,
        following_count: None,
        like_count: None,
        login_cookie: "fresh".to_string(),
    };
    let status = kuaishou_status_from_headless("p1", Ok(profile)).unwrap();
    assert_eq!(status.login_cookie.as_deref(), Some("fresh"));
    assert_eq!(status.webview_session_id.as_deref(), Some("p1"));
    assert_eq!(kuaishou_status_from_headless("p1", Err("gone".to_string())).unwrap_err(), "gone");
}

#[test]
fn douyin_latest_work_figures_by_type() {
    let (video, counts, summary) = douyin_latest_work_metric_specs(Some("video"));
    assert_eq!(counts, 5);
    assert!(summary);
    assert_eq!(video.len(), 17);
    assert_eq!(video[0].key, "play");
    assert_eq!(video[5].key, "danmaku");
    let (other, _, summary) = douyin_latest_work_metric_specs(None);
    assert!(!summary);
    let keys: Vec<&str> = other.iter().map(|s| s.key).collect();
    assert_eq!(keys, vec!["play", "like", "comment", "share", "favorite", "descriptionSpreadRate", "bounceRate"]);
    let (article, _, _) = douyin_latest_work_metric_specs(Some("note"));
    assert_eq!(article[6].label, "平均浏览图片数");
}

fn overview(days: u16) -> ChannelAccountOverview {
    ChannelAccountOverview {
        account_id: "acc".to_string(),
        platform_id: "douyin".to_string(),
        period_days: days,
        metrics: vec![],
        summary: None,
        updated_at: None,
        sync_status: "synced".to_string(),
        error: None,
    }
}

#[test]
fn douyin_board_content() {
    let profile = PluginAccountInfo {
        uid: "u".to_string(),
        account: "u".to_string(),
        nickname: "抖音".to_string(),
        avatar: String::new(),
        fans_count: Some(9),
        following_count: Some(1),
        like_count: None,
        login_cookie: String::new(),
    };
    let now = UtcTime { secs: 5, nanos: 0 };
    let c = douyin_account_content("acc", &profile, overview(1), overview(7), overview(30), None, now);
    assert_eq!(c.platform_id, "douyin");
    assert_eq!(c.profile.unwrap().followers, Some(9));
    assert_eq!(c.overview_seven.unwrap().period_days, 7);
    assert!(c.latest_work_thirty.is_none());
    assert!(c.overview_ninety.is_none());
}
