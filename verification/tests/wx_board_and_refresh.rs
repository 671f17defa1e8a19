use channel_nest::accounts::{classify_probe_error, refresh_after_probe_error, ProbeError};
use channel_nest::browser::{chunked_body_complete, decode_chunked_body, websocket_client_frame, websocket_unmask};
use channel_nest::common::{stable_hash, stable_label_fragment};
use channel_nest::domain::{AccountStatus, ChannelAccount, ChannelWorkMetric, PluginAccountInfo, UtcTime};
use channel_nest::json::{JsonFloat, JsonNumber, JsonValue};
use channel_nest::platforms::douyin::douyin_work_metrics;
use channel_nest::platforms::kuaishou::{kuaishou_detail_metric_key, kuaishou_detail_metric_order};
use channel_nest::platforms::wechat_channels::WxWorkKind;
use channel_nest::platforms::wx_content::{
    wx_channels_account_content, wx_keypoint_sum, wx_keypoint_sum_fits, wx_signed_number, wx_sticky_op_status,
};
use channel_nest::settings::default_auth_settings;
use channel_nest::storage::StoreFile;
use channel_nest::time::{time_from_value, TimeStyle};
use channel_nest::works::wx_works_page;

fn s(x: &str) -> JsonValue {
    JsonValue::String(x.to_string())
}

fn n(x: u64) -> JsonValue {
    JsonValue::Number(JsonNumber::PosInt(x))
}

fn neg(x: i64) -> JsonValue {
    JsonValue::Number(JsonNumber::NegInt(x))
}

fn float(text: &str, rounded: i64) -> JsonValue {
    JsonValue::Number(JsonNumber::Float(JsonFloat {
        text: text.to_string(),
        above_epsilon: true,
        rounded_count: if rounded >= 0 { Some(rounded as u64) } else { None },
        rounded,
    }))
}

fn obj(entries: Vec<(&str, JsonValue)>) -> JsonValue {
    JsonValue::Object(entries.into_iter().map(|(k, v)| (k.to_string(), v)).collect())
}

fn arr(items: Vec<JsonValue>) -> JsonValue {
    JsonValue::Array(items)
}

fn now() -> UtcTime {
    UtcTime { secs: 1_700_000_000, nanos: 0 }
}

fn profile() -> PluginAccountInfo {
    PluginAccountInfo {
        uid: "u".to_string(),
        account: "u".to_string(),
        nickname: "视频号".to_string(),
        avatar: String::new(),
        fans_count: Some(12),
        following_count: None,
        like_count: Some(3),
        login_cookie: "c".to_string(),
    }
}

#[test]
fn wx_signed_numbers() {
    assert_eq!(wx_signed_number(&n(7)), Some(7));
    assert_eq!(wx_signed_number(&n(u64::MAX)), Some(i64::MAX));
    assert_eq!(wx_signed_number(&neg(-4)), Some(-4));
    assert_eq!(wx_signed_number(&float("2.5", 3)), Some(3));
    assert_eq!(wx_signed_number(&s(" 12 ")), Some(12));
    assert_eq!(wx_signed_number(&s("12.5")), Some(13));
    assert_eq!(wx_signed_number(&s("-2.5")), Some(-3));
    assert_eq!(wx_signed_number(&s("12.4")), Some(12));
    assert_eq!(wx_signed_number(&s(".6")), Some(1));
    assert_eq!(wx_signed_number(&s("99999999999999999999")), Some(i64::MAX));
    assert_eq!(wx_signed_number(&s("abc")), None);
    assert_eq!(wx_signed_number(&s("")), None);
    assert_eq!(wx_signed_number(&JsonValue::Bool(true)), None);
}

#[test]
fn wx_sticky_status() {
    let item = obj(vec![("base", obj(vec![("stickyOpStatus", s("2"))]))]);
    assert_eq!(wx_sticky_op_status(&item), Some(2));
    assert_eq!(wx_sticky_op_status(&obj(vec![("sticky_op_status", n(1))])), Some(1));
    assert_eq!(wx_sticky_op_status(&obj(vec![])), None);
}

#[test]
fn wx_keypoint_sums() {
    let fans = obj(vec![(
        "data",
        obj(vec![("totalData", obj(vec![("netAdd", arr(vec![n(1), n(2), n(3), n(4)]))]))]),
    )]);
    assert!(wx_keypoint_sum_fits(&fans, &["netAdd"]));
    assert_eq!(wx_keypoint_sum(&fans, &["netAdd", "net_add"]), Some(7));
    let single = obj(vec![("data", obj(vec![("browse", arr(vec![n(5)]))]))]);
    assert_eq!(wx_keypoint_sum(&single, &["browse"]), Some(5));
    let odd = obj(vec![("browse", arr(vec![n(1), n(2), s("x"), n(4), n(5)]))]);
    assert_eq!(wx_keypoint_sum(&odd, &["browse"]), Some(9));
    let empty = obj(vec![("browse", arr(vec![]))]);
    assert_eq!(wx_keypoint_sum(&empty, &["browse"]), None);
    let now_value = obj(vec![("total_data", obj(vec![("like", obj(vec![("now", n(8)), ("value", n(1))]))]))]);
    assert_eq!(wx_keypoint_sum(&now_value, &["like"]), Some(8));
    let plain = obj(vec![("comment", neg(-2))]);
    assert_eq!(wx_keypoint_sum(&plain, &["comments", "comment"]), Some(-2));
    assert_eq!(wx_keypoint_sum(&plain, &["like"]), None);
    let huge = obj(vec![("browse", arr(vec![n(0), n(0), n(i64::MAX as u64), n(i64::MAX as u64)]))]);
    assert!(!wx_keypoint_sum_fits(&huge, &["browse"]));
}

#[test]
fn wx_board_content() {
    let fans = obj(vec![("errCode", n(0)), ("data", obj(vec![("totalData", obj(vec![("netAdd", arr(vec![n(1), n(2)]))]))]))]);
    let post = obj(vec![(
        "data",
        obj(vec![(
            "totalData",
            obj(vec![("browse", arr(vec![n(10), n(20)])), ("like", arr(vec![n(3)])), ("comment", obj(vec![("value", n(4))]))]),
        )]),
    )]);
    let content = wx_channels_account_content("acc", &profile(), &fans, &post, None, None, now()).unwrap();
    assert_eq!(content.platform_id, "wechat-channels");
    assert_eq!(content.profile.as_ref().unwrap().followers, Some(12));
    let y = content.overview_yesterday.as_ref().unwrap();
    assert_eq!(y.period_days, 1);
    let values: Vec<(String, Option<String>)> = y.metrics.iter().map(|m| (m.key.clone(), m.value.clone())).collect();
    assert_eq!(
        values,
        vec![
            ("netAdd".to_string(), Some("2".to_string())),
            ("browse".to_string(), Some("20".to_string())),
            ("like".to_string(), Some("3".to_string())),
            ("comment".to_string(), Some("4".to_string())),
        ]
    );
    assert_eq!(y.summary.as_deref(), Some("数据统计时间为昨日 00:00 至 23:59"));
    assert_eq!(content.overview_seven.as_ref().unwrap().period_days, 1);
    assert!(content.overview_thirty.is_none());
    let missing = obj(vec![]);
    let content = wx_channels_account_content("acc", &profile(), &missing, &missing, None, None, now()).unwrap();
    assert_eq!(content.overview_seven.unwrap().metrics[0].value.as_deref(), Some("-"));
}

#[test]
fn wx_board_refusals() {
    let expired = obj(vec![("errCode", n(300333))]);
    let ok = obj(vec![]);
    assert_eq!(
        wx_channels_account_content("acc", &profile(), &expired, &ok, None, None, now()).unwrap_err(),
        "视频号登录已过期，请重新登录。"
    );
    let failed = obj(vec![("errCode", n(5))]);
    assert_eq!(
        wx_channels_account_content("acc", &profile(), &ok, &failed, None, None, now()).unwrap_err(),
        "视频号作品数据同步失败 (5)"
    );
    let failed_fans = obj(vec![("errCode", n(6)), ("errMsg", s("busy"))]);
    assert_eq!(
        wx_channels_account_content("acc", &profile(), &failed_fans, &failed, None, None, now()).unwrap_err(),
        "busy (6)"
    );
}

fn account(id: &str) -> ChannelAccount {
    ChannelAccount {
        id: id.to_string(),
        user_id: Some("user".to_string()),
        platform_id: "douyin".to_string(),
        uid: "uid".to_string(),
        nickname: "旧昵称".to_string(),
        avatar: "old.png".to_string(),
        followers: Some(10),
        following: Some(2),
        likes: Some(3),
        status: AccountStatus::Active,
        created_at: UtcTime { secs: 1, nanos: 0 },
        updated_at: UtcTime { secs: 1, nanos: 0 },
        last_sync_at: None,
    }
}

fn store() -> StoreFile {
    StoreFile { accounts: vec![account("a1"), account("a2")], settings: default_auth_settings(), account_secrets: vec![] }
}

#[test]
fn probe_failures_sorted() {
    assert!(matches!(classify_probe_error("抖音网页登录态已失效，请重新登录后再打开创作中心。".to_string()), ProbeError::LoginExpired(_)));
    assert!(matches!(classify_probe_error("error sending request".to_string()), ProbeError::Failed(_)));
}

#[test]
fn refresh_after_expired_login_marks_expired() {
    let mut st = store();
    let error = ProbeError::LoginExpired("请重新登录".to_string());
    let a = refresh_after_probe_error(&mut st, "user", "a2", &error, now()).unwrap();
    assert_eq!(a.status, AccountStatus::Expired);
    assert_eq!(a.last_sync_at, Some(now()));
    assert_eq!(st.accounts[1].status, AccountStatus::Expired);
    assert_eq!(st.accounts[0].status, AccountStatus::Active);
}

#[test]
fn refresh_after_network_failure_keeps_account() {
    let mut st = store();
    let error = ProbeError::Failed("timed out".to_string());
    let a = refresh_after_probe_error(&mut st, "user", "a1", &error, now()).unwrap();
    assert_eq!(a.status, AccountStatus::Active);
    assert_eq!(a.nickname, "旧昵称");
    assert_eq!(a.followers, Some(10));
    assert_eq!(st.accounts[0], account("a1"));
    assert_eq!(refresh_after_probe_error(&mut st, "other", "a1", &error, now()).unwrap_err(), "账号不存在");
}

#[test]
fn douyin_work_metric_keys() {
    let detail = |keys: &[(&str, &str)]| -> Vec<ChannelWorkMetric> {
        keys.iter().map(|(k, l)| ChannelWorkMetric { key: k.to_string(), label: l.to_string(), value: None }).collect()
    };
    let video = douyin_work_metrics(Some("video"), Some(1), Some(2), Some(3), Some(4), Some(5), detail(&[("avgViewSecond", "平均播放时长"), ("completionRate", "完播率")]));
    let keys: Vec<&str> = video.iter().map(|m| m.key.as_str()).collect();
    assert_eq!(keys, vec!["play", "like", "comment", "collect", "avgViewSecond", "completionRate"]);
    assert_eq!(video[0].value.as_deref(), Some("1"));
    let other = douyin_work_metrics(None, None, None, None, None, Some(5), detail(&[("descriptionSpreadRate", "文案展开率")]));
    let keys: Vec<&str> = other.iter().map(|m| m.key.as_str()).collect();
    assert_eq!(keys, vec!["play", "like", "comment", "collect", "share", "descriptionSpreadRate"]);
    assert_eq!(other[4].value.as_deref(), Some("5"));
}

#[test]
fn chunked_bodies_in_range_and_complete() {
    let raw = b"4\r\nWiki\r\n5\r\npedia\r\n0\r\n\r\n";
    assert!(chunked_body_complete(raw));
    assert_eq!(decode_chunked_body(raw), Ok(b"Wikipedia".to_vec()));
    let cut = b"4\r\nWiki\r\n0\r\n";
    assert!(!chunked_body_complete(cut));
    let huge = b"ffffffffffffffff\r\nabc";
    assert!(!chunked_body_complete(huge));
    assert_eq!(decode_chunked_body(huge).unwrap_err(), "浏览器 chunked 响应长度格式无效");
}

#[test]
fn millisecond_timestamps() {
    let secs = time_from_value(&n(1_700_000_000), TimeStyle::Douyin);
    assert_eq!(secs, Some(UtcTime { secs: 1_700_000_000, nanos: 0 }));
    assert_eq!(time_from_value(&n(1_700_000_000_000), TimeStyle::Douyin), secs);
}

#[test]
fn fnv_hash_joins() {
    assert_eq!(stable_label_fragment("a"), "af63dc4c8601ec8c");
    assert_eq!(stable_hash("ab", 7), stable_hash("b", stable_hash("a", 7)));
    assert_eq!(stable_hash("", 7), 7);
}

#[test]
fn websocket_frames() {
    let mask = [1u8, 2, 3, 4];
    let frame = websocket_client_frame(1, b"hi", mask);
    assert_eq!(frame, vec![0x81, 0x82, 1, 2, 3, 4, b'h' ^ 1, b'i' ^ 2]);
    assert_eq!(websocket_unmask(&frame[6..], mask), b"hi".to_vec());
    let long = vec![0u8; 200];
    let frame = websocket_client_frame(2, &long, mask);
    assert_eq!(&frame[..4], &[0x82, 0xfe, 0, 200]);
    assert_eq!(frame.len(), 4 + 4 + 200);
}

#[test]
fn wx_works_page_reads_list() {
    let value = obj(vec![(
        "data",
        obj(vec![
            ("list", arr(vec![obj(vec![("objectId", s("o1")), ("desc", s(" 标题 ")), ("readCount", n(9))]), obj(vec![("desc", s("无编号"))])])),
            ("totalCount", n(30)),
        ]),
    )]);
    let extras = vec![(None, None, None), (None, None, None)];
    let page = wx_works_page(&value, "acc", "1", WxWorkKind::Video, 1, 20, &extras, now()).unwrap();
    assert_eq!(page.works.len(), 1);
    assert_eq!(page.works[0].id, "wechat-channels-video-o1");
    assert_eq!(page.works[0].title, "标题");
    assert!(page.has_more);
    let refused = obj(vec![("errCode", n(300334))]);
    assert_eq!(
        wx_works_page(&refused, "acc", "1", WxWorkKind::Video, 1, 20, &vec![], now()).unwrap_err(),
        "视频号登录已过期，请重新登录。"
    );
}

#[test]
fn chunked_size_lines_of_other_bytes_are_refused() {
    let raw = b"4\xff\r\nWiki\r\n0\r\n\r\n";
    assert!(decode_chunked_body(raw).unwrap_err().starts_with("浏览器 chunked 响应长度无效: "));
}

#[test]
fn kuaishou_detail_keys_and_places() {
    let known = kuaishou_detail_metric_key("FPR", "播放");
    assert_eq!(known, "completionRate");
    assert!(kuaishou_detail_metric_order(known) < 99);
    let unknown = kuaishou_detail_metric_key("", "其他");
    assert_eq!(unknown, "metric");
    assert_eq!(kuaishou_detail_metric_order(unknown), 99);
    assert_eq!(kuaishou_detail_metric_key("", "粉丝增长"), "followers");
}
