use channel_nest::json::{JsonFloat, JsonNumber, JsonValue};
use channel_nest::platforms::bilibili::{
    article_work_metrics, bilibili_archive_status, bilibili_article_badges, bilibili_article_status,
    bilibili_cover_thumbnail_url, bilibili_error_message, bilibili_overview_summary, bilibili_page_number,
    bilibili_response_success, bilibili_video_badges, build_bilibili_metric, count_key, delta_tone,
    first_bilibili_mid, format_bilibili_delta, is_bilibili_image_host, signed_key, text_key, value_i64,
    value_text, value_u64, video_work_metrics, BiliOverviewMetricSpec, BiliWorkKind,
};
use channel_nest::platforms::douyin::{
    douyin_count_value_metric, douyin_error_message, douyin_response_success, douyin_visibility_badge,
    douyin_work_badges, douyin_work_metric, douyin_work_type, first_count_optional, visibility_label,
    DouyinMetricSpec, DouyinMetricValueKind,
};
use channel_nest::platforms::fields::{first_bool_deep, first_string_or_number_deep, push_unique_badge, value_to_bool, value_to_text};
use channel_nest::platforms::images::{
    avatar_mime_type, first_profile_image, normalize_image_url, normalize_platform_image_url,
    should_materialize_avatar, string_from_image_value,
};

fn s(x: &str) -> JsonValue {
    JsonValue::String(x.to_string())
}

fn n(x: u64) -> JsonValue {
    JsonValue::Number(JsonNumber::PosInt(x))
}

fn neg(x: i64) -> JsonValue {
    JsonValue::Number(JsonNumber::NegInt(x))
}

fn obj(entries: Vec<(&str, JsonValue)>) -> JsonValue {
    JsonValue::Object(entries.into_iter().map(|(k, v)| (k.to_string(), v)).collect())
}

fn arr(items: Vec<JsonValue>) -> JsonValue {
    JsonValue::Array(items)
}

#[test]
fn bilibili_field_values() {
    assert_eq!(value_text(&s(" - ")), None);
    assert_eq!(value_text(&s(" 12 ")), Some("12".to_string()));
    assert_eq!(value_text(&n(5)), Some("5".to_string()));
    let float = JsonValue::Number(JsonNumber::Float(JsonFloat {
        text: "1.5".to_string(),
        above_epsilon: true,
        rounded_count: Some(2),
        rounded: 2,
    }));
    assert_eq!(value_text(&float), Some("1.5".to_string()));
    assert_eq!(value_u64(&float), None);
    assert_eq!(value_u64(&s(" 1,024 ")), Some(1024));
    assert_eq!(value_u64(&neg(-3)), None);
    assert_eq!(value_i64(&s("-3")), Some(-3));
    assert_eq!(value_i64(&n(u64::MAX)), None);
    let v = obj(vec![("a", s("x")), ("b", s("7")), ("c", neg(-2))]);
    assert_eq!(text_key(&v, "a"), Some("x".to_string()));
    assert_eq!(count_key(&v, "b"), Some(7));
    assert_eq!(signed_key(&v, "c"), Some(-2));
    assert_eq!(count_key(&v, "missing"), None);
}

#[test]
fn bilibili_deltas_and_tones() {
    assert_eq!(format_bilibili_delta(5), Some("▲ 5".to_string()));
    assert_eq!(format_bilibili_delta(-3), Some("▼ 3".to_string()));
    assert_eq!(format_bilibili_delta(0), None);
    assert_eq!(delta_tone(0), "up");
    assert_eq!(delta_tone(-1), "down");
}

#[test]
fn bilibili_overview_metric_and_summary() {
    let data = obj(vec![("log_date", n(20240131)), ("play", n(10)), ("play_last", n(4))]);
    let spec = BiliOverviewMetricSpec { key: "views", label: "播放量", cumulative_label: "累计播放", data_key: "play" };
    let m = build_bilibili_metric(&spec, &data, false);
    assert_eq!(m.key, "views");
    assert_eq!(m.label, "播放量");
    assert_eq!(m.value, Some("10".to_string()));
    assert_eq!(m.trend, Some("▲ 6".to_string()));
    assert_eq!(m.tone, Some("up".to_string()));
    assert_eq!(m.compare_label, None);
    let cumulative = build_bilibili_metric(&spec, &obj(vec![("play", n(3))]), true);
    assert_eq!(cumulative.label, "累计播放");
    assert_eq!(cumulative.trend, None);
    assert_eq!(cumulative.tone, None);
    assert_eq!(bilibili_overview_summary(&data), Some("更新至 2024-01-31".to_string()));
    assert_eq!(bilibili_overview_summary(&obj(vec![("log_date", n(123))])), None);
}

#[test]
fn bilibili_statuses_and_badges() {
    assert_eq!(bilibili_archive_status(&obj(vec![("state", neg(-30))])), "reviewing");
    assert_eq!(bilibili_archive_status(&obj(vec![])), "published");
    assert_eq!(bilibili_archive_status(&obj(vec![("state", neg(-2))])), "draft");
    assert_eq!(bilibili_article_status(&obj(vec![("filter_group", obj(vec![("filter_type", n(1))]))])), "reviewing");
    assert_eq!(bilibili_article_status(&obj(vec![])), "published");
    let pinned_private = obj(vec![("porder", obj(vec![])), ("no_public", n(1))]);
    assert_eq!(bilibili_video_badges(&pinned_private), vec!["置顶", "仅自己可见"]);
    assert_eq!(bilibili_video_badges(&obj(vec![("porder", JsonValue::Null), ("state_desc", s("已发布"))])), vec!["已发布"]);
    let group = obj(vec![("filter_group", obj(vec![("reason", s("违规")), ("timing_waiting_pub", s("1"))]))]);
    assert_eq!(bilibili_article_badges(&group), vec!["违规", "定时发布"]);
    let approved = obj(vec![("filter_group", obj(vec![("reason", s("审核通过")), ("timing_waiting_pub", s("0"))]))]);
    assert!(bilibili_article_badges(&approved).is_empty());
}

#[test]
fn bilibili_responses_and_pages() {
    assert!(bilibili_response_success(&obj(vec![("code", n(0))])));
    assert!(!bilibili_response_success(&obj(vec![])));
    assert_eq!(bilibili_error_message(&obj(vec![("message", s("bad"))]), "失败"), "失败: bad");
    assert_eq!(bilibili_error_message(&obj(vec![("message", s(" 0 "))]), "失败"), "失败");
    assert_eq!(bilibili_page_number(" 3 "), 3);
    assert_eq!(bilibili_page_number("0"), 1);
    assert_eq!(bilibili_page_number("x"), 1);
    assert_eq!(first_bilibili_mid(&obj(vec![("mid", n(42))])), Some("42".to_string()));
    assert_eq!(first_bilibili_mid(&obj(vec![("uid", s(" abc "))])), Some("abc".to_string()));
    assert_eq!(first_bilibili_mid(&obj(vec![("mid", neg(-1))])), None);
    assert_eq!(BiliWorkKind::from_option(Some(" opus ")), BiliWorkKind::Article);
    assert_eq!(BiliWorkKind::from_option(None).as_str(), "video");
}

#[test]
fn bilibili_work_metrics() {
    let item = obj(vec![(
        "display_fields",
        arr(vec![obj(vec![("desc", s("播放")), ("name", s("play")), ("value", n(9))]), obj(vec![("name", s("x"))])]),
    )]);
    let m = video_work_metrics(&item, None);
    assert_eq!(m.len(), 1);
    assert_eq!((m[0].key.as_str(), m[0].label.as_str(), m[0].value.as_deref()), ("play", "播放", Some("9")));
    let stat = obj(vec![("view", n(100)), ("like", s("7"))]);
    let fallback = video_work_metrics(&obj(vec![]), Some(&stat));
    assert_eq!(fallback.len(), 7);
    assert_eq!(fallback[0].value.as_deref(), Some("100"));
    assert_eq!(fallback[1].value.as_deref(), Some("7"));
    assert_eq!(fallback[2].value, None);
    let article = article_work_metrics(None);
    assert_eq!(article.iter().map(|m| m.label.as_str()).collect::<Vec<_>>(), vec!["浏览", "点赞", "评论", "收藏", "硬币"]);
    assert!(article.iter().all(|m| m.value.is_none()));
}

#[test]
fn bilibili_image_hosts() {
    assert!(is_bilibili_image_host("https://i0.HDSLB.com/x.jpg"));
    assert!(!is_bilibili_image_host("https://example.com/x.jpg"));
    assert!(!is_bilibili_image_host("not a url"));
    assert_eq!(bilibili_cover_thumbnail_url("//i0.hdslb.com/a.jpg".to_string()), "https://i0.hdslb.com/a.jpg@156w_98h_1c.webp");
    assert_eq!(bilibili_cover_thumbnail_url("http://i0.hdslb.com/a.jpg@100w".to_string()), "https://i0.hdslb.com/a.jpg@100w");
    assert_eq!(bilibili_cover_thumbnail_url("https://example.com/a.jpg".to_string()), "https://example.com/a.jpg");
}

#[test]
fn image_addresses() {
    assert_eq!(normalize_image_url(" //a.com/x ".to_string()), "https://a.com/x");
    assert_eq!(normalize_platform_image_url("xhs", "http://a.com/x".to_string()), "https://a.com/x");
    assert_eq!(normalize_platform_image_url("xiaohongshu", "/abc.jpg".to_string()), "https://img.xiaohongshu.com/abc.jpg");
    assert_eq!(normalize_platform_image_url("douyin", "/abc".to_string()), "/abc");
    assert_eq!(normalize_platform_image_url("douyin", "http://a.com/x".to_string()), "http://a.com/x");
    assert!(should_materialize_avatar("bilibili", "https://x/a.png"));
    assert!(!should_materialize_avatar("douyin", "https://x/a.png"));
    assert!(!should_materialize_avatar("bilibili", "  data:image/png;base64,AA"));
    assert!(!should_materialize_avatar("unknown", "https://x/a.png"));
}

#[test]
fn image_types() {
    assert_eq!(avatar_mime_type(Some(" IMAGE/PNG ; charset=x"), &[]), "image/png");
    assert_eq!(avatar_mime_type(None, &[0x89, b'P', b'N', b'G', b'\r', b'\n', 0x1A, b'\n', 0]), "image/png");
    assert_eq!(avatar_mime_type(None, b"GIF89a..."), "image/gif");
    assert_eq!(avatar_mime_type(None, b"RIFF\0\0\0\0WEBPVP8"), "image/webp");
    assert_eq!(avatar_mime_type(Some("text/html"), &[0xFF, 0xD8, 0xFF, 0]), "image/jpeg");
    assert_eq!(avatar_mime_type(None, b"??"), "image/jpeg");
}

#[test]
fn profile_images_found_at_depth() {
    let keys = ["avatar", "face"];
    assert_eq!(first_profile_image(&obj(vec![("face", s("f.png"))]), &keys), Some("f.png".to_string()));
    let nested = obj(vec![("avatar", obj(vec![("url_list", arr(vec![s("u.png")]))]))]);
    assert_eq!(string_from_image_value(&nested, &keys), None);
    assert_eq!(first_profile_image(&obj(vec![("avatar", obj(vec![("url", s("a.png"))]))]), &keys), Some("a.png".to_string()));
    assert_eq!(first_profile_image(&arr(vec![n(1), obj(vec![("user", obj(vec![("face", s("deep.png"))]))])]), &keys), Some("deep.png".to_string()));
    assert_eq!(first_profile_image(&n(1), &keys), None);
}

#[test]
fn loose_flags_and_texts() {
    assert_eq!(value_to_bool(&s(" Yes ")), Some(true));
    assert_eq!(value_to_bool(&s("0")), Some(false));
    assert_eq!(value_to_bool(&s("maybe")), None);
    assert_eq!(value_to_bool(&n(2)), Some(true));
    assert_eq!(value_to_text(&s("  ")), None);
    assert_eq!(value_to_text(&JsonValue::Bool(true)), None);
    assert_eq!(first_bool_deep(&obj(vec![("a", obj(vec![("top", s("true"))]))]), &["top"]), Some(true));
    assert_eq!(first_string_or_number_deep(&obj(vec![("id", n(77))]), &["id"]), Some("77".to_string()));
    let mut badges = vec!["置顶".to_string()];
    push_unique_badge(&mut badges, " 置顶 ".to_string());
    push_unique_badge(&mut badges, "  ".to_string());
    push_unique_badge(&mut badges, " 公开".to_string());
    assert_eq!(badges, vec!["置顶", "公开"]);
}

#[test]
fn douyin_visibility_and_badges() {
    assert_eq!(visibility_label("公开"), Some("公开".to_string()));
    assert_eq!(visibility_label("Private"), Some("仅自己可见".to_string()));
    assert_eq!(visibility_label("2"), Some("好友可见".to_string()));
    assert_eq!(visibility_label(" "), None);
    assert_eq!(visibility_label("abcdefghijklm"), None);
    assert_eq!(visibility_label("自定义"), Some("自定义".to_string()));
    let work = obj(vec![("is_top", n(1)), ("visibility", n(1))]);
    assert_eq!(douyin_visibility_badge(&work), Some("仅自己可见".to_string()));
    assert_eq!(douyin_work_badges(&work), vec!["置顶", "仅自己可见"]);
    let labelled = obj(vec![("tag_text", s("置顶")), ("is_top", JsonValue::Bool(true))]);
    assert_eq!(douyin_work_badges(&labelled), vec!["置顶"]);
}

#[test]
fn douyin_work_types() {
    assert_eq!(douyin_work_type(&obj(vec![("media_type", n(2))])), Some("article".to_string()));
    assert_eq!(douyin_work_type(&obj(vec![("media_type", n(9))])), None);
    assert_eq!(douyin_work_type(&obj(vec![("aweme_type", n(4))])), Some("video".to_string()));
    assert_eq!(douyin_work_type(&obj(vec![("picture_count", s("3"))])), Some("article".to_string()));
    assert_eq!(douyin_work_type(&obj(vec![("picture_info", obj(vec![("count", n(2))]))])), Some("article".to_string()));
    assert_eq!(douyin_work_type(&obj(vec![("video", obj(vec![]))])), Some("video".to_string()));
    assert_eq!(douyin_work_type(&obj(vec![])), None);
}

#[test]
fn douyin_responses_and_metrics() {
    assert!(douyin_response_success(&obj(vec![])));
    assert!(!douyin_response_success(&obj(vec![("status_code", n(8))])));
    assert_eq!(douyin_error_message(&obj(vec![("data", obj(vec![("status_msg", s("登录失效"))]))]), "失败"), "登录失效");
    assert_eq!(douyin_error_message(&obj(vec![("status_msg", s(" "))]), "失败"), "失败");
    let m = douyin_count_value_metric("play", "播放", Some(12));
    assert_eq!((m.key.as_str(), m.label.as_str(), m.value.as_deref()), ("play", "播放", Some("12")));
    assert_eq!(douyin_work_metric("k", "l", None).value, None);
    assert_eq!(first_count_optional(None, &["a"]), None);
    assert_eq!(first_count_optional(Some(&obj(vec![("a", s("1.5万"))])), &["a"]), Some(15000));
    let spec = DouyinMetricSpec::seconds("avg", "平均", "avg_view_second", Some("play_avg_time"));
    assert_eq!(spec.value_kind, DouyinMetricValueKind::Seconds);
    assert_eq!(spec.fallback_key, Some("play_avg_time"));
    assert_eq!(DouyinMetricSpec::number("a", "b", "c").fallback_key, None);
}
