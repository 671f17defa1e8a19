use channel_nest::domain::{AccountStatus, ChannelAccount, PluginAccountInfo, PluginAuthError, UtcTime};
use channel_nest::json::{JsonNumber, JsonValue};
use channel_nest::platforms::cookies::{
    has_douyin_login_cookie, has_kuaishou_creator_login_cookie_header, kuaishou_account_from_login_cookie,
    login_cookie_has_required_cookie, login_cookie_to_header, login_cookie_value, plugin_cookie_header,
    saved_cookie_header,
};
use channel_nest::platforms::kuaishou::{
    kuaishou_detail_metric_key, kuaishou_detail_metric_order, kuaishou_error_message,
    kuaishou_management_works_data, kuaishou_overview_key, kuaishou_page_number, kuaishou_response_success,
    kuaishou_value_to_bool, kuaishou_work_badges, kuaishou_work_metric, kuaishou_work_metrics,
    kuaishou_work_status, kuaishou_work_type, trim_number_text,
};
use channel_nest::platforms::plugin::{
    channel_account_from_plugin_info, first_count_from_values, normalize_match_key, plugin_account_uid,
    plugin_error_message, plugin_info_to_channel_account, plugin_profile_matches_account,
    plugin_profile_matches_account_strong, response_success,
};
use channel_nest::platforms::wechat_channels::{
    ensure_wx_success, find_value_by_key, first_list, overview_metric, response_data, value_to_text,
    wx_page_number, wx_private_status_label, wx_visibility_badge, wx_visible_type_label, wx_work_metrics,
    WxPostListSource, WxWorkKind,
};
use channel_nest::platforms::xiaohongshu::{
    any_text_contains_deep, any_truthy_deep, first_signed_direct, first_unsigned_direct, number_text,
    page_key_from_value, record_xhs_sync_result, signed_count, signed_number_text, strip_html, trend_text,
    unsigned_count, xhs_account_match_values, xhs_cookie_value, xhs_creator_api_url, xhs_creator_signature_api,
    xhs_fallback_overview_metric, xhs_fallback_overview_metrics, xhs_profile_matches_account,
    xhs_response_payload, xhs_visibility_badge, xhs_visibility_label, xhs_work_badges, XhsDatacenterMetricSpec,
    XhsFallbackMetricSpec, XhsMetricValueKind,
};

fn s(x: &str) -> JsonValue {
    JsonValue::String(x.to_string())
}

fn n(x: u64) -> JsonValue {
    JsonValue::Number(JsonNumber::PosInt(x))
}

fn neg(x: i64) -> JsonValue {
    JsonValue::Number(JsonNumber::NegInt(x))
}

fn obj(entries: Vec<(&str, JsonValue)>) -> JsonValue {
    JsonValue::Object(entries.into_iter().map(|(k, v)| (k.to_string(), v)).collect())
}

fn arr(items: Vec<JsonValue>) -> JsonValue {
    JsonValue::Array(items)
}

fn cookie_list(pairs: &[(&str, &str)]) -> JsonValue {
    arr(pairs.iter().map(|(k, v)| obj(vec![("name", s(k)), ("value", s(v))])).collect())
}

fn account(id: &str, uid: &str, nickname: &str, user_id: Option<&str>) -> ChannelAccount {
    let t = UtcTime { secs: 1_700_000_000, nanos: 0 };
    ChannelAccount {
        id: id.to_string(),
        user_id: user_id.map(|u| u.to_string()),
        platform_id: "xiaohongshu".to_string(),
        uid: uid.to_string(),
        nickname: nickname.to_string(),
        avatar: String::new(),
        followers: None,
        following: None,
        likes: None,
        status: AccountStatus::Active,
        created_at: t,
        updated_at: t,
        last_sync_at: None,
    }
}

fn profile(uid: &str, account: &str, nickname: &str) -> PluginAccountInfo {
    PluginAccountInfo {
        uid: uid.to_string(),
        account: account.to_string(),
        nickname: nickname.to_string(),
        avatar: "a.png".to_string(),
        fans_count: Some(3),
        following_count: Some(4),
        like_count: None,
        login_cookie: "c=1".to_string(),
    }
}

fn fnv(value: &str) -> u64 {
    let mut hash: u64 = 0xcbf29ce484222325;
    for byte in value.as_bytes() {
        hash = (hash ^ (*byte as u64)).wrapping_mul(0x100000001b3);
    }
    hash
}

#[test]
fn cookie_headers_from_saved_logins() {
    assert_eq!(login_cookie_to_header("  a=1; b=2 ", None), "a=1; b=2");
    let list = cookie_list(&[("a", "1"), ("b", "2")]);
    assert_eq!(login_cookie_to_header("[...]", Some(&list)), "a=1; b=2");
    let partial = arr(vec![obj(vec![("name", s("a"))]), obj(vec![("name", s("c")), ("value", s("3"))])]);
    assert_eq!(plugin_cookie_header(" [x] ", Some(&partial)), "c=3");
    assert_eq!(login_cookie_to_header("a=1", Some(&list)), "a=1");
    assert_eq!(saved_cookie_header(None, "过期", None), Err("过期".to_string()));
    assert_eq!(saved_cookie_header(Some("  "), "过期", None), Err("过期".to_string()));
    assert_eq!(saved_cookie_header(Some(" a=1 "), "过期", None), Ok(("a=1".to_string(), "a=1".to_string())));
    assert_eq!(saved_cookie_header(Some("[]"), "过期", Some(&arr(vec![]))), Err("过期".to_string()));
}

#[test]
fn cookie_values_and_login_checks() {
    assert_eq!(login_cookie_value("a=1; B = 2 ", "b", None), Some("2".to_string()));
    assert_eq!(login_cookie_value("a=1", "b", None), None);
    let list = cookie_list(&[("userId", "99"), ("kuaishou.web.cp.api_st", "st")]);
    assert_eq!(login_cookie_value("[..]", "USERID", Some(&list)), Some("99".to_string()));
    assert!(login_cookie_has_required_cookie("[..]", Some(&list)));
    assert!(!login_cookie_has_required_cookie("kuaishou.web.cp.api_st= ", None));
    assert!(has_kuaishou_creator_login_cookie_header("kuaishou.web.cp.api_st=abc; userId=1"));
    assert!(!has_kuaishou_creator_login_cookie_header("userId=1"));
    assert!(!has_kuaishou_creator_login_cookie_header("kuaishou.web.cp.api_st="));
    assert!(has_douyin_login_cookie("sessionid=abc; x=1", None));
    assert!(!has_douyin_login_cookie("x=1; sessionid= ", None));
    let douyin = cookie_list(&[("SESSIONID", "v")]);
    assert!(has_douyin_login_cookie("[{}]", Some(&douyin)));
}

#[test]
fn kuaishou_account_from_cookie() {
    let a = kuaishou_account_from_login_cookie("kuaishou.web.cp.api_st=s; userId= 123456 ", None).unwrap();
    assert_eq!(a.uid, "123456");
    assert_eq!(a.account, "123456");
    assert_eq!(a.nickname, "快手账号 3456");
    assert_eq!(a.avatar, "");
    assert_eq!(a.login_cookie, "kuaishou.web.cp.api_st=s; userId= 123456 ");
    let b = kuaishou_account_from_login_cookie("kuaishou.web.cp.api_st=s; bUserId=7", None).unwrap();
    assert_eq!(b.nickname, "快手账号 7");
    assert!(kuaishou_account_from_login_cookie("userId=1", None).is_none());
    assert!(kuaishou_account_from_login_cookie("kuaishou.web.cp.api_st=s", None).is_none());
}

#[test]
fn kuaishou_badges_sorted_without_repeats() {
    let item = obj(vec![
        ("photoStatusTags", arr(vec![obj(vec![("tagText", s("b"))]), obj(vec![("tagText", s("a"))]), obj(vec![("tagText", s("a"))]), obj(vec![("tagText", s(" "))])])),
        ("photoTop", JsonValue::Bool(true)),
        ("photoStatus", n(1)),
        ("publishStatus", n(10)),
        ("bonusDesc", s("a")),
    ]);
    assert_eq!(kuaishou_work_badges(&item), vec!["a", "b", "审核中", "私密", "置顶"]);
    assert!(kuaishou_work_badges(&obj(vec![])).is_empty());
    assert_eq!(kuaishou_work_status(&["审核中".to_string()]), "reviewing");
    assert_eq!(kuaishou_work_status(&["发布失败".to_string(), "审核中".to_string()]), "failed");
    assert_eq!(kuaishou_work_status(&["草稿".to_string()]), "draft");
    assert_eq!(kuaishou_work_status(&[]), "published");
}

#[test]
fn kuaishou_keys_and_responses() {
    assert_eq!(kuaishou_overview_key("PLAY", ""), "play");
    assert_eq!(kuaishou_overview_key("", "累计粉丝"), "netFollowers");
    assert_eq!(kuaishou_overview_key("X", "其他"), "metric");
    assert_eq!(kuaishou_detail_metric_key("FPR", ""), "completionRate");
    assert_eq!(kuaishou_detail_metric_key("", "收藏数"), "collect");
    assert_eq!(kuaishou_detail_metric_order("like"), 6);
    assert_eq!(kuaishou_detail_metric_order("x"), 99);
    let nested = obj(vec![("data", obj(vec![("data", obj(vec![("list", arr(vec![n(1)]))]))]))]);
    assert!(matches!(kuaishou_management_works_data(&nested), Some(JsonValue::Object(es)) if es[0].0 == "list"));
    assert!(kuaishou_management_works_data(&obj(vec![("list", n(1))])).is_none());
    assert!(kuaishou_response_success(&obj(vec![("result", n(1))])));
    assert!(!kuaishou_response_success(&obj(vec![])));
    assert_eq!(kuaishou_error_message(&obj(vec![("result", n(109))]), "失败"), "失败: 109");
    assert_eq!(kuaishou_error_message(&obj(vec![("data", obj(vec![("tips", s("稍后再试"))]))]), "失败"), "稍后再试");
    assert_eq!(kuaishou_error_message(&obj(vec![]), "失败"), "失败");
    assert_eq!(kuaishou_page_number("-1"), 0);
    assert_eq!(kuaishou_page_number(" 2 "), 2);
    assert_eq!(trim_number_text("12.50"), "12.5");
    assert_eq!(trim_number_text("3.00"), "3");
    assert_eq!(trim_number_text("100"), "1");
    assert_eq!(kuaishou_value_to_bool(&neg(-1)), Some(true));
    assert_eq!(kuaishou_work_type(&obj(vec![("video", JsonValue::Bool(false))])), Some("article".to_string()));
    assert_eq!(kuaishou_work_type(&obj(vec![("type", n(1))])), Some("video".to_string()));
    assert_eq!(kuaishou_work_type(&obj(vec![("type", n(3))])), None);
    let metrics = kuaishou_work_metrics(Some(1), None, Some(3), Some("50%".to_string()), Some(-2), None);
    assert_eq!(metrics.iter().map(|m| m.value.clone()).collect::<Vec<_>>(),
        vec![Some("1".to_string()), None, Some("3".to_string()), Some("50%".to_string()), Some("-2".to_string()), None]);
    assert_eq!(kuaishou_work_metric("k", "l", None).key, "k");
}

#[test]
fn wechat_kinds_and_requests() {
    assert_eq!(WxWorkKind::from_option(Some("newlife")), WxWorkKind::Article);
    assert_eq!(WxWorkKind::from_option(Some("x")), WxWorkKind::Video);
    assert_eq!(WxWorkKind::Article.userpage_type(), 10);
    assert_eq!(WxWorkKind::Video.views_label(), "播放");
    assert!(!WxWorkKind::Article.includes_play_metrics());
    assert_eq!(WxWorkKind::Article.as_str(), "article");
    let card = WxPostListSource::LatestCard.request_config(WxWorkKind::Video);
    assert_eq!(card.page_size, 5);
    assert!(!card.sticky_order);
    let tab = WxPostListSource::WorksTab.request_config(WxWorkKind::Article);
    assert_eq!(tab.referer, "https://channels.weixin.qq.com/micro/content/post/finderNewLifePostList");
    assert_eq!(tab.url(), "https://channels.weixin.qq.com/micro/content/cgi-bin/mmfinderassistant-bin/post/post_list?_pageUrl=https:%2F%2Fchannels.weixin.qq.com%2Fmicro%2Fcontent%2Fpost%2FfinderNewLifePostList");
}

#[test]
fn wechat_responses() {
    assert_eq!(ensure_wx_success(&obj(vec![("errCode", n(0))]), "失败"), Ok(()));
    assert_eq!(ensure_wx_success(&obj(vec![("errCode", n(300334))]), "失败"), Err("视频号登录已过期，请重新登录。".to_string()));
    assert_eq!(ensure_wx_success(&obj(vec![("errCode", n(5)), ("errMsg", s("请登录"))]), "失败"), Err("视频号登录已过期，请重新登录。".to_string()));
    assert_eq!(ensure_wx_success(&obj(vec![("errCode", neg(-5)), ("errMsg", s("bad"))]), "失败"), Err("bad (-5)".to_string()));
    assert_eq!(ensure_wx_success(&obj(vec![("code", n(7))]), "失败"), Err("失败 (7)".to_string()));
    assert!(response_data(&obj(vec![("data", JsonValue::Null), ("resp", obj(vec![]))])).is_none());
    assert!(response_data(&obj(vec![("resp", obj(vec![]))])).is_some());
    let m = overview_metric("fans", "粉丝", None);
    assert_eq!(m.value, Some("-".to_string()));
    assert_eq!(overview_metric("fans", "粉丝", Some(-4)).value, Some("-4".to_string()));
    let deep = obj(vec![("a", arr(vec![obj(vec![("b", n(1))])]))]);
    assert!(matches!(find_value_by_key(&deep, "b"), Some(JsonValue::Number(JsonNumber::PosInt(1)))));
    assert!(find_value_by_key(&deep, "c").is_none());
    assert_eq!(value_to_text(&JsonValue::Bool(false)), Some("false".to_string()));
    assert_eq!(wx_page_number("0"), 1);
    let listed = obj(vec![("x", n(1)), ("y", obj(vec![("list", arr(vec![n(7), n(8)]))]))]);
    assert_eq!(first_list(&listed, &["list"]).len(), 2);
    assert_eq!(first_list(&arr(vec![n(1)]), &["list"]).len(), 1);
    assert!(first_list(&n(1), &["list"]).is_empty());
}

#[test]
fn wechat_visibility_and_metrics() {
    assert_eq!(wx_visible_type_label("2"), Some("关注可见".to_string()));
    assert_eq!(wx_visible_type_label("follow only"), Some("关注可见".to_string()));
    assert_eq!(wx_private_status_label("true"), Some("仅自己可见".to_string()));
    assert_eq!(wx_private_status_label("0"), Some("公开".to_string()));
    assert_eq!(wx_visibility_badge(&obj(vec![("visibleType", n(3))])), Some("仅自己可见".to_string()));
    assert_eq!(wx_visibility_badge(&obj(vec![("inner", obj(vec![("privateStatus", JsonValue::Bool(true))]))])), Some("仅自己可见".to_string()));
    assert_eq!(wx_visibility_badge(&obj(vec![])), None);
    let article = wx_work_metrics(WxWorkKind::Article, Some(1), None, None, None, None, None, None);
    assert_eq!(article.len(), 5);
    assert_eq!(article[0].label, "阅读");
    assert_eq!(article[1].value, Some("-".to_string()));
    let video = wx_work_metrics(WxWorkKind::Video, None, None, None, None, None, Some("50%".to_string()), None);
    assert_eq!(video.len(), 7);
    assert_eq!(video[5].value, Some("50%".to_string()));
    assert_eq!(video[6].value, Some("-".to_string()));
}

#[test]
fn xiaohongshu_payloads_and_addresses() {
    let v = obj(vec![("data", JsonValue::Null)]);
    assert!(matches!(xhs_response_payload(&v), Some(JsonValue::Object(_))));
    let w = obj(vec![("data", n(1))]);
    assert!(matches!(xhs_response_payload(&w), Some(JsonValue::Number(_))));
    let mut errors = Vec::new();
    assert!(record_xhs_sync_result("笔记", Err("超时".to_string()), &mut errors).is_none());
    assert!(record_xhs_sync_result("粉丝", Ok(Some(n(1))), &mut errors).is_some());
    assert_eq!(errors, vec!["笔记: 超时"]);
    assert_eq!(xhs_creator_api_url("https://x/api", &[("a", "1 2"), ("b", "c")]), "https://x/api?a=1+2&b=c");
    assert_eq!(xhs_creator_api_url("https://x/api", &[]), "https://x/api");
    assert_eq!(xhs_creator_signature_api("https://edith.xiaohongshu.com/api/x?a=1"), Ok("/api/x?a=1".to_string()));
    assert_eq!(xhs_creator_signature_api("https://edith.xiaohongshu.com/api/x?"), Ok("/api/x".to_string()));
    assert_eq!(xhs_creator_signature_api("bad"), Err("小红书创作中心接口 URL 无效: relative URL without a base".to_string()));
}

#[test]
fn xiaohongshu_counts_and_trends() {
    let note = obj(vec![("view_count", s("1.2万")), ("view_count_rate", n(5)), ("like_count", n(3)), ("like_count_rate", neg(-2)), ("comment_count_rate", s("0"))]);
    assert_eq!(unsigned_count(&note, "view_count"), Some(12000));
    assert_eq!(signed_count(&note, "like_count_rate"), Some(-2));
    assert_eq!(signed_count(&obj(vec![("x", s(" 4 "))]), "x"), Some(4));
    assert_eq!(trend_text(&note, "view_count_rate"), Some("+5%".to_string()));
    assert_eq!(trend_text(&note, "like_count_rate"), Some("-2%".to_string()));
    assert_eq!(trend_text(&note, "comment_count_rate"), Some("-".to_string()));
    assert_eq!(number_text(7), "7");
    assert_eq!(signed_number_text(-7), "-7");
    let spec = XhsFallbackMetricSpec::note_count("views", "观看数", "view_count", "view_count_rate");
    let m = xhs_fallback_overview_metric(Some(&note), &spec, None, None, None);
    assert_eq!(m.value, Some("12000".to_string()));
    assert_eq!(m.trend, Some("+5%".to_string()));
    assert_eq!(m.tone, Some("up".to_string()));
    assert_eq!(m.compare_label, Some("环比".to_string()));
    let fans = obj(vec![("rise_fans_count", n(10)), ("leave_fans_count", n(4))]);
    let all = xhs_fallback_overview_metrics(Some(&note), Some(&fans));
    assert_eq!(all.len(), 12);
    assert_eq!(all[0].value, None);
    assert_eq!(all[4].value, Some("6".to_string()));
    assert_eq!(all[5].value, Some("10".to_string()));
    assert_eq!(all[10].value, Some("4".to_string()));
    assert_eq!(all[2].tone, Some("down".to_string()));
    let only_rise = xhs_fallback_overview_metrics(None, Some(&obj(vec![("rise_fans_count", n(3))])));
    assert_eq!(only_rise[4].value, Some("3".to_string()));
    assert_eq!(XhsFallbackMetricSpec::empty("a", "b").value_key, None);
    assert_eq!(XhsDatacenterMetricSpec::percent("a", "b", "c", "d", "e").value_kind, XhsMetricValueKind::Percent);
}

#[test]
fn xiaohongshu_badges_and_text() {
    assert_eq!(xhs_visibility_label("仅自己可见"), Some("仅自己可见".to_string()));
    assert_eq!(xhs_visibility_label("3"), Some("好友可见".to_string()));
    assert_eq!(xhs_visibility_label("其他"), None);
    assert_eq!(xhs_visibility_label("部分可见"), Some("部分可见".to_string()));
    assert_eq!(xhs_visibility_badge(&obj(vec![("privacy", obj(vec![("permission", JsonValue::Bool(true))]))])), None);
    assert_eq!(xhs_visibility_badge(&obj(vec![("permission", n(1))])), Some("仅自己可见".to_string()));
    assert!(any_truthy_deep(&arr(vec![obj(vec![("sticky", s("yes"))])]), &["sticky"]));
    assert!(!any_truthy_deep(&obj(vec![("sticky", n(0))]), &["sticky"]));
    assert!(any_text_contains_deep(&obj(vec![("a", obj(vec![("label", s("已置顶"))]))]), &["label"], "置顶"));
    assert_eq!(xhs_work_badges(&obj(vec![("tagName", s("置顶笔记")), ("visibility", s("公开"))])), vec!["置顶", "公开"]);
    assert_eq!(xhs_work_badges(&obj(vec![])), Vec::<String>::new());
    assert_eq!(strip_html("<b>hi</b> there "), "hi there");
    assert_eq!(strip_html("a > b < c"), "a  b");
    assert_eq!(page_key_from_value(&n(5)), Some("5".to_string()));
    assert_eq!(page_key_from_value(&s("abc")), Some("abc".to_string()));
    assert_eq!(page_key_from_value(&JsonValue::Null), None);
    let a = obj(vec![("x", s("n/a"))]);
    let b = obj(vec![("x", s("12"))]);
    assert_eq!(first_unsigned_direct(&[None, Some(&a), Some(&b)], &["x"]), Some(12));
    assert_eq!(first_signed_direct(&[Some(&b)], &["y", "x"]), Some(12));
}

#[test]
fn xiaohongshu_cookies_and_matching() {
    let list = cookie_list(&[("a1", "from-json")]);
    assert_eq!(xhs_cookie_value("[..]", "a1=from-header", "a1", Some(&list)), Some("from-json".to_string()));
    assert_eq!(xhs_cookie_value("a1=x", " web_session=1; a1 = v ", "a1", None), Some("v".to_string()));
    assert_eq!(xhs_cookie_value("a1=x", "A1=v", "a1", None), None);
    let acct = account("xhs_abc_web", "UID1", "Nick", Some("u"));
    assert_eq!(xhs_account_match_values(&acct), vec!["uid1", "nick", "xhs_abc_web", "uid1", "nick", "abc"]);
    assert!(xhs_profile_matches_account(&profile("", "ABC", ""), &acct));
    assert!(!xhs_profile_matches_account(&profile("zzz", "", ""), &acct));
}

#[test]
fn plugin_profiles_and_accounts() {
    assert_eq!(normalize_match_key("  AbC "), "abc");
    assert_eq!(plugin_error_message(&PluginAuthError::Failed("x".to_string())), "x");
    assert_eq!(plugin_account_uid(&profile(" ", "acc", "n")), "acc");
    assert_eq!(plugin_account_uid(&profile("u1", "acc", "n")), "u1");
    let acct = account("id-1", "u1", "Nick", None);
    assert!(plugin_profile_matches_account(&profile("", "", " nick "), &acct));
    assert!(!plugin_profile_matches_account_strong(&profile("", "", " nick "), &acct));
    assert!(plugin_profile_matches_account_strong(&profile("U1", "", ""), &acct));
    assert!(response_success(&obj(vec![("success", JsonValue::Bool(false)), ("code", n(0))])) == false);
    assert!(response_success(&obj(vec![("code", n(0))])));
    assert!(!response_success(&obj(vec![("errcode", n(3))])));
    assert_eq!(first_count_from_values(&[None, Some(&obj(vec![("fans", s("2k"))]))], &["fans"]), Some(2000));
    let now = UtcTime { secs: 10, nanos: 5 };
    let made = channel_account_from_plugin_info("xhs", &profile("u9", "acc", "昵称"), now);
    assert_eq!(made.platform_id, "xiaohongshu");
    assert_eq!(made.id, format!("xiaohongshu_{:016x}", fnv("xiaohongshu:u9:昵称")));
    assert_eq!(made.uid, "u9");
    assert_eq!(made.followers, Some(3));
    assert_eq!(made.following, Some(4));
    assert_eq!(made.status, AccountStatus::Active);
    assert_eq!(made.last_sync_at, Some(now));
    let live = plugin_info_to_channel_account("douyin", &profile("", "acc", "n"));
    assert_eq!(live.uid, "acc");
    assert_eq!(live.created_at, live.updated_at);
}
