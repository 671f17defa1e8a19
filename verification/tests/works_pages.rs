use channel_nest::domain::{PluginAccountInfo, PluginAuthError, UtcTime};
use channel_nest::json::{JsonNumber, JsonValue};
use channel_nest::platforms::plugin::cookie_login_precheck;
use channel_nest::platforms::xhs_content::{apply_note_base_to_work, xhs_account_content, xhs_latest_works, xhs_period_overview};
use channel_nest::platforms::xiaohongshu::parse_xhs_work;
use channel_nest::works::{
    bilibili_article_works_page, bilibili_video_works_page, kuaishou_management_items, kuaishou_management_works_page,
    xhs_works_page,
};

fn s(x: &str) -> JsonValue {
    JsonValue::String(x.to_string())
}

fn n(x: u64) -> JsonValue {
    JsonValue::Number(JsonNumber::PosInt(x))
}

fn obj(entries: Vec<(&str, JsonValue)>) -> JsonValue {
    JsonValue::Object(entries.into_iter().map(|(k, v)| (k.to_string(), v)).collect())
}

fn arr(items: Vec<JsonValue>) -> JsonValue {
    JsonValue::Array(items)
}

fn now() -> UtcTime {
    UtcTime { secs: 1_700_000_000, nanos: 0 }
}

#[test]
fn xiaohongshu_works_page() {
    let value = obj(vec![
        ("success", JsonValue::Bool(true)),
        (
            "data",
            obj(vec![
                ("notes", arr(vec![obj(vec![("id", s("n1")), ("title", s("第一篇"))]), obj(vec![("title", s("无编号"))])])),
                ("page", n(2)),
            ]),
        ),
    ]);
    let page = xhs_works_page(&value, "acc", " 1 ", now()).unwrap();
    assert_eq!(page.works.len(), 1);
    assert_eq!(page.works[0].id, "xiaohongshu-list-n1");
    assert_eq!(page.page_key, " 1 ");
    assert!(page.has_more);
    assert_eq!(page.next_page_key.as_deref(), Some("2"));
    let last = obj(vec![("success", JsonValue::Bool(true)), ("data", obj(vec![("notes", arr(vec![])), ("page", s("-1"))]))]);
    let page = xhs_works_page(&last, "acc", "", now()).unwrap();
    assert!(!page.has_more);
    assert_eq!(page.next_page_key, None);
    let refused = obj(vec![("success", JsonValue::Bool(false)), ("msg", s("登录已过期"))]);
    assert_eq!(xhs_works_page(&refused, "acc", "", now()).unwrap_err(), "登录已过期");
    let refused = obj(vec![("code", n(5))]);
    assert_eq!(xhs_works_page(&refused, "acc", "", now()).unwrap_err(), "小红书作品列表同步失败");
}

#[test]
fn bilibili_video_page() {
    let value = obj(vec![
        ("code", n(0)),
        (
            "data",
            obj(vec![
                ("arc_audits", arr(vec![obj(vec![("Archive", obj(vec![("aid", n(7)), ("bvid", s("BV1x")), ("title", s("视频"))]))])])),
                ("page", obj(vec![("count", n(25))])),
            ]),
        ),
    ]);
    let page = bilibili_video_works_page(&value, "acc", 2, now()).unwrap();
    assert_eq!(page.works.len(), 1);
    assert_eq!(page.works[0].id, "bilibili-video-BV1x");
    assert_eq!(page.page_key, "2");
    assert_eq!(page.work_type.as_deref(), Some("video"));
    assert!(page.has_more);
    assert_eq!(page.next_page_key.as_deref(), Some("3"));
    let page = bilibili_video_works_page(&value, "acc", 3, now()).unwrap();
    assert!(!page.has_more);
    assert_eq!(page.next_page_key, None);
    let refused = obj(vec![("code", JsonValue::Number(JsonNumber::NegInt(-101))), ("message", s("账号未登录"))]);
    assert!(bilibili_video_works_page(&refused, "acc", 1, now()).is_err());
    let no_total = obj(vec![("code", n(0)), ("data", obj(vec![("archives", arr(vec![]))]))]);
    assert!(!bilibili_video_works_page(&no_total, "acc", 1, now()).unwrap().has_more);
}

#[test]
fn bilibili_article_page() {
    let value = obj(vec![
        ("code", n(0)),
        ("data", obj(vec![("items", arr(vec![obj(vec![("dyn_id", s("99")), ("title", s("图文"))])])), ("has_more", JsonValue::Bool(true))])),
    ]);
    let page = bilibili_article_works_page(&value, "acc", 1, now()).unwrap();
    assert_eq!(page.works[0].id, "bilibili-article-99");
    assert!(page.has_more);
    assert_eq!(page.work_type.as_deref(), Some("article"));
    let by_total = obj(vec![("code", n(0)), ("data", obj(vec![("items", arr(vec![])), ("total", n(10))]))]);
    assert!(!bilibili_article_works_page(&by_total, "acc", 1, now()).unwrap().has_more);
    let err = obj(vec![("code", n(1)), ("message", s("失败原因"))]);
    assert_eq!(bilibili_article_works_page(&err, "acc", 1, now()).unwrap_err(), "B 站图文列表读取失败: 失败原因");
}

#[test]
fn kuaishou_management_page() {
    let value = obj(vec![
        ("result", n(1)),
        (
            "data",
            obj(vec![
                ("list", arr(vec![obj(vec![("photoId", s("p1")), ("title", s("作品"))]), obj(vec![("title", s("缺编号"))])])),
                ("nextCursor", s(" 123 ")),
            ]),
        ),
    ]);
    assert_eq!(kuaishou_management_items(&value).len(), 2);
    let extras = vec![(Some("50%".to_string()), Some(3), None), (None, None, None)];
    let page = kuaishou_management_works_page(&value, "acc", " 0 ", &extras, now()).unwrap();
    assert_eq!(page.works.len(), 1);
    assert_eq!(page.works[0].id, "p1");
    assert_eq!(page.works[0].gained_followers, Some(3));
    assert_eq!(page.page_key, "0");
    assert_eq!(page.next_page_key.as_deref(), Some("123"));
    assert!(page.has_more);
    let done = obj(vec![("list", arr(vec![])), ("nextCursor", s("no_more"))]);
    let page = kuaishou_management_works_page(&done, "acc", "", &vec![], now()).unwrap();
    assert!(!page.has_more);
    let refused = obj(vec![("result", n(109)), ("message", s("请登录"))]);
    assert_eq!(kuaishou_management_works_page(&refused, "acc", "", &vec![], now()).unwrap_err(), "请登录");
}

#[test]
fn note_data_fills_work() {
    let mut work = parse_xhs_work(&obj(vec![("id", s("n1")), ("likes", n(3))]), "acc", "latest").unwrap();
    let detail = obj(vec![
        ("viewData", obj(vec![("viewCount", n(100)), ("implCount", n(1000))])),
        ("fansData", obj(vec![("riseFansCount", n(4))])),
        ("likes", n(9)),
        ("dataLastUpdateTime", n(1_700_000_000)),
    ]);
    apply_note_base_to_work(&mut work, Some(&detail), Some("12.5%".to_string()), None);
    assert_eq!(work.views, Some(100));
    assert_eq!(work.impressions, Some(1000));
    assert_eq!(work.likes, Some(9));
    assert_eq!(work.gained_followers, Some(4));
    assert_eq!(work.cover_click_rate.as_deref(), Some("12.5%"));
    assert_eq!(work.avg_view_time, None);
    assert_eq!(work.data_updated_at, Some(UtcTime { secs: 1_700_000_000, nanos: 0 }));
    let before = work.views;
    apply_note_base_to_work(&mut work, None, Some("x".to_string()), None);
    assert_eq!(work.views, before);
    assert_eq!(work.cover_click_rate.as_deref(), Some("12.5%"));
}

fn profile() -> PluginAccountInfo {
    PluginAccountInfo {
        uid: "r1".to_string(),
        account: "r1".to_string(),
        nickname: "小红".to_string(),
        avatar: String::new(),
        fans_count: Some(5),
        following_count: Some(6),
        like_count: Some(7),
        login_cookie: String::new(),
    }
}

#[test]
fn xiaohongshu_board() {
    let info = obj(vec![("id", s("n1")), ("title", s("最新"))]);
    let detail = obj(vec![("seven", obj(vec![("viewCount", n(70))])), ("thirty", obj(vec![("viewCount", n(300))]))]);
    let works = xhs_latest_works(
        Some(&info),
        None,
        None,
        Some(&detail),
        "acc",
        (None, None),
        (None, None),
        (None, Some("8秒".to_string())),
        (None, None),
    );
    assert_eq!(works.0.as_ref().unwrap().views, None);
    assert_eq!(works.1.as_ref().unwrap().views, Some(70));
    assert_eq!(works.1.as_ref().unwrap().avg_view_time.as_deref(), Some("8秒"));
    assert_eq!(works.2.as_ref().unwrap().views, Some(300));
    let none = xhs_latest_works(None, None, None, Some(&detail), "acc", (None, None), (None, None), (None, None), (None, None));
    assert!(none.0.is_none() && none.1.is_none() && none.2.is_none());

    let fans = obj(vec![("seven", obj(vec![("rise_fans_count", n(10)), ("leave_fans_count", n(4))]))]);
    let seven = xhs_period_overview("acc", 7, None, Some(&detail), Some(&fans), None, now());
    assert_eq!(seven.metrics[4].value.as_deref(), Some("6"));
    assert_eq!(seven.period_days, 7);

    let content = xhs_account_content("acc", &profile(), None, None, Some(&detail), Some(&fans), &vec![], works, None, None, now()).unwrap();
    assert_eq!(content.profile.unwrap().followers, Some(5));
    assert_eq!(content.overview_seven.unwrap().metrics[4].value.as_deref(), Some("6"));
    assert_eq!(content.overview_thirty.unwrap().period_days, 30);
    assert_eq!(content.latest_work_thirty.unwrap().views, Some(300));

    let empty = (None, None, None);
    let errors = vec!["账号数据: 超时".to_string(), "最新笔记: 超时".to_string()];
    assert_eq!(
        xhs_account_content("acc", &profile(), None, None, None, None, &errors, empty, None, None, now()).unwrap_err(),
        "账号数据: 超时；最新笔记: 超时"
    );
    assert_eq!(
        xhs_account_content("acc", &profile(), None, None, None, None, &vec![], (None, None, None), None, None, now()).unwrap_err(),
        "小红书创作中心没有返回可用数据"
    );
}

#[test]
fn cookie_login_prechecks() {
    match cookie_login_precheck("xhs", " ", "a=1", Some("home"), None) {
        Some(PluginAuthError::NotLoggedIn(m)) => assert_eq!(m, "请先在打开的小红书主页完成登录。"),
        other => panic!("unexpected {:?}", other),
    }
    match cookie_login_precheck("wechat-channels", "a=1; b=2", "a=1", None, None) {
        Some(PluginAuthError::NotLoggedIn(m)) => assert_eq!(m, "请先在打开的视频号窗口完成登录。"),
        other => panic!("unexpected {:?}", other),
    }
    assert!(cookie_login_precheck("wechat-channels", "a=1; SessionId=2", "a=1", None, None).is_none());
    match cookie_login_precheck("douyin", "ttwid=1", "ttwid=1", None, None) {
        Some(PluginAuthError::NotLoggedIn(m)) => assert_eq!(m, "请先在打开的抖音创作者中心完成登录。"),
        other => panic!("unexpected {:?}", other),
    }
    assert!(cookie_login_precheck("douyin", "sessionid=1", "sessionid=1", None, None).is_none());
    match cookie_login_precheck("weibo", "a=1", "a=1", None, None) {
        Some(PluginAuthError::Failed(m)) => assert_eq!(m, "当前平台不支持浏览器授权"),
        other => panic!("unexpected {:?}", other),
    }
    assert!(cookie_login_precheck("bilibili", "SESSDATA=1", "SESSDATA=1", None, None).is_none());
}
