use channel_nest::browser::{
    browser_debug_port_closed, browser_page_eval_retryable, chunked_body_complete, creator_home_uses_managed_browser,
    decode_chunked_body, http_content_length, lines_of, page_url_matches_target, parse_hex_str,
    sanitize_sensitive_url_for_log,
};
use channel_nest::channel_urls::{account_homepage_url, channel_platform, creator_home_url};
use channel_nest::domain::{AccountStatus, ChannelAccount, UtcTime};
use channel_nest::http_callback::{parse_http_request, parse_query};
use channel_nest::oauth::{create_direct_oauth_url, join_strings};
use channel_nest::settings::{
    creator_platform_auth, default_auth_settings, default_platforms, normalize_settings, AuthMode,
};

fn query_value<'a>(pairs: &'a [(String, String)], name: &str) -> Option<&'a str> {
    pairs.iter().find(|(k, _)| k == name).map(|(_, v)| v.as_str())
}

fn account(platform_id: &str, uid: &str, nickname: &str) -> ChannelAccount {
    ChannelAccount {
        id: "a".to_string(),
        user_id: None,
        platform_id: platform_id.to_string(),
        uid: uid.to_string(),
        nickname: nickname.to_string(),
        avatar: String::new(),
        followers: None,
        following: None,
        likes: None,
        status: AccountStatus::Active,
        created_at: UtcTime { secs: 0, nanos: 0 },
        updated_at: UtcTime { secs: 0, nanos: 0 },
        last_sync_at: None,
    }
}

#[test]
fn browser_errors_are_classified() {
    assert!(browser_debug_port_closed("tcp: Connection refused (os error 111)"));
    assert!(browser_debug_port_closed("连接浏览器失败: x"));
    assert!(!browser_debug_port_closed("timeout"));
    assert!(browser_page_eval_retryable("Execution context was destroyed, most likely"));
    assert!(!browser_page_eval_retryable("TypeError"));
    assert!(creator_home_uses_managed_browser("xhs"));
    assert!(creator_home_uses_managed_browser("douyin"));
    assert!(!creator_home_uses_managed_browser("weibo"));
}

#[test]
fn page_hosts_match_their_target() {
    assert!(page_url_matches_target("https://creator.douyin.com/home", Some("douyin.com")));
    assert!(page_url_matches_target("https://douyin.com/", Some("douyin.com")));
    assert!(!page_url_matches_target("https://notdouyin.com/", Some("douyin.com")));
    assert!(!page_url_matches_target("https://douyin.com/", None));
    assert!(page_url_matches_target("not a url douyin.com", Some("douyin.com")));
    assert!(!page_url_matches_target("not a url", Some("douyin.com")));
}

#[test]
fn head_lines_and_content_length() {
    assert_eq!(lines_of("a\r\nb\nc"), vec!["a".to_string(), "b".to_string(), "c".to_string()]);
    assert_eq!(http_content_length("HTTP/1.1 200 OK\r\nContent-Length: 12\r\n"), Some(12));
    assert_eq!(http_content_length("HTTP/1.1 200 OK\r\ncontent-length : 7"), Some(7));
    assert_eq!(http_content_length("HTTP/1.1 200 OK\r\nContent-Length: x"), None);
    assert_eq!(http_content_length("HTTP/1.1 200 OK"), None);
}

#[test]
fn hex_sizes_parse_as_std_does() {
    assert_eq!(parse_hex_str("1a"), Ok(26));
    assert_eq!(parse_hex_str("+F"), Ok(15));
    assert_eq!(parse_hex_str(""), Err("cannot parse integer from empty string".to_string()));
    assert_eq!(parse_hex_str("zz"), Err("invalid digit found in string".to_string()));
    assert_eq!(parse_hex_str("-1"), Err("invalid digit found in string".to_string()));
    for text in ["1a", "+F", "", "zz", "-1", "ffffffffffffffffff"] {
        let expected = usize::from_str_radix(text, 16).map_err(|e| e.to_string());
        assert_eq!(parse_hex_str(text), expected);
    }
}

#[test]
fn chunked_bodies() {
    let body = b"5\r\nhello\r\n6;ext=1\r\n world\r\n0\r\n\r\n";
    assert!(chunked_body_complete(body));
    assert_eq!(decode_chunked_body(body), Ok(b"hello world".to_vec()));
    assert!(!chunked_body_complete(b"5\r\nhel"));
    assert_eq!(decode_chunked_body(b"5\r\nhel"), Err("浏览器 chunked 响应内容不完整".to_string()));
    assert_eq!(
        decode_chunked_body(b"zz\r\n"),
        Err("浏览器 chunked 响应长度无效: invalid digit found in string".to_string())
    );
    assert_eq!(decode_chunked_body(b""), Err("浏览器 chunked 响应长度格式无效".to_string()));
    assert!(!chunked_body_complete(b"0\r\n"));
    assert!(chunked_body_complete(b"0\r\n\r\n"));
}

#[test]
fn sensitive_query_values_are_masked() {
    assert_eq!(sanitize_sensitive_url_for_log("https://a.com/?token=x&b=2"), "https://a.com/?token=***&b=2");
    assert_eq!(
        sanitize_sensitive_url_for_log("https://a.com/p?AuthToken=1&passToken=2"),
        "https://a.com/p?AuthToken=***&passToken=***"
    );
    assert_eq!(sanitize_sensitive_url_for_log("https://a.com/p"), "https://a.com/p");
    assert_eq!(sanitize_sensitive_url_for_log("not a url"), "not a url");
}

#[test]
fn callback_requests_are_parsed() {
    let req = parse_http_request("GET /callback?code=1&state=2&code=3 HTTP/1.1\r\nHost: x\r\n\r\n").unwrap();
    assert_eq!(req.path, "/callback");
    assert_eq!(query_value(&req.query, "code"), Some("3"));
    assert_eq!(query_value(&req.query, "state"), Some("2"));
    assert_eq!(req.query.len(), 2);
    let plain = parse_http_request("GET / HTTP/1.1\r\n\r\n").unwrap();
    assert_eq!(plain.path, "/");
    assert!(plain.query.is_empty());
    let bare = parse_http_request("GET\r\n\r\n").unwrap();
    assert_eq!(bare.path, "/");
    assert_eq!(parse_http_request("GET / HTTP/1.1\r\n").unwrap_err(), "HTTP 请求格式无效");
    assert_eq!(parse_http_request("\r\n\r\n").unwrap_err(), "HTTP 请求缺少请求行");
    let q = parse_query("a=1+2&b=%E4%BD%A0&a=3");
    assert_eq!(query_value(&q, "a"), Some("3"));
    assert_eq!(query_value(&q, "b"), Some("你"));
}

#[test]
fn oauth_addresses() {
    let mut s = creator_platform_auth("douyin");
    assert_eq!(
        create_direct_oauth_url(&s, "http://127.0.0.1:1/cb", "t1"),
        Err("请先填写该平台的 OAuth 授权地址和 Client ID".to_string())
    );
    s.auth_url = " https://auth.example.com/authorize ".to_string();
    s.client_id = " cid ".to_string();
    s.scopes = vec!["a".to_string(), "b".to_string()];
    assert_eq!(
        create_direct_oauth_url(&s, "http://127.0.0.1:1234/callback", "t1"),
        Ok("https://auth.example.com/authorize?response_type=code&client_id=cid&redirect_uri=http%3A%2F%2F127.0.0.1%3A1234%2Fcallback&state=t1&scope=a+b".to_string())
    );
    s.auth_url = "nope".to_string();
    assert_eq!(
        create_direct_oauth_url(&s, "x", "t"),
        Err("OAuth 授权地址无效: relative URL without a base".to_string())
    );
    assert_eq!(join_strings(&vec!["x".to_string(), "y".to_string()], ", "), "x, y");
}

#[test]
fn settings_cover_every_platform() {
    let platforms = default_platforms();
    let ids: Vec<&str> = platforms.iter().map(|p| p.id.as_str()).collect();
    assert_eq!(ids, vec!["xiaohongshu", "wechat-channels", "douyin", "bilibili", "kuaishou"]);
    let settings = default_auth_settings();
    assert_eq!(settings.platforms.len(), 5);
    assert_eq!(settings.platforms[2].platform_id, "douyin");
    assert_eq!(settings.platforms[2].mode, AuthMode::Creator);
    let mut custom = default_auth_settings();
    custom.platforms[0].client_id = "x".to_string();
    assert_eq!(normalize_settings(custom), default_auth_settings());
}

#[test]
fn platform_addresses() {
    assert_eq!(channel_platform("weibo").unwrap_err(), "当前平台暂不支持");
    assert_eq!(
        creator_home_url("xhs", "小红书创作中心").unwrap().as_str(),
        "https://creator.xiaohongshu.com/new/home"
    );
    assert_eq!(creator_home_url("weibo", "x").unwrap_err(), "当前平台暂不支持");
    assert_eq!(
        account_homepage_url(&account("bilibili", " 123 ", "n")),
        Ok("https://space.bilibili.com/123".to_string())
    );
    assert_eq!(
        account_homepage_url(&account("bilibili", "abc", "张 三")),
        Ok("https://search.bilibili.com/upuser?keyword=%E5%BC%A0+%E4%B8%89".to_string())
    );
    assert_eq!(
        account_homepage_url(&account("kuaishou", "", " ")),
        Err("账号缺少主页标识，无法打开主页".to_string())
    );
    assert_eq!(
        account_homepage_url(&account("douyin", "1", "n")),
        Ok("https://creator.douyin.com/creator-micro/home?enter_from=dou_web".to_string())
    );
}
