//! The supported content platforms and the rules that belong to each: creator
//! centre address, cookie domains, login cookies and homepage links.

pub mod images;
pub mod fields;
pub mod douyin;
pub mod cookies;
pub mod kuaishou;
pub mod wechat_channels;
pub mod plugin;
pub mod xiaohongshu;
pub mod bilibili;
pub mod xhs_content;
pub mod wx_content;

use vstd::prelude::*;
use crate::form::{encode, form_encode};
use crate::strs::{owned, strs_view, opt_str_view, result_view};
use crate::text::{
    all_digits, chars_of, chars_ends_with, ends_with, is_digit, lower, lower_str, str_eq, trim,
    trim_bounds, trim_str,
};

verus! {

/// How an account's homepage link is built.
#[derive(Debug, Clone, Copy, PartialEq, Eq, Structural)]
pub enum HomepageKind {
    Creator,
    BilibiliSpaceOrSearch,
    KuaishouProfileOrSearch,
}

/// A cookie domain a platform owns, optionally with its subdomains.
#[derive(Debug, Clone, Copy)]
pub struct DomainRule {
    pub host: &'static str,
    pub include_subdomains: bool,
}

#[derive(Debug)]
pub struct ChannelPlatform {
    pub id: &'static str,
    pub name: &'static str,
    pub slug: &'static str,
    pub color: &'static str,
    pub description: &'static str,
    pub creator_home_url: &'static str,
    pub cookie_urls: Vec<&'static str>,
    pub default_cookie_domain: &'static str,
    pub cookie_domains: Vec<DomainRule>,
    pub login_cookie_names: Vec<&'static str>,
    pub homepage_kind: HomepageKind,
    pub plugin_auth: bool,
    pub materialize_avatar: bool,
    pub avatar_referer: Option<&'static str>,
    pub avatar_origin: Option<&'static str>,
}

pub struct PlatformView {
    pub id: Seq<char>,
    pub name: Seq<char>,
    pub slug: Seq<char>,
    pub color: Seq<char>,
    pub description: Seq<char>,
    pub creator_home_url: Seq<char>,
    pub cookie_urls: Seq<Seq<char>>,
    pub default_cookie_domain: Seq<char>,
    pub cookie_domains: Seq<(Seq<char>, bool)>,
    pub login_cookie_names: Seq<Seq<char>>,
    pub homepage_kind: HomepageKind,
    pub plugin_auth: bool,
    pub materialize_avatar: bool,
    pub avatar_referer: Option<Seq<char>>,
    pub avatar_origin: Option<Seq<char>>,
}

pub open spec fn rules_view(v: Seq<DomainRule>) -> Seq<(Seq<char>, bool)> {
    v.map_values(|r: DomainRule| (r.host@, r.include_subdomains))
}

impl View for ChannelPlatform {
    type V = PlatformView;

    open spec fn view(&self) -> PlatformView {
        PlatformView {
            id: self.id@,
            name: self.name@,
            slug: self.slug@,
            color: self.color@,
            description: self.description@,
            creator_home_url: self.creator_home_url@,
            cookie_urls: strs_view(self.cookie_urls@),
            default_cookie_domain: self.default_cookie_domain@,
            cookie_domains: rules_view(self.cookie_domains@),
            login_cookie_names: strs_view(self.login_cookie_names@),
            homepage_kind: self.homepage_kind,
            plugin_auth: self.plugin_auth,
            materialize_avatar: self.materialize_avatar,
            avatar_referer: opt_str_view(self.avatar_referer),
            avatar_origin: opt_str_view(self.avatar_origin),
        }
    }
}

pub open spec fn xiaohongshu_view() -> PlatformView {
    PlatformView {
        id: "xiaohongshu"@,
        name: "小红书"@,
        slug: "XHS"@,
        color: "#ff2442"@,
        description: "添加并管理多个小红书账号。"@,
        creator_home_url: "https://creator.xiaohongshu.com/new/home"@,
        cookie_urls: seq![
            "https://www.xiaohongshu.com/"@,
            "https://creator.xiaohongshu.com/"@,
            "https://edith.xiaohongshu.com/"@,
        ],
        default_cookie_domain: ".xiaohongshu.com"@,
        cookie_domains: seq![("xiaohongshu.com"@, true)],
        login_cookie_names: Seq::empty(),
        homepage_kind: HomepageKind::Creator,
        plugin_auth: true,
        materialize_avatar: true,
        avatar_referer: Some("https://creator.xiaohongshu.com/"@),
        avatar_origin: Some("https://creator.xiaohongshu.com"@),
    }
}

pub open spec fn wechat_channels_view() -> PlatformView {
    PlatformView {
        id: "wechat-channels"@,
        name: "视频号"@,
        slug: "WX"@,
        color: "#ff9f2e"@,
        description: "添加并管理多个微信视频号账号。"@,
        creator_home_url: "https://channels.weixin.qq.com/platform"@,
        cookie_urls: seq![
            "https://channels.weixin.qq.com/"@,
            "https://channels.weixin.qq.com/platform"@,
        ],
        default_cookie_domain: "channels.weixin.qq.com"@,
        cookie_domains: seq![("channels.weixin.qq.com"@, false)],
        login_cookie_names: Seq::empty(),
        homepage_kind: HomepageKind::Creator,
        plugin_auth: true,
        materialize_avatar: false,
        avatar_referer: None,
        avatar_origin: None,
    }
}

pub open spec fn douyin_view() -> PlatformView {
    PlatformView {
        id: "douyin"@,
        name: "抖音"@,
        slug: "DY"@,
        color: "#111111"@,
        description: "添加并管理多个抖音账号。"@,
        creator_home_url: "https://creator.douyin.com/creator-micro/home?enter_from=dou_web"@,
        cookie_urls: seq![
            "https://www.douyin.com/"@,
            "https://douyin.com/"@,
            "https://creator.douyin.com/"@,
            "https://passport.douyin.com/"@,
            "https://sso.douyin.com/"@,
        ],
        default_cookie_domain: ".douyin.com"@,
        cookie_domains: seq![("douyin.com"@, true)],
        login_cookie_names: seq![
            "sessionid"@,
            "sessionid_ss"@,
            "sid_guard"@,
            "sid_tt"@,
            "uid_tt"@,
            "uid_tt_ss"@,
            "sso_uid_tt"@,
            "sso_uid_tt_ss"@,
            "passport_auth_status"@,
            "passport_auth_status_ss"@,
        ],
        homepage_kind: HomepageKind::Creator,
        plugin_auth: true,
        materialize_avatar: false,
        avatar_referer: None,
        avatar_origin: None,
    }
}

pub open spec fn bilibili_view() -> PlatformView {
    PlatformView {
        id: "bilibili"@,
        name: "哔哩哔哩"@,
        slug: "BILI"@,
        color: "#00a1d6"@,
        description: "添加并管理多个 B 站账号。"@,
        creator_home_url: "https://member.bilibili.com/platform/home"@,
        cookie_urls: seq![
            "https://www.bilibili.com/"@,
            "https://bilibili.com/"@,
            "https://passport.bilibili.com/"@,
            "https://member.bilibili.com/"@,
            "https://space.bilibili.com/"@,
        ],
        default_cookie_domain: ".bilibili.com"@,
        cookie_domains: seq![("bilibili.com"@, true)],
        login_cookie_names: Seq::empty(),
        homepage_kind: HomepageKind::BilibiliSpaceOrSearch,
        plugin_auth: true,
        materialize_avatar: true,
        avatar_referer: Some("https://www.bilibili.com/"@),
        avatar_origin: Some("https://www.bilibili.com"@),
    }
}

pub open spec fn kuaishou_view() -> PlatformView {
    PlatformView {
        id: "kuaishou"@,
        name: "快手"@,
        slug: "KS"@,
        color: "#ff4906"@,
        description: "添加并管理多个快手账号。"@,
        creator_home_url: "https://cp.kuaishou.com/profile"@,
        cookie_urls: seq![
            "https://www.kuaishou.com/"@,
            "https://kuaishou.com/"@,
            "https://cp.kuaishou.com/"@,
            "https://id.kuaishou.com/"@,
            "https://passport.kuaishou.com/"@,
        ],
        default_cookie_domain: ".kuaishou.com"@,
        cookie_domains: seq![("kuaishou.com"@, true), ("kwai.com"@, true)],
        login_cookie_names: Seq::empty(),
        homepage_kind: HomepageKind::KuaishouProfileOrSearch,
        plugin_auth: true,
        materialize_avatar: true,
        avatar_referer: Some("https://www.kuaishou.com/"@),
        avatar_origin: Some("https://www.kuaishou.com"@),
    }
}

pub fn xiaohongshu_platform() -> (p: ChannelPlatform)
    ensures
        p@ == xiaohongshu_view(),
{
    let p = ChannelPlatform {
        id: "xiaohongshu",
        name: "小红书",
        slug: "XHS",
        color: "#ff2442",
        description: "添加并管理多个小红书账号。",
        creator_home_url: "https://creator.xiaohongshu.com/new/home",
        cookie_urls: vec![
            "https://www.xiaohongshu.com/",
            "https://creator.xiaohongshu.com/",
            "https://edith.xiaohongshu.com/",
        ],
        default_cookie_domain: ".xiaohongshu.com",
        cookie_domains: vec![DomainRule { host: "xiaohongshu.com", include_subdomains: true }],
        login_cookie_names: Vec::new(),
        homepage_kind: HomepageKind::Creator,
        plugin_auth: true,
        materialize_avatar: true,
        avatar_referer: Some("https://creator.xiaohongshu.com/"),
        avatar_origin: Some("https://creator.xiaohongshu.com"),
    };
    assert(p@.cookie_urls =~= xiaohongshu_view().cookie_urls);
    assert(p@.cookie_domains =~= xiaohongshu_view().cookie_domains);
    assert(p@.login_cookie_names =~= xiaohongshu_view().login_cookie_names);
    p
}

pub fn wechat_channels_platform() -> (p: ChannelPlatform)
    ensures
        p@ == wechat_channels_view(),
{
    let p = ChannelPlatform {
        id: "wechat-channels",
        name: "视频号",
        slug: "WX",
        color: "#ff9f2e",
        description: "添加并管理多个微信视频号账号。",
        creator_home_url: "https://channels.weixin.qq.com/platform",
        cookie_urls: vec!["https://channels.weixin.qq.com/", "https://channels.weixin.qq.com/platform"],
        default_cookie_domain: "channels.weixin.qq.com",
        cookie_domains: vec![DomainRule { host: "channels.weixin.qq.com", include_subdomains: false }],
        login_cookie_names: Vec::new(),
        homepage_kind: HomepageKind::Creator,
        plugin_auth: true,
        materialize_avatar: false,
        avatar_referer: None,
        avatar_origin: None,
    };
    assert(p@.cookie_urls =~= wechat_channels_view().cookie_urls);
    assert(p@.cookie_domains =~= wechat_channels_view().cookie_domains);
    assert(p@.login_cookie_names =~= wechat_channels_view().login_cookie_names);
    p
}

pub fn douyin_platform() -> (p: ChannelPlatform)
    ensures
        p@ == douyin_view(),
{
    let p = ChannelPlatform {
        id: "douyin",
        name: "抖音",
        slug: "DY",
        color: "#111111",
        description: "添加并管理多个抖音账号。",
        creator_home_url: "https://creator.douyin.com/creator-micro/home?enter_from=dou_web",
        cookie_urls: vec!["https://www.douyin.com/", "https://douyin.com/", "https://creator.douyin.com/", "https://passport.douyin.com/", "https://sso.douyin.com/"],
        default_cookie_domain: ".douyin.com",
        cookie_domains: vec![DomainRule { host: "douyin.com", include_subdomains: true }],
        login_cookie_names: vec!["sessionid", "sessionid_ss", "sid_guard", "sid_tt", "uid_tt", "uid_tt_ss", "sso_uid_tt", "sso_uid_tt_ss", "passport_auth_status", "passport_auth_status_ss"],
        homepage_kind: HomepageKind::Creator,
        plugin_auth: true,
        materialize_avatar: false,
        avatar_referer: None,
        avatar_origin: None,
    };
    assert(p@.cookie_urls =~= douyin_view().cookie_urls);
    assert(p@.cookie_domains =~= douyin_view().cookie_domains);
    assert(p@.login_cookie_names =~= douyin_view().login_cookie_names);
    p
}

pub fn bilibili_platform() -> (p: ChannelPlatform)
    ensures
        p@ == bilibili_view(),
{
    let p = ChannelPlatform {
        id: "bilibili",
        name: "哔哩哔哩",
        slug: "BILI",
        color: "#00a1d6",
        description: "添加并管理多个 B 站账号。",
        creator_home_url: "https://member.bilibili.com/platform/home",
        cookie_urls: vec!["https://www.bilibili.com/", "https://bilibili.com/", "https://passport.bilibili.com/", "https://member.bilibili.com/", "https://space.bilibili.com/"],
        default_cookie_domain: ".bilibili.com",
        cookie_domains: vec![DomainRule { host: "bilibili.com", include_subdomains: true }],
        login_cookie_names: Vec::new(),
        homepage_kind: HomepageKind::BilibiliSpaceOrSearch,
        plugin_auth: true,
        materialize_avatar: true,
        avatar_referer: Some("https://www.bilibili.com/"),
        avatar_origin: Some("https://www.bilibili.com"),
    };
    assert(p@.cookie_urls =~= bilibili_view().cookie_urls);
    assert(p@.cookie_domains =~= bilibili_view().cookie_domains);
    assert(p@.login_cookie_names =~= bilibili_view().login_cookie_names);
    p
}

pub fn kuaishou_platform() -> (p: ChannelPlatform)
    ensures
        p@ == kuaishou_view(),
{
    let p = ChannelPlatform {
        id: "kuaishou",
        name: "快手",
        slug: "KS",
        color: "#ff4906",
        description: "添加并管理多个快手账号。",
        creator_home_url: "https://cp.kuaishou.com/profile",
        cookie_urls: vec!["https://www.kuaishou.com/", "https://kuaishou.com/", "https://cp.kuaishou.com/", "https://id.kuaishou.com/", "https://passport.kuaishou.com/"],
        default_cookie_domain: ".kuaishou.com",
        cookie_domains: vec![DomainRule { host: "kuaishou.com", include_subdomains: true }, DomainRule { host: "kwai.com", include_subdomains: true }],
        login_cookie_names: Vec::new(),
        homepage_kind: HomepageKind::KuaishouProfileOrSearch,
        plugin_auth: true,
        materialize_avatar: true,
        avatar_referer: Some("https://www.kuaishou.com/"),
        avatar_origin: Some("https://www.kuaishou.com"),
    };
    assert(p@.cookie_urls =~= kuaishou_view().cookie_urls);
    assert(p@.cookie_domains =~= kuaishou_view().cookie_domains);
    assert(p@.login_cookie_names =~= kuaishou_view().login_cookie_names);
    p
}

/// Legacy and alternative platform identifiers mapped to the canonical ones.
pub open spec fn normalized_id(v: Seq<char>) -> Seq<char> {
    if v == "xhs"@ || v == "Xhs"@ || v == "XHS"@ {
        "xiaohongshu"@
    } else if v == "wxSph"@ || v == "wxsph"@ || v == "wechat"@ {
        "wechat-channels"@
    } else if v == "kwai"@ || v == "KWAI"@ || v == "Kwai"@ {
        "kuaishou"@
    } else if v == "BILIBILI"@ {
        "bilibili"@
    } else {
        v
    }
}

/// The platform an identifier names, after normalization.
pub open spec fn platform_view(id: Seq<char>) -> Option<PlatformView> {
    let n = normalized_id(id);
    if n == "xiaohongshu"@ {
        Some(xiaohongshu_view())
    } else if n == "wechat-channels"@ {
        Some(wechat_channels_view())
    } else if n == "douyin"@ {
        Some(douyin_view())
    } else if n == "bilibili"@ {
        Some(bilibili_view())
    } else if n == "kuaishou"@ {
        Some(kuaishou_view())
    } else {
        None
    }
}

pub open spec fn opt_platform_view(p: Option<ChannelPlatform>) -> Option<PlatformView> {
    match p {
        Some(p) => Some(p@),
        None => None,
    }
}

/// The canonical identifier for `value`.
pub fn normalize_platform_id(value: &str) -> (r: String)
    ensures
        r@ == normalized_id(value@),
{
    if str_eq(value, "xhs") || str_eq(value, "Xhs") || str_eq(value, "XHS") {
        owned("xiaohongshu")
    } else if str_eq(value, "wxSph") || str_eq(value, "wxsph") || str_eq(value, "wechat") {
        owned("wechat-channels")
    } else if str_eq(value, "kwai") || str_eq(value, "KWAI") || str_eq(value, "Kwai") {
        owned("kuaishou")
    } else if str_eq(value, "BILIBILI") {
        owned("bilibili")
    } else {
        owned(value)
    }
}

/// The supported platforms, in display order.
pub fn all() -> (r: Vec<ChannelPlatform>)
    ensures
        r@.len() == 5,
        r@[0]@ == xiaohongshu_view(),
        r@[1]@ == wechat_channels_view(),
        r@[2]@ == douyin_view(),
        r@[3]@ == bilibili_view(),
        r@[4]@ == kuaishou_view(),
{
    vec![
        xiaohongshu_platform(),
        wechat_channels_platform(),
        douyin_platform(),
        bilibili_platform(),
        kuaishou_platform(),
    ]
}

/// The platform for an identifier, if supported.
pub fn platform(platform_id: &str) -> (r: Option<ChannelPlatform>)
    ensures
        opt_platform_view(r) == platform_view(platform_id@),
{
    let n = normalize_platform_id(platform_id);
    let n = n.as_str();
    if str_eq(n, "xiaohongshu") {
        Some(xiaohongshu_platform())
    } else if str_eq(n, "wechat-channels") {
        Some(wechat_channels_platform())
    } else if str_eq(n, "douyin") {
        Some(douyin_platform())
    } else if str_eq(n, "bilibili") {
        Some(bilibili_platform())
    } else if str_eq(n, "kuaishou") {
        Some(kuaishou_platform())
    } else {
        None
    }
}

/// Display name of a platform, or "渠道账号" for an unknown one.
pub fn platform_name(platform_id: &str) -> (r: &'static str)
    ensures
        r@ == match platform_view(platform_id@) {
            Some(p) => p.name,
            None => "渠道账号"@,
        },
{
    match platform(platform_id) {
        Some(p) => p.name,
        None => "渠道账号",
    }
}

/// Whether accounts of the platform are added through a browser login.
pub fn is_plugin_auth_platform(platform_id: &str) -> (r: bool)
    ensures
        r == match platform_view(platform_id@) {
            Some(p) => p.plugin_auth,
            None => false,
        },
{
    match platform(platform_id) {
        Some(p) => p.plugin_auth,
        None => false,
    }
}

pub open spec fn plugin_login_target_spec(platform_id: Seq<char>, login_target: Option<Seq<char>>) -> Option<Seq<char>> {
    if normalized_id(platform_id) == "xiaohongshu"@ {
        match login_target {
            Some(t) => if t == "home"@ || t == "homepage"@ { Some("home"@) } else { Some("creator"@) },
            None => Some("creator"@),
        }
    } else {
        None
    }
}

/// The login page a platform's browser login opens on: only Xiaohongshu
/// distinguishes its homepage from its creator centre.
pub fn normalize_plugin_login_target(platform_id: &str, login_target: Option<&str>) -> (r: Option<&'static str>)
    ensures
        opt_str_view(r) == plugin_login_target_spec(platform_id@, opt_str_view(login_target)),
{
    let n = normalize_platform_id(platform_id);
    if str_eq(n.as_str(), "xiaohongshu") {
        match login_target {
            Some(t) => {
                if str_eq(t, "home") || str_eq(t, "homepage") {
                    Some("home")
                } else {
                    Some("creator")
                }
            },
            None => Some("creator"),
        }
    } else {
        None
    }
}

pub open spec fn plugin_login_url_spec(platform_id: Seq<char>) -> Option<Seq<char>> {
    let n = normalized_id(platform_id);
    if n == "xiaohongshu"@ {
        Some(xiaohongshu_view().creator_home_url)
    } else if n == "wechat-channels"@ {
        Some(wechat_channels_view().creator_home_url)
    } else if n == "douyin"@ {
        Some(douyin_view().creator_home_url)
    } else if n == "bilibili"@ {
        Some(bilibili_view().creator_home_url)
    } else if n == "kuaishou"@ {
        Some(kuaishou_login_url_spec())
    } else {
        None
    }
}

pub open spec fn kuaishou_login_url_spec() -> Seq<char> {
    "https://passport.kuaishou.com/pc/account/login/?sid=kuaishou.web.cp.api&indexPage=login-qrcode&callback=https%3A%2F%2Fcp.kuaishou.com%2Frest%2Finfra%2Fsts%3FfollowUrl%3Dhttps%253A%252F%252Fcp.kuaishou.com%252Fprofile%26setRootDomain%3Dtrue"@
}

/// The page a browser login opens: the creator centre, or Kuaishou's
/// passport login that returns to it. The login target does not change it.
pub fn plugin_login_url(platform_id: &str, login_target: Option<&str>) -> (r: Option<&'static str>)
    ensures
        opt_str_view(r) == plugin_login_url_spec(platform_id@),
{
    let _ = login_target;
    let n = normalize_platform_id(platform_id);
    let n = n.as_str();
    if str_eq(n, "xiaohongshu") {
        Some("https://creator.xiaohongshu.com/new/home")
    } else if str_eq(n, "wechat-channels") {
        Some("https://channels.weixin.qq.com/platform")
    } else if str_eq(n, "douyin") {
        Some("https://creator.douyin.com/creator-micro/home?enter_from=dou_web")
    } else if str_eq(n, "bilibili") {
        Some("https://member.bilibili.com/platform/home")
    } else if str_eq(n, "kuaishou") {
        Some("https://passport.kuaishou.com/pc/account/login/?sid=kuaishou.web.cp.api&indexPage=login-qrcode&callback=https%3A%2F%2Fcp.kuaishou.com%2Frest%2Finfra%2Fsts%3FfollowUrl%3Dhttps%253A%252F%252Fcp.kuaishou.com%252Fprofile%26setRootDomain%3Dtrue")
    } else {
        None
    }
}

/// Kuaishou's creator home-info endpoint.
pub fn kuaishou_home_info_api_url() -> (r: &'static str)
    ensures
        r@ == "https://cp.kuaishou.com/rest/cp/creator/pc/home/infoV2"@,
{
    "https://cp.kuaishou.com/rest/cp/creator/pc/home/infoV2"
}

/// Kuaishou's video management page.
pub fn kuaishou_article_manage_video_url() -> (r: &'static str)
    ensures
        r@ == "https://cp.kuaishou.com/article/manage/video"@,
{
    "https://cp.kuaishou.com/article/manage/video"
}

/// Kuaishou's video management list endpoint.
pub fn kuaishou_article_manage_video_list_api_url() -> (r: &'static str)
    ensures
        r@ == "https://cp.kuaishou.com/rest/cp/works/v2/video/pc/photo/list"@,
{
    "https://cp.kuaishou.com/rest/cp/works/v2/video/pc/photo/list"
}

pub open spec fn missing_homepage_message() -> Seq<char> {
    "账号缺少主页标识，无法打开主页"@
}

pub open spec fn search_url_spec(prefix: Seq<char>, keyword: Seq<char>) -> Result<Seq<char>, Seq<char>> {
    if trim(keyword).len() > 0 {
        Ok(prefix + form_encode(trim(keyword)))
    } else {
        Err(missing_homepage_message())
    }
}

/// A search link for the account's name, or an error when the name is blank.
pub fn account_search_url(prefix: &str, keyword: &str) -> (r: Result<String, String>)
    ensures
        result_view(r) == search_url_spec(prefix@, keyword@),
{
    let k = trim_str(keyword);
    if k.as_str().is_empty() {
        return Err(owned("账号缺少主页标识，无法打开主页"));
    }
    let e = encode(k.as_str());
    Ok(crate::text::concat_str(prefix, e.as_str()))
}

/// Leading dots removed.
pub open spec fn strip_dots(s: Seq<char>) -> Seq<char>
    decreases s.len(),
{
    if s.len() > 0 && s[0] == '.' {
        strip_dots(s.drop_first())
    } else {
        s
    }
}

/// A cookie domain as compared: trimmed, leading dots removed, lower case.
pub open spec fn normalized_domain(d: Seq<char>) -> Seq<char> {
    lower(strip_dots(trim(d)))
}

proof fn lemma_strip_dots_at(s: Seq<char>, k: int)
    requires
        0 <= k <= s.len(),
        forall|j: int| 0 <= j < k ==> s[j] == '.',
        k == s.len() || s[k] != '.',
    ensures
        strip_dots(s) == s.skip(k),
    decreases s.len(),
{
    if k > 0 {
        assert forall|j: int| 0 <= j < k - 1 implies s.drop_first()[j] == '.' by {
            assert(s.drop_first()[j] == s[j + 1]);
        }
        lemma_strip_dots_at(s.drop_first(), k - 1);
        assert(s.drop_first().skip(k - 1) =~= s.skip(k));
    } else {
        assert(s.skip(0) =~= s);
    }
}

/// `domain.trim().trim_start_matches('.').to_ascii_lowercase()`.
pub fn normalize_domain(domain: &str) -> (r: String)
    ensures
        r@ == normalized_domain(domain@),
{
    let v = chars_of(domain);
    let (lo, hi) = trim_bounds(&v);
    let mut start = lo;
    while start < hi && v[start] == '.'
        invariant
            lo <= start <= hi <= v@.len(),
            forall|j: int| lo <= j < start ==> v@[j] == '.',
        decreases hi - start,
    {
        start += 1;
    }
    proof {
        let t = v@.subrange(lo as int, hi as int);
        assert forall|j: int| 0 <= j < start - lo implies t[j] == '.' by {
            assert(t[j] == v@[j + lo]);
        }
        if start < hi {
            assert(t[start - lo] == v@[start as int]);
        }
        lemma_strip_dots_at(t, start - lo);
        assert(t.skip(start - lo) =~= v@.subrange(start as int, hi as int));
    }
    let s = crate::text::string_from_range(&v, start, hi);
    lower_str(s.as_str())
}

/// `domain` (already normalized) is the rule's host or, when the rule allows
/// it, one of its subdomains.
pub open spec fn domain_matches_spec(domain: Seq<char>, host: Seq<char>, include_subdomains: bool) -> bool {
    let h = normalized_domain(host);
    domain == h || (include_subdomains && ends_with(domain, seq!['.'] + h))
}

pub fn domain_matches(domain: &str, rule: &DomainRule) -> (r: bool)
    ensures
        r == domain_matches_spec(domain@, rule.host@, rule.include_subdomains),
{
    let host = normalize_domain(rule.host);
    if str_eq(domain, host.as_str()) {
        return true;
    }
    if !rule.include_subdomains {
        return false;
    }
    let dotted = crate::text::concat_str(".", host.as_str());
    proof {
        reveal_strlit(".");
        assert(seq!['.'] + host@ =~= "."@ + host@);
    }
    crate::text::str_ends_with(domain, dotted.as_str())
}

/// An empty domain, or one of the platform's domain
/// rules matches it.
pub open spec fn allows_domain_spec(p: PlatformView, domain: Seq<char>) -> bool {
    normalized_domain(domain).len() == 0 || exists|i: int|
        0 <= i < p.cookie_domains.len() && domain_matches_spec(
            normalized_domain(domain),
            #[trigger] p.cookie_domains[i].0,
            p.cookie_domains[i].1,
        )
}

pub open spec fn homepage_url_spec(p: PlatformView, uid: Seq<char>, nickname: Seq<char>) -> Result<Seq<char>, Seq<char>> {
    let u = trim(uid);
    match p.homepage_kind {
        HomepageKind::Creator => Ok(p.creator_home_url),
        HomepageKind::BilibiliSpaceOrSearch => if u.len() > 0 && all_digits(u) {
            Ok("https://space.bilibili.com/"@ + form_encode(u))
        } else {
            search_url_spec("https://search.bilibili.com/upuser?keyword="@, nickname)
        },
        HomepageKind::KuaishouProfileOrSearch => if u.len() > 0 {
            Ok("https://www.kuaishou.com/profile/"@ + form_encode(u))
        } else {
            search_url_spec("https://www.kuaishou.com/search/author?searchKey="@, nickname)
        },
    }
}

impl ChannelPlatform {
    /// The link that opens an account's homepage: the creator centre, or for
    /// Bilibili and Kuaishou the account's own page (Bilibili only for a
    /// numeric uid) and otherwise a search for its name.
    pub fn homepage_url(&self, uid: &str, nickname: &str) -> (r: Result<String, String>)
        ensures
            result_view(r) == homepage_url_spec(self@, uid@, nickname@),
    {
        match self.homepage_kind {
            HomepageKind::Creator => Ok(owned(self.creator_home_url)),
            HomepageKind::BilibiliSpaceOrSearch => {
                let u = trim_str(uid);
                let uv = chars_of(u.as_str());
                if !u.as_str().is_empty() && crate::number::all_digits_range(&uv, 0, uv.len()) {
                    proof { assert(uv@.subrange(0, uv@.len() as int) =~= uv@); }
                    let e = encode(u.as_str());
                    Ok(crate::text::concat_str("https://space.bilibili.com/", e.as_str()))
                } else {
                    proof { assert(uv@.subrange(0, uv@.len() as int) =~= uv@); }
                    account_search_url("https://search.bilibili.com/upuser?keyword=", nickname)
                }
            },
            HomepageKind::KuaishouProfileOrSearch => {
                let u = trim_str(uid);
                if !u.as_str().is_empty() {
                    let e = encode(u.as_str());
                    Ok(crate::text::concat_str("https://www.kuaishou.com/profile/", e.as_str()))
                } else {
                    account_search_url("https://www.kuaishou.com/search/author?searchKey=", nickname)
                }
            },
        }
    }

    /// A cookie of this domain may be kept for the platform: an empty domain
    /// or one that one of its domain rules matches.
    pub fn allows_cookie_domain(&self, domain: &str) -> (r: bool)
        ensures
            r == allows_domain_spec(self@, domain@),
    {
        let d = normalize_domain(domain);
        if d.as_str().is_empty() {
            return true;
        }
        let mut i: usize = 0;
        while i < self.cookie_domains.len()
            invariant
                i <= self.cookie_domains@.len(),
                d@ == normalized_domain(domain@),
                forall|j: int| 0 <= j < i ==> !domain_matches_spec(d@, #[trigger] self@.cookie_domains[j].0, self@.cookie_domains[j].1),
            decreases self.cookie_domains@.len() - i,
        {
            assert(self@.cookie_domains[i as int] == (self.cookie_domains@[i as int].host@, self.cookie_domains@[i as int].include_subdomains));
            if domain_matches(d.as_str(), &self.cookie_domains[i]) {
                assert(domain_matches_spec(normalized_domain(domain@), self@.cookie_domains[i as int].0, self@.cookie_domains[i as int].1));
                return true;
            }
            i += 1;
        }
        false
    }

    /// Whether a cookie of this name shows a login (trimmed, lower case).
    pub fn is_login_cookie_name(&self, name: &str) -> (r: bool)
        ensures
            r == (lower(trim(name@)).len() > 0 && self@.login_cookie_names.contains(lower(trim(name@)))),
    {
        let t = trim_str(name);
        let n = lower_str(t.as_str());
        if n.as_str().is_empty() {
            return false;
        }
        let mut i: usize = 0;
        while i < self.login_cookie_names.len()
            invariant
                i <= self.login_cookie_names@.len(),
                n@ == lower(trim(name@)),
                n@.len() > 0,
                forall|j: int| 0 <= j < i ==> self@.login_cookie_names[j] != n@,
            decreases self.login_cookie_names@.len() - i,
        {
            assert(self@.login_cookie_names[i as int] == self.login_cookie_names@[i as int]@);
            if str_eq(self.login_cookie_names[i], n.as_str()) {
                assert(self@.login_cookie_names[i as int] == n@);
                assert(self@.login_cookie_names.contains(n@));
                return true;
            }
            i += 1;
        }
        false
    }
}

} // verus!
