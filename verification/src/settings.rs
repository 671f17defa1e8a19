//! The sign-in settings the app keeps for each platform, and the platform
//! list it shows.

use vstd::prelude::*;
use crate::domain::strings_view;
use crate::platforms::{
    all, bilibili_view, douyin_view, kuaishou_view, wechat_channels_view, xiaohongshu_view,
    ChannelPlatform, PlatformView,
};
use crate::strs::owned;

verus! {

/// How accounts of a platform are signed in: through its creator pages.
#[derive(Debug, Clone, Copy, PartialEq, Eq, Structural)]
pub enum AuthMode {
    Creator,
}

/// The sign-in settings of one platform.
#[derive(Debug, PartialEq)]
pub struct PlatformAuthSettings {
    pub platform_id: String,
    pub mode: AuthMode,
    pub auth_url: String,
    pub token_url: String,
    pub profile_url: String,
    pub client_id: String,
    pub client_secret: String,
    pub scopes: Vec<String>,
}

/// The sign-in settings of all platforms.
#[derive(Debug, PartialEq)]
pub struct AuthSettings {
    pub platforms: Vec<PlatformAuthSettings>,
}

/// What the app shows of a platform.
#[derive(Debug, PartialEq)]
pub struct PlatformInfo {
    pub id: String,
    pub name: String,
    pub slug: String,
    pub color: String,
    pub description: String,
}

/// Settings for creator sign-in with nothing else configured.
pub open spec fn is_creator_auth(s: PlatformAuthSettings, platform_id: Seq<char>) -> bool {
    &&& s.platform_id@ == platform_id
    &&& s.mode == AuthMode::Creator
    &&& s.auth_url@.len() == 0
    &&& s.token_url@.len() == 0
    &&& s.profile_url@.len() == 0
    &&& s.client_id@.len() == 0
    &&& s.client_secret@.len() == 0
    &&& s.scopes@.len() == 0
}

/// The supported platforms' views, in display order.
pub open spec fn platform_views() -> Seq<PlatformView> {
    seq![xiaohongshu_view(), wechat_channels_view(), douyin_view(), bilibili_view(), kuaishou_view()]
}

/// Creator sign-in settings for a platform.
pub fn creator_platform_auth(platform_id: &str) -> (r: PlatformAuthSettings)
    ensures
        is_creator_auth(r, platform_id@),
{
    PlatformAuthSettings {
        platform_id: owned(platform_id),
        mode: AuthMode::Creator,
        auth_url: String::new(),
        token_url: String::new(),
        profile_url: String::new(),
        client_id: String::new(),
        client_secret: String::new(),
        scopes: Vec::new(),
    }
}

/// The default settings: creator sign-in for every supported platform, in
/// display order.
pub fn default_auth_settings() -> (r: AuthSettings)
    ensures
        r.platforms@.len() == platform_views().len(),
        forall|i: int| 0 <= i < r.platforms@.len() ==> is_creator_auth(#[trigger] r.platforms@[i], platform_views()[i].id),
{
    let list = all();
    let mut out: Vec<PlatformAuthSettings> = Vec::new();
    let mut i: usize = 0;
    while i < list.len()
        invariant
            i <= list@.len() == 5,
            list@[0]@ == xiaohongshu_view(),
            list@[1]@ == wechat_channels_view(),
            list@[2]@ == douyin_view(),
            list@[3]@ == bilibili_view(),
            list@[4]@ == kuaishou_view(),
            out@.len() == i,
            forall|k: int| 0 <= k < i ==> is_creator_auth(#[trigger] out@[k], platform_views()[k].id),
        decreases list@.len() - i,
    {
        assert(list@[i as int]@ == platform_views()[i as int]);
        let s = creator_platform_auth(list[i].id);
        out.push(s);
        i += 1;
    }
    AuthSettings { platforms: out }
}

/// Saved settings are replaced by the defaults: only creator sign-in is
/// offered.
pub fn normalize_settings(settings: AuthSettings) -> (r: AuthSettings)
    ensures
        r.platforms@.len() == platform_views().len(),
        forall|i: int| 0 <= i < r.platforms@.len() ==> is_creator_auth(#[trigger] r.platforms@[i], platform_views()[i].id),
{
    default_auth_settings()
}

pub open spec fn info_matches(info: PlatformInfo, p: PlatformView) -> bool {
    &&& info.id@ == p.id
    &&& info.name@ == p.name
    &&& info.slug@ == p.slug
    &&& info.color@ == p.color
    &&& info.description@ == p.description
}

/// What the app shows of each supported platform, in display order.
pub fn default_platforms() -> (r: Vec<PlatformInfo>)
    ensures
        r@.len() == platform_views().len(),
        forall|i: int| 0 <= i < r@.len() ==> info_matches(#[trigger] r@[i], platform_views()[i]),
{
    let list = all();
    let mut out: Vec<PlatformInfo> = Vec::new();
    let mut i: usize = 0;
    while i < list.len()
        invariant
            i <= list@.len() == 5,
            list@[0]@ == xiaohongshu_view(),
            list@[1]@ == wechat_channels_view(),
            list@[2]@ == douyin_view(),
            list@[3]@ == bilibili_view(),
            list@[4]@ == kuaishou_view(),
            out@.len() == i,
            forall|k: int| 0 <= k < i ==> info_matches(#[trigger] out@[k], platform_views()[k]),
        decreases list@.len() - i,
    {
        assert(list@[i as int]@ == platform_views()[i as int]);
        let p = &list[i];
        let info = PlatformInfo {
            id: owned(p.id),
            name: owned(p.name),
            slug: owned(p.slug),
            color: owned(p.color),
            description: owned(p.description),
        };
        out.push(info);
        i += 1;
    }
    out
}

} // verus!
