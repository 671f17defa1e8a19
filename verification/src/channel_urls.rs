//! The platform an account belongs to, and the addresses opened for it.

use vstd::prelude::*;
use crate::domain::ChannelAccount;
use crate::platforms::{homepage_url_spec, platform, platform_view, ChannelPlatform};
use crate::strs::{owned, result_view};
use crate::text::push_str;
use crate::weburl::{parse_url, url_parse_host, url_parsed, url_path_query};

verus! {

/// The platform named by an identifier, or the message that it is not
/// supported.
pub fn channel_platform(platform_id: &str) -> (r: Result<ChannelPlatform, String>)
    ensures
        match r {
            Ok(p) => platform_view(platform_id@) == Some(p@),
            Err(e) => platform_view(platform_id@) is None && e@ == "当前平台暂不支持"@,
        },
{
    match platform(platform_id) {
        Some(p) => Ok(p),
        None => Err(owned("当前平台暂不支持")),
    }
}

/// The creator centre address of a platform, parsed; an unsupported
/// platform, or an address that does not parse, gives the message.
pub fn creator_home_url(platform_id: &str, label: &str) -> (r: Result<url::Url, String>)
    ensures
        match r {
            Ok(u) => platform_view(platform_id@) is Some
                && url_parse_host(platform_view(platform_id@)->0.creator_home_url) is Some
                && u == url_parsed(platform_view(platform_id@)->0.creator_home_url),
            Err(e) => match platform_view(platform_id@) {
                None => e@ == "当前平台暂不支持"@,
                Some(p) => match url_path_query(p.creator_home_url) {
                    Err(m) => e@ == label@ + "地址无效: "@ + m,
                    Ok(_) => false,
                },
            },
        },
{
    let p = match channel_platform(platform_id) {
        Ok(p) => p,
        Err(e) => return Err(e),
    };
    match parse_url(p.creator_home_url) {
        Ok(u) => Ok(u),
        Err(m) => {
            let mut e = owned(label);
            push_str(&mut e, "地址无效: ");
            push_str(&mut e, m.as_str());
            Err(e)
        },
    }
}

/// The homepage link of an account on its platform.
pub fn account_homepage_url(account: &ChannelAccount) -> (r: Result<String, String>)
    ensures
        result_view(r) == match platform_view(account.platform_id@) {
            Some(p) => homepage_url_spec(p, account.uid@, account.nickname@),
            None => Err("当前平台暂不支持"@),
        },
{
    match channel_platform(account.platform_id.as_str()) {
        Ok(p) => p.homepage_url(account.uid.as_str(), account.nickname.as_str()),
        Err(e) => Err(e),
    }
}

} // verus!
