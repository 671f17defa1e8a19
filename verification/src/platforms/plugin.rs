//! Accounts read through the platforms' creator pages: matching a profile
//! to a saved account, and turning a profile into an account.

use vstd::prelude::*;
use crate::common::{stable_label_fragment, fnv1a, hex_fixed, label_seed};
use crate::domain::{AccountStatus, ChannelAccount, PluginAccountInfo, PluginAuthError, UtcTime};
use crate::json::{JsonValue, jget, jbool, opt_ref};
use crate::json_ext::{count_deep, first_count, first_i64, first_i64_spec};
use crate::platforms::{normalize_platform_id, normalized_id};
use crate::strs::owned;
use crate::text::{is_blank, lower, lower_str, push_str, str_eq, trim, trim_str};
use crate::text::{contains, split, split_str, str_contains, trim_start, trim_start_str};
use crate::domain::{AuthErrorView, auth_error_view};
use crate::platforms::cookies::{douyin_login_spec, has_douyin_login_cookie};
use crate::strs::opt_str_view;

verus! {

pub open spec fn match_key(v: Seq<char>) -> Seq<char> {
    lower(trim(v))
}

/// The form in which account identifiers are compared: trimmed, ASCII
/// lower case.
pub fn normalize_match_key(value: &str) -> (r: String)
    ensures
        r@ == match_key(value@),
{
    lower_str(trim_str(value).as_str())
}

/// The message a failed account read carries.
pub fn plugin_error_message(error: &PluginAuthError) -> (r: String)
    ensures
        r@ == match error {
            PluginAuthError::NotLoggedIn(m) => m@,
            PluginAuthError::Failed(m) => m@,
        },
{
    match error {
        PluginAuthError::NotLoggedIn(m) => m.clone(),
        PluginAuthError::Failed(m) => m.clone(),
    }
}

pub open spec fn account_uid_spec(account: PluginAccountInfo) -> Seq<char> {
    if trim(account.uid@).len() == 0 { account.account@ } else { account.uid@ }
}

/// The id of a profile: its uid, or its account name where the uid is blank.
pub fn plugin_account_uid(account: &PluginAccountInfo) -> (r: String)
    ensures
        r@ == account_uid_spec(*account),
{
    if is_blank(account.uid.as_str()) { account.account.clone() } else { account.uid.clone() }
}

/// Some identifier of the account (uid, nickname or id) equals, once
/// normalized and not blank, one of the profile's identifiers.
pub open spec fn any_key_match(account_keys: Seq<Seq<char>>, profile_keys: Seq<Seq<char>>) -> bool {
    exists|i: int, j: int| 0 <= i < account_keys.len() && 0 <= j < profile_keys.len()
        && match_key(account_keys[i]).len() > 0
        && match_key(account_keys[i]) == match_key(profile_keys[j])
}

fn any_key_match_exec(account_keys: &[&str], profile_keys: &[&str]) -> (r: bool)
    ensures
        r == any_key_match(crate::strs::strs_view(account_keys@), crate::strs::strs_view(profile_keys@)),
{
    let ghost ak = crate::strs::strs_view(account_keys@);
    let ghost pk = crate::strs::strs_view(profile_keys@);
    let mut i: usize = 0;
    while i < account_keys.len()
        invariant
            i <= account_keys@.len(),
            ak == crate::strs::strs_view(account_keys@),
            pk == crate::strs::strs_view(profile_keys@),
            forall|a: int, b: int| 0 <= a < i && 0 <= b < pk.len() ==>
                !(match_key(#[trigger] ak[a]).len() > 0 && match_key(ak[a]) == match_key(#[trigger] pk[b])),
        decreases account_keys@.len() - i,
    {
        let a = normalize_match_key(account_keys[i]);
        assert(ak[i as int] == account_keys@[i as int]@);
        if !a.as_str().is_empty() {
            let mut j: usize = 0;
            while j < profile_keys.len()
                invariant
                    j <= profile_keys@.len(),
                    i < account_keys@.len(),
                    ak == crate::strs::strs_view(account_keys@),
                    pk == crate::strs::strs_view(profile_keys@),
                    a@ == match_key(ak[i as int]),
                    a@.len() > 0,
                    forall|b: int| 0 <= b < j ==> match_key(ak[i as int]) != match_key(#[trigger] pk[b]),
                decreases profile_keys@.len() - j,
            {
                let p = normalize_match_key(profile_keys[j]);
                assert(pk[j as int] == profile_keys@[j as int]@);
                if str_eq(a.as_str(), p.as_str()) {
                    assert(match_key(ak[i as int]).len() > 0 && match_key(ak[i as int]) == match_key(pk[j as int]));
                    return true;
                }
                j += 1;
            }
        }
        i += 1;
    }
    false
}

/// Whether a profile read from a platform is the saved account: some uid,
/// account name or nickname of the profile equals (normalized) the
/// account's uid, nickname or id.
pub fn plugin_profile_matches_account(profile: &PluginAccountInfo, account: &ChannelAccount) -> (r: bool)
    ensures
        r == any_key_match(seq![account.uid@, account.nickname@, account.id@],
            seq![profile.uid@, profile.account@, profile.nickname@]),
{
    let ak: [&str; 3] = [account.uid.as_str(), account.nickname.as_str(), account.id.as_str()];
    let pk: [&str; 3] = [profile.uid.as_str(), profile.account.as_str(), profile.nickname.as_str()];
    assert(crate::strs::strs_view(ak@) =~= seq![account.uid@, account.nickname@, account.id@]);
    assert(crate::strs::strs_view(pk@) =~= seq![profile.uid@, profile.account@, profile.nickname@]);
    any_key_match_exec(&ak, &pk)
}

/// The stricter match used before replacing a saved account: only uids,
/// account names and ids are compared, never nicknames.
pub fn plugin_profile_matches_account_strong(profile: &PluginAccountInfo, account: &ChannelAccount) -> (r: bool)
    ensures
        r == any_key_match(seq![account.uid@, account.id@], seq![profile.uid@, profile.account@]),
{
    let ak: [&str; 2] = [account.uid.as_str(), account.id.as_str()];
    let pk: [&str; 2] = [profile.uid.as_str(), profile.account.as_str()];
    assert(crate::strs::strs_view(ak@) =~= seq![account.uid@, account.id@]);
    assert(crate::strs::strs_view(pk@) =~= seq![profile.uid@, profile.account@]);
    any_key_match_exec(&ak, &pk)
}

/// A boolean "success" decides; otherwise an error code
/// of 0 (or none) is success.
pub open spec fn plugin_success_spec(v: JsonValue) -> bool {
    match jget(v, "success"@) {
        Some(JsonValue::Bool(b)) => b,
        _ => (match first_i64_spec(v, seq!["code", "errCode", "errcode"]) { Some(c) => c, None => 0 }) == 0,
    }
}

/// Whether a platform response reports success.
pub fn response_success(value: &JsonValue) -> (r: bool)
    ensures
        r == plugin_success_spec(*value),
{
    if let Some(JsonValue::Bool(b)) = value.get("success") {
        return *b;
    }
    let keys: [&str; 3] = ["code", "errCode", "errcode"];
    assert(keys@ =~= seq!["code", "errCode", "errcode"]);
    let c = match first_i64(value, &keys) { Some(c) => c, None => 0 };
    c == 0
}

/// The first count found by `first_count` in the given values, in order.
pub open spec fn count_from_values(values: Seq<Option<&JsonValue>>, keys: Seq<&str>) -> Option<u64>
    decreases values.len(),
{
    if values.len() == 0 {
        None
    } else {
        match opt_ref(values[0]) {
            Some(v) if count_deep(v, keys) is Some => count_deep(v, keys),
            _ => count_from_values(values.drop_first(), keys),
        }
    }
}

/// The first count any of the values holds under `keys`.
pub fn first_count_from_values(values: &[Option<&JsonValue>], keys: &[&str]) -> (r: Option<u64>)
    ensures
        r == count_from_values(values@, keys@),
{
    let mut i: usize = 0;
    assert(values@.skip(0) =~= values@);
    while i < values.len()
        invariant
            i <= values@.len(),
            count_from_values(values@, keys@) == count_from_values(values@.skip(i as int), keys@),
        decreases values@.len() - i,
    {
        proof {
            assert(values@.skip(i as int).drop_first() =~= values@.skip(i + 1));
            assert(values@.skip(i as int)[0] == values@[i as int]);
        }
        if let Some(v) = values[i] {
            let found = first_count(v, keys);
            if found.is_some() {
                return found;
            }
        }
        i += 1;
    }
    None
}

/// The id given to an account made from a profile: the platform, then a
/// stable label of "platform:uid:nickname".
pub open spec fn plugin_account_id(platform_id: Seq<char>, uid: Seq<char>, nickname: Seq<char>) -> Seq<char> {
    normalized_id(platform_id) + "_"@
        + hex_fixed(fnv1a(vstd::utf8::encode_utf8(normalized_id(platform_id) + ":"@ + uid + ":"@ + nickname), label_seed()) as nat, 16)
}

/// The saved account for a profile read at `now`: active, with no owner yet,
/// and with the profile's counts.
pub fn channel_account_from_plugin_info(platform_id: &str, account: &PluginAccountInfo, now: UtcTime) -> (r: ChannelAccount)
    ensures
        r.id@ == plugin_account_id(platform_id@, account_uid_spec(*account), account.nickname@),
        r.user_id is None,
        r.platform_id@ == normalized_id(platform_id@),
        r.uid@ == account_uid_spec(*account),
        r.nickname@ == account.nickname@,
        r.avatar@ == account.avatar@,
        r.followers == account.fans_count,
        r.following == account.following_count,
        r.likes == account.like_count,
        r.status == AccountStatus::Active,
        r.created_at == now,
        r.updated_at == now,
        r.last_sync_at == Some(now),
{
    let platform_id = normalize_platform_id(platform_id);
    let uid = plugin_account_uid(account);
    let mut label_input = platform_id.clone();
    push_str(&mut label_input, ":");
    push_str(&mut label_input, uid.as_str());
    push_str(&mut label_input, ":");
    push_str(&mut label_input, account.nickname.as_str());
    let mut id = platform_id.clone();
    push_str(&mut id, "_");
    push_str(&mut id, stable_label_fragment(label_input.as_str()).as_str());
    ChannelAccount {
        id,
        user_id: None,
        platform_id,
        uid,
        nickname: account.nickname.clone(),
        avatar: account.avatar.clone(),
        followers: account.fans_count,
        following: account.following_count,
        likes: account.like_count,
        status: AccountStatus::Active,
        created_at: now,
        updated_at: now,
        last_sync_at: Some(now),
    }
}

/// Reads the system clock through `chrono::Utc::now`. Nothing is claimed of
/// the instant it returns.
#[verifier::external_body]
fn utc_now() -> (r: UtcTime) {
    let now = chrono::Utc::now();
    UtcTime { secs: now.timestamp(), nanos: now.timestamp_subsec_nanos() }
}

/// The saved account for a profile read now.
pub fn plugin_info_to_channel_account(platform_id: &str, account: &PluginAccountInfo) -> (r: ChannelAccount)
    ensures
        r.id@ == plugin_account_id(platform_id@, account_uid_spec(*account), account.nickname@),
        r.user_id is None,
        r.platform_id@ == normalized_id(platform_id@),
        r.uid@ == account_uid_spec(*account),
        r.nickname@ == account.nickname@,
        r.avatar@ == account.avatar@,
        r.followers == account.fans_count,
        r.following == account.following_count,
        r.likes == account.like_count,
        r.status == AccountStatus::Active,
        r.updated_at == r.created_at,
        r.last_sync_at == Some(r.created_at),
{
    channel_account_from_plugin_info(platform_id, account, utc_now())
}

/// The message that asks to finish signing in in the window that was
/// opened for a platform.
pub open spec fn sign_in_message(p: Seq<char>, login_target: Option<Seq<char>>) -> Seq<char> {
    if p == "xiaohongshu"@ {
        if login_target == Some("home"@) {
            "请先在打开的小红书主页完成登录。"@
        } else {
            "请先在打开的小红书创作中心完成登录。"@
        }
    } else if p == "wechat-channels"@ {
        "请先在打开的视频号窗口完成登录。"@
    } else if p == "bilibili"@ {
        "请先在打开的 B 站窗口完成登录。"@
    } else if p == "douyin"@ {
        "请先在打开的抖音创作者中心完成登录。"@
    } else if p == "kuaishou"@ {
        "请先在打开的快手创作者中心完成登录。"@
    } else {
        "请先在打开的平台窗口完成登录。"@
    }
}

fn sign_in_message_exec(p: &str, login_target: Option<&str>) -> (r: &'static str)
    ensures
        r@ == sign_in_message(p@, opt_str_view(login_target)),
{
    if str_eq(p, "xiaohongshu") {
        let home = match login_target {
            Some(t) => str_eq(t, "home"),
            None => false,
        };
        if home {
            "请先在打开的小红书主页完成登录。"
        } else {
            "请先在打开的小红书创作中心完成登录。"
        }
    } else if str_eq(p, "wechat-channels") {
        "请先在打开的视频号窗口完成登录。"
    } else if str_eq(p, "bilibili") {
        "请先在打开的 B 站窗口完成登录。"
    } else if str_eq(p, "douyin") {
        "请先在打开的抖音创作者中心完成登录。"
    } else if str_eq(p, "kuaishou") {
        "请先在打开的快手创作者中心完成登录。"
    } else {
        "请先在打开的平台窗口完成登录。"
    }
}

/// A cookie header with a WeChat Channels session: one of its pieces,
/// without leading white space and in lower case, holds "sessionid=".
pub open spec fn has_wx_session(header: Seq<char>) -> bool {
    exists|i: int| 0 <= i < split(header, ';').len() && contains(lower(trim_start(#[trigger] split(header, ';')[i])), "sessionid="@)
}

fn has_wx_session_exec(header: &str) -> (r: bool)
    ensures
        r == has_wx_session(header@),
{
    let parts = split_str(header, ';');
    let ghost pv = parts@.map_values(|x: String| x@);
    let mut i: usize = 0;
    while i < parts.len()
        invariant
            i <= parts@.len(),
            pv == parts@.map_values(|x: String| x@),
            pv == split(header@, ';'),
            forall|j: int| 0 <= j < i ==> !contains(lower(trim_start(#[trigger] split(header@, ';')[j])), "sessionid="@),
        decreases parts@.len() - i,
    {
        let t = trim_start_str(parts[i].as_str());
        let l = lower_str(t.as_str());
        assert(pv[i as int] == parts@[i as int]@);
        if str_contains(l.as_str(), "sessionid=") {
            return true;
        }
        i += 1;
    }
    false
}

/// Why reading an account through a cookie is refused before any request:
/// no cookie yet, no WeChat Channels session, no Douyin login cookie, or a
/// platform that is not signed in through a browser; nothing where the
/// request is to be made.
pub open spec fn login_precheck_spec(platform_id: Seq<char>, cookie_header: Seq<char>, login_cookie: Seq<char>,
    login_target: Option<Seq<char>>, decoded: Option<JsonValue>) -> Option<AuthErrorView> {
    let p = normalized_id(platform_id);
    if trim(cookie_header).len() == 0 || trim(login_cookie).len() == 0 {
        Some(AuthErrorView::NotLoggedIn(sign_in_message(p, login_target)))
    } else if p == "wechat-channels"@ && !has_wx_session(cookie_header) {
        Some(AuthErrorView::NotLoggedIn("请先在打开的视频号窗口完成登录。"@))
    } else if p == "douyin"@ && !douyin_login_spec(login_cookie, decoded) {
        Some(AuthErrorView::NotLoggedIn("请先在打开的抖音创作者中心完成登录。"@))
    } else if p == "xiaohongshu"@ || p == "wechat-channels"@ || p == "bilibili"@ || p == "douyin"@ || p == "kuaishou"@ {
        None
    } else {
        Some(AuthErrorView::Failed("当前平台不支持浏览器授权"@))
    }
}

/// An account read from a cookie, before its request: the
/// refusal, or nothing where the platform's account is to be read.
/// `decoded` is the trimmed login cookie decoded as a JSON cookie list,
/// where it is one.
pub fn cookie_login_precheck(platform_id: &str, cookie_header: &str, login_cookie: &str, login_target: Option<&str>,
    decoded: Option<&JsonValue>) -> (r: Option<PluginAuthError>)
    ensures
        match r {
            Some(e) => login_precheck_spec(platform_id@, cookie_header@, login_cookie@, opt_str_view(login_target), opt_ref(decoded)) == Some(auth_error_view(e)),
            None => login_precheck_spec(platform_id@, cookie_header@, login_cookie@, opt_str_view(login_target), opt_ref(decoded)) is None,
        },
{
    let p = normalize_platform_id(platform_id);
    let ps = p.as_str();
    if is_blank(cookie_header) || is_blank(login_cookie) {
        return Some(PluginAuthError::NotLoggedIn(owned(sign_in_message_exec(ps, login_target))));
    }
    if str_eq(ps, "wechat-channels") && !has_wx_session_exec(cookie_header) {
        return Some(PluginAuthError::NotLoggedIn(owned("请先在打开的视频号窗口完成登录。")));
    }
    if str_eq(ps, "douyin") && !has_douyin_login_cookie(login_cookie, decoded) {
        return Some(PluginAuthError::NotLoggedIn(owned("请先在打开的抖音创作者中心完成登录。")));
    }
    if str_eq(ps, "xiaohongshu") || str_eq(ps, "wechat-channels") || str_eq(ps, "bilibili") || str_eq(ps, "douyin")
        || str_eq(ps, "kuaishou") {
        None
    } else {
        Some(PluginAuthError::Failed(owned("当前平台不支持浏览器授权")))
    }
}

} // verus!
