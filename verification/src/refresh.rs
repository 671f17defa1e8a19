//! Refreshing a saved account from its creator session: which profile
//! fields replace the saved ones, and how the session's secrets are kept.

use vstd::prelude::*;
use crate::domain::{ChannelAccount, PluginAccountInfo, PluginAuthError, UtcTime, AccountStatus};
use crate::json_ext::opt_string_view;
use crate::number::is_digit_exec;
use crate::platforms::{normalize_platform_id, normalized_id};
use crate::storage::{
    AccountView, SecretView, StoreFile, accounts_view, account_belongs_to_user, belongs, clone_account,
    secret_or_default, secrets_view, set_secret,
};
use crate::strs::owned;
use crate::text::{
    all_digits, chars_of, is_blank, is_digit, lower, lower_str, starts_with, str_eq, str_starts_with, trim, trim_str,
};
use crate::weburl::{parse_host, parse_path_query, url_parse_host, url_path_query};
use crate::json::{JsonValue, opt_ref};
use crate::domain::ProfileView;
use crate::strs::opt_str_view;
use crate::platforms::cookies::{
    cookie_header_spec, douyin_login_spec, has_douyin_login_cookie, login_cookie_to_header, saved_cookie_header,
    saved_header_spec,
};
use crate::platforms::plugin::{any_key_match, plugin_profile_matches_account};
use crate::platforms::xiaohongshu::{xhs_matches_spec, xhs_profile_matches_account};

verus! {

/// What checking an account's creator session found: the login cookie and
/// browser session to keep, and the profile read, where there are any.
#[derive(Debug)]
pub struct CreatorSessionStatus {
    pub login_cookie: Option<String>,
    pub webview_session_id: Option<String>,
    pub profile: Option<PluginAccountInfo>,
}

/// The placeholder nickname a Kuaishou account gets from its login cookie:
/// "快手账号", or it followed by a space and digits.
pub open spec fn kuaishou_fallback_nickname(n: Seq<char>) -> bool {
    n == "快手账号"@ || (starts_with(n, "快手账号 "@) && all_digits(n.skip(5)))
}

/// Whether a nickname is the placeholder Kuaishou gives before its real one
/// is known.
pub fn is_kuaishou_cookie_fallback_nickname(nickname: &str) -> (r: bool)
    ensures
        r == kuaishou_fallback_nickname(nickname@),
{
    proof {
        reveal_strlit("快手账号");
        reveal_strlit("快手账号 ");
    }
    if str_eq(nickname, "快手账号") {
        return true;
    }
    if !str_starts_with(nickname, "快手账号 ") {
        return false;
    }
    let cs = chars_of(nickname);
    let mut i: usize = 5;
    while i < cs.len()
        invariant
            5 <= i <= cs@.len(),
            cs@ == nickname@,
            nickname@ != "快手账号"@,
            starts_with(nickname@, "快手账号 "@),
            forall|j: int| 5 <= j < i ==> is_digit(#[trigger] cs@[j]),
        decreases cs@.len() - i,
    {
        if !is_digit_exec(cs[i]) {
            assert(nickname@.skip(5)[i - 5] == cs@[i as int]);
            return false;
        }
        i += 1;
    }
    assert forall|k: int| 0 <= k < nickname@.skip(5).len() implies is_digit(#[trigger] nickname@.skip(5)[k]) by {
        assert(nickname@.skip(5)[k] == cs@[k + 5]);
    }
    true
}


/// A non-blank nickname replaces the saved
/// one, except that a Kuaishou placeholder never replaces a real nickname.
pub open spec fn nickname_update(a: AccountView, nickname: Seq<char>) -> bool {
    let t = trim(nickname);
    t.len() > 0 && !(normalized_id(a.platform_id) == "kuaishou"@ && trim(a.nickname).len() > 0 && kuaishou_fallback_nickname(t))
}

/// Whether a profile's nickname should replace an account's.
pub fn should_update_account_nickname(account: &ChannelAccount, nickname: &str) -> (r: bool)
    ensures
        r == nickname_update(account@, nickname@),
{
    let t = trim_str(nickname);
    if is_blank(nickname) {
        return false;
    }
    if str_eq(normalize_platform_id(account.platform_id.as_str()).as_str(), "kuaishou")
        && !is_blank(account.nickname.as_str())
        && is_kuaishou_cookie_fallback_nickname(t.as_str()) {
        return false;
    }
    true
}

/// A profile read through a stored Kuaishou cookie is refused while it only
/// carries the placeholder nickname.
pub fn reject_kuaishou_cookie_fallback_profile(profile: PluginAccountInfo) -> (r: Result<PluginAccountInfo, PluginAuthError>)
    ensures
        kuaishou_fallback_nickname(profile.nickname@) ==> r == Err::<PluginAccountInfo, PluginAuthError>(PluginAuthError::NotLoggedIn(
            r->Err_0->NotLoggedIn_0)) && r->Err_0->NotLoggedIn_0@ == "已检测到快手登录态，但还没有读取到真实昵称，请稍后再试或重新登录。"@,
        !kuaishou_fallback_nickname(profile.nickname@) ==> r == Ok::<PluginAccountInfo, PluginAuthError>(profile),
{
    if is_kuaishou_cookie_fallback_nickname(profile.nickname.as_str()) {
        return Err(PluginAuthError::NotLoggedIn(owned("已检测到快手登录态，但还没有读取到真实昵称，请稍后再试或重新登录。")));
    }
    Ok(profile)
}

/// The page's host is cp.kuaishou.com
/// (in any case) and its path starts with "/profile".
pub open spec fn kuaishou_creator_home_spec(raw: Seq<char>) -> bool {
    match url_parse_host(raw) {
        Some(Some(h)) => lower(h) == "cp.kuaishou.com"@ && match url_path_query(raw) {
            Ok(pq) => starts_with(pq.0, "/profile"@),
            Err(_) => false,
        },
        _ => false,
    }
}

/// Whether the browser shows Kuaishou's creator home page.
pub fn page_url_is_kuaishou_creator_home(raw_url: &str) -> (r: bool)
    ensures
        r == kuaishou_creator_home_spec(raw_url@),
{
    match parse_host(raw_url) {
        Some(Some(h)) => {
            if !str_eq(lower_str(h.as_str()).as_str(), "cp.kuaishou.com") {
                return false;
            }
            match parse_path_query(raw_url) {
                Ok((p, _)) => str_starts_with(p.as_str(), "/profile"),
                Err(_) => false,
            }
        },
        _ => false,
    }
}

pub open spec fn status_view(s: CreatorSessionStatus) -> (Option<Seq<char>>, Option<Seq<char>>) {
    (opt_string_view(s.login_cookie), opt_string_view(s.webview_session_id))
}

/// The secrets once a session's cookie and browser session are kept: when
/// either is given, the account gets an entry, and each non-blank one
/// replaces the saved one.
pub open spec fn secrets_after_status(m: Map<Seq<char>, SecretView>, id: Seq<char>, cookie: Option<Seq<char>>, session: Option<Seq<char>>) -> Map<Seq<char>, SecretView> {
    if cookie is Some || session is Some {
        let old: SecretView = if m.contains_key(id) { m[id] } else { (None, None) };
        m.insert(id, (
            match cookie { Some(c) if trim(c).len() > 0 => Some(c), _ => old.0 },
            match session { Some(w) if trim(w).len() > 0 => Some(w), _ => old.1 },
        ))
    } else {
        m
    }
}

/// An account refreshed from a session's profile at `now`: the profile's
/// nickname where `nickname_update` allows it, its non-blank avatar, the
/// counts it has, and its uid where the account has none (always for Douyin
/// and Xiaohongshu); then active again.
pub open spec fn refreshed_by_status(a: AccountView, profile: Option<PluginAccountInfo>, now: UtcTime) -> AccountView {
    let b = match profile {
        None => a,
        Some(p) => AccountView {
            nickname: if trim(p.nickname@).len() > 0 && nickname_update(a, p.nickname@) { p.nickname@ } else { a.nickname },
            avatar: if trim(p.avatar@).len() > 0 { p.avatar@ } else { a.avatar },
            followers: match p.fans_count { Some(n) => Some(n), None => a.followers },
            following: match p.following_count { Some(n) => Some(n), None => a.following },
            likes: match p.like_count { Some(n) => Some(n), None => a.likes },
            uid: if trim(a.uid).len() == 0 || normalized_id(a.platform_id) == "douyin"@ || normalized_id(a.platform_id) == "xiaohongshu"@ {
                p.uid@
            } else {
                a.uid
            },
            ..a
        },
    };
    AccountView { status: AccountStatus::Active, last_sync_at: Some(now), updated_at: now, ..b }
}

fn refresh_account(account: &ChannelAccount, profile: &Option<PluginAccountInfo>, now: UtcTime) -> (r: ChannelAccount)
    ensures
        r@ == refreshed_by_status(account@, *profile, now),
{
    let mut a = clone_account(account);
    if let Some(p) = profile {
        if !is_blank(p.nickname.as_str()) && should_update_account_nickname(account, p.nickname.as_str()) {
            a.nickname = p.nickname.clone();
        }
        if !is_blank(p.avatar.as_str()) {
            a.avatar = p.avatar.clone();
        }
        if let Some(n) = p.fans_count {
            a.followers = Some(n);
        }
        if let Some(n) = p.following_count {
            a.following = Some(n);
        }
        if let Some(n) = p.like_count {
            a.likes = Some(n);
        }
        let platform = normalize_platform_id(account.platform_id.as_str());
        if is_blank(account.uid.as_str()) || str_eq(platform.as_str(), "douyin") || str_eq(platform.as_str(), "xiaohongshu") {
            a.uid = p.uid.clone();
        }
    }
    a.status = AccountStatus::Active;
    a.last_sync_at = Some(now);
    a.updated_at = now;
    a
}

/// Keeps what a creator session check found for a user's account: its
/// cookie and browser session, then its profile, marking it active as of
/// `now`; "账号不存在" when the user has no account with that id.
pub fn apply_creator_status(store: &mut StoreFile, user_id: &str, account_id: &str, status: &CreatorSessionStatus, now: UtcTime) -> (r: Result<ChannelAccount, String>)
    requires
        old(store).well_formed(),
    ensures
        final(store).well_formed(),
        final(store).settings == old(store).settings,
        secrets_view(final(store).account_secrets@) == secrets_after_status(secrets_view(old(store).account_secrets@), account_id@,
            status_view(*status).0, status_view(*status).1),
        match r {
            Ok(a) => exists|i: int| 0 <= i < old(store).accounts@.len()
                && (#[trigger] old(store).accounts@[i]).id@ == account_id@ && belongs(old(store).accounts@[i]@, user_id@)
                && (forall|j: int| 0 <= j < i ==> !((#[trigger] old(store).accounts@[j]).id@ == account_id@ && belongs(old(store).accounts@[j]@, user_id@)))
                && a@ == refreshed_by_status(old(store).accounts@[i]@, status.profile, now)
                && accounts_view(final(store).accounts@) == accounts_view(old(store).accounts@).update(i, a@),
            Err(e) => e@ == "账号不存在"@
                && (forall|j: int| 0 <= j < old(store).accounts@.len() ==> !((#[trigger] old(store).accounts@[j]).id@ == account_id@ && belongs(old(store).accounts@[j]@, user_id@)))
                && final(store).accounts == old(store).accounts,
        },
{
    if status.login_cookie.is_some() || status.webview_session_id.is_some() {
        let mut secret = secret_or_default(&store.account_secrets, account_id);
        if let Some(c) = &status.login_cookie {
            if !is_blank(c.as_str()) {
                secret.login_cookie = Some(c.clone());
            }
        }
        if let Some(w) = &status.webview_session_id {
            if !is_blank(w.as_str()) {
                secret.webview_session_id = Some(w.clone());
            }
        }
        set_secret(&mut store.account_secrets, account_id, secret);
    }
    let ghost expect = secrets_view(store.account_secrets@);
    assert(expect == secrets_after_status(secrets_view(old(store).account_secrets@), account_id@,
        status_view(*status).0, status_view(*status).1));
    let mut i: usize = 0;
    while i < store.accounts.len()
        invariant
            i <= store.accounts@.len(),
            store.accounts == old(store).accounts,
            store.settings == old(store).settings,
            store.well_formed(),
            secrets_view(store.account_secrets@) == expect,
            expect == secrets_after_status(secrets_view(old(store).account_secrets@), account_id@,
                status_view(*status).0, status_view(*status).1),
            forall|j: int| 0 <= j < i ==> !((#[trigger] old(store).accounts@[j]).id@ == account_id@ && belongs(old(store).accounts@[j]@, user_id@)),
        decreases store.accounts@.len() - i,
    {
        if str_eq(store.accounts[i].id.as_str(), account_id) && account_belongs_to_user(&store.accounts[i], user_id) {
            let a = refresh_account(&store.accounts[i], &status.profile, now);
            let result = clone_account(&a);
            let ghost before = store.accounts@;
            store.accounts.set(i, a);
            assert(accounts_view(store.accounts@) =~= accounts_view(before).update(i as int, result@));
            return Ok(result);
        }
        i += 1;
    }
    Err(owned("账号不存在"))
}

/// How checking a saved creator session starts: no check for the platform,
/// a session already known to be gone (with the message), or a request for
/// the account behind a cookie header.
#[derive(Debug, PartialEq)]
pub enum SessionProbe {
    Unsupported,
    Expired(String),
    Probe { cookie_header: String, login_cookie: String },
}

pub enum SessionProbeView {
    Unsupported,
    Expired(Seq<char>),
    Probe(Seq<char>, Seq<char>),
}

pub open spec fn probe_view(p: SessionProbe) -> SessionProbeView {
    match p {
        SessionProbe::Unsupported => SessionProbeView::Unsupported,
        SessionProbe::Expired(m) => SessionProbeView::Expired(m@),
        SessionProbe::Probe { cookie_header, login_cookie } => SessionProbeView::Probe(cookie_header@, login_cookie@),
    }
}

/// The message shown when a platform's saved session is gone.
pub open spec fn expired_message(p: Seq<char>) -> Seq<char> {
    if p == "xiaohongshu"@ {
        "小红书登录已失效，请重新登录后再打开创作中心。"@
    } else if p == "wechat-channels"@ {
        "视频号登录已失效，请重新登录后再打开创作中心。"@
    } else if p == "bilibili"@ {
        "B 站网页登录态已失效，请重新登录后再打开创作中心。"@
    } else if p == "douyin"@ {
        "抖音网页登录态已失效，请重新登录后再打开创作中心。"@
    } else {
        "快手网页登录态已失效，请重新登录后再打开创作中心。"@
    }
}

fn expired_message_exec(p: &str) -> (r: &'static str)
    ensures
        r@ == expired_message(p@),
{
    if str_eq(p, "xiaohongshu") {
        "小红书登录已失效，请重新登录后再打开创作中心。"
    } else if str_eq(p, "wechat-channels") {
        "视频号登录已失效，请重新登录后再打开创作中心。"
    } else if str_eq(p, "bilibili") {
        "B 站网页登录态已失效，请重新登录后再打开创作中心。"
    } else if str_eq(p, "douyin") {
        "抖音网页登录态已失效，请重新登录后再打开创作中心。"
    } else {
        "快手网页登录态已失效，请重新登录后再打开创作中心。"
    }
}

/// A creator session check, before its request: Xiaohongshu and WeChat
/// Channels use the saved cookie as it is, the other platforms trimmed and
/// not blank (Douyin also needs its login cookie); a platform without a
/// creator session check is unsupported.
pub open spec fn probe_spec(platform_id: Seq<char>, saved: Option<Seq<char>>, decoded: Option<JsonValue>) -> SessionProbeView {
    let p = normalized_id(platform_id);
    if p == "xiaohongshu"@ || p == "wechat-channels"@ {
        match saved {
            Some(lc) => if trim(cookie_header_spec(lc, decoded)).len() > 0 {
                SessionProbeView::Probe(cookie_header_spec(lc, decoded), lc)
            } else {
                SessionProbeView::Expired(expired_message(p))
            },
            None => SessionProbeView::Expired(expired_message(p)),
        }
    } else if p == "bilibili"@ || p == "douyin"@ || p == "kuaishou"@ {
        match saved_header_spec(saved, expired_message(p), decoded) {
            Err(e) => SessionProbeView::Expired(e),
            Ok(hl) => if p == "douyin"@ && !douyin_login_spec(hl.1, decoded) {
                SessionProbeView::Expired(expired_message(p))
            } else {
                SessionProbeView::Probe(hl.0, hl.1)
            },
        }
    } else {
        SessionProbeView::Unsupported
    }
}

/// How to check an account's saved creator session. `decoded` is the saved
/// cookie (trimmed) decoded as a JSON cookie list, where it is one.
pub fn creator_session_probe(platform_id: &str, saved_login_cookie: Option<&str>, decoded: Option<&JsonValue>) -> (r: SessionProbe)
    ensures
        probe_view(r) == probe_spec(platform_id@, opt_str_view(saved_login_cookie), opt_ref(decoded)),
{
    let p = normalize_platform_id(platform_id);
    let ps = p.as_str();
    if str_eq(ps, "xiaohongshu") || str_eq(ps, "wechat-channels") {
        match saved_login_cookie {
            Some(lc) => {
                let header = login_cookie_to_header(lc, decoded);
                if is_blank(header.as_str()) {
                    SessionProbe::Expired(owned(expired_message_exec(ps)))
                } else {
                    SessionProbe::Probe { cookie_header: header, login_cookie: owned(lc) }
                }
            },
            None => SessionProbe::Expired(owned(expired_message_exec(ps))),
        }
    } else if str_eq(ps, "bilibili") || str_eq(ps, "douyin") || str_eq(ps, "kuaishou") {
        match saved_cookie_header(saved_login_cookie, expired_message_exec(ps), decoded) {
            Err(e) => SessionProbe::Expired(e),
            Ok((h, lc)) => {
                if str_eq(ps, "douyin") && !has_douyin_login_cookie(lc.as_str(), decoded) {
                    SessionProbe::Expired(owned(expired_message_exec(ps)))
                } else {
                    SessionProbe::Probe { cookie_header: h, login_cookie: lc }
                }
            },
        }
    } else {
        SessionProbe::Unsupported
    }
}

pub open spec fn session_status_view(s: CreatorSessionStatus) -> (Option<Seq<char>>, Option<Seq<char>>, Option<ProfileView>) {
    (opt_string_view(s.login_cookie), opt_string_view(s.webview_session_id), match s.profile { Some(p) => Some(p@), None => None })
}

/// A creator session check, after its request (`result`, with the request's
/// message on failure): Xiaohongshu and WeChat Channels report their own
/// expiry message on a failure and refuse a profile of another account;
/// the others pass the failure on. Xiaohongshu, WeChat Channels and
/// Bilibili keep the cookie the profile carries, Douyin and Kuaishou the
/// one that was sent.
pub open spec fn outcome_spec(account: ChannelAccount, login_cookie: Seq<char>, result: Result<ProfileView, Seq<char>>, profile: Option<PluginAccountInfo>, session: Option<Seq<char>>)
    -> Result<(Option<Seq<char>>, Option<Seq<char>>, Option<ProfileView>), Seq<char>> {
    let p = normalized_id(account.platform_id@);
    if p == "xiaohongshu"@ {
        match profile {
            None => Err(expired_message(p)),
            Some(x) => if !xhs_matches_spec(x, account) {
                Err("当前小红书登录态不属于这个账号，请重新登录。"@)
            } else {
                Ok((Some(x.login_cookie@), session, Some(x@)))
            },
        }
    } else if p == "wechat-channels"@ {
        match profile {
            None => Err(expired_message(p)),
            Some(x) => if any_key_match(seq![account.uid@, account.nickname@, account.id@], seq![x.uid@, x.account@, x.nickname@]) {
                Ok((Some(x.login_cookie@), session, Some(x@)))
            } else {
                Err("当前视频号登录态不属于这个账号，请重新登录。"@)
            },
        }
    } else if p == "bilibili"@ || p == "douyin"@ || p == "kuaishou"@ {
        match result {
            Err(e) => Err(e),
            Ok(x) => Ok((Some(if p == "bilibili"@ { x.login_cookie } else { login_cookie }), session, Some(x))),
        }
    } else {
        Ok((None, None, None))
    }
}

pub open spec fn profile_or_message(r: Result<PluginAccountInfo, String>) -> Result<ProfileView, Seq<char>> {
    match r {
        Ok(p) => Ok(p@),
        Err(e) => Err(e@),
    }
}

pub open spec fn ok_profile(r: Result<PluginAccountInfo, String>) -> Option<PluginAccountInfo> {
    match r {
        Ok(p) => Some(p),
        Err(_) => None,
    }
}

pub open spec fn status_result_view(r: Result<CreatorSessionStatus, String>) -> Result<(Option<Seq<char>>, Option<Seq<char>>, Option<ProfileView>), Seq<char>> {
    match r {
        Ok(s) => Ok(session_status_view(s)),
        Err(e) => Err(e@),
    }
}

/// What a creator session check found, from the account read with the
/// probe's cookie (`login_cookie`) or the request's failure.
pub fn creator_session_outcome(account: &ChannelAccount, login_cookie: String, result: Result<PluginAccountInfo, String>, saved_webview_session_id: Option<&str>) -> (r: Result<CreatorSessionStatus, String>)
    ensures
        status_result_view(r) == outcome_spec(*account, login_cookie@, profile_or_message(result), ok_profile(result), opt_str_view(saved_webview_session_id)),
{
    let p = normalize_platform_id(account.platform_id.as_str());
    let ps = p.as_str();
    let session = match saved_webview_session_id { Some(w) => Some(owned(w)), None => None };
    if str_eq(ps, "xiaohongshu") {
        match result {
            Err(_) => Err(owned(expired_message_exec(ps))),
            Ok(x) => {
                if !xhs_profile_matches_account(&x, account) {
                    Err(owned("当前小红书登录态不属于这个账号，请重新登录。"))
                } else {
                    Ok(CreatorSessionStatus { login_cookie: Some(x.login_cookie.clone()), webview_session_id: session, profile: Some(x) })
                }
            },
        }
    } else if str_eq(ps, "wechat-channels") {
        match result {
            Err(_) => Err(owned(expired_message_exec(ps))),
            Ok(x) => {
                if plugin_profile_matches_account(&x, account) {
                    Ok(CreatorSessionStatus { login_cookie: Some(x.login_cookie.clone()), webview_session_id: session, profile: Some(x) })
                } else {
                    Err(owned("当前视频号登录态不属于这个账号，请重新登录。"))
                }
            },
        }
    } else if str_eq(ps, "bilibili") || str_eq(ps, "douyin") || str_eq(ps, "kuaishou") {
        match result {
            Err(e) => Err(e),
            Ok(x) => {
                let cookie = if str_eq(ps, "bilibili") { x.login_cookie.clone() } else { login_cookie };
                Ok(CreatorSessionStatus { login_cookie: Some(cookie), webview_session_id: session, profile: Some(x) })
            },
        }
    } else {
        Ok(CreatorSessionStatus { login_cookie: None, webview_session_id: None, profile: None })
    }
}

} // verus!

