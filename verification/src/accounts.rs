//! What the account commands do to the store: reading an account with its
//! secrets, deleting it, and keeping the counts a content sync read.

use vstd::prelude::*;
use crate::domain::{AccountStatus, ChannelAccount, ChannelAccountProfileSnapshot, PluginAccountInfo, ProfileView, UtcTime};
use crate::platforms::{normalize_platform_id, normalized_id};
use crate::refresh::{CreatorSessionStatus, session_status_view, is_kuaishou_cookie_fallback_nickname, kuaishou_fallback_nickname, status_result_view};
use crate::sync::{is_login_expired_message, login_expired_spec};
use crate::storage::{
    AccountSecret, AccountView, SecretView, StoreFile, account_belongs_to_user, account_secret_candidates,
    account_secret_for_account, accounts_view, belongs, candidates_spec, clone_account, first_secret,
    migrate_account_secret_for_account, migrate_all, remove_secret, secret_view, secrets_view,
};
use crate::domain::strings_view;
use crate::strs::{opt_str_view, opt_string_view, owned};
use crate::text::{is_blank, str_eq, trim, trim_str};

verus! {

/// The account `account_id` of the user `user_id`.
pub open spec fn user_account_match(a: AccountView, user_id: Seq<char>, account_id: Seq<char>) -> bool {
    a.id == account_id && belongs(a, user_id)
}

/// `i` is the first of the user's accounts with the id.
pub open spec fn first_user_account(accts: Seq<ChannelAccount>, user_id: Seq<char>, account_id: Seq<char>, i: int) -> bool {
    &&& 0 <= i < accts.len()
    &&& user_account_match(accts[i]@, user_id, account_id)
    &&& forall|j: int| 0 <= j < i ==> !user_account_match(#[trigger] accts[j]@, user_id, account_id)
}

/// The user has no account with the id.
pub open spec fn no_user_account(accts: Seq<ChannelAccount>, user_id: Seq<char>, account_id: Seq<char>) -> bool {
    forall|j: int| 0 <= j < accts.len() ==> !user_account_match(#[trigger] accts[j]@, user_id, account_id)
}

fn find_user_account(accounts: &Vec<ChannelAccount>, user_id: &str, account_id: &str) -> (r: Option<usize>)
    ensures
        match r {
            Some(i) => first_user_account(accounts@, user_id@, account_id@, i as int),
            None => no_user_account(accounts@, user_id@, account_id@),
        },
{
    let mut i: usize = 0;
    while i < accounts.len()
        invariant
            i <= accounts@.len(),
            forall|j: int| 0 <= j < i ==> !user_account_match(#[trigger] accounts@[j]@, user_id@, account_id@),
        decreases accounts@.len() - i,
    {
        if str_eq(accounts[i].id.as_str(), account_id) && account_belongs_to_user(&accounts[i], user_id) {
            return Some(i);
        }
        i += 1;
    }
    None
}

/// A user's account with the login cookie and browser session kept for it,
/// once its secrets were moved to its own id; the flag says whether they
/// were, so that the store is saved. "账号不存在" when the user has no
/// account with that id.
pub fn account_with_secrets(store: &mut StoreFile, account_id: &str, user_id: &str)
    -> (r: Result<(ChannelAccount, Option<String>, Option<String>, bool), String>)
    requires
        old(store).well_formed(),
    ensures
        final(store).well_formed(),
        final(store).accounts == old(store).accounts,
        final(store).settings == old(store).settings,
        match r {
            Ok((a, cookie, session, migrated)) => exists|i: int| {
                &&& #[trigger] first_user_account(old(store).accounts@, user_id@, account_id@, i)
                &&& a@ == old(store).accounts@[i]@
                &&& (secrets_view(final(store).account_secrets@), migrated)
                    == migrate_all(secrets_view(old(store).account_secrets@), a.id@, candidates_spec(a@))
                &&& match first_secret(secrets_view(final(store).account_secrets@), candidates_spec(a@)) {
                    Some(s) => opt_string_view(cookie) == s.0 && opt_string_view(session) == s.1,
                    None => cookie is None && session is None,
                }
            },
            Err(e) => e@ == "账号不存在"@ && no_user_account(old(store).accounts@, user_id@, account_id@)
                && *final(store) == *old(store),
        },
{
    let i = match find_user_account(&store.accounts, user_id, account_id) {
        Some(i) => i,
        None => return Err(owned("账号不存在")),
    };
    let account = clone_account(&store.accounts[i]);
    let migrated = migrate_account_secret_for_account(store, &account);
    let secret = account_secret_for_account(store, &account);
    let (cookie, session) = match secret {
        Some(s) => (s.login_cookie, s.webview_session_id),
        None => (None, None),
    };
    assert(first_user_account(old(store).accounts@, user_id@, account_id@, i as int));
    Ok((account, cookie, session, migrated))
}

/// The accounts left once the user's account with the id is gone.
pub open spec fn without_user_account(accts: Seq<AccountView>, user_id: Seq<char>, account_id: Seq<char>) -> Seq<AccountView>
    decreases accts.len(),
{
    if accts.len() == 0 {
        seq![]
    } else {
        let rest = without_user_account(accts.drop_last(), user_id, account_id);
        if user_account_match(accts.last(), user_id, account_id) {
            rest
        } else {
            rest.push(accts.last())
        }
    }
}

/// The secrets left once those under `keys` are gone.
pub open spec fn remove_keys(m: Map<Seq<char>, SecretView>, keys: Seq<Seq<char>>) -> Map<Seq<char>, SecretView>
    decreases keys.len(),
{
    if keys.len() == 0 {
        m
    } else {
        remove_keys(m, keys.drop_last()).remove(keys.last())
    }
}

/// Deletes a user's account and the secrets kept for it; "账号不存在",
/// with nothing changed, when the user has no account with that id.
pub fn delete_account_for_user(store: &mut StoreFile, user_id: &str, account_id: &str) -> (r: Result<(), String>)
    requires
        old(store).well_formed(),
    ensures
        final(store).well_formed(),
        final(store).settings == old(store).settings,
        match r {
            Ok(()) => exists|i: int| {
                &&& #[trigger] first_user_account(old(store).accounts@, user_id@, account_id@, i)
                &&& accounts_view(final(store).accounts@) == without_user_account(accounts_view(old(store).accounts@), user_id@, account_id@)
                &&& secrets_view(final(store).account_secrets@)
                    == remove_keys(secrets_view(old(store).account_secrets@), candidates_spec(old(store).accounts@[i]@))
            },
            Err(e) => e@ == "账号不存在"@ && no_user_account(old(store).accounts@, user_id@, account_id@)
                && *final(store) == *old(store),
        },
{
    let found = match find_user_account(&store.accounts, user_id, account_id) {
        Some(i) => i,
        None => return Err(owned("账号不存在")),
    };
    let account = clone_account(&store.accounts[found]);
    let ghost old_view = accounts_view(store.accounts@);
    let mut kept: Vec<ChannelAccount> = Vec::new();
    let mut i: usize = 0;
    while i < store.accounts.len()
        invariant
            i <= store.accounts@.len(),
            store.accounts == old(store).accounts,
            old_view == accounts_view(old(store).accounts@),
            accounts_view(kept@) == without_user_account(old_view.take(i as int), user_id@, account_id@),
        decreases store.accounts@.len() - i,
    {
        assert(old_view.take(i + 1).drop_last() =~= old_view.take(i as int));
        assert(old_view.take(i + 1).last() == store.accounts@[i as int]@);
        let keep = !(str_eq(store.accounts[i].id.as_str(), account_id) && account_belongs_to_user(&store.accounts[i], user_id));
        if keep {
            let ghost before = kept@;
            kept.push(clone_account(&store.accounts[i]));
            assert(accounts_view(kept@) =~= accounts_view(before).push(store.accounts@[i as int]@));
        }
        i += 1;
    }
    assert(old_view.take(old_view.len() as int) =~= old_view);
    store.accounts = kept;
    let keys = account_secret_candidates(&account);
    let ghost kv = strings_view(keys@);
    let ghost m0 = secrets_view(store.account_secrets@);
    let mut k: usize = 0;
    while k < keys.len()
        invariant
            k <= keys@.len(),
            kv == strings_view(keys@),
            kv == candidates_spec(account@),
            account@ == old(store).accounts@[found as int]@,
            store.well_formed(),
            store.settings == old(store).settings,
            accounts_view(store.accounts@) == without_user_account(old_view, user_id@, account_id@),
            old_view == accounts_view(old(store).accounts@),
            m0 == secrets_view(old(store).account_secrets@),
            secrets_view(store.account_secrets@) == remove_keys(m0, kv.take(k as int)),
        decreases keys@.len() - k,
    {
        assert(kv.take(k + 1).drop_last() =~= kv.take(k as int));
        remove_secret(&mut store.account_secrets, keys[k].as_str());
        k += 1;
    }
    assert(kv.take(kv.len() as int) =~= kv);
    assert(first_user_account(old(store).accounts@, user_id@, account_id@, found as int));
    Ok(())
}

/// An account given the counts a content sync read at `now`: a count the
/// read missed is kept for Kuaishou and cleared for the others; the account
/// is active again, synced when the read says or else at `now`.
pub open spec fn content_profile_applied(a: AccountView, p: ChannelAccountProfileSnapshot, now: UtcTime) -> AccountView {
    let keep = normalized_id(a.platform_id) == "kuaishou"@;
    AccountView {
        followers: if p.followers is Some || !keep { p.followers } else { a.followers },
        following: if p.following is Some || !keep { p.following } else { a.following },
        likes: if p.likes is Some || !keep { p.likes } else { a.likes },
        status: AccountStatus::Active,
        last_sync_at: match p.last_sync_at {
            Some(t) => Some(t),
            None => Some(now),
        },
        updated_at: now,
        ..a
    }
}

/// Keeps on a user's account the counts a content sync read at `now`;
/// "账号不存在" when the user has no account with that id.
pub fn update_account_from_content_profile(store: &mut StoreFile, user_id: &str, account_id: &str, profile: &ChannelAccountProfileSnapshot, now: UtcTime)
    -> (r: Result<ChannelAccount, String>)
    requires
        old(store).well_formed(),
    ensures
        final(store).well_formed(),
        final(store).settings == old(store).settings,
        final(store).account_secrets == old(store).account_secrets,
        match r {
            Ok(a) => exists|i: int| {
                &&& #[trigger] first_user_account(old(store).accounts@, user_id@, account_id@, i)
                &&& a@ == content_profile_applied(old(store).accounts@[i]@, *profile, now)
                &&& accounts_view(final(store).accounts@) == accounts_view(old(store).accounts@).update(i, a@)
            },
            Err(e) => e@ == "账号不存在"@ && no_user_account(old(store).accounts@, user_id@, account_id@)
                && *final(store) == *old(store),
        },
{
    let i = match find_user_account(&store.accounts, user_id, account_id) {
        Some(i) => i,
        None => return Err(owned("账号不存在")),
    };
    let mut a = clone_account(&store.accounts[i]);
    let platform = normalize_platform_id(a.platform_id.as_str());
    let keep = str_eq(platform.as_str(), "kuaishou");
    if profile.followers.is_some() || !keep {
        a.followers = profile.followers;
    }
    if profile.following.is_some() || !keep {
        a.following = profile.following;
    }
    if profile.likes.is_some() || !keep {
        a.likes = profile.likes;
    }
    a.status = AccountStatus::Active;
    a.last_sync_at = match profile.last_sync_at {
        Some(t) => Some(t),
        None => Some(now),
    };
    a.updated_at = now;
    let result = clone_account(&a);
    let ghost before = store.accounts@;
    store.accounts.set(i, a);
    assert(accounts_view(store.accounts@) =~= accounts_view(before).update(i as int, result@));
    assert(first_user_account(old(store).accounts@, user_id@, account_id@, i as int));
    Ok(result)
}

/// The profile a Kuaishou account already has, with `login_cookie`.
pub open spec fn local_profile_spec(a: AccountView, login_cookie: Seq<char>) -> ProfileView {
    ProfileView {
        uid: a.uid,
        account: a.uid,
        nickname: a.nickname,
        avatar: a.avatar,
        fans_count: a.followers,
        following_count: a.following,
        like_count: a.likes,
        login_cookie,
    }
}

/// The profile of a saved Kuaishou account, carrying `login_cookie`.
pub fn kuaishou_local_account_profile(account: &ChannelAccount, login_cookie: String) -> (r: PluginAccountInfo)
    ensures
        r@ == local_profile_spec(account@, login_cookie@),
{
    PluginAccountInfo {
        uid: account.uid.clone(),
        account: account.uid.clone(),
        nickname: account.nickname.clone(),
        avatar: account.avatar.clone(),
        fans_count: account.followers,
        following_count: account.following,
        like_count: account.likes,
        login_cookie,
    }
}

/// The non-blank trimmed text, where there is one.
pub open spec fn non_blank(v: Option<Seq<char>>) -> Option<Seq<char>> {
    match v {
        Some(t) => if trim(t).len() > 0 { Some(trim(t)) } else { None },
        None => None,
    }
}

fn non_blank_exec(v: Option<&str>) -> (r: Option<String>)
    ensures
        opt_string_view(r) == non_blank(opt_str_view(v)),
{
    match v {
        Some(t) => {
            if is_blank(t) {
                None
            } else {
                Some(trim_str(t))
            }
        },
        None => None,
    }
}

/// A Kuaishou session taken from what is saved, without a request: the
/// trimmed saved cookie, the saved browser session where there is one, and
/// the account's own profile; gone when no cookie is saved.
pub fn kuaishou_saved_creator_session(account: &ChannelAccount, saved_login_cookie: Option<&str>, saved_webview_session_id: Option<&str>)
    -> (r: Result<CreatorSessionStatus, String>)
    ensures
        match r {
            Ok(s) => non_blank(opt_str_view(saved_login_cookie)) is Some
                && opt_string_view(s.login_cookie) == non_blank(opt_str_view(saved_login_cookie))
                && opt_string_view(s.webview_session_id) == non_blank(opt_str_view(saved_webview_session_id))
                && (s.profile matches Some(p) && p@ == local_profile_spec(account@, non_blank(opt_str_view(saved_login_cookie))->0)),
            Err(e) => non_blank(opt_str_view(saved_login_cookie)) is None
                && e@ == "快手网页登录态已失效，请重新登录后再同步。"@,
        },
{
    let login_cookie = match non_blank_exec(saved_login_cookie) {
        Some(c) => c,
        None => return Err(owned("快手网页登录态已失效，请重新登录后再同步。")),
    };
    let profile = kuaishou_local_account_profile(account, login_cookie.clone());
    Ok(CreatorSessionStatus {
        login_cookie: Some(login_cookie),
        webview_session_id: non_blank_exec(saved_webview_session_id),
        profile: Some(profile),
    })
}

/// The login cookie a Kuaishou session read in the saved browser profile
/// keeps: the browser's own where it has a non-blank one, else the saved
/// one; gone when there is neither.
pub open spec fn headless_cookie_spec(snapshot: Option<Seq<char>>, saved: Option<Seq<char>>) -> Result<Seq<char>, Seq<char>> {
    match snapshot {
        Some(c) if trim(c).len() > 0 => Ok(c),
        _ => match saved {
            Some(c) => Ok(c),
            None => Err("快手网页登录态已失效，请重新登录后再同步。"@),
        },
    }
}

/// The login cookie to read a Kuaishou account with after the saved
/// browser profile was opened without a window.
pub fn kuaishou_headless_login_cookie(snapshot_login_cookie: Option<&str>, saved_login_cookie: Option<&str>) -> (r: Result<String, String>)
    ensures
        match r {
            Ok(c) => headless_cookie_spec(opt_str_view(snapshot_login_cookie), opt_str_view(saved_login_cookie)) == Ok::<Seq<char>, Seq<char>>(c@),
            Err(e) => headless_cookie_spec(opt_str_view(snapshot_login_cookie), opt_str_view(saved_login_cookie)) == Err::<Seq<char>, Seq<char>>(e@),
        },
{
    if let Some(c) = snapshot_login_cookie {
        if !is_blank(c) {
            return Ok(owned(c));
        }
    }
    match saved_login_cookie {
        Some(c) => Ok(owned(c)),
        None => Err(owned("快手网页登录态已失效，请重新登录后再同步。")),
    }
}

/// What a Kuaishou session check through the saved cookie ends in: where
/// it failed after the browser probe failed too, for a reason other than a
/// lost login, the saved cookie and the account's own profile stand in;
/// where it read only the placeholder nickname, the account's own profile
/// stands in, or the check fails when no cookie is known.
pub open spec fn ks_after_check_spec(
    account: AccountView,
    saved_login_cookie: Option<Seq<char>>,
    saved_webview_session_id: Option<Seq<char>>,
    headless_failed: bool,
    result: Result<(Option<Seq<char>>, Option<Seq<char>>, Option<ProfileView>), Seq<char>>,
) -> Result<(Option<Seq<char>>, Option<Seq<char>>, Option<ProfileView>), Seq<char>> {
    match result {
        Err(e) => if headless_failed && !login_expired_spec(e) {
            match non_blank(saved_login_cookie) {
                Some(c) => Ok((Some(c), saved_webview_session_id, Some(local_profile_spec(account, c)))),
                None => Err(e),
            }
        } else {
            Err(e)
        },
        Ok((cookie, session, profile)) => if (profile matches Some(p) && kuaishou_fallback_nickname(p.nickname)) {
            match (match cookie { Some(c) => Some(c), None => saved_login_cookie }) {
                Some(c) => Ok((Some(c), session, Some(local_profile_spec(account, c)))),
                None => Err("快手账号资料未能读取到真实昵称，请重新登录后再同步。"@),
            }
        } else {
            Ok((cookie, session, profile))
        },
    }
}

/// Finishes a Kuaishou session check made through the saved cookie.
pub fn kuaishou_session_after_cookie_check(
    account: &ChannelAccount,
    saved_login_cookie: Option<&str>,
    saved_webview_session_id: Option<&str>,
    headless_failed: bool,
    result: Result<CreatorSessionStatus, String>,
) -> (r: Result<CreatorSessionStatus, String>)
    ensures
        status_result_view(r) == ks_after_check_spec(account@, opt_str_view(saved_login_cookie), opt_str_view(saved_webview_session_id),
            headless_failed, status_result_view(result)),
{
    match result {
        Err(e) => {
            if headless_failed && !is_login_expired_message(e.as_str()) {
                match non_blank_exec(saved_login_cookie) {
                    Some(c) => {
                        let profile = kuaishou_local_account_profile(account, c.clone());
                        let session = match saved_webview_session_id { Some(w) => Some(owned(w)), None => None };
                        Ok(CreatorSessionStatus { login_cookie: Some(c), webview_session_id: session, profile: Some(profile) })
                    },
                    None => Err(e),
                }
            } else {
                Err(e)
            }
        },
        Ok(st) => {
            let placeholder = match &st.profile {
                Some(p) => is_kuaishou_cookie_fallback_nickname(p.nickname.as_str()),
                None => false,
            };
            if placeholder {
                let cookie = match st.login_cookie {
                    Some(c) => Some(c),
                    None => match saved_login_cookie { Some(c) => Some(owned(c)), None => None },
                };
                match cookie {
                    Some(c) => {
                        let profile = kuaishou_local_account_profile(account, c.clone());
                        Ok(CreatorSessionStatus { login_cookie: Some(c), webview_session_id: st.webview_session_id, profile: Some(profile) })
                    },
                    None => Err(owned("快手账号资料未能读取到真实昵称，请重新登录后再同步。")),
                }
            } else {
                Ok(st)
            }
        },
    }
}


/// The first step of refreshing a Kuaishou account's session.
#[derive(Debug)]
pub enum KuaishouRefreshStep {
    /// The saved session stands, without a request.
    Saved(CreatorSessionStatus),
    /// Read the creator home in the saved browser profile (its id), without
    /// a window.
    Headless(String),
    /// Check the saved cookie against the platform.
    CookieCheck,
}

/// How a Kuaishou refresh starts: an account with a real nickname and a
/// saved cookie keeps its saved session; otherwise the saved browser
/// profile is read without a window where there is one, else the saved
/// cookie is checked.
pub fn kuaishou_refresh_first_step(account: &ChannelAccount, saved_login_cookie: Option<&str>, saved_webview_session_id: Option<&str>)
    -> (r: KuaishouRefreshStep)
    ensures
        !kuaishou_fallback_nickname(account.nickname@) && non_blank(opt_str_view(saved_login_cookie)) is Some ==> (r matches KuaishouRefreshStep::Saved(s)
            && opt_string_view(s.login_cookie) == non_blank(opt_str_view(saved_login_cookie))
            && opt_string_view(s.webview_session_id) == non_blank(opt_str_view(saved_webview_session_id))
            && (s.profile matches Some(p) && p@ == local_profile_spec(account@, non_blank(opt_str_view(saved_login_cookie))->0))),
        !(!kuaishou_fallback_nickname(account.nickname@) && non_blank(opt_str_view(saved_login_cookie)) is Some) ==>
            match non_blank(opt_str_view(saved_webview_session_id)) {
                Some(id) => r matches KuaishouRefreshStep::Headless(x) && x@ == id,
                None => r is CookieCheck,
            },
{
    if !is_kuaishou_cookie_fallback_nickname(account.nickname.as_str()) {
        match kuaishou_saved_creator_session(account, saved_login_cookie, saved_webview_session_id) {
            Ok(status) => return KuaishouRefreshStep::Saved(status),
            Err(_) => {},
        }
    }
    match non_blank_exec(saved_webview_session_id) {
        Some(id) => KuaishouRefreshStep::Headless(id),
        None => KuaishouRefreshStep::CookieCheck,
    }
}

/// A Kuaishou session read in the saved browser profile `profile_id`
/// without a window: the account read there, kept with its login cookie
/// and that profile; the read's failure otherwise.
pub fn kuaishou_status_from_headless(profile_id: &str, read: Result<PluginAccountInfo, String>) -> (r: Result<CreatorSessionStatus, String>)
    ensures
        match read {
            Ok(p) => r matches Ok(s) && session_status_view(s) == (Some(p.login_cookie@), Some(profile_id@), Some(p@)),
            Err(e) => r matches Err(m) && m@ == e@,
        },
{
    match read {
        Ok(p) => Ok(CreatorSessionStatus {
            login_cookie: Some(p.login_cookie.clone()),
            webview_session_id: Some(owned(profile_id)),
            profile: Some(p),
        }),
        Err(e) => Err(e),
    }
}

/// Why checking an account's saved creator session failed: the platform
/// answered that the login is gone (or belongs to another account), or
/// the check itself failed (the network, an HTTP status, a reply of
/// another shape).
#[derive(Debug)]
pub enum ProbeError {
    LoginExpired(String),
    Failed(String),
}

/// A failed session check's message sorted by what it says.
pub fn classify_probe_error(message: String) -> (r: ProbeError)
    ensures
        match r {
            ProbeError::LoginExpired(m) => m@ == message@ && login_expired_spec(message@),
            ProbeError::Failed(m) => m@ == message@ && !login_expired_spec(message@),
        },
{
    if is_login_expired_message(message.as_str()) {
        ProbeError::LoginExpired(message)
    } else {
        ProbeError::Failed(message)
    }
}

/// What a refresh does with the user's account when its session check
/// failed: an expired login marks it expired at `now`; any other failure
/// leaves the store, and so the account's names and counts, as they were.
/// The account as it now stands is given back; "账号不存在" when the user
/// has no account with that id.
pub fn refresh_after_probe_error(store: &mut StoreFile, user_id: &str, account_id: &str, error: &ProbeError, now: UtcTime)
    -> (r: Result<ChannelAccount, String>)
    ensures
        final(store).settings == old(store).settings,
        final(store).account_secrets == old(store).account_secrets,
        match r {
            Ok(a) => exists|i: int| {
                &&& #[trigger] first_user_account(old(store).accounts@, user_id@, account_id@, i)
                &&& match error {
                    ProbeError::LoginExpired(_) => a@ == crate::storage::expired_at(old(store).accounts@[i]@, now)
                        && accounts_view(final(store).accounts@) == accounts_view(old(store).accounts@).update(i, a@),
                    ProbeError::Failed(_) => a@ == old(store).accounts@[i]@ && *final(store) == *old(store),
                }
            },
            Err(e) => e@ == "账号不存在"@ && no_user_account(old(store).accounts@, user_id@, account_id@)
                && *final(store) == *old(store),
        },
{
    let i = match find_user_account(&store.accounts, user_id, account_id) {
        Some(i) => i,
        None => return Err(owned("账号不存在")),
    };
    assert(first_user_account(old(store).accounts@, user_id@, account_id@, i as int));
    match error {
        ProbeError::Failed(_) => Ok(clone_account(&store.accounts[i])),
        ProbeError::LoginExpired(_) => {
            let mut a = clone_account(&store.accounts[i]);
            a.status = AccountStatus::Expired;
            a.last_sync_at = Some(now);
            a.updated_at = now;
            let result = clone_account(&a);
            let ghost before = store.accounts@;
            store.accounts.set(i, a);
            assert(accounts_view(store.accounts@) =~= accounts_view(before).update(i as int, result@));
            Ok(result)
        },
    }
}

} // verus!
