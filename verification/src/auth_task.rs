//! Sign-in tasks: what a polled task reports while the user logs in through
//! a browser window, and how a profile read from that window is saved.

use vstd::prelude::*;
use crate::domain::{ChannelAccount, PluginAccountInfo, PluginAuthError, UtcTime};
use crate::platforms::{normalize_platform_id, normalized_id};
use crate::platforms::plugin::{any_key_match, channel_account_from_plugin_info, plugin_profile_matches_account_strong};
use crate::storage::{
    AccountView, StoreFile, accounts_of, accounts_view, account_belongs_to_user, belongs, clone_account,
    normalize_user_id, secrets_view, update_plugin_account_profile, upsert_account_for_user,
    upsert_account_secret, upsert_account_webview_session, user_accounts,
};
use crate::json_ext::opt_string_view;
use crate::strs::owned;
use crate::text::{contains, str_contains, str_eq, trim};

verus! {

/// What a sign-in task reports: its id, "success", "pending", "failed" or
/// "unknown", the account it added, and a message for the user.
#[derive(Debug, PartialEq)]
pub struct AuthTaskStatus {
    pub task_id: String,
    pub status: String,
    pub account: Option<ChannelAccount>,
    pub message: Option<String>,
}

/// `a` is no later than `b`.
pub open spec fn utc_le(a: UtcTime, b: UtcTime) -> bool {
    a.secs < b.secs || (a.secs == b.secs && a.nanos <= b.nanos)
}

fn utc_le_exec(a: UtcTime, b: UtcTime) -> (r: bool)
    ensures
        r == utc_le(a, b),
{
    a.secs < b.secs || (a.secs == b.secs && a.nanos <= b.nanos)
}

/// The account a sign-in task added: the one with the task's id, or, while
/// the task is pending, one of its platform added since it started.
pub open spec fn task_account(a: AccountView, task_id: Seq<char>, pending: Option<(Seq<char>, UtcTime)>) -> bool {
    a.id == task_id || match pending {
        Some(p) => a.platform_id == p.0 && utc_le(p.1, a.created_at),
        None => false,
    }
}

pub open spec fn pending_view(p: Option<(&str, UtcTime)>) -> Option<(Seq<char>, UtcTime)> {
    match p {
        Some(x) => Some((x.0@, x.1)),
        None => None,
    }
}

/// The status of a task that has no browser window to check: "success"
/// with the first of the user's accounts that the task added, else
/// "pending" while the task is open (`pending` holds its platform and start
/// time), else "unknown".
pub fn auth_status_from_store(store: &StoreFile, user_id: &str, task_id: String, pending: Option<(&str, UtcTime)>) -> (r: AuthTaskStatus)
    ensures
        r.task_id@ == task_id@,
        r.message is None,
        r.account is Some ==> r.status@ == "success"@ && exists|i: int| 0 <= i < accounts_of(accounts_view(store.accounts@), user_id@).len()
            && task_account(#[trigger] accounts_of(accounts_view(store.accounts@), user_id@)[i], task_id@, pending_view(pending))
            && (forall|j: int| 0 <= j < i ==> !task_account(#[trigger] accounts_of(accounts_view(store.accounts@), user_id@)[j], task_id@, pending_view(pending)))
            && r.account->0@ == accounts_of(accounts_view(store.accounts@), user_id@)[i],
        r.account is None ==> (forall|j: int| 0 <= j < accounts_of(accounts_view(store.accounts@), user_id@).len()
            ==> !task_account(#[trigger] accounts_of(accounts_view(store.accounts@), user_id@)[j], task_id@, pending_view(pending)))
            && r.status@ == (if pending is Some { "pending"@ } else { "unknown"@ }),
{
    let accounts = user_accounts(store, user_id);
    let ghost mine = accounts_of(accounts_view(store.accounts@), user_id@);
    assert(accounts_view(accounts@) == mine);
    let mut i: usize = 0;
    while i < accounts.len()
        invariant
            i <= accounts@.len(),
            accounts_view(accounts@) == mine,
            mine == accounts_of(accounts_view(store.accounts@), user_id@),
            forall|j: int| 0 <= j < i ==> !task_account(#[trigger] mine[j], task_id@, pending_view(pending)),
        decreases accounts@.len() - i,
    {
        assert(mine[i as int] == accounts@[i as int]@);
        let a = &accounts[i];
        let hit = str_eq(a.id.as_str(), task_id.as_str()) || match pending {
            Some(p) => str_eq(a.platform_id.as_str(), p.0) && utc_le_exec(p.1, a.created_at),
            None => false,
        };
        if hit {
            assert(task_account(mine[i as int], task_id@, pending_view(pending)));
            let found = clone_account(a);
            assert(found@ == mine[i as int]);
            return AuthTaskStatus { task_id, status: owned("success"), account: Some(found), message: None };
        }
        i += 1;
    }
    let status = if pending.is_some() { owned("pending") } else { owned("unknown") };
    AuthTaskStatus { task_id, status, account: None, message: None }
}

/// The status while the browser window shows no login yet.
pub fn auth_status_waiting_for_login(task_id: String) -> (r: AuthTaskStatus)
    ensures
        r.task_id@ == task_id@,
        r.status@ == "pending"@,
        r.account is None,
        opt_string_view(r.message) == Some("请先在打开的浏览器窗口完成登录。"@),
{
    AuthTaskStatus {
        task_id,
        status: owned("pending"),
        account: None,
        message: Some(owned("请先在打开的浏览器窗口完成登录。")),
    }
}

/// The status after reading the account failed, and whether the task is
/// over (its browser window is then closed and the task dropped): a missing
/// login keeps it pending, any other failure ends it.
pub fn auth_status_after_profile_error(task_id: String, error: PluginAuthError) -> (r: (AuthTaskStatus, bool))
    ensures
        r.0.task_id@ == task_id@,
        r.0.account is None,
        match error {
            PluginAuthError::NotLoggedIn(m) => r.0.status@ == "pending"@ && opt_string_view(r.0.message) == Some(m@) && !r.1,
            PluginAuthError::Failed(m) => r.0.status@ == "failed"@ && opt_string_view(r.0.message) == Some(m@) && r.1,
        },
{
    match error {
        PluginAuthError::NotLoggedIn(m) => (AuthTaskStatus { task_id, status: owned("pending"), account: None, message: Some(m) }, false),
        PluginAuthError::Failed(m) => (AuthTaskStatus { task_id, status: owned("failed"), account: None, message: Some(m) }, true),
    }
}

/// The browser window is gone: its error says it was closed or has no page.
pub open spec fn browser_gone(message: Seq<char>) -> bool {
    contains(message, "授权浏览器已关闭"@) || contains(message, "没有找到可控制的浏览器页面"@)
}

/// The status after the browser window could not be read, and whether the
/// task is over: it fails once the window is gone and the task is older
/// than eight seconds, and stays pending otherwise.
pub fn auth_status_after_snapshot_error(task_id: String, message: String, task_age_seconds: i64) -> (r: (AuthTaskStatus, bool))
    ensures
        r.0.task_id@ == task_id@,
        r.0.account is None,
        opt_string_view(r.0.message) == Some(message@),
        r.1 == (browser_gone(message@) && task_age_seconds > 8),
        r.0.status@ == (if r.1 { "failed"@ } else { "pending"@ }),
{
    let gone = str_contains(message.as_str(), "授权浏览器已关闭") || str_contains(message.as_str(), "没有找到可控制的浏览器页面");
    if gone && task_age_seconds > 8 {
        (AuthTaskStatus { task_id, status: owned("failed"), account: None, message: Some(message) }, true)
    } else {
        (AuthTaskStatus { task_id, status: owned("pending"), account: None, message: Some(message) }, false)
    }
}

/// The status once the account was saved.
pub fn auth_status_success(task_id: String, account: ChannelAccount) -> (r: AuthTaskStatus)
    ensures
        r.task_id@ == task_id@,
        r.status@ == "success"@,
        r.account == Some(account),
        r.message is None,
{
    AuthTaskStatus { task_id, status: owned("success"), account: Some(account), message: None }
}

/// A saved account that a profile read for the user on a platform is: the
/// user's, of the same platform, and sharing an id, uid or account name.
pub open spec fn profile_account(a: AccountView, user_id: Seq<char>, platform_id: Seq<char>, profile: PluginAccountInfo) -> bool {
    belongs(a, user_id)
        && normalized_id(a.platform_id) == normalized_id(platform_id)
        && any_key_match(seq![a.uid, a.id], seq![profile.uid@, profile.account@])
}

/// The first of the user's saved accounts that a profile is.
pub fn existing_plugin_account_for_profile(store: &StoreFile, user_id: &str, platform_id: &str, profile: &PluginAccountInfo) -> (r: Option<ChannelAccount>)
    ensures
        match r {
            Some(a) => exists|i: int| 0 <= i < store.accounts@.len()
                && profile_account(#[trigger] store.accounts@[i]@, user_id@, platform_id@, *profile)
                && (forall|j: int| 0 <= j < i ==> !profile_account(#[trigger] store.accounts@[j]@, user_id@, platform_id@, *profile))
                && a@ == store.accounts@[i]@,
            None => forall|j: int| 0 <= j < store.accounts@.len() ==> !profile_account(#[trigger] store.accounts@[j]@, user_id@, platform_id@, *profile),
        },
{
    let normalized = normalize_platform_id(platform_id);
    let mut i: usize = 0;
    while i < store.accounts.len()
        invariant
            i <= store.accounts@.len(),
            normalized@ == normalized_id(platform_id@),
            forall|j: int| 0 <= j < i ==> !profile_account(#[trigger] store.accounts@[j]@, user_id@, platform_id@, *profile),
        decreases store.accounts@.len() - i,
    {
        let a = &store.accounts[i];
        if account_belongs_to_user(a, user_id)
            && str_eq(normalize_platform_id(a.platform_id.as_str()).as_str(), normalized.as_str())
            && plugin_profile_matches_account_strong(profile, a) {
            return Some(clone_account(a));
        }
        i += 1;
    }
    None
}

/// Saves the account a profile read in a sign-in window describes, for the
/// (trimmed) user: an account of theirs it already is gets refreshed at
/// `now`, otherwise a new one is made; then its login cookie and browser
/// session are kept under its id. A blank user id is refused.
pub fn record_authorized_profile(
    store: &mut StoreFile,
    user_id: &str,
    platform_id: &str,
    profile: &PluginAccountInfo,
    webview_session_id: &str,
    now: UtcTime,
) -> (r: Result<ChannelAccount, String>)
    requires
        old(store).well_formed(),
    ensures
        final(store).well_formed(),
        final(store).settings == old(store).settings,
        match r {
            Ok(a) => {
                &&& trim(user_id@).len() > 0
                &&& a@.user_id == Some(trim(user_id@))
                &&& exists|i: int| 0 <= i < final(store).accounts@.len() && (#[trigger] final(store).accounts@[i])@ == a@
                &&& trim(profile.login_cookie@).len() > 0 ==> secrets_view(final(store).account_secrets@)[a.id@].0 == Some(profile.login_cookie@)
                &&& trim(webview_session_id@).len() > 0 ==> secrets_view(final(store).account_secrets@)[a.id@].1 == Some(webview_session_id@)
            },
            Err(e) => trim(user_id@).len() == 0 && e@ == "当前登录状态无效，请重新登录"@ && *final(store) == *old(store),
        },
{
    let user = match normalize_user_id(user_id) {
        Ok(u) => u,
        Err(e) => return Err(e),
    };
    proof { crate::text::lemma_trim_idempotent(user_id@); }
    let ghost mut k: int = 0;
    let account = match existing_plugin_account_for_profile(store, user.as_str(), platform_id, profile) {
        Some(existing) => {
            let ghost before = store.accounts@;
            let ghost i = choose|i: int| 0 <= i < before.len()
                && profile_account(#[trigger] before[i]@, user@, platform_id@, *profile)
                && (forall|j: int| 0 <= j < i ==> !profile_account(#[trigger] before[j]@, user@, platform_id@, *profile))
                && existing@ == before[i]@;
            assert(before[i].id@ == existing.id@ && belongs(before[i]@, user@));
            match update_plugin_account_profile(store, user.as_str(), existing.id.as_str(), profile, now) {
                Ok(a) => {
                    proof {
                        assert(exists|m: int| 0 <= m < before.len()
                            && accounts_view(store.accounts@) == #[trigger] accounts_view(before).update(m, a@));
                        k = choose|m: int| 0 <= m < before.len()
                            && accounts_view(store.accounts@) == #[trigger] accounts_view(before).update(m, a@);
                        assert(accounts_view(store.accounts@).len() == before.len());
                        assert(accounts_view(store.accounts@)[k] == a@);
                        assert(store.accounts@[k]@ == accounts_view(store.accounts@)[k]);
                    }
                    a
                },
                Err(e) => {
                    assert(before[i].id@ == existing.id@ && belongs(before[i]@, user@));
                    return Err(e);
                },
            }
        },
        None => {
            let fresh = channel_account_from_plugin_info(platform_id, profile, now);
            let ghost before = accounts_view(store.accounts@);
            let ghost scoped = crate::storage::scoped_view(user@, fresh@);
            proof {
                crate::storage::lemma_first_same_props(before, user@, scoped.platform_id, scoped.uid);
            }
            match upsert_account_for_user(store, user.as_str(), fresh) {
                Ok(a) => {
                    proof {
                        assert(trim(user@) == user@);
                        match crate::storage::first_same(before, user@, scoped.platform_id, scoped.uid) {
                            Some(m) => {
                                k = m;
                                assert(accounts_view(store.accounts@).len() == before.len());
                            },
                            None => {
                                k = before.len() as int;
                                assert(accounts_view(store.accounts@).len() == before.len() + 1);
                            },
                        }
                        assert(accounts_view(store.accounts@)[k] == a@);
                        assert(store.accounts@[k]@ == accounts_view(store.accounts@)[k]);
                    }
                    a
                },
                Err(e) => return Err(e),
            }
        },
    };
    let ghost stored = store.accounts@;
    assert(0 <= k < stored.len() && stored[k]@ == account@);
    upsert_account_secret(store, account.id.as_str(), profile.login_cookie.as_str());
    upsert_account_webview_session(store, account.id.as_str(), webview_session_id);
    assert(store.accounts@[k]@ == account@);
    Ok(account)
}


/// A sign-in task waiting for its browser window: its id, the user who
/// started it, its platform, and what the client keeps to reach the window.
pub struct PendingTask<S> {
    pub task_id: String,
    pub user_id: String,
    pub platform_id: String,
    pub session: S,
}

/// The task `task_id` of the user `user_id`.
pub open spec fn owned_task<S>(t: PendingTask<S>, user_id: Seq<char>, task_id: Seq<char>) -> bool {
    t.task_id@ == task_id && t.user_id@ == user_id
}

/// The position of the user's pending task with the id; a task of another
/// user is never found.
pub fn pending_task_for_user<S>(tasks: &Vec<PendingTask<S>>, user_id: &str, task_id: &str) -> (r: Option<usize>)
    ensures
        r matches Some(i) ==> i < tasks@.len() && owned_task(tasks@[i as int], user_id@, task_id@),
        r is None ==> forall|j: int| 0 <= j < tasks@.len() ==> !owned_task(#[trigger] tasks@[j], user_id@, task_id@),
{
    let mut i: usize = 0;
    while i < tasks.len()
        invariant
            i <= tasks@.len(),
            forall|j: int| 0 <= j < i ==> !owned_task(#[trigger] tasks@[j], user_id@, task_id@),
        decreases tasks@.len() - i,
    {
        if str_eq(tasks[i].task_id.as_str(), task_id) && str_eq(tasks[i].user_id.as_str(), user_id) {
            return Some(i);
        }
        i += 1;
    }
    None
}

/// A pending task stays once the user's account `account_id` of
/// `platform_id` is saved unless it is that user's task for the account
/// or for the platform.
pub open spec fn task_stays<S>(t: PendingTask<S>, user_id: Seq<char>, account_id: Seq<char>, platform_id: Seq<char>) -> bool {
    t.user_id@ != user_id || (t.task_id@ != account_id && t.platform_id@ != platform_id)
}

/// The tasks that stay, in order.
pub open spec fn tasks_staying<S>(s: Seq<PendingTask<S>>, user_id: Seq<char>, account_id: Seq<char>, platform_id: Seq<char>) -> Seq<PendingTask<S>>
    decreases s.len(),
{
    if s.len() == 0 {
        s
    } else {
        let rest = tasks_staying(s.drop_last(), user_id, account_id, platform_id);
        if task_stays(s.last(), user_id, account_id, platform_id) { rest.push(s.last()) } else { rest }
    }
}

/// Drops the user's other pending tasks for an account just saved: those
/// with its id or its platform. Other users' tasks all stay.
pub fn prune_user_tasks<S>(tasks: &mut Vec<PendingTask<S>>, user_id: &str, account_id: &str, platform_id: &str)
    ensures
        final(tasks)@ == tasks_staying(old(tasks)@, user_id@, account_id@, platform_id@),
{
    let ghost orig = tasks@;
    let n = tasks.len();
    assert(orig.len() == n);
    let mut i: usize = 0;
    let mut j: usize = 0;
    assert(orig.take(0) =~= Seq::<PendingTask<S>>::empty());
    assert(orig.skip(0) =~= orig);
    while i < tasks.len()
        invariant
            i <= tasks@.len(),
            j <= orig.len(),
            orig.len() == n,
            tasks@.len() - i == orig.len() - j,
            tasks@.subrange(0, i as int) == tasks_staying(orig.take(j as int), user_id@, account_id@, platform_id@),
            tasks@.subrange(i as int, tasks@.len() as int) == orig.skip(j as int),
        decreases orig.len() - j,
    {
        let ghost before = tasks@;
        assert(j < orig.len());
        proof {
            assert(before[i as int] == before.subrange(i as int, before.len() as int)[0]);
            assert(orig[j as int] == orig.skip(j as int)[0]);
            assert(orig.take(j + 1).drop_last() =~= orig.take(j as int));
            assert(orig.take(j + 1).last() == orig[j as int]);
        }
        let stays = !str_eq(tasks[i].user_id.as_str(), user_id)
            || (!str_eq(tasks[i].task_id.as_str(), account_id) && !str_eq(tasks[i].platform_id.as_str(), platform_id));
        if stays {
            proof {
                assert(tasks@.subrange(0, i + 1) =~= before.subrange(0, i as int).push(before[i as int]));
                assert(tasks@.subrange(i + 1, tasks@.len() as int) =~= before.subrange(i as int, before.len() as int).drop_first());
                assert(orig.skip(j + 1) =~= orig.skip(j as int).drop_first());
            }
            i += 1;
        } else {
            let _gone = tasks.remove(i);
            proof {
                assert(tasks@.subrange(0, i as int) =~= before.subrange(0, i as int));
                assert(tasks@.subrange(i as int, tasks@.len() as int) =~= before.subrange(i as int, before.len() as int).drop_first());
                assert(orig.skip(j + 1) =~= orig.skip(j as int).drop_first());
            }
        }
        j += 1;
    }
    assert(tasks@.subrange(0, i as int) =~= tasks@);
    assert(orig.take(j as int) =~= orig);
}

} // verus!
