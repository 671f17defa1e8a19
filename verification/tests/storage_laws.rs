use channel_nest::domain::{AccountStatus, ChannelAccount, PluginAccountInfo, UtcTime};
use channel_nest::settings::default_auth_settings;
use channel_nest::storage::{
    account_belongs_to_user, account_secret_candidates, account_secret_for_account, account_status_from_db,
    account_status_to_db, claim_legacy_accounts_for_user, i64_to_u64, mark_account_expired,
    migrate_account_secret_for_account, migrate_account_secret_from_keys, normalize_user_id, push_unique,
    scoped_account_for_user, scoped_account_id, u64_to_i64, unscoped_account_id, update_plugin_account_profile,
    upsert_account_for_user, upsert_account_secret, upsert_account_webview_session, user_accounts, AccountSecret,
    StoreFile,
};

const USER1_PREFIX: &str = "u4228c671628ca359_";

fn t(secs: i64) -> UtcTime {
    UtcTime { secs, nanos: 0 }
}

fn account(id: &str, platform_id: &str, uid: &str, user_id: Option<&str>) -> ChannelAccount {
    ChannelAccount {
        id: id.to_string(),
        user_id: user_id.map(|u| u.to_string()),
        platform_id: platform_id.to_string(),
        uid: uid.to_string(),
        nickname: format!("nick-{uid}"),
        avatar: String::new(),
        followers: None,
        following: None,
        likes: None,
        status: AccountStatus::Active,
        created_at: t(10),
        updated_at: t(10),
        last_sync_at: None,
    }
}

fn empty_store() -> StoreFile {
    StoreFile { accounts: Vec::new(), settings: default_auth_settings(), account_secrets: Vec::new() }
}

fn secret(cookie: Option<&str>, session: Option<&str>) -> AccountSecret {
    AccountSecret {
        login_cookie: cookie.map(|c| c.to_string()),
        webview_session_id: session.map(|s| s.to_string()),
    }
}

fn secret_of<'a>(store: &'a StoreFile, id: &str) -> Option<&'a AccountSecret> {
    store.account_secrets.iter().find(|(k, _)| k == id).map(|(_, s)| s)
}

#[test]
fn scoped_ids_round_trip() {
    let scoped = scoped_account_id("user1", "acc");
    assert_eq!(scoped, format!("{USER1_PREFIX}acc"));
    assert_eq!(scoped_account_id("user1", &scoped), scoped);
    assert_eq!(unscoped_account_id("user1", &scoped), Some("acc".to_string()));
    assert_eq!(unscoped_account_id("user1", "acc"), None);
    assert_eq!(unscoped_account_id("user1", USER1_PREFIX), None);
    assert_eq!(unscoped_account_id("user1", &format!("{USER1_PREFIX}  ")), None);
    assert_eq!(unscoped_account_id("user2", &scoped), None);
}

#[test]
fn scoped_account_takes_owner_and_id() {
    let a = scoped_account_for_user("user1", account("acc", "douyin", "9", None));
    assert_eq!(a.user_id.as_deref(), Some("user1"));
    assert_eq!(a.id, format!("{USER1_PREFIX}acc"));
    assert_eq!(a.uid, "9");
}

#[test]
fn push_unique_skips_blank_and_repeats() {
    let mut values = vec!["a".to_string()];
    push_unique(&mut values, "a".to_string());
    push_unique(&mut values, "  ".to_string());
    push_unique(&mut values, "b".to_string());
    assert_eq!(values, vec!["a".to_string(), "b".to_string()]);
}

#[test]
fn secret_candidates_of_scoped_account() {
    let a = account(&format!("{USER1_PREFIX}acc"), "douyin", "9", Some("user1"));
    assert_eq!(account_secret_candidates(&a), vec![format!("{USER1_PREFIX}acc"), "acc".to_string()]);
    let b = account("acc", "douyin", "9", None);
    assert_eq!(account_secret_candidates(&b), vec!["acc".to_string()]);
}

#[test]
fn user_ids_and_ownership() {
    assert_eq!(normalize_user_id("  user1 "), Ok("user1".to_string()));
    assert_eq!(normalize_user_id("   "), Err("当前登录状态无效，请重新登录".to_string()));
    let a = account("x", "douyin", "1", Some("user1"));
    assert!(account_belongs_to_user(&a, "user1"));
    assert!(!account_belongs_to_user(&a, " user1 "));
    assert!(!account_belongs_to_user(&a, "user2"));
    assert!(!account_belongs_to_user(&account("x", "douyin", "1", None), "user1"));
}

#[test]
fn user_accounts_are_isolated() {
    let mut store = empty_store();
    store.accounts.push(account("a", "douyin", "1", Some("user1")));
    store.accounts.push(account("b", "douyin", "2", Some("user2")));
    store.accounts.push(account("c", "kuaishou", "3", Some("user1")));
    let mine = user_accounts(&store, "user1");
    assert_eq!(mine.iter().map(|a| a.id.as_str()).collect::<Vec<_>>(), vec!["a", "c"]);
    assert!(user_accounts(&store, "nobody").is_empty());
}

#[test]
fn legacy_accounts_are_claimed() {
    let mut store = empty_store();
    store.accounts.push(account("a", "douyin", "1", None));
    store.accounts.push(account("b", "douyin", "2", Some("user2")));
    assert!(!claim_legacy_accounts_for_user(&mut store, "  "));
    assert_eq!(store.accounts[0].user_id, None);
    assert!(claim_legacy_accounts_for_user(&mut store, " user1 "));
    assert_eq!(store.accounts[0].user_id.as_deref(), Some("user1"));
    assert_eq!(store.accounts[1].user_id.as_deref(), Some("user2"));
    assert!(!claim_legacy_accounts_for_user(&mut store, "user1"));
}

#[test]
fn status_text_round_trip() {
    for status in [AccountStatus::Active, AccountStatus::Expired, AccountStatus::Pending] {
        assert_eq!(account_status_from_db(account_status_to_db(&status)), status);
    }
    assert_eq!(account_status_to_db(&AccountStatus::Expired), "expired");
    assert_eq!(account_status_from_db("weird"), AccountStatus::Active);
}

#[test]
fn stored_counts_convert() {
    assert_eq!(i64_to_u64(5), Some(5));
    assert_eq!(i64_to_u64(-1), None);
    assert_eq!(u64_to_i64(7), 7);
    assert_eq!(u64_to_i64(u64::MAX), i64::MAX);
}

#[test]
fn secrets_are_saved_per_id() {
    let mut store = empty_store();
    upsert_account_secret(&mut store, "a", "  ");
    assert!(store.account_secrets.is_empty());
    upsert_account_secret(&mut store, "a", "sid=1");
    upsert_account_webview_session(&mut store, "a", "session-1");
    upsert_account_secret(&mut store, "a", "sid=2");
    assert_eq!(store.account_secrets.len(), 1);
    assert_eq!(secret_of(&store, "a"), Some(&secret(Some("sid=2"), Some("session-1"))));
    upsert_account_webview_session(&mut store, "b", "");
    assert_eq!(store.account_secrets.len(), 1);
}

#[test]
fn secrets_found_under_the_raw_id() {
    let mut store = empty_store();
    store.account_secrets.push(("acc".to_string(), secret(Some("c=1"), None)));
    let a = account(&format!("{USER1_PREFIX}acc"), "douyin", "9", Some("user1"));
    assert_eq!(account_secret_for_account(&store, &a), Some(secret(Some("c=1"), None)));
    let other = account("zzz", "douyin", "9", Some("user1"));
    assert_eq!(account_secret_for_account(&store, &other), None);
}

#[test]
fn migration_fills_only_what_is_missing() {
    let mut store = empty_store();
    store.account_secrets.push(("target".to_string(), secret(Some("keep"), None)));
    store.account_secrets.push(("old".to_string(), secret(Some("other"), Some("s1"))));
    let keys = vec!["target".to_string(), "old".to_string()];
    assert!(migrate_account_secret_from_keys(&mut store, "target", &keys));
    assert_eq!(secret_of(&store, "target"), Some(&secret(Some("keep"), Some("s1"))));
    assert!(!migrate_account_secret_from_keys(&mut store, "target", &keys));
    assert!(!migrate_account_secret_from_keys(&mut store, "new", &["missing".to_string()]));
}

#[test]
fn account_secrets_move_to_scoped_id() {
    let mut store = empty_store();
    store.account_secrets.push(("acc".to_string(), secret(Some("c=1"), Some("w"))));
    let a = account(&format!("{USER1_PREFIX}acc"), "douyin", "9", Some("user1"));
    assert!(migrate_account_secret_for_account(&mut store, &a));
    assert_eq!(secret_of(&store, &a.id), Some(&secret(Some("c=1"), Some("w"))));
}

#[test]
fn accounts_are_marked_expired() {
    let mut store = empty_store();
    store.accounts.push(account("a", "douyin", "1", Some("user1")));
    let a = mark_account_expired(&mut store, "a", t(99)).unwrap();
    assert_eq!(a.status, AccountStatus::Expired);
    assert_eq!(a.last_sync_at, Some(t(99)));
    assert_eq!(a.updated_at, t(99));
    assert_eq!(store.accounts[0], a);
    assert_eq!(mark_account_expired(&mut store, "missing", t(1)), Err("账号不存在".to_string()));
}

#[test]
fn profiles_refresh_accounts() {
    let mut store = empty_store();
    let mut a = account("a", "xiaohongshu", "", Some("user1"));
    a.status = AccountStatus::Expired;
    store.accounts.push(a);
    let profile = PluginAccountInfo {
        uid: "u-9".to_string(),
        account: "acct".to_string(),
        nickname: "新名字".to_string(),
        avatar: " ".to_string(),
        fans_count: Some(12),
        following_count: Some(3),
        like_count: None,
        login_cookie: "web_session=1".to_string(),
    };
    let updated = update_plugin_account_profile(&mut store, "user1", "a", &profile, t(50)).unwrap();
    assert_eq!(updated.nickname, "新名字");
    assert_eq!(updated.avatar, "");
    assert_eq!(updated.followers, Some(12));
    assert_eq!(updated.likes, None);
    assert_eq!(updated.uid, "u-9");
    assert_eq!(updated.status, AccountStatus::Active);
    assert_eq!(updated.last_sync_at, Some(t(50)));
    assert_eq!(secret_of(&store, "a"), Some(&secret(Some("web_session=1"), None)));
    assert_eq!(
        update_plugin_account_profile(&mut store, "user2", "a", &profile, t(51)),
        Err("账号不存在".to_string())
    );
}

#[test]
fn saving_an_account_twice_keeps_one() {
    let mut store = empty_store();
    store.account_secrets.push(("raw".to_string(), secret(Some("c=1"), None)));
    let first = upsert_account_for_user(&mut store, " user1 ", account("raw", "douyin", "42", None)).unwrap();
    assert_eq!(first.id, format!("{USER1_PREFIX}raw"));
    assert_eq!(first.user_id.as_deref(), Some("user1"));
    assert_eq!(secret_of(&store, &first.id), Some(&secret(Some("c=1"), None)));
    let mut again = account("other", "douyin", "42", None);
    again.nickname = "renamed".to_string();
    again.created_at = t(500);
    let second = upsert_account_for_user(&mut store, "user1", again).unwrap();
    assert_eq!(store.accounts.len(), 1);
    assert_eq!(second.id, first.id);
    assert_eq!(second.created_at, t(10));
    assert_eq!(second.nickname, "renamed");
    assert_eq!(store.accounts[0], second);
    assert_eq!(
        upsert_account_for_user(&mut store, "  ", account("x", "douyin", "1", None)),
        Err("当前登录状态无效，请重新登录".to_string())
    );
    assert_eq!(store.accounts.len(), 1);
}

#[test]
fn another_users_account_is_separate() {
    let mut store = empty_store();
    upsert_account_for_user(&mut store, "user1", account("raw", "douyin", "42", None)).unwrap();
    upsert_account_for_user(&mut store, "user2", account("raw", "douyin", "42", None)).unwrap();
    assert_eq!(store.accounts.len(), 2);
    assert_eq!(user_accounts(&store, "user1").len(), 1);
    assert_eq!(user_accounts(&store, "user2").len(), 1);
}
