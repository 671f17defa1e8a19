//! Properties of the library that span several operations, proved over the
//! same spec functions the operations' contracts use.

use vstd::prelude::*;
use crate::domain::AccountStatus;
use crate::platforms::normalized_id;
use crate::storage::{
    first_same, lemma_first_same_props, accounts_of, belongs, claimed, migrate_all, migrate_one, push_unique_value, same_account,
    scoped_id_spec, scoped_view, secret_or_empty, status_from_text, unscoped_id_spec,
    upsert_result, user_prefix, AccountView, SecretView,
};
use crate::text::{starts_with, trim};
use crate::auth_task::task_account;
use crate::browser::{cdp_cookies_spec, chunked_complete_spec, chunked_decode_spec, json_cdp_cookies, pair_cdp_cookies};
use crate::platforms::{allows_domain_spec, platform_view, PlatformView};
use crate::platforms::wechat_channels::{wx_account_spec, wx_platform_name};
use crate::platforms::xiaohongshu::{xhs_platform_name, xhs_profile_spec};
use crate::json::JsonValue;
use crate::accounts::{user_account_match, without_user_account};
use crate::sync::{cache_page_key_spec, raw_page_key_spec};
use crate::text::{is_ws, trim_end, trim_start, lemma_trim_end_at, lemma_trim_end_prefix, lemma_trim_idempotent, lemma_trim_start_at, lemma_trim_start_head};

verus! {

/// Removing a user's scope from an id scoped to that user gives back the
/// original id, for an id that is not blank and not already scoped.
pub proof fn law_unscope_scoped(user_id: Seq<char>, account_id: Seq<char>)
    requires
        trim(account_id).len() > 0,
        !starts_with(account_id, user_prefix(user_id)),
    ensures
        unscoped_id_spec(user_id, scoped_id_spec(user_id, account_id)) == Some(account_id),
{
    let p = user_prefix(user_id);
    let s = p + account_id;
    assert(s.take(p.len() as int) =~= p);
    assert(s.skip(p.len() as int) =~= account_id);
}

/// Scoping an id to a user twice is scoping it once.
pub proof fn law_scope_idempotent(user_id: Seq<char>, account_id: Seq<char>)
    ensures
        scoped_id_spec(user_id, scoped_id_spec(user_id, account_id)) == scoped_id_spec(user_id, account_id),
{
    let p = user_prefix(user_id);
    if !starts_with(account_id, p) {
        let s = p + account_id;
        assert(s.take(p.len() as int) =~= p);
    }
}

/// A user's account list holds exactly the accounts that belong to them:
/// each listed account belongs to the user, and each of their accounts is
/// listed.
pub proof fn law_user_accounts_isolated(accounts: Seq<AccountView>, user_id: Seq<char>)
    ensures
        forall|i: int| 0 <= i < accounts_of(accounts, user_id).len() ==> belongs(#[trigger] accounts_of(accounts, user_id)[i], user_id),
        forall|i: int| 0 <= i < accounts.len() && belongs(#[trigger] accounts[i], user_id) ==> accounts_of(accounts, user_id).contains(accounts[i]),
    decreases accounts.len(),
{
    if accounts.len() > 0 {
        let rest = accounts.drop_last();
        law_user_accounts_isolated(rest, user_id);
        assert forall|i: int| 0 <= i < accounts.len() && belongs(#[trigger] accounts[i], user_id) implies accounts_of(accounts, user_id).contains(accounts[i]) by {
            if i < accounts.len() - 1 {
                assert(rest[i] == accounts[i]);
                let k = choose|k: int| 0 <= k < accounts_of(rest, user_id).len() && accounts_of(rest, user_id)[k] == accounts[i];
                if belongs(accounts.last(), user_id) {
                    assert(accounts_of(accounts, user_id)[k] == accounts[i]);
                }
            } else {
                assert(accounts_of(accounts, user_id).last() == accounts[i]);
            }
        }
    }
}

/// Claiming legacy accounts leaves none without an owner and changes no
/// owner that was already set.
pub proof fn law_claim_leaves_no_legacy(accounts: Seq<AccountView>, user_id: Seq<char>)
    ensures
        forall|i: int| 0 <= i < accounts.len() ==> (#[trigger] claimed(accounts[i], user_id)).user_id is Some,
        forall|i: int| 0 <= i < accounts.len() && accounts[i].user_id is Some ==> #[trigger] claimed(accounts[i], user_id) == accounts[i],
{
}

/// Saving an account for a user touches none of the other users' accounts,
/// and the saved account belongs to the user and is in the list.
pub proof fn law_upsert_isolated(accounts: Seq<AccountView>, user_id: Seq<char>, account: AccountView)
    ensures
        upsert_result(accounts, user_id, account).0.len() >= accounts.len(),
        forall|j: int| 0 <= j < accounts.len() && !belongs(#[trigger] accounts[j], user_id) ==> upsert_result(accounts, user_id, account).0[j] == accounts[j],
        belongs(upsert_result(accounts, user_id, account).1, user_id),
        upsert_result(accounts, user_id, account).0.contains(upsert_result(accounts, user_id, account).1),
{
    let scoped = scoped_view(user_id, account);
    lemma_first_same_props(accounts, user_id, scoped.platform_id, scoped.uid);
    let next = upsert_result(accounts, user_id, account).0;
    let saved = upsert_result(accounts, user_id, account).1;
    match first_same(accounts, user_id, scoped.platform_id, scoped.uid) {
        Some(i) => {
            assert(next[i] == saved);
        },
        None => {
            assert(next[accounts.len() as int] == saved);
        },
    }
}

/// Saving the same account for the same user twice adds it once: the
/// second save replaces the first.
pub proof fn law_upsert_twice_adds_once(accounts: Seq<AccountView>, user_id: Seq<char>, account: AccountView)
    ensures
        upsert_result(upsert_result(accounts, user_id, account).0, user_id, account).0.len()
            == upsert_result(accounts, user_id, account).0.len(),
{
    let scoped = scoped_view(user_id, account);
    let next = upsert_result(accounts, user_id, account).0;
    let saved = upsert_result(accounts, user_id, account).1;
    lemma_first_same_props(accounts, user_id, scoped.platform_id, scoped.uid);
    lemma_first_same_props(next, user_id, scoped.platform_id, scoped.uid);
    let k: int = match first_same(accounts, user_id, scoped.platform_id, scoped.uid) {
        Some(i) => i,
        None => accounts.len() as int,
    };
    assert(next[k] == saved);
    assert(same_account(next[k], user_id, scoped.platform_id, scoped.uid));
    assert(first_same(next, user_id, scoped.platform_id, scoped.uid) is Some);
}

/// Gathering secrets under an account id never overwrites a secret the
/// account already has, and leaves every other id's secrets as they were.
pub proof fn law_migrate_keeps_existing(m: Map<Seq<char>, SecretView>, target: Seq<char>, keys: Seq<Seq<char>>)
    ensures
        secret_or_empty(m, target).0 is Some ==> secret_or_empty(migrate_all(m, target, keys).0, target).0 == secret_or_empty(m, target).0,
        secret_or_empty(m, target).1 is Some ==> secret_or_empty(migrate_all(m, target, keys).0, target).1 == secret_or_empty(m, target).1,
        forall|k: Seq<char>| k != target ==> #[trigger] migrate_all(m, target, keys).0.contains_key(k) == m.contains_key(k)
            && (m.contains_key(k) ==> migrate_all(m, target, keys).0[k] == m[k]),
    decreases keys.len(),
{
    if keys.len() > 0 {
        law_migrate_keeps_existing(m, target, keys.drop_last());
        let prev = migrate_all(m, target, keys.drop_last()).0;
        let step = migrate_one(prev, target, keys.last());
        assert forall|k: Seq<char>| k != target implies #[trigger] migrate_all(m, target, keys).0.contains_key(k) == m.contains_key(k)
            && (m.contains_key(k) ==> migrate_all(m, target, keys).0[k] == m[k]) by {
            assert(prev.contains_key(k) == m.contains_key(k));
        }
    }
}

/// Adding a value with `push_unique` to a list without repeats keeps it
/// without repeats.
pub proof fn law_push_unique_no_repeats(values: Seq<Seq<char>>, value: Seq<char>)
    requires
        values.no_duplicates(),
    ensures
        push_unique_value(values, value).no_duplicates(),
{
    if trim(value).len() > 0 && !values.contains(value) {
        let v2 = values.push(value);
        assert forall|i: int, j: int| 0 <= i < v2.len() && 0 <= j < v2.len() && i != j implies v2[i] != v2[j] by {
            if i < values.len() && j < values.len() {
            } else if i == values.len() {
                assert(values[j] != value) by {
                    if values[j] == value { assert(values.contains(value)); }
                }
            } else {
                assert(values[i] != value) by {
                    if values[i] == value { assert(values.contains(value)); }
                }
            }
        }
    }
}

pub open spec fn status_text(s: AccountStatus) -> Seq<char> {
    match s {
        AccountStatus::Active => "active"@,
        AccountStatus::Expired => "expired"@,
        AccountStatus::Pending => "pending"@,
    }
}

/// A status stored as text reads back as the same status.
pub proof fn law_status_round_trip(s: AccountStatus)
    ensures
        status_from_text(status_text(s)) == s,
{
    reveal_strlit("active");
    reveal_strlit("expired");
    reveal_strlit("pending");
    assert("active"@[0] != "expired"@[0]);
    assert("active"@[0] != "pending"@[0]);
    assert("pending"@[0] != "expired"@[0]);
}

/// Normalizing a platform id twice is normalizing it once.
pub proof fn law_normalize_platform_idempotent(id: Seq<char>)
    ensures
        normalized_id(normalized_id(id)) == normalized_id(id),
{
    reveal_strlit("xiaohongshu");
    reveal_strlit("wechat-channels");
    reveal_strlit("kuaishou");
    reveal_strlit("bilibili");
    reveal_strlit("xhs");
    reveal_strlit("Xhs");
    reveal_strlit("XHS");
    reveal_strlit("wxSph");
    reveal_strlit("wxsph");
    reveal_strlit("wechat");
    reveal_strlit("kwai");
    reveal_strlit("KWAI");
    reveal_strlit("Kwai");
    reveal_strlit("BILIBILI");
    assert("xiaohongshu"@.len() == 11);
    assert("wechat-channels"@.len() == 15);
    assert("kuaishou"@.len() == 8 && "bilibili"@.len() == 8 && "BILIBILI"@.len() == 8);
    assert("kuaishou"@[0] != "BILIBILI"@[0]);
    assert("bilibili"@[0] != "BILIBILI"@[0]);
}

/// A body whose chunks are all there decodes: a complete chunked body never
/// gives a decoding error.
pub proof fn law_complete_body_decodes(raw: Seq<u8>)
    requires
        chunked_complete_spec(raw),
    ensures
        chunked_decode_spec(raw) is Ok,
{
}

/// An account a user has saved is found by a sign-in task that asks for
/// its id: the user's list holds an account the task added.
pub proof fn law_saved_account_found(accounts: Seq<AccountView>, user_id: Seq<char>, k: int)
    requires
        0 <= k < accounts.len(),
        belongs(accounts[k], user_id),
    ensures
        exists|i: int| 0 <= i < accounts_of(accounts, user_id).len()
            && task_account(#[trigger] accounts_of(accounts, user_id)[i], accounts[k].id, None),
{
    law_user_accounts_isolated(accounts, user_id);
    assert(accounts_of(accounts, user_id).contains(accounts[k]));
    let i = choose|i: int| 0 <= i < accounts_of(accounts, user_id).len() && accounts_of(accounts, user_id)[i] == accounts[k];
    assert(task_account(accounts_of(accounts, user_id)[i], accounts[k].id, None));
}

/// A Xiaohongshu account is only ever read with a stable identifier: its
/// uid and account name are the same, not blank, and not the platform's
/// name.
pub proof fn law_xhs_profile_has_identity(
    user: Option<JsonValue>,
    edith: Option<JsonValue>,
    creator: Option<JsonValue>,
    login_cookie: Seq<char>,
    login_target: Option<Seq<char>>,
)
    ensures
        xhs_profile_spec(user, edith, creator, login_cookie, login_target) matches Ok(p) ==> {
            &&& p.uid == p.account
            &&& trim(p.uid).len() > 0
            &&& p.uid != xhs_platform_name()
            &&& p.login_cookie == login_cookie
        },
{
}

/// A WeChat Channels account is only ever read with a stable identifier,
/// and an expired login (codes 300333 and 300334) never yields one.
pub proof fn law_wx_profile_has_identity(v: JsonValue, login_cookie: Seq<char>)
    ensures
        wx_account_spec(v, login_cookie) matches Ok(p) ==> {
            &&& p.uid == p.account
            &&& trim(p.uid).len() > 0
            &&& p.uid != wx_platform_name()
        },
        (match crate::json_ext::first_i64_spec(v, seq!["errCode", "errcode", "code"]) { Some(c) => c == 300333 || c == 300334, None => false })
            ==> wx_account_spec(v, login_cookie) is Err,
{
}

/// Every cookie made from a header is for the platform's creator centre and
/// its default domain, with a name.
proof fn lemma_pair_cookies_on_platform(parts: Seq<Seq<char>>, p: PlatformView)
    ensures
        forall|i: int| 0 <= i < pair_cdp_cookies(parts, p).len() ==> {
            let c = #[trigger] pair_cdp_cookies(parts, p)[i];
            &&& c.url == p.creator_home_url
            &&& c.domain == p.default_cookie_domain
            &&& trim(c.name).len() > 0
        },
    decreases parts.len(),
{
    if parts.len() > 0 {
        lemma_pair_cookies_on_platform(parts.drop_last(), p);
        match crate::text::split_once(trim(parts.last()), '=') {
            Some(nv) => crate::text::lemma_trim_idempotent(nv.0),
            None => {},
        }
    }
}

/// Every cookie taken from a JSON list is for the platform's creator centre,
/// has a name, and has either the platform's default domain or one the
/// platform allows.
proof fn lemma_json_cookies_on_platform(cs: Seq<JsonValue>, p: PlatformView)
    ensures
        forall|i: int| 0 <= i < json_cdp_cookies(cs, p).len() ==> {
            let c = #[trigger] json_cdp_cookies(cs, p)[i];
            &&& c.url == p.creator_home_url
            &&& trim(c.name).len() > 0
            &&& (c.domain == p.default_cookie_domain || allows_domain_spec(p, c.domain))
        },
    decreases cs.len(),
{
    if cs.len() > 0 {
        lemma_json_cookies_on_platform(cs.drop_last(), p);
    }
}

/// The cookies written into the managed browser never leave the platform:
/// each is for its creator centre, has a name, and has the platform's
/// default domain or a domain the platform allows.
pub proof fn law_cdp_cookies_stay_on_platform(platform_id: Seq<char>, login_cookie: Seq<char>, decoded: Result<JsonValue, Seq<char>>)
    ensures
        cdp_cookies_spec(platform_id, login_cookie, decoded) matches Ok(cs) ==> platform_view(platform_id) matches Some(p) ==>
            forall|i: int| 0 <= i < cs.len() ==> {
                let c = #[trigger] cs[i];
                &&& c.url == p.creator_home_url
                &&& trim(c.name).len() > 0
                &&& (c.domain == p.default_cookie_domain || allows_domain_spec(p, c.domain))
            },
{
    match platform_view(platform_id) {
        Some(p) => {
            let t = trim(login_cookie);
            lemma_pair_cookies_on_platform(crate::text::split(t, ';'), p);
            match decoded {
                Ok(JsonValue::Array(cs)) => lemma_json_cookies_on_platform(cs@, p),
                _ => {},
            }
        },
        None => {},
    }
}

/// Deleting a user's account leaves the accounts of every other user as
/// they were.
pub proof fn law_delete_isolated(accounts: Seq<AccountView>, user_id: Seq<char>, account_id: Seq<char>, other: Seq<char>)
    requires
        other != user_id,
    ensures
        accounts_of(without_user_account(accounts, user_id, account_id), other) == accounts_of(accounts, other),
    decreases accounts.len(),
{
    if accounts.len() > 0 {
        law_delete_isolated(accounts.drop_last(), user_id, account_id, other);
        let rest = without_user_account(accounts.drop_last(), user_id, account_id);
        if !user_account_match(accounts.last(), user_id, account_id) {
            assert(rest.push(accounts.last()).drop_last() =~= rest);
        }
    }
}

/// Once deleted, the user has no account with that id left.
pub proof fn law_delete_removes(accounts: Seq<AccountView>, user_id: Seq<char>, account_id: Seq<char>)
    ensures
        forall|k: int| 0 <= k < without_user_account(accounts, user_id, account_id).len()
            ==> !user_account_match(#[trigger] without_user_account(accounts, user_id, account_id)[k], user_id, account_id),
    decreases accounts.len(),
{
    if accounts.len() > 0 {
        law_delete_removes(accounts.drop_last(), user_id, account_id);
        let rest = without_user_account(accounts.drop_last(), user_id, account_id);
        if !user_account_match(accounts.last(), user_id, account_id) {
            assert forall|k: int| 0 <= k < rest.len() + 1 implies !user_account_match(#[trigger] rest.push(accounts.last())[k], user_id, account_id) by {
                if k < rest.len() {
                    assert(rest.push(accounts.last())[k] == rest[k]);
                }
            }
        }
    }
}

/// The page key asked of a platform is what a cached page's key was made
/// from, trimmed, for a list kind that does not begin with white space.
pub proof fn law_cache_key_round_trip(page_key: Seq<char>, work_type: Option<Seq<char>>)
    requires
        match work_type {
            Some(w) => w.len() == 0 || !is_ws(w[0]),
            None => true,
        },
    ensures
        raw_page_key_spec(cache_page_key_spec(page_key, work_type), work_type) == trim(page_key),
{
    lemma_trim_idempotent(page_key);
    match work_type {
        None => {},
        Some(w) => {
            let t = trim(page_key);
            let p = w + ":"@;
            let s = p + t;
            assert(p.len() == w.len() + 1) by { reveal_strlit(":"); }
            assert(p[w.len() as int] == ':') by { reveal_strlit(":"); }
            assert(!is_ws(s[0])) by {
                if w.len() > 0 {
                    assert(s[0] == w[0]);
                } else {
                    assert(s[0] == p[0]);
                }
            }
            lemma_trim_start_at(s, 0);
            assert(s.skip(0) =~= s);
            lemma_trim_start_head(page_key);
            lemma_trim_end_prefix(trim_start(page_key));
            assert(!is_ws(s.last())) by {
                if t.len() > 0 {
                    assert(s.last() == t.last());
                } else {
                    assert(s.last() == p[w.len() as int]);
                }
            }
            lemma_trim_end_at(s, s.len() as int);
            assert(s.take(s.len() as int) =~= s);
            assert(trim(s) == s);
            assert(s.take(p.len() as int) =~= p);
            assert(s.skip(p.len() as int) =~= t);
        },
    }
}


/// A timestamp in milliseconds and the same instant in seconds read as the
/// same time: for a seconds count past ten million (and not past ten
/// billion, where a count is first taken for milliseconds), a count a
/// thousand times larger gives the same instant.
pub proof fn law_millis_read_as_seconds(n: i64, style: crate::time::TimeStyle)
    requires
        10_000_000 < n,
        n <= 9_999_999_999 || (style is Douyin && n <= 10_000_000_000),
    ensures
        crate::time::time_value(JsonValue::Number(crate::json::JsonNumber::PosInt((n * 1000) as u64)), style)
            == crate::time::time_value(JsonValue::Number(crate::json::JsonNumber::PosInt(n as u64)), style),
        crate::time::time_value(JsonValue::Number(crate::json::JsonNumber::PosInt(n as u64)), style) == crate::time::utc_at(n as int),
{
    assert((n * 1000) / 1000 == n as int) by (nonlinear_arith)
        requires n > 0;
}

/// FNV-1a over joined bytes is FNV-1a over the second part seeded with the
/// hash of the first; over no bytes it is the seed.
pub proof fn law_fnv1a_concat(a: Seq<u8>, b: Seq<u8>, seed: u64)
    ensures
        crate::common::fnv1a(a + b, seed) == crate::common::fnv1a(b, crate::common::fnv1a(a, seed)),
        crate::common::fnv1a(Seq::<u8>::empty(), seed) == seed,
    decreases b.len(),
{
    if b.len() == 0 {
        assert(a + b =~= a);
    } else {
        law_fnv1a_concat(a, b.drop_last(), seed);
        assert((a + b).drop_last() =~= a + b.drop_last());
        assert((a + b).last() == b.last());
    }
}

/// The Kuaishou work-detail keys: every figure gets one of twelve keys,
/// and it has a place in the listing exactly when it is a known one.
pub proof fn law_kuaishou_detail_keys(en_name: Seq<char>, name: Seq<char>)
    ensures
        ({
            let k = crate::platforms::kuaishou::detail_key_spec(en_name, name);
            &&& seq!["play"@, "avgViewTime"@, "coverClickRate"@, "twoSecondExitRate"@, "fiveSecondCompletionRate"@,
                "completionRate"@, "like"@, "comment"@, "share"@, "collect"@, "followers"@, "metric"@].contains(k)
            &&& (crate::platforms::kuaishou::detail_order_spec(k) < 99 <==> k != "metric"@)
        }),
{
    let k = crate::platforms::kuaishou::detail_key_spec(en_name, name);
    let ks = seq!["play"@, "avgViewTime"@, "coverClickRate"@, "twoSecondExitRate"@, "fiveSecondCompletionRate"@,
        "completionRate"@, "like"@, "comment"@, "share"@, "collect"@, "followers"@, "metric"@];
    reveal_strlit("play");
    reveal_strlit("avgViewTime");
    reveal_strlit("coverClickRate");
    reveal_strlit("twoSecondExitRate");
    reveal_strlit("fiveSecondCompletionRate");
    reveal_strlit("completionRate");
    reveal_strlit("like");
    reveal_strlit("comment");
    reveal_strlit("share");
    reveal_strlit("collect");
    reveal_strlit("followers");
    reveal_strlit("metric");
    let i: int = if k == "play"@ { 0 } else if k == "avgViewTime"@ { 1 } else if k == "coverClickRate"@ { 2 }
        else if k == "twoSecondExitRate"@ { 3 } else if k == "fiveSecondCompletionRate"@ { 4 } else if k == "completionRate"@ { 5 }
        else if k == "like"@ { 6 } else if k == "comment"@ { 7 } else if k == "share"@ { 8 } else if k == "collect"@ { 9 }
        else if k == "followers"@ { 10 } else { 11 };
    assert(ks[i] == k);
    assert("metric"@[0] != "play"@[0]);
    assert("metric"@[0] != "avgViewTime"@[0]);
    assert("metric"@[0] != "coverClickRate"@[0]);
    assert("metric"@[0] != "completionRate"@[0]);
    assert("metric"@[0] != "fiveSecondCompletionRate"@[0]);
    assert("metric"@[0] != "twoSecondExitRate"@[0]);
    assert("metric"@[0] != "like"@[0]);
    assert("metric"@[0] != "comment"@[0]);
    assert("metric"@[0] != "collect"@[0]);
    assert("metric"@[0] != "share"@[0]);
    assert("metric"@[0] != "followers"@[0]);
}


/// A chunked body reads back as what was sent: a body that sends non-empty
/// chunks in turn, each after its size in hexadecimal, and then ends,
/// decodes to the chunks joined, is complete, and keeps its sizes in range.
pub proof fn law_chunked_round_trip(chunks: Seq<Seq<u8>>)
    requires
        forall|i: int| 0 <= i < chunks.len() ==> (#[trigger] chunks[i]).len() > 0,
        crate::browser::chunked_encoding(chunks).len() <= usize::MAX,
    ensures
        chunked_decode_spec(crate::browser::chunked_encoding(chunks)) == Ok::<Seq<u8>, Seq<char>>(crate::browser::joined_chunks(chunks)),
        chunked_complete_spec(crate::browser::chunked_encoding(chunks)),
        crate::browser::chunks_in_range(crate::browser::chunked_encoding(chunks)),
{
    let raw = crate::browser::chunked_encoding(chunks);
    assert(raw.subrange(0, raw.len() as int) =~= raw);
    crate::browser::lemma_walk_encoding(raw, 0, chunks, seq![]);
    assert(Seq::<u8>::empty() + crate::browser::joined_chunks(chunks) =~= crate::browser::joined_chunks(chunks));
}


/// Saving an account for one user never drops another user's pending
/// sign-in task: every task that stays is kept, and only tasks that stay
/// are kept.
pub proof fn law_prune_spares_other_users<S>(tasks: Seq<crate::auth_task::PendingTask<S>>, user_id: Seq<char>, account_id: Seq<char>, platform_id: Seq<char>, i: int)
    requires
        0 <= i < tasks.len(),
    ensures
        crate::auth_task::task_stays(tasks[i], user_id, account_id, platform_id)
            ==> crate::auth_task::tasks_staying(tasks, user_id, account_id, platform_id).contains(tasks[i]),
        tasks[i].user_id@ != user_id ==> crate::auth_task::tasks_staying(tasks, user_id, account_id, platform_id).contains(tasks[i]),
        forall|k: int| 0 <= k < crate::auth_task::tasks_staying(tasks, user_id, account_id, platform_id).len() ==>
            crate::auth_task::task_stays(#[trigger] crate::auth_task::tasks_staying(tasks, user_id, account_id, platform_id)[k], user_id, account_id, platform_id),
    decreases tasks.len(),
{
    let rest = crate::auth_task::tasks_staying(tasks.drop_last(), user_id, account_id, platform_id);
    let kept = crate::auth_task::tasks_staying(tasks, user_id, account_id, platform_id);
    if i < tasks.len() - 1 {
        law_prune_spares_other_users(tasks.drop_last(), user_id, account_id, platform_id, i);
        assert(tasks.drop_last()[i] == tasks[i]);
        if crate::auth_task::task_stays(tasks[i], user_id, account_id, platform_id) {
            let j = choose|j: int| 0 <= j < rest.len() && rest[j] == tasks[i];
            assert(kept[j] == tasks[i]);
        }
    } else {
        if tasks.len() > 1 {
            law_prune_spares_other_users(tasks.drop_last(), user_id, account_id, platform_id, 0);
        }
        if crate::auth_task::task_stays(tasks[i], user_id, account_id, platform_id) {
            assert(kept[kept.len() - 1] == tasks[i]);
        }
    }
    if tasks.len() == 1 {
        assert(rest.len() == 0);
    }
    assert forall|k: int| 0 <= k < kept.len() implies crate::auth_task::task_stays(#[trigger] kept[k], user_id, account_id, platform_id) by {
        if k < rest.len() {
            assert(kept[k] == rest[k]);
        }
    }
}

} // verus!

