//! The account store: the accounts each user has added, and the login
//! secrets kept for them, with the rules that keep users apart.

use vstd::prelude::*;
use crate::common::{fnv1a, hex_fixed, label_seed, stable_label_fragment};
use crate::domain::{AccountStatus, ChannelAccount, PluginAccountInfo, UtcTime, strings_view};
use crate::json_ext::opt_string_view;
use crate::settings::AuthSettings;
use crate::strs::owned;
use crate::text::{chars_of, is_blank, push_str, starts_with, str_eq, str_starts_with, string_from_range, trim, trim_str};

verus! {

/// An account as plain values.
pub struct AccountView {
    pub id: Seq<char>,
    pub user_id: Option<Seq<char>>,
    pub platform_id: Seq<char>,
    pub uid: Seq<char>,
    pub nickname: Seq<char>,
    pub avatar: Seq<char>,
    pub followers: Option<u64>,
    pub following: Option<u64>,
    pub likes: Option<u64>,
    pub status: AccountStatus,
    pub created_at: UtcTime,
    pub updated_at: UtcTime,
    pub last_sync_at: Option<UtcTime>,
}

impl View for ChannelAccount {
    type V = AccountView;

    open spec fn view(&self) -> AccountView {
        AccountView {
            id: self.id@,
            user_id: opt_string_view(self.user_id),
            platform_id: self.platform_id@,
            uid: self.uid@,
            nickname: self.nickname@,
            avatar: self.avatar@,
            followers: self.followers,
            following: self.following,
            likes: self.likes,
            status: self.status,
            created_at: self.created_at,
            updated_at: self.updated_at,
            last_sync_at: self.last_sync_at,
        }
    }
}

pub open spec fn accounts_view(v: Seq<ChannelAccount>) -> Seq<AccountView> {
    v.map_values(|a: ChannelAccount| a@)
}

/// A copy of an account.
pub fn clone_account(a: &ChannelAccount) -> (r: ChannelAccount)
    ensures
        r@ == a@,
{
    ChannelAccount {
        id: a.id.clone(),
        user_id: match &a.user_id { Some(u) => Some(u.clone()), None => None },
        platform_id: a.platform_id.clone(),
        uid: a.uid.clone(),
        nickname: a.nickname.clone(),
        avatar: a.avatar.clone(),
        followers: a.followers,
        following: a.following,
        likes: a.likes,
        status: a.status,
        created_at: a.created_at,
        updated_at: a.updated_at,
        last_sync_at: a.last_sync_at,
    }
}

/// A user id as the store keeps it: trimmed, and not blank.
pub fn normalize_user_id(value: &str) -> (r: Result<String, String>)
    ensures
        match r {
            Ok(u) => trim(value@).len() > 0 && u@ == trim(value@),
            Err(e) => trim(value@).len() == 0 && e@ == "当前登录状态无效，请重新登录"@,
        },
{
    if is_blank(value) {
        Err(owned("当前登录状态无效，请重新登录"))
    } else {
        Ok(trim_str(value))
    }
}

pub open spec fn belongs(a: AccountView, user_id: Seq<char>) -> bool {
    a.user_id == Some(user_id)
}

/// Whether an account was added by the given user.
pub fn account_belongs_to_user(account: &ChannelAccount, user_id: &str) -> (r: bool)
    ensures
        r == belongs(account@, user_id@),
{
    match &account.user_id {
        Some(u) => str_eq(u.as_str(), user_id),
        None => false,
    }
}

/// The accounts of `accounts` that belong to `user_id`, in order.
pub open spec fn accounts_of(accounts: Seq<AccountView>, user_id: Seq<char>) -> Seq<AccountView>
    decreases accounts.len(),
{
    if accounts.len() == 0 {
        seq![]
    } else if belongs(accounts.last(), user_id) {
        accounts_of(accounts.drop_last(), user_id).push(accounts.last())
    } else {
        accounts_of(accounts.drop_last(), user_id)
    }
}

/// The login secrets kept for an account id.
#[derive(Debug, PartialEq)]
pub struct AccountSecret {
    pub login_cookie: Option<String>,
    pub webview_session_id: Option<String>,
}

pub open spec fn secret_view(s: AccountSecret) -> (Option<Seq<char>>, Option<Seq<char>>) {
    (opt_string_view(s.login_cookie), opt_string_view(s.webview_session_id))
}

/// Everything the app keeps: the accounts, the sign-in settings, and the
/// secrets, each under an account id that occurs once.
#[derive(Debug)]
pub struct StoreFile {
    pub accounts: Vec<ChannelAccount>,
    pub settings: AuthSettings,
    pub account_secrets: Vec<(String, AccountSecret)>,
}

/// The secret table holds each account id once.
pub open spec fn keys_distinct(e: Seq<(String, AccountSecret)>) -> bool {
    forall|i: int, j: int| 0 <= i < j < e.len() ==> (#[trigger] e[i]).0@ != (#[trigger] e[j]).0@
}

impl StoreFile {
    pub open spec fn well_formed(&self) -> bool {
        keys_distinct(self.account_secrets@)
    }
}

/// The accounts of a user, in the order the store keeps them.
pub fn user_accounts(store: &StoreFile, user_id: &str) -> (r: Vec<ChannelAccount>)
    ensures
        accounts_view(r@) == accounts_of(accounts_view(store.accounts@), user_id@),
{
    let mut out: Vec<ChannelAccount> = Vec::new();
    let ghost all = accounts_view(store.accounts@);
    let mut i: usize = 0;
    while i < store.accounts.len()
        invariant
            i <= store.accounts@.len(),
            all == accounts_view(store.accounts@),
            accounts_view(out@) == accounts_of(all.take(i as int), user_id@),
        decreases store.accounts@.len() - i,
    {
        assert(all.take(i + 1).drop_last() =~= all.take(i as int));
        assert(all.take(i + 1).last() == store.accounts@[i as int]@);
        if account_belongs_to_user(&store.accounts[i], user_id) {
            let c = clone_account(&store.accounts[i]);
            let ghost before = out@;
            out.push(c);
            assert(accounts_view(out@) =~= accounts_view(before).push(c@));
        }
        i += 1;
    }
    assert(all.take(all.len() as int) =~= all);
    out
}

/// Every account without an owner given
/// to the (trimmed) user.
pub open spec fn claimed(a: AccountView, user_id: Seq<char>) -> AccountView {
    if a.user_id is None { AccountView { user_id: Some(user_id), ..a } } else { a }
}

/// Gives the accounts saved before accounts had owners to the signed-in
/// user; reports whether any was given. A blank user id changes nothing.
pub fn claim_legacy_accounts_for_user(store: &mut StoreFile, user_id: &str) -> (r: bool)
    ensures
        final(store).settings == old(store).settings,
        final(store).account_secrets == old(store).account_secrets,
        trim(user_id@).len() == 0 ==> !r && final(store).accounts == old(store).accounts,
        trim(user_id@).len() > 0 ==> {
            &&& accounts_view(final(store).accounts@) == accounts_view(old(store).accounts@).map_values(|a: AccountView| claimed(a, trim(user_id@)))
            &&& r == exists|i: int| 0 <= i < old(store).accounts@.len() && (#[trigger] old(store).accounts@[i]).user_id is None
        },
{
    if is_blank(user_id) {
        return false;
    }
    let user = trim_str(user_id);
    let mut changed = false;
    let n = store.accounts.len();
    let mut i: usize = 0;
    while i < n
        invariant
            i <= n == store.accounts@.len() == old(store).accounts@.len(),
            store.settings == old(store).settings,
            store.account_secrets == old(store).account_secrets,
            user@ == trim(user_id@),
            forall|k: int| 0 <= k < i ==> (#[trigger] store.accounts@[k])@ == claimed(old(store).accounts@[k]@, user@),
            forall|k: int| i <= k < n ==> #[trigger] store.accounts@[k] == old(store).accounts@[k],
            changed == exists|k: int| 0 <= k < i && (#[trigger] old(store).accounts@[k]).user_id is None,
        decreases n - i,
    {
        if store.accounts[i].user_id.is_none() {
            let mut a = clone_account(&store.accounts[i]);
            a.user_id = Some(user.clone());
            let ghost before = store.accounts@;
            store.accounts.set(i, a);
            assert forall|k: int| i < k < n implies #[trigger] store.accounts@[k] == old(store).accounts@[k] by {
                assert(store.accounts@[k] == before[k]);
            }
            assert forall|k: int| 0 <= k < i implies (#[trigger] store.accounts@[k])@ == claimed(old(store).accounts@[k]@, user@) by {
                assert(store.accounts@[k] == before[k]);
            }
            assert(old(store).accounts@[i as int].user_id is None);
            changed = true;
        }
        i += 1;
    }
    assert(accounts_view(store.accounts@) =~= accounts_view(old(store).accounts@).map_values(|a: AccountView| claimed(a, user@)));
    changed
}

/// The prefix that marks an account id as scoped to a user:
/// "u" + the user's stable label + "_".
pub open spec fn user_prefix(user_id: Seq<char>) -> Seq<char> {
    "u"@ + hex_fixed(fnv1a(vstd::utf8::encode_utf8(user_id), label_seed()) as nat, 16) + "_"@
}

pub open spec fn scoped_id_spec(user_id: Seq<char>, account_id: Seq<char>) -> Seq<char> {
    if starts_with(account_id, user_prefix(user_id)) { account_id } else { user_prefix(user_id) + account_id }
}

pub open spec fn unscoped_id_spec(user_id: Seq<char>, account_id: Seq<char>) -> Option<Seq<char>> {
    let p = user_prefix(user_id);
    if starts_with(account_id, p) && trim(account_id.skip(p.len() as int)).len() > 0 {
        Some(account_id.skip(p.len() as int))
    } else {
        None
    }
}

fn user_prefix_exec(user_id: &str) -> (r: String)
    ensures
        r@ == user_prefix(user_id@),
{
    let mut p = owned("u");
    push_str(&mut p, stable_label_fragment(user_id).as_str());
    push_str(&mut p, "_");
    p
}

/// An account id made specific to a user, unless it already is.
pub fn scoped_account_id(user_id: &str, account_id: &str) -> (r: String)
    ensures
        r@ == scoped_id_spec(user_id@, account_id@),
{
    let prefix = user_prefix_exec(user_id);
    if str_starts_with(account_id, prefix.as_str()) {
        owned(account_id)
    } else {
        let mut out = prefix;
        push_str(&mut out, account_id);
        out
    }
}

/// The account id a user-specific id was made from, where it is one and
/// what remains is not blank.
pub fn unscoped_account_id(user_id: &str, account_id: &str) -> (r: Option<String>)
    ensures
        opt_string_view(r) == unscoped_id_spec(user_id@, account_id@),
{
    let prefix = user_prefix_exec(user_id);
    if !str_starts_with(account_id, prefix.as_str()) {
        return None;
    }
    let cs = chars_of(account_id);
    let pl = chars_of(prefix.as_str()).len();
    let rest = string_from_range(&cs, pl, cs.len());
    assert(rest@ =~= account_id@.skip(prefix@.len() as int));
    if is_blank(rest.as_str()) { None } else { Some(rest) }
}

/// An account given to a user: owned by them, with a user-specific id.
pub fn scoped_account_for_user(user_id: &str, account: ChannelAccount) -> (r: ChannelAccount)
    ensures
        r@ == (AccountView { user_id: Some(user_id@), id: scoped_id_spec(user_id@, account.id@), ..account@ }),
{
    let mut account = account;
    account.user_id = Some(owned(user_id));
    account.id = scoped_account_id(user_id, account.id.as_str());
    account
}

/// `push_unique` (secret keys): a non-blank value appended unless present.
pub open spec fn push_unique_value(values: Seq<Seq<char>>, value: Seq<char>) -> Seq<Seq<char>> {
    if trim(value).len() > 0 && !values.contains(value) { values.push(value) } else { values }
}

/// Appends a non-blank value that is not there yet.
pub fn push_unique(values: &mut Vec<String>, value: String)
    ensures
        strings_view(final(values)@) == push_unique_value(strings_view(old(values)@), value@),
{
    if is_blank(value.as_str()) {
        return;
    }
    let mut i: usize = 0;
    while i < values.len()
        invariant
            i <= values@.len(),
            values@ == old(values)@,
            forall|j: int| 0 <= j < i ==> values@[j]@ != value@,
        decreases values@.len() - i,
    {
        if str_eq(values[i].as_str(), value.as_str()) {
            assert(strings_view(values@)[i as int] == value@);
            return;
        }
        i += 1;
    }
    assert forall|j: int| 0 <= j < strings_view(values@).len() implies strings_view(values@)[j] != value@ by {
        assert(strings_view(values@)[j] == values@[j]@);
    }
    let ghost before = values@;
    let ghost vv = value@;
    values.push(value);
    assert(strings_view(values@) =~= strings_view(before).push(vv));
}

/// The account id, then the id it was scoped
/// from, each once.
pub open spec fn candidates_spec(a: AccountView) -> Seq<Seq<char>> {
    let first = push_unique_value(seq![], a.id);
    match a.user_id {
        Some(u) => match unscoped_id_spec(u, a.id) {
            Some(raw) => push_unique_value(first, raw),
            None => first,
        },
        None => first,
    }
}

/// The ids the secrets of an account may be kept under.
pub fn account_secret_candidates(account: &ChannelAccount) -> (r: Vec<String>)
    ensures
        strings_view(r@) == candidates_spec(account@),
{
    let mut values: Vec<String> = Vec::new();
    assert(strings_view(values@) =~= Seq::<Seq<char>>::empty());
    push_unique(&mut values, account.id.clone());
    if let Some(u) = &account.user_id {
        if let Some(raw) = unscoped_account_id(u.as_str(), account.id.as_str()) {
            push_unique(&mut values, raw);
        }
    }
    values
}

/// The text an account status is stored as.
pub fn account_status_to_db(status: &AccountStatus) -> (r: &'static str)
    ensures
        r@ == match *status {
            AccountStatus::Active => "active"@,
            AccountStatus::Expired => "expired"@,
            AccountStatus::Pending => "pending"@,
        },
{
    match status {
        AccountStatus::Active => "active",
        AccountStatus::Expired => "expired",
        AccountStatus::Pending => "pending",
    }
}

pub open spec fn status_from_text(s: Seq<char>) -> AccountStatus {
    if s == "expired"@ { AccountStatus::Expired } else if s == "pending"@ { AccountStatus::Pending } else { AccountStatus::Active }
}

/// The status stored text stands for; anything unknown is active.
pub fn account_status_from_db(status: &str) -> (r: AccountStatus)
    ensures
        r == status_from_text(status@),
{
    if str_eq(status, "expired") {
        AccountStatus::Expired
    } else if str_eq(status, "pending") {
        AccountStatus::Pending
    } else {
        AccountStatus::Active
    }
}

/// A stored count read back: only non-negative values are counts.
pub fn i64_to_u64(value: i64) -> (r: Option<u64>)
    ensures
        r == (if value >= 0 { Some(value as u64) } else { None }),
{
    if value >= 0 { Some(value as u64) } else { None }
}

/// A count as stored, capped at `i64::MAX`.
pub fn u64_to_i64(value: u64) -> (r: i64)
    ensures
        r == (if value <= i64::MAX as u64 { value as i64 } else { i64::MAX }),
{
    if value <= i64::MAX as u64 { value as i64 } else { i64::MAX }
}

pub type SecretView = (Option<Seq<char>>, Option<Seq<char>>);

/// The secret table as a map from account id to secrets.
pub open spec fn secrets_view(e: Seq<(String, AccountSecret)>) -> Map<Seq<char>, SecretView> {
    Map::new(
        |k: Seq<char>| exists|i: int| 0 <= i < e.len() && (#[trigger] e[i]).0@ == k,
        |k: Seq<char>| secret_view(e[choose|i: int| 0 <= i < e.len() && (#[trigger] e[i]).0@ == k].1),
    )
}

pub proof fn lemma_secrets_at(e: Seq<(String, AccountSecret)>, i: int)
    requires
        keys_distinct(e),
        0 <= i < e.len(),
    ensures
        secrets_view(e).contains_key(e[i].0@),
        secrets_view(e)[e[i].0@] == secret_view(e[i].1),
{
    let k = e[i].0@;
    assert(exists|j: int| 0 <= j < e.len() && (#[trigger] e[j]).0@ == k);
    let j = choose|j: int| 0 <= j < e.len() && (#[trigger] e[j]).0@ == k;
    if j != i {
        if j < i {
            assert(e[j].0@ != e[i].0@);
        } else {
            assert(e[i].0@ != e[j].0@);
        }
    }
}

pub proof fn lemma_secrets_absent(e: Seq<(String, AccountSecret)>, k: Seq<char>)
    requires
        forall|i: int| 0 <= i < e.len() ==> (#[trigger] e[i]).0@ != k,
    ensures
        !secrets_view(e).contains_key(k),
{
}

pub proof fn lemma_secrets_update(e: Seq<(String, AccountSecret)>, i: int, entry: (String, AccountSecret))
    requires
        keys_distinct(e),
        0 <= i < e.len(),
        entry.0@ == e[i].0@,
    ensures
        keys_distinct(e.update(i, entry)),
        secrets_view(e.update(i, entry)) == secrets_view(e).insert(e[i].0@, secret_view(entry.1)),
{
    let e2 = e.update(i, entry);
    assert forall|a: int, b: int| 0 <= a < b < e2.len() implies (#[trigger] e2[a]).0@ != (#[trigger] e2[b]).0@ by {
        assert(e[a].0@ != e[b].0@);
    }
    let m1 = secrets_view(e2);
    let m2 = secrets_view(e).insert(e[i].0@, secret_view(entry.1));
    assert forall|k: Seq<char>| m1.contains_key(k) <==> m2.contains_key(k) by {
        if m1.contains_key(k) {
            let j = choose|j: int| 0 <= j < e2.len() && (#[trigger] e2[j]).0@ == k;
            if j != i {
                assert(e[j].0@ == k);
            }
        }
        if secrets_view(e).contains_key(k) {
            let j = choose|j: int| 0 <= j < e.len() && (#[trigger] e[j]).0@ == k;
            assert(e2[j].0@ == k);
        }
        if k == e[i].0@ {
            assert(e2[i].0@ == k);
        }
    }
    assert forall|k: Seq<char>| m1.contains_key(k) implies m1[k] == m2[k] by {
        let j = choose|j: int| 0 <= j < e2.len() && (#[trigger] e2[j]).0@ == k;
        lemma_secrets_at(e2, j);
        if j == i {
        } else {
            assert(e[j].0@ == k);
            lemma_secrets_at(e, j);
            assert(k != e[i].0@) by {
                if j < i { assert(e[j].0@ != e[i].0@); } else { assert(e[i].0@ != e[j].0@); }
            }
        }
    }
    assert(m1 =~= m2);
}

pub proof fn lemma_secrets_push(e: Seq<(String, AccountSecret)>, entry: (String, AccountSecret))
    requires
        keys_distinct(e),
        !secrets_view(e).contains_key(entry.0@),
    ensures
        keys_distinct(e.push(entry)),
        secrets_view(e.push(entry)) == secrets_view(e).insert(entry.0@, secret_view(entry.1)),
{
    let e2 = e.push(entry);
    assert forall|i: int| 0 <= i < e.len() implies (#[trigger] e[i]).0@ != entry.0@ by {
        if e[i].0@ == entry.0@ {
            assert(secrets_view(e).contains_key(entry.0@));
        }
    }
    assert forall|a: int, b: int| 0 <= a < b < e2.len() implies (#[trigger] e2[a]).0@ != (#[trigger] e2[b]).0@ by {
        if b < e.len() {
            assert(e[a].0@ != e[b].0@);
        } else {
            assert(e2[b] == entry);
            assert(e2[a] == e[a]);
        }
    }
    let m1 = secrets_view(e2);
    let m2 = secrets_view(e).insert(entry.0@, secret_view(entry.1));
    assert forall|k: Seq<char>| m1.contains_key(k) <==> m2.contains_key(k) by {
        if m1.contains_key(k) {
            let j = choose|j: int| 0 <= j < e2.len() && (#[trigger] e2[j]).0@ == k;
            if j < e.len() {
                assert(e2[j] == e[j]);
            }
        }
        if secrets_view(e).contains_key(k) {
            let j = choose|j: int| 0 <= j < e.len() && (#[trigger] e[j]).0@ == k;
            assert(e2[j] == e[j]);
        }
        if k == entry.0@ {
            assert(e2[e.len() as int] == entry);
        }
    }
    assert forall|k: Seq<char>| m1.contains_key(k) implies m1[k] == m2[k] by {
        let j = choose|j: int| 0 <= j < e2.len() && (#[trigger] e2[j]).0@ == k;
        lemma_secrets_at(e2, j);
        if j < e.len() {
            assert(e2[j] == e[j]);
            lemma_secrets_at(e, j);
        } else {
            assert(e2[j] == entry);
        }
    }
    assert(m1 =~= m2);
}

pub proof fn lemma_secrets_remove(e: Seq<(String, AccountSecret)>, i: int)
    requires
        keys_distinct(e),
        0 <= i < e.len(),
    ensures
        keys_distinct(e.remove(i)),
        secrets_view(e.remove(i)) == secrets_view(e).remove(e[i].0@),
{
    let e2 = e.remove(i);
    assert forall|a: int, b: int| 0 <= a < b < e2.len() implies (#[trigger] e2[a]).0@ != (#[trigger] e2[b]).0@ by {
        let a1 = if a < i { a } else { a + 1 };
        let b1 = if b < i { b } else { b + 1 };
        assert(e2[a] == e[a1]);
        assert(e2[b] == e[b1]);
        assert(e[a1].0@ != e[b1].0@);
    }
    let m1 = secrets_view(e2);
    let m2 = secrets_view(e).remove(e[i].0@);
    assert forall|k: Seq<char>| m1.contains_key(k) <==> m2.contains_key(k) by {
        if m1.contains_key(k) {
            let j = choose|j: int| 0 <= j < e2.len() && (#[trigger] e2[j]).0@ == k;
            let j1 = if j < i { j } else { j + 1 };
            assert(e2[j] == e[j1]);
            assert(e[j1].0@ != e[i].0@) by {
                if j1 < i { assert(e[j1].0@ != e[i].0@); } else { assert(e[i].0@ != e[j1].0@); }
            }
        }
        if m2.contains_key(k) {
            let j = choose|j: int| 0 <= j < e.len() && (#[trigger] e[j]).0@ == k;
            assert(j != i);
            let j2 = if j < i { j } else { j - 1 };
            assert(e2[j2] == e[j]);
        }
    }
    assert forall|k: Seq<char>| m1.contains_key(k) implies m1[k] == m2[k] by {
        let j = choose|j: int| 0 <= j < e2.len() && (#[trigger] e2[j]).0@ == k;
        let j1 = if j < i { j } else { j + 1 };
        assert(e2[j] == e[j1]);
        lemma_secrets_at(e2, j);
        lemma_secrets_at(e, j1);
    }
    assert(m1 =~= m2);
}

/// Drops the secrets kept under `key`.
pub(crate) fn remove_secret(entries: &mut Vec<(String, AccountSecret)>, key: &str)
    requires
        keys_distinct(old(entries)@),
    ensures
        keys_distinct(final(entries)@),
        secrets_view(final(entries)@) == secrets_view(old(entries)@).remove(key@),
{
    match find_secret(entries, key) {
        Some(i) => {
            proof { lemma_secrets_remove(entries@, i as int); }
            entries.remove(i);
        },
        None => {
            proof { lemma_secrets_absent(entries@, key@); }
            assert(secrets_view(entries@).remove(key@) =~= secrets_view(entries@));
        },
    }
}

/// The position of `key` in the secret table.
fn find_secret(entries: &Vec<(String, AccountSecret)>, key: &str) -> (r: Option<usize>)
    ensures
        match r {
            Some(i) => i < entries@.len() && entries@[i as int].0@ == key@,
            None => forall|i: int| 0 <= i < entries@.len() ==> (#[trigger] entries@[i]).0@ != key@,
        },
{
    let mut i: usize = 0;
    while i < entries.len()
        invariant
            i <= entries@.len(),
            forall|j: int| 0 <= j < i ==> (#[trigger] entries@[j]).0@ != key@,
        decreases entries@.len() - i,
    {
        if str_eq(entries[i].0.as_str(), key) {
            return Some(i);
        }
        i += 1;
    }
    None
}

fn clone_secret(s: &AccountSecret) -> (r: AccountSecret)
    ensures
        secret_view(r) == secret_view(*s),
{
    AccountSecret {
        login_cookie: match &s.login_cookie { Some(c) => Some(c.clone()), None => None },
        webview_session_id: match &s.webview_session_id { Some(c) => Some(c.clone()), None => None },
    }
}

/// Stores `secret` under `key`, replacing what was there.
pub(crate) fn set_secret(entries: &mut Vec<(String, AccountSecret)>, key: &str, secret: AccountSecret)
    requires
        keys_distinct(old(entries)@),
    ensures
        keys_distinct(final(entries)@),
        secrets_view(final(entries)@) == secrets_view(old(entries)@).insert(key@, secret_view(secret)),
{
    match find_secret(entries, key) {
        Some(i) => {
            let ghost before = entries@;
            let entry = (owned(key), secret);
            proof {
                lemma_secrets_update(before, i as int, entry);
            }
            entries.set(i, entry);
        },
        None => {
            let ghost before = entries@;
            let entry = (owned(key), secret);
            proof {
                lemma_secrets_absent(before, key@);
                lemma_secrets_push(before, entry);
            }
            entries.push(entry);
        },
    }
}

/// The secrets kept under `key`, or empty ones.
pub(crate) fn secret_or_default(entries: &Vec<(String, AccountSecret)>, key: &str) -> (r: AccountSecret)
    requires
        keys_distinct(entries@),
    ensures
        secret_view(r) == if secrets_view(entries@).contains_key(key@) { secrets_view(entries@)[key@] } else { (None, None) },
{
    match find_secret(entries, key) {
        Some(i) => {
            proof { lemma_secrets_at(entries@, i as int); }
            clone_secret(&entries[i].1)
        },
        None => {
            proof { lemma_secrets_absent(entries@, key@); }
            AccountSecret { login_cookie: None, webview_session_id: None }
        },
    }
}

pub open spec fn secret_or_empty(m: Map<Seq<char>, SecretView>, key: Seq<char>) -> SecretView {
    if m.contains_key(key) { m[key] } else { (None, None) }
}

/// Saves a login cookie for an account id; a blank cookie changes nothing.
pub fn upsert_account_secret(store: &mut StoreFile, account_id: &str, login_cookie: &str)
    requires
        old(store).well_formed(),
    ensures
        final(store).well_formed(),
        final(store).accounts == old(store).accounts,
        final(store).settings == old(store).settings,
        secrets_view(final(store).account_secrets@) == if trim(login_cookie@).len() == 0 {
            secrets_view(old(store).account_secrets@)
        } else {
            secrets_view(old(store).account_secrets@).insert(account_id@,
                (Some(login_cookie@), secret_or_empty(secrets_view(old(store).account_secrets@), account_id@).1))
        },
{
    if is_blank(login_cookie) {
        return;
    }
    let mut secret = secret_or_default(&store.account_secrets, account_id);
    secret.login_cookie = Some(owned(login_cookie));
    set_secret(&mut store.account_secrets, account_id, secret);
}

/// Saves the browser session an account signs in with; a blank id changes
/// nothing.
pub fn upsert_account_webview_session(store: &mut StoreFile, account_id: &str, webview_session_id: &str)
    requires
        old(store).well_formed(),
    ensures
        final(store).well_formed(),
        final(store).accounts == old(store).accounts,
        final(store).settings == old(store).settings,
        secrets_view(final(store).account_secrets@) == if trim(webview_session_id@).len() == 0 {
            secrets_view(old(store).account_secrets@)
        } else {
            secrets_view(old(store).account_secrets@).insert(account_id@,
                (secret_or_empty(secrets_view(old(store).account_secrets@), account_id@).0, Some(webview_session_id@)))
        },
{
    if is_blank(webview_session_id) {
        return;
    }
    let mut secret = secret_or_default(&store.account_secrets, account_id);
    secret.webview_session_id = Some(owned(webview_session_id));
    set_secret(&mut store.account_secrets, account_id, secret);
}

/// The secrets found under the first candidate id that has any.
pub open spec fn first_secret(m: Map<Seq<char>, SecretView>, keys: Seq<Seq<char>>) -> Option<SecretView>
    decreases keys.len(),
{
    if keys.len() == 0 {
        None
    } else if m.contains_key(keys[0]) {
        Some(m[keys[0]])
    } else {
        first_secret(m, keys.drop_first())
    }
}

/// The secrets of an account, under its id or the id it was made from.
pub fn account_secret_for_account(store: &StoreFile, account: &ChannelAccount) -> (r: Option<AccountSecret>)
    requires
        store.well_formed(),
    ensures
        match r {
            Some(s) => first_secret(secrets_view(store.account_secrets@), candidates_spec(account@)) == Some(secret_view(s)),
            None => first_secret(secrets_view(store.account_secrets@), candidates_spec(account@)) is None,
        },
{
    let keys = account_secret_candidates(account);
    let ghost kv = strings_view(keys@);
    let ghost m = secrets_view(store.account_secrets@);
    let mut i: usize = 0;
    assert(kv.skip(0) =~= kv);
    while i < keys.len()
        invariant
            i <= keys@.len(),
            kv == strings_view(keys@),
            kv == candidates_spec(account@),
            m == secrets_view(store.account_secrets@),
            store.well_formed(),
            first_secret(m, kv) == first_secret(m, kv.skip(i as int)),
        decreases keys@.len() - i,
    {
        proof {
            assert(kv.skip(i as int).drop_first() =~= kv.skip(i + 1));
            assert(kv.skip(i as int)[0] == keys@[i as int]@);
        }
        match find_secret(&store.account_secrets, keys[i].as_str()) {
            Some(j) => {
                proof { lemma_secrets_at(store.account_secrets@, j as int); }
                return Some(clone_secret(&store.account_secrets[j].1));
            },
            None => {
                proof { lemma_secrets_absent(store.account_secrets@, keys@[i as int]@); }
            },
        }
        i += 1;
    }
    None
}

/// One step of `migrate_account_secret_from_keys`: the secrets under `key`
/// fill the gaps of the target's, and whether any gap was filled. The
/// target gets an entry whenever `key` has one.
pub open spec fn migrate_one(m: Map<Seq<char>, SecretView>, target: Seq<char>, key: Seq<char>) -> (Map<Seq<char>, SecretView>, bool) {
    if key == target || !m.contains_key(key) {
        (m, false)
    } else {
        let src = m[key];
        let tgt = secret_or_empty(m, target);
        let c1 = tgt.0 is None && src.0 is Some;
        let c2 = tgt.1 is None && src.1 is Some;
        (m.insert(target, (if c1 { src.0 } else { tgt.0 }, if c2 { src.1 } else { tgt.1 })), c1 || c2)
    }
}

pub open spec fn migrate_all(m: Map<Seq<char>, SecretView>, target: Seq<char>, keys: Seq<Seq<char>>) -> (Map<Seq<char>, SecretView>, bool)
    decreases keys.len(),
{
    if keys.len() == 0 {
        (m, false)
    } else {
        let prev = migrate_all(m, target, keys.drop_last());
        let step = migrate_one(prev.0, target, keys.last());
        (step.0, prev.1 || step.1)
    }
}

/// Copies to `target_id` the secrets kept under the other ids in
/// `source_keys`, filling only what the target lacks; reports whether
/// anything was copied.
pub fn migrate_account_secret_from_keys(store: &mut StoreFile, target_id: &str, source_keys: &[String]) -> (r: bool)
    requires
        old(store).well_formed(),
    ensures
        final(store).well_formed(),
        final(store).accounts == old(store).accounts,
        final(store).settings == old(store).settings,
        (secrets_view(final(store).account_secrets@), r) == migrate_all(secrets_view(old(store).account_secrets@), target_id@, strings_view(source_keys@)),
{
    let mut changed = false;
    let ghost keys = strings_view(source_keys@);
    let mut i: usize = 0;
    while i < source_keys.len()
        invariant
            i <= source_keys@.len(),
            keys == strings_view(source_keys@),
            store.well_formed(),
            store.accounts == old(store).accounts,
            store.settings == old(store).settings,
            (secrets_view(store.account_secrets@), changed) == migrate_all(secrets_view(old(store).account_secrets@), target_id@, keys.take(i as int)),
        decreases source_keys@.len() - i,
    {
        let key = source_keys[i].as_str();
        proof {
            assert(keys.take(i + 1).drop_last() =~= keys.take(i as int));
            assert(keys.take(i + 1).last() == key@);
        }
        if !str_eq(key, target_id) {
            match find_secret(&store.account_secrets, key) {
                Some(j) => {
                    proof { lemma_secrets_at(store.account_secrets@, j as int); }
                    let source = clone_secret(&store.account_secrets[j].1);
                    let mut target = secret_or_default(&store.account_secrets, target_id);
                    if target.login_cookie.is_none() && source.login_cookie.is_some() {
                        target.login_cookie = source.login_cookie.clone();
                        changed = true;
                    }
                    if target.webview_session_id.is_none() && source.webview_session_id.is_some() {
                        target.webview_session_id = source.webview_session_id.clone();
                        changed = true;
                    }
                    set_secret(&mut store.account_secrets, target_id, target);
                },
                None => {
                    proof { lemma_secrets_absent(store.account_secrets@, key@); }
                },
            }
        }
        i += 1;
    }
    assert(keys.take(keys.len() as int) =~= keys);
    changed
}

/// Copies an account's secrets from the id it was made from to its own id.
pub fn migrate_account_secret_for_account(store: &mut StoreFile, account: &ChannelAccount) -> (r: bool)
    requires
        old(store).well_formed(),
    ensures
        final(store).well_formed(),
        final(store).accounts == old(store).accounts,
        final(store).settings == old(store).settings,
        (secrets_view(final(store).account_secrets@), r) == migrate_all(secrets_view(old(store).account_secrets@), account.id@, candidates_spec(account@)),
{
    let keys = account_secret_candidates(account);
    migrate_account_secret_from_keys(store, account.id.as_str(), &keys)
}

/// An account marked expired at `now`.
pub open spec fn expired_at(a: AccountView, now: UtcTime) -> AccountView {
    AccountView { status: AccountStatus::Expired, last_sync_at: Some(now), updated_at: now, ..a }
}

/// Marks the first account with `account_id` as expired at `now` and gives
/// it back; "账号不存在" when there is none.
pub fn mark_account_expired(store: &mut StoreFile, account_id: &str, now: UtcTime) -> (r: Result<ChannelAccount, String>)
    ensures
        final(store).settings == old(store).settings,
        final(store).account_secrets == old(store).account_secrets,
        match r {
            Ok(a) => exists|i: int| 0 <= i < old(store).accounts@.len()
                && (#[trigger] old(store).accounts@[i]).id@ == account_id@
                && (forall|j: int| 0 <= j < i ==> (#[trigger] old(store).accounts@[j]).id@ != account_id@)
                && a@ == expired_at(old(store).accounts@[i]@, now)
                && accounts_view(final(store).accounts@) == accounts_view(old(store).accounts@).update(i, a@),
            Err(e) => e@ == "账号不存在"@
                && (forall|j: int| 0 <= j < old(store).accounts@.len() ==> (#[trigger] old(store).accounts@[j]).id@ != account_id@)
                && final(store).accounts == old(store).accounts,
        },
{
    let mut i: usize = 0;
    while i < store.accounts.len()
        invariant
            i <= store.accounts@.len(),
            *store == *old(store),
            forall|j: int| 0 <= j < i ==> (#[trigger] old(store).accounts@[j]).id@ != account_id@,
        decreases store.accounts@.len() - i,
    {
        if str_eq(store.accounts[i].id.as_str(), account_id) {
            let mut a = clone_account(&store.accounts[i]);
            a.status = AccountStatus::Expired;
            a.last_sync_at = Some(now);
            a.updated_at = now;
            let result = clone_account(&a);
            let ghost before = store.accounts@;
            store.accounts.set(i, a);
            assert(accounts_view(store.accounts@) =~= accounts_view(before).update(i as int, result@));
            return Ok(result);
        }
        i += 1;
    }
    Err(owned("账号不存在"))
}

/// An account refreshed from a profile read at `now`: the profile's
/// non-blank nickname and avatar and its counts where it has them, the uid
/// only where the account had none, and active again.
pub open spec fn refreshed(a: AccountView, p: PluginAccountInfo, now: UtcTime) -> AccountView {
    AccountView {
        nickname: if trim(p.nickname@).len() > 0 { p.nickname@ } else { a.nickname },
        avatar: if trim(p.avatar@).len() > 0 { p.avatar@ } else { a.avatar },
        followers: match p.fans_count { Some(n) => Some(n), None => a.followers },
        likes: match p.like_count { Some(n) => Some(n), None => a.likes },
        uid: if trim(a.uid).len() == 0 { p.uid@ } else { a.uid },
        status: AccountStatus::Active,
        last_sync_at: Some(now),
        updated_at: now,
        ..a
    }
}

/// Refreshes a user's account from a profile read at `now`, keeping the
/// profile's login cookie (an entry for the account's secrets is made in
/// any case); "账号不存在" when the user has no account with that id.
pub fn update_plugin_account_profile(store: &mut StoreFile, user_id: &str, account_id: &str, profile: &PluginAccountInfo, now: UtcTime) -> (r: Result<ChannelAccount, String>)
    requires
        old(store).well_formed(),
    ensures
        final(store).well_formed(),
        final(store).settings == old(store).settings,
        secrets_view(final(store).account_secrets@) == secrets_view(old(store).account_secrets@).insert(account_id@, (
            if trim(profile.login_cookie@).len() > 0 { Some(profile.login_cookie@) } else { secret_or_empty(secrets_view(old(store).account_secrets@), account_id@).0 },
            secret_or_empty(secrets_view(old(store).account_secrets@), account_id@).1,
        )),
        match r {
            Ok(a) => exists|i: int| 0 <= i < old(store).accounts@.len()
                && (#[trigger] old(store).accounts@[i]).id@ == account_id@ && belongs(old(store).accounts@[i]@, user_id@)
                && (forall|j: int| 0 <= j < i ==> !((#[trigger] old(store).accounts@[j]).id@ == account_id@ && belongs(old(store).accounts@[j]@, user_id@)))
                && a@ == refreshed(old(store).accounts@[i]@, *profile, now)
                && accounts_view(final(store).accounts@) == accounts_view(old(store).accounts@).update(i, a@),
            Err(e) => e@ == "账号不存在"@
                && (forall|j: int| 0 <= j < old(store).accounts@.len() ==> !((#[trigger] old(store).accounts@[j]).id@ == account_id@ && belongs(old(store).accounts@[j]@, user_id@)))
                && final(store).accounts == old(store).accounts,
        },
{
    let mut secret = secret_or_default(&store.account_secrets, account_id);
    if !is_blank(profile.login_cookie.as_str()) {
        secret.login_cookie = Some(profile.login_cookie.clone());
    }
    set_secret(&mut store.account_secrets, account_id, secret);
    let ghost expect = secrets_view(store.account_secrets@);
    let mut i: usize = 0;
    while i < store.accounts.len()
        invariant
            i <= store.accounts@.len(),
            store.accounts == old(store).accounts,
            store.settings == old(store).settings,
            store.well_formed(),
            secrets_view(store.account_secrets@) == expect,
            expect == secrets_view(old(store).account_secrets@).insert(account_id@, (
                if trim(profile.login_cookie@).len() > 0 { Some(profile.login_cookie@) } else { secret_or_empty(secrets_view(old(store).account_secrets@), account_id@).0 },
                secret_or_empty(secrets_view(old(store).account_secrets@), account_id@).1,
            )),
            forall|j: int| 0 <= j < i ==> !((#[trigger] old(store).accounts@[j]).id@ == account_id@ && belongs(old(store).accounts@[j]@, user_id@)),
        decreases store.accounts@.len() - i,
    {
        if str_eq(store.accounts[i].id.as_str(), account_id) && account_belongs_to_user(&store.accounts[i], user_id) {
            let mut a = clone_account(&store.accounts[i]);
            if !is_blank(profile.nickname.as_str()) {
                a.nickname = profile.nickname.clone();
            }
            if !is_blank(profile.avatar.as_str()) {
                a.avatar = profile.avatar.clone();
            }
            if let Some(n) = profile.fans_count {
                a.followers = Some(n);
            }
            if let Some(n) = profile.like_count {
                a.likes = Some(n);
            }
            if is_blank(a.uid.as_str()) {
                a.uid = profile.uid.clone();
            }
            a.status = AccountStatus::Active;
            a.last_sync_at = Some(now);
            a.updated_at = now;
            let result = clone_account(&a);
            let ghost before = store.accounts@;
            store.accounts.set(i, a);
            assert(accounts_view(store.accounts@) =~= accounts_view(before).update(i as int, result@));
            return Ok(result);
        }
        i += 1;
    }
    Err(owned("账号不存在"))
}

/// The values with each of `more` added by `push_unique`, in order.
pub open spec fn push_all(values: Seq<Seq<char>>, more: Seq<Seq<char>>) -> Seq<Seq<char>>
    decreases more.len(),
{
    if more.len() == 0 {
        values
    } else {
        push_unique_value(push_all(values, more.drop_last()), more.last())
    }
}

/// The account a user saves another of: theirs already when the same
/// platform and uid.
pub open spec fn same_account(a: AccountView, user_id: Seq<char>, platform_id: Seq<char>, uid: Seq<char>) -> bool {
    belongs(a, user_id) && a.platform_id == platform_id && a.uid == uid
}

/// An account given to a user: owned by them, with a user-specific id.
pub open spec fn scoped_view(user_id: Seq<char>, a: AccountView) -> AccountView {
    AccountView { user_id: Some(user_id), id: scoped_id_spec(user_id, a.id), ..a }
}

fn find_same_account(accounts: &Vec<ChannelAccount>, user_id: &str, platform_id: &str, uid: &str) -> (r: Option<usize>)
    ensures
        match r {
            Some(i) => i < accounts@.len() && same_account(accounts@[i as int]@, user_id@, platform_id@, uid@)
                && forall|j: int| 0 <= j < i ==> !same_account(#[trigger] accounts@[j]@, user_id@, platform_id@, uid@),
            None => forall|j: int| 0 <= j < accounts@.len() ==> !same_account(#[trigger] accounts@[j]@, user_id@, platform_id@, uid@),
        },
{
    let mut i: usize = 0;
    while i < accounts.len()
        invariant
            i <= accounts@.len(),
            forall|j: int| 0 <= j < i ==> !same_account(#[trigger] accounts@[j]@, user_id@, platform_id@, uid@),
        decreases accounts@.len() - i,
    {
        if account_belongs_to_user(&accounts[i], user_id)
            && str_eq(accounts[i].platform_id.as_str(), platform_id)
            && str_eq(accounts[i].uid.as_str(), uid) {
            return Some(i);
        }
        i += 1;
    }
    None
}

/// The first of the user's accounts with the given platform and uid.
pub open spec fn first_same(accts: Seq<AccountView>, user_id: Seq<char>, platform_id: Seq<char>, uid: Seq<char>) -> Option<int>
    decreases accts.len(),
{
    if accts.len() == 0 {
        None
    } else if same_account(accts[0], user_id, platform_id, uid) {
        Some(0)
    } else {
        match first_same(accts.drop_first(), user_id, platform_id, uid) {
            Some(i) => Some(i + 1),
            None => None,
        }
    }
}

/// What `first_same` finds: the first matching account, or none at all.
pub proof fn lemma_first_same_props(accts: Seq<AccountView>, user_id: Seq<char>, platform_id: Seq<char>, uid: Seq<char>)
    ensures
        match first_same(accts, user_id, platform_id, uid) {
            Some(i) => 0 <= i < accts.len() && same_account(accts[i], user_id, platform_id, uid)
                && forall|j: int| 0 <= j < i ==> !same_account(#[trigger] accts[j], user_id, platform_id, uid),
            None => forall|j: int| 0 <= j < accts.len() ==> !same_account(#[trigger] accts[j], user_id, platform_id, uid),
        },
    decreases accts.len(),
{
    if accts.len() > 0 && !same_account(accts[0], user_id, platform_id, uid) {
        let rest = accts.drop_first();
        lemma_first_same_props(rest, user_id, platform_id, uid);
        match first_same(rest, user_id, platform_id, uid) {
            Some(i) => {
                assert(accts[i + 1] == rest[i]);
                assert forall|j: int| 0 <= j < i + 1 implies !same_account(#[trigger] accts[j], user_id, platform_id, uid) by {
                    if j > 0 { assert(accts[j] == rest[j - 1]); }
                }
            },
            None => {
                assert forall|j: int| 0 <= j < accts.len() implies !same_account(#[trigger] accts[j], user_id, platform_id, uid) by {
                    if j > 0 { assert(accts[j] == rest[j - 1]); }
                }
            },
        }
    }
}

proof fn lemma_first_same(accts: Seq<AccountView>, user_id: Seq<char>, platform_id: Seq<char>, uid: Seq<char>, i: int)
    requires
        0 <= i < accts.len(),
        same_account(accts[i], user_id, platform_id, uid),
        forall|j: int| 0 <= j < i ==> !same_account(#[trigger] accts[j], user_id, platform_id, uid),
    ensures
        first_same(accts, user_id, platform_id, uid) == Some(i),
{
    lemma_first_same_props(accts, user_id, platform_id, uid);
    match first_same(accts, user_id, platform_id, uid) {
        Some(k) => {
            if k < i {
                assert(!same_account(accts[k], user_id, platform_id, uid));
            } else if k > i {
                assert(!same_account(accts[i], user_id, platform_id, uid));
            }
        },
        None => {
            assert(!same_account(accts[i], user_id, platform_id, uid));
        },
    }
}

/// `upsert_account_for_user` on the account list (for a trimmed, non-blank
/// user id): the list afterwards and the account saved.
pub open spec fn upsert_result(accts: Seq<AccountView>, user_id: Seq<char>, account: AccountView) -> (Seq<AccountView>, AccountView) {
    let scoped = scoped_view(user_id, account);
    match first_same(accts, user_id, scoped.platform_id, scoped.uid) {
        Some(i) => {
            let a = AccountView { id: accts[i].id, created_at: accts[i].created_at, ..scoped };
            (accts.update(i, a), a)
        },
        None => (accts.push(scoped), scoped),
    }
}

/// Saves an account for a user: it replaces the user's account of the same
/// platform and uid (keeping that one's id and creation time) or is added;
/// its secrets are then gathered under its id from the ids it had before.
/// A blank user id is refused.
pub fn upsert_account_for_user(store: &mut StoreFile, user_id: &str, account: ChannelAccount) -> (r: Result<ChannelAccount, String>)
    requires
        old(store).well_formed(),
    ensures
        final(store).well_formed(),
        final(store).settings == old(store).settings,
        match r {
            Err(e) => trim(user_id@).len() == 0 && e@ == "当前登录状态无效，请重新登录"@
                && final(store).accounts == old(store).accounts && final(store).account_secrets == old(store).account_secrets,
            Ok(a) => {
                let u = trim(user_id@);
                let keys = push_all(candidates_spec(account@), candidates_spec(scoped_view(u, account@)));
                &&& u.len() > 0
                &&& (accounts_view(final(store).accounts@), a@) == upsert_result(accounts_view(old(store).accounts@), u, account@)
                &&& secrets_view(final(store).account_secrets@) == migrate_all(secrets_view(old(store).account_secrets@), a.id@, keys).0
            },
        },
{
    let user = match normalize_user_id(user_id) {
        Ok(u) => u,
        Err(e) => return Err(e),
    };
    let mut source_keys = account_secret_candidates(&account);
    let ghost first_keys = strings_view(source_keys@);
    let ghost account_view0 = account@;
    let mut account = scoped_account_for_user(user.as_str(), account);
    let more = account_secret_candidates(&account);
    let ghost more_v = strings_view(more@);
    let mut k: usize = 0;
    while k < more.len()
        invariant
            k <= more@.len(),
            more_v == strings_view(more@),
            strings_view(source_keys@) == push_all(first_keys, more_v.take(k as int)),
        decreases more@.len() - k,
    {
        assert(more_v.take(k + 1).drop_last() =~= more_v.take(k as int));
        assert(more_v.take(k + 1).last() == more@[k as int]@);
        push_unique(&mut source_keys, more[k].clone());
        k += 1;
    }
    assert(more_v.take(more_v.len() as int) =~= more_v);
    let ghost scoped = account@;
    let found = find_same_account(&store.accounts, user.as_str(), account.platform_id.as_str(), account.uid.as_str());
    proof {
        match found {
            Some(i) => lemma_first_same(accounts_view(store.accounts@), user@, scoped.platform_id, scoped.uid, i as int),
            None => {
                lemma_first_same_props(accounts_view(store.accounts@), user@, scoped.platform_id, scoped.uid);
                assert forall|j: int| 0 <= j < accounts_view(store.accounts@).len() implies
                    !same_account(#[trigger] accounts_view(store.accounts@)[j], user@, scoped.platform_id, scoped.uid) by {
                    assert(accounts_view(store.accounts@)[j] == store.accounts@[j]@);
                }
                if first_same(accounts_view(store.accounts@), user@, scoped.platform_id, scoped.uid) is Some {
                    let k = first_same(accounts_view(store.accounts@), user@, scoped.platform_id, scoped.uid)->0;
                    assert(!same_account(accounts_view(store.accounts@)[k], user@, scoped.platform_id, scoped.uid));
                }
            },
        }
    }
    match found {
        Some(i) => {
            account.id = store.accounts[i].id.clone();
            account.created_at = store.accounts[i].created_at;
            let copy = clone_account(&account);
            let ghost before = store.accounts@;
            store.accounts.set(i, copy);
            assert(accounts_view(store.accounts@) =~= accounts_view(before).update(i as int, account@));
        },
        None => {
            let copy = clone_account(&account);
            let ghost before = store.accounts@;
            store.accounts.push(copy);
            assert(accounts_view(store.accounts@) =~= accounts_view(before).push(account@));
        },
    }
    migrate_account_secret_from_keys(store, account.id.as_str(), &source_keys);
    Ok(account)
}

} // verus!
