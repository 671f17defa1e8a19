//! The records that the platform parsers produce and the account store keeps.

use vstd::prelude::*;

verus! {

/// One labelled figure shown beside a published work.
#[derive(Debug, PartialEq)]
pub struct ChannelWorkMetric {
    pub key: String,
    pub label: String,
    pub value: Option<String>,
}

/// One figure of an account overview, with its change against the
/// previous period where the platform gives one.
#[derive(Debug, PartialEq)]
pub struct ChannelOverviewMetric {
    pub key: String,
    pub label: String,
    pub value: Option<String>,
    pub compare_label: Option<String>,
    pub trend: Option<String>,
    pub tone: Option<String>,
}

/// A work metric as plain text: key, label and value.
pub open spec fn work_metric_view(m: ChannelWorkMetric) -> (Seq<char>, Seq<char>, Option<Seq<char>>) {
    (m.key@, m.label@, match m.value { Some(v) => Some(v@), None => None })
}

pub open spec fn work_metrics_view(v: Seq<ChannelWorkMetric>) -> Seq<(Seq<char>, Seq<char>, Option<Seq<char>>)> {
    v.map_values(|m: ChannelWorkMetric| work_metric_view(m))
}

pub open spec fn strings_view(v: Seq<String>) -> Seq<Seq<char>> {
    v.map_values(|s: String| s@)
}

/// An account as a platform's creator pages describe it.
#[derive(Debug, PartialEq)]
pub struct PluginAccountInfo {
    pub uid: String,
    pub account: String,
    pub nickname: String,
    pub avatar: String,
    pub fans_count: Option<u64>,
    pub following_count: Option<u64>,
    pub like_count: Option<u64>,
    pub login_cookie: String,
}

/// Why reading an account from a platform failed: no login, or another
/// failure, each with its message.
#[derive(Debug, PartialEq)]
pub enum PluginAuthError {
    NotLoggedIn(String),
    Failed(String),
}

/// A UTC instant: whole seconds since the Unix epoch and the nanoseconds
/// past them.
#[derive(Debug, Clone, Copy, PartialEq, Eq, Structural)]
pub struct UtcTime {
    pub secs: i64,
    pub nanos: u32,
}

/// Whether an account's login still works.
#[derive(Debug, Clone, Copy, PartialEq, Eq, Structural)]
pub enum AccountStatus {
    Active,
    Expired,
    Pending,
}

/// A platform account added by a user.
#[derive(Debug, PartialEq)]
pub struct ChannelAccount {
    pub id: String,
    pub user_id: Option<String>,
    pub platform_id: String,
    pub uid: String,
    pub nickname: String,
    pub avatar: String,
    pub followers: Option<u64>,
    pub following: Option<u64>,
    pub likes: Option<u64>,
    pub status: AccountStatus,
    pub created_at: UtcTime,
    pub updated_at: UtcTime,
    pub last_sync_at: Option<UtcTime>,
}

/// A published work of an account, with its figures and badges.
#[derive(Debug, PartialEq)]
pub struct ChannelContentWork {
    pub id: String,
    pub platform_id: String,
    pub account_id: String,
    pub title: String,
    pub cover_url: Option<String>,
    pub link: Option<String>,
    pub published_at: Option<UtcTime>,
    pub status: String,
    pub views: Option<u64>,
    pub impressions: Option<u64>,
    pub likes: Option<u64>,
    pub collects: Option<u64>,
    pub comments: Option<u64>,
    pub shares: Option<u64>,
    pub cover_click_rate: Option<String>,
    pub avg_view_time: Option<String>,
    pub gained_followers: Option<i64>,
    pub data_updated_at: Option<UtcTime>,
    pub metrics: Vec<ChannelWorkMetric>,
    pub badges: Vec<String>,
    pub work_type: Option<String>,
}

/// A work as plain values.
pub struct WorkView {
    pub id: Seq<char>,
    pub platform_id: Seq<char>,
    pub account_id: Seq<char>,
    pub title: Seq<char>,
    pub cover_url: Option<Seq<char>>,
    pub link: Option<Seq<char>>,
    pub published_at: Option<UtcTime>,
    pub status: Seq<char>,
    pub views: Option<u64>,
    pub impressions: Option<u64>,
    pub likes: Option<u64>,
    pub collects: Option<u64>,
    pub comments: Option<u64>,
    pub shares: Option<u64>,
    pub cover_click_rate: Option<Seq<char>>,
    pub avg_view_time: Option<Seq<char>>,
    pub gained_followers: Option<i64>,
    pub data_updated_at: Option<UtcTime>,
    pub metrics: Seq<(Seq<char>, Seq<char>, Option<Seq<char>>)>,
    pub badges: Seq<Seq<char>>,
    pub work_type: Option<Seq<char>>,
}

pub open spec fn opt_text(o: Option<String>) -> Option<Seq<char>> {
    match o {
        Some(s) => Some(s@),
        None => None,
    }
}

impl View for ChannelContentWork {
    type V = WorkView;

    open spec fn view(&self) -> WorkView {
        WorkView {
            id: self.id@,
            platform_id: self.platform_id@,
            account_id: self.account_id@,
            title: self.title@,
            cover_url: opt_text(self.cover_url),
            link: opt_text(self.link),
            published_at: self.published_at,
            status: self.status@,
            views: self.views,
            impressions: self.impressions,
            likes: self.likes,
            collects: self.collects,
            comments: self.comments,
            shares: self.shares,
            cover_click_rate: opt_text(self.cover_click_rate),
            avg_view_time: opt_text(self.avg_view_time),
            gained_followers: self.gained_followers,
            data_updated_at: self.data_updated_at,
            metrics: work_metrics_view(self.metrics@),
            badges: strings_view(self.badges@),
            work_type: opt_text(self.work_type),
        }
    }
}

pub open spec fn opt_work_view(o: Option<ChannelContentWork>) -> Option<WorkView> {
    match o {
        Some(w) => Some(w@),
        None => None,
    }
}

/// A profile as plain values.
pub struct ProfileView {
    pub uid: Seq<char>,
    pub account: Seq<char>,
    pub nickname: Seq<char>,
    pub avatar: Seq<char>,
    pub fans_count: Option<u64>,
    pub following_count: Option<u64>,
    pub like_count: Option<u64>,
    pub login_cookie: Seq<char>,
}

impl View for PluginAccountInfo {
    type V = ProfileView;

    open spec fn view(&self) -> ProfileView {
        ProfileView {
            uid: self.uid@,
            account: self.account@,
            nickname: self.nickname@,
            avatar: self.avatar@,
            fans_count: self.fans_count,
            following_count: self.following_count,
            like_count: self.like_count,
            login_cookie: self.login_cookie@,
        }
    }
}

/// Why reading an account failed, as plain values.
pub enum AuthErrorView {
    NotLoggedIn(Seq<char>),
    Failed(Seq<char>),
}

pub open spec fn auth_error_view(e: PluginAuthError) -> AuthErrorView {
    match e {
        PluginAuthError::NotLoggedIn(m) => AuthErrorView::NotLoggedIn(m@),
        PluginAuthError::Failed(m) => AuthErrorView::Failed(m@),
    }
}

pub open spec fn profile_result_view(r: Result<PluginAccountInfo, PluginAuthError>) -> Result<ProfileView, AuthErrorView> {
    match r {
        Ok(p) => Ok(p@),
        Err(e) => Err(auth_error_view(e)),
    }
}

/// The first of two options that holds a value.
pub open spec fn either<T>(a: Option<T>, b: Option<T>) -> Option<T> {
    match a {
        Some(x) => Some(x),
        None => b,
    }
}

/// An overview figure as plain values: key, label, value, comparison
/// label, trend and tone.
pub open spec fn overview_metric_view(m: ChannelOverviewMetric) -> (Seq<char>, Seq<char>, Option<Seq<char>>, Option<Seq<char>>, Option<Seq<char>>, Option<Seq<char>>) {
    (m.key@, m.label@, opt_text(m.value), opt_text(m.compare_label), opt_text(m.trend), opt_text(m.tone))
}

/// The figures of an account for a period.
#[derive(Debug, PartialEq)]
pub struct ChannelAccountOverview {
    pub account_id: String,
    pub platform_id: String,
    pub period_days: u16,
    pub metrics: Vec<ChannelOverviewMetric>,
    pub summary: Option<String>,
    pub updated_at: Option<UtcTime>,
    pub sync_status: String,
    pub error: Option<String>,
}

/// The counts of an account as last read, with when and how the read went.
#[derive(Debug, PartialEq)]
pub struct ChannelAccountProfileSnapshot {
    pub account_id: String,
    pub platform_id: String,
    pub followers: Option<u64>,
    pub following: Option<u64>,
    pub likes: Option<u64>,
    pub last_sync_at: Option<UtcTime>,
    pub updated_at: Option<UtcTime>,
    pub sync_status: String,
    pub error: Option<String>,
}

/// Everything a content sync reads for an account: its counts, its
/// overviews by period and its latest works.
#[derive(Debug, PartialEq)]
pub struct ChannelAccountContent {
    pub account_id: String,
    pub platform_id: String,
    pub profile: Option<ChannelAccountProfileSnapshot>,
    pub overview_yesterday: Option<ChannelAccountOverview>,
    pub overview_seven: Option<ChannelAccountOverview>,
    pub overview_thirty: Option<ChannelAccountOverview>,
    pub overview_ninety: Option<ChannelAccountOverview>,
    pub overview_history: Option<ChannelAccountOverview>,
    pub overview_total: Option<ChannelAccountOverview>,
    pub latest_work: Option<ChannelContentWork>,
    pub latest_work_seven: Option<ChannelContentWork>,
    pub latest_work_thirty: Option<ChannelContentWork>,
    pub sync_status: String,
    pub error: Option<String>,
}

/// One page of an account's works list, with the key of the next page and
/// when and how it was read.
#[derive(Debug, PartialEq)]
pub struct ChannelWorksPage {
    pub account_id: String,
    pub platform_id: String,
    pub page_key: String,
    pub work_type: Option<String>,
    pub next_page_key: Option<String>,
    pub has_more: bool,
    pub works: Vec<ChannelContentWork>,
    pub updated_at: Option<UtcTime>,
    pub sync_status: String,
    pub error: Option<String>,
}

} // verus!




