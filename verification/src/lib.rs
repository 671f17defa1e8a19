//! Verified core of a desktop client that manages creator accounts on several
//! content platforms: platform registry, cookie and URL rules, response parsing
//! of the platforms' JSON APIs into account profiles, overviews and works, and
//! the per-user local account store.

pub mod text;
pub mod number;
pub mod json;
pub mod json_ext;
pub mod count;
pub mod form;
pub mod strs;
pub mod platforms;
pub mod common;
pub mod weburl;
pub mod domain;
pub mod order;
pub mod settings;
pub mod channel_urls;
pub mod storage;
pub mod laws;
pub mod browser;
pub mod oauth;
pub mod http_callback;
pub mod time;
pub mod auth_task;
pub mod refresh;
pub mod sync;
pub mod accounts;
pub mod works;
pub mod reader_laws;
