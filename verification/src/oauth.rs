//! The authorization address of a platform's OAuth sign-in.

use vstd::prelude::*;
use crate::domain::strings_view;
use crate::platforms::cookies::join;
use crate::settings::PlatformAuthSettings;
use crate::strs::{owned, result_view};
use crate::text::{is_blank, push_str, trim, trim_str};
use crate::weburl::{append_query, pairs_view, parse_url, url_appended_query, url_parse_host, url_path_query};

verus! {

/// The strings with `sep` between each two, as `[String]::join` gives them.
pub fn join_strings(values: &Vec<String>, sep: &str) -> (r: String)
    ensures
        r@ == join(strings_view(values@), sep@),
{
    let ghost vv = strings_view(values@);
    let mut out = String::new();
    let mut i: usize = 0;
    while i < values.len()
        invariant
            i <= values@.len(),
            vv == strings_view(values@),
            out@ == join(vv.take(i as int), sep@),
        decreases values@.len() - i,
    {
        let ghost before = out@;
        if i > 0 {
            push_str(&mut out, sep);
        }
        push_str(&mut out, values[i].as_str());
        proof {
            let t = vv.take(i + 1);
            assert(t.drop_last() =~= vv.take(i as int));
            assert(t.last() == values@[i as int]@);
            if i == 0 {
                assert(t.len() == 1);
                assert(out@ =~= t[0]);
            } else {
                assert(out@ =~= join(vv.take(i as int), sep@) + sep@ + t.last());
            }
        }
        i += 1;
    }
    assert(vv.take(vv.len() as int) =~= vv);
    out
}

/// The query pairs an OAuth authorization request carries.
pub open spec fn oauth_pairs(s: PlatformAuthSettings, callback_url: Seq<char>, task_id: Seq<char>) -> Seq<(Seq<char>, Seq<char>)> {
    let base = seq![
        ("response_type"@, "code"@),
        ("client_id"@, trim(s.client_id@)),
        ("redirect_uri"@, callback_url),
        ("state"@, task_id),
    ];
    if s.scopes@.len() > 0 { base.push(("scope"@, join(strings_view(s.scopes@), " "@))) } else { base }
}

/// The OAuth sign-in address for a task: refused without an address or a
/// client id, or when the address does not parse; else the address with
/// the sign-in parameters appended.
pub open spec fn oauth_url_spec(s: PlatformAuthSettings, callback_url: Seq<char>, task_id: Seq<char>) -> Result<Seq<char>, Seq<char>> {
    if trim(s.auth_url@).len() == 0 || trim(s.client_id@).len() == 0 {
        Err("请先填写该平台的 OAuth 授权地址和 Client ID"@)
    } else {
        match url_path_query(trim(s.auth_url@)) {
            Err(e) => Err("OAuth 授权地址无效: "@ + e),
            Ok(_) => Ok(url_appended_query(trim(s.auth_url@), oauth_pairs(s, callback_url, task_id))),
        }
    }
}

/// The address that starts a platform's OAuth sign-in for a task: its
/// authorization address with the response type, client id, callback,
/// task and scopes appended.
pub fn create_direct_oauth_url(platform_settings: &PlatformAuthSettings, callback_url: &str, task_id: &str) -> (r: Result<String, String>)
    ensures
        result_view(r) == oauth_url_spec(*platform_settings, callback_url@, task_id@),
{
    if is_blank(platform_settings.auth_url.as_str()) || is_blank(platform_settings.client_id.as_str()) {
        return Err(owned("请先填写该平台的 OAuth 授权地址和 Client ID"));
    }
    let auth_url = trim_str(platform_settings.auth_url.as_str());
    match parse_url(auth_url.as_str()) {
        Err(e) => {
            let mut m = owned("OAuth 授权地址无效: ");
            push_str(&mut m, e.as_str());
            Err(m)
        },
        Ok(_) => {
            let mut pairs: Vec<(String, String)> = Vec::new();
            pairs.push((owned("response_type"), owned("code")));
            pairs.push((owned("client_id"), trim_str(platform_settings.client_id.as_str())));
            pairs.push((owned("redirect_uri"), owned(callback_url)));
            pairs.push((owned("state"), owned(task_id)));
            if platform_settings.scopes.len() > 0 {
                let scope = join_strings(&platform_settings.scopes, " ");
                pairs.push((owned("scope"), scope));
            }
            assert(pairs_view(pairs@) =~= oauth_pairs(*platform_settings, callback_url@, task_id@));
            Ok(append_query(auth_url.as_str(), &pairs))
        },
    }
}

} // verus!
