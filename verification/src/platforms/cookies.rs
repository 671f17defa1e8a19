//! Login cookies as the platforms hand them over: either a cookie header
//! ("name=value; name=value") or a JSON list of cookie objects, and what
//! the login checks read from them.

use vstd::prelude::*;
use crate::domain::PluginAccountInfo;
use crate::json::{JsonValue, jget, opt_ref};
use crate::json_ext::opt_string_view;
use crate::platforms::{douyin_platform, douyin_view};
use crate::strs::{owned, opt_str_view, strs_view};
use crate::text::{
    eq_ignore_case, is_blank, last_chars, lower, push_str, split, split_once, split_once_str,
    split_str, starts_with, str_starts_with, trim, trim_str,
};

verus! {

/// "name=value" for each entry of a decoded cookie list whose name and
/// value are strings, in order.
pub open spec fn cookie_pairs(cookies: Seq<JsonValue>) -> Seq<Seq<char>>
    decreases cookies.len(),
{
    if cookies.len() == 0 {
        seq![]
    } else {
        let rest = cookie_pairs(cookies.drop_last());
        match (jget(cookies.last(), "name"@), jget(cookies.last(), "value"@)) {
            (Some(JsonValue::String(n)), Some(JsonValue::String(v))) => rest.push(n@ + "="@ + v@),
            _ => rest,
        }
    }
}

/// The parts with `sep` between each two, as `[String]::join` gives them.
pub open spec fn join(parts: Seq<Seq<char>>, sep: Seq<char>) -> Seq<char>
    decreases parts.len(),
{
    if parts.len() == 0 {
        seq![]
    } else if parts.len() == 1 {
        parts[0]
    } else {
        join(parts.drop_last(), sep) + sep + parts.last()
    }
}

/// A JSON cookie list made into a header, any
/// other text trimmed. `decoded` is what the trimmed text decodes to as
/// JSON, where it decodes.
pub open spec fn cookie_header_spec(login_cookie: Seq<char>, decoded: Option<JsonValue>) -> Seq<char> {
    let t = trim(login_cookie);
    match decoded {
        Some(JsonValue::Array(cookies)) if starts_with(t, "["@) => join(cookie_pairs(cookies@), "; "@),
        _ => t,
    }
}

/// The cookie header for a saved login cookie. A cookie saved as a JSON list
/// of `{name, value}` objects (`decoded`, the trimmed text decoded as JSON)
/// becomes "name=value; ..."; any other text is used trimmed.
pub fn login_cookie_to_header(login_cookie: &str, decoded: Option<&JsonValue>) -> (r: String)
    ensures
        r@ == cookie_header_spec(login_cookie@, opt_ref(decoded)),
{
    let t = trim_str(login_cookie);
    if str_starts_with(t.as_str(), "[") {
        if let Some(JsonValue::Array(cookies)) = decoded {
            let mut out = String::new();
            let ghost mut parts: Seq<Seq<char>> = seq![];
            let mut i: usize = 0;
            let mut count: usize = 0;
            while i < cookies.len()
                invariant
                    i <= cookies@.len(),
                    count == parts.len(),
                    count <= i,
                    parts == cookie_pairs(cookies@.take(i as int)),
                    out@ == join(parts, "; "@),
                decreases cookies@.len() - i,
            {
                let c = &cookies[i];
                assert(cookies@.take(i + 1).drop_last() =~= cookies@.take(i as int));
                assert(cookies@.take(i + 1).last() == cookies@[i as int]);
                match (c.get("name"), c.get("value")) {
                    (Some(JsonValue::String(n)), Some(JsonValue::String(v))) => {
                        if count > 0 {
                            push_str(&mut out, "; ");
                        }
                        let ghost old_out = out@;
                        push_str(&mut out, n.as_str());
                        push_str(&mut out, "=");
                        push_str(&mut out, v.as_str());
                        proof {
                            let p = n@ + "="@ + v@;
                            if parts.len() == 0 {
                                assert(parts.push(p).len() == 1);
                                assert(join(parts.push(p), "; "@) == parts.push(p)[0]);
                                assert(out@ =~= p);
                            } else {
                                assert(parts.push(p).drop_last() =~= parts);
                                assert(out@ =~= join(parts, "; "@) + "; "@ + p);
                            }
                            parts = parts.push(p);
                        }
                        count += 1;
                    },
                    _ => {},
                }
                i += 1;
            }
            assert(cookies@.take(cookies@.len() as int) =~= cookies@);
            return out;
        }
    }
    t
}

/// The cookie header sent with plugin requests for a saved login cookie.
pub fn plugin_cookie_header(login_cookie: &str, decoded: Option<&JsonValue>) -> (r: String)
    ensures
        r@ == cookie_header_spec(login_cookie@, opt_ref(decoded)),
{
    login_cookie_to_header(login_cookie, decoded)
}

/// The header and the trimmed cookie, or the expiry
/// message when there is no cookie or it gives an empty header. `decoded`
/// is the trimmed cookie decoded as JSON, where it decodes.
pub open spec fn saved_header_spec(saved: Option<Seq<char>>, expired: Seq<char>, decoded: Option<JsonValue>) -> Result<(Seq<char>, Seq<char>), Seq<char>> {
    match saved {
        Some(s) if trim(s).len() > 0 => {
            let header = cookie_header_spec(trim(s), decoded);
            if trim(header).len() == 0 { Err(expired) } else { Ok((header, trim(s))) }
        },
        _ => Err(expired),
    }
}

/// The cookie header for a saved login, with the login cookie it came from;
/// the expiry message when nothing usable was saved.
pub fn saved_cookie_header(saved_login_cookie: Option<&str>, expired_message: &str, decoded: Option<&JsonValue>) -> (r: Result<(String, String), String>)
    ensures
        match r {
            Ok((h, c)) => saved_header_spec(opt_str_view(saved_login_cookie), expired_message@, opt_ref(decoded)) == Ok::<(Seq<char>, Seq<char>), Seq<char>>((h@, c@)),
            Err(e) => saved_header_spec(opt_str_view(saved_login_cookie), expired_message@, opt_ref(decoded)) == Err::<(Seq<char>, Seq<char>), Seq<char>>(e@),
        },
{
    let saved = match saved_login_cookie {
        Some(s) => s,
        None => return Err(owned(expired_message)),
    };
    if is_blank(saved) {
        return Err(owned(expired_message));
    }
    let login_cookie = trim_str(saved);
    let header = login_cookie_to_header(login_cookie.as_str(), decoded);
    if is_blank(header.as_str()) {
        return Err(owned(expired_message));
    }
    Ok((header, login_cookie))
}

/// The value of the cookie named `expected` (ASCII case ignored) in a
/// decoded cookie list: the first entry so named whose value is a string.
pub open spec fn json_cookie_value(cookies: Seq<JsonValue>, expected: Seq<char>) -> Option<Seq<char>>
    decreases cookies.len(),
{
    if cookies.len() == 0 {
        None
    } else {
        let c = cookies[0];
        match (jget(c, "name"@), jget(c, "value"@)) {
            (Some(JsonValue::String(n)), Some(JsonValue::String(v))) if lower(n@) == lower(expected) => Some(v@),
            _ => json_cookie_value(cookies.drop_first(), expected),
        }
    }
}

/// The trimmed value of the first "name=value" part whose trimmed name is
/// `expected` (ASCII case ignored).
pub open spec fn pair_value(parts: Seq<Seq<char>>, expected: Seq<char>) -> Option<Seq<char>>
    decreases parts.len(),
{
    if parts.len() == 0 {
        None
    } else {
        match split_once(trim(parts[0]), '=') {
            Some((n, v)) if lower(trim(n)) == lower(expected) => Some(trim(v)),
            _ => pair_value(parts.drop_first(), expected),
        }
    }
}

/// The value of the cookie `expected` in a saved login cookie, from the
/// decoded cookie list or from its header text.
pub open spec fn cookie_value_spec(login_cookie: Seq<char>, expected: Seq<char>, decoded: Option<JsonValue>) -> Option<Seq<char>> {
    let t = trim(login_cookie);
    match decoded {
        Some(JsonValue::Array(cookies)) if starts_with(t, "["@) => json_cookie_value(cookies@, expected),
        _ => pair_value(split(t, ';'), expected),
    }
}

/// The value of one cookie in a saved login cookie, from the JSON cookie
/// list it decodes to (`decoded`) or from its "name=value" parts.
pub fn login_cookie_value(login_cookie: &str, expected_name: &str, decoded: Option<&JsonValue>) -> (r: Option<String>)
    ensures
        opt_string_view(r) == cookie_value_spec(login_cookie@, expected_name@, opt_ref(decoded)),
{
    let t = trim_str(login_cookie);
    if str_starts_with(t.as_str(), "[") {
        if let Some(JsonValue::Array(cookies)) = decoded {
            let mut i: usize = 0;
            assert(cookies@.skip(0) =~= cookies@);
            while i < cookies.len()
                invariant
                    i <= cookies@.len(),
                    cookie_value_spec(login_cookie@, expected_name@, opt_ref(decoded)) == json_cookie_value(cookies@, expected_name@),
                    json_cookie_value(cookies@, expected_name@) == json_cookie_value(cookies@.skip(i as int), expected_name@),
                decreases cookies@.len() - i,
            {
                proof {
                    assert(cookies@.skip(i as int).drop_first() =~= cookies@.skip(i + 1));
                    assert(cookies@.skip(i as int)[0] == cookies@[i as int]);
                }
                let c = &cookies[i];
                match (c.get("name"), c.get("value")) {
                    (Some(JsonValue::String(n)), Some(JsonValue::String(v))) => {
                        if eq_ignore_case(n.as_str(), expected_name) {
                            return Some(v.clone());
                        }
                    },
                    _ => {},
                }
                i += 1;
            }
            return None;
        }
    }
    let parts = split_str(t.as_str(), ';');
    let ghost pv = parts@.map_values(|x: String| x@);
    let mut i: usize = 0;
    assert(pv.skip(0) =~= pv);
    assert(cookie_value_spec(login_cookie@, expected_name@, opt_ref(decoded)) == pair_value(pv, expected_name@));
    while i < parts.len()
        invariant
            i <= parts@.len(),
            cookie_value_spec(login_cookie@, expected_name@, opt_ref(decoded)) == pair_value(pv, expected_name@),
            pv == parts@.map_values(|x: String| x@),
            pair_value(pv, expected_name@) == pair_value(pv.skip(i as int), expected_name@),
        decreases parts@.len() - i,
    {
        proof {
            assert(pv.skip(i as int).drop_first() =~= pv.skip(i + 1));
            assert(pv.skip(i as int)[0] == parts@[i as int]@);
        }
        let p = trim_str(parts[i].as_str());
        match split_once_str(p.as_str(), '=') {
            Some((n, v)) => {
                let n = trim_str(n.as_str());
                if eq_ignore_case(n.as_str(), expected_name) {
                    return Some(trim_str(v.as_str()));
                }
            },
            None => {},
        }
        i += 1;
    }
    None
}

/// The name of Kuaishou's session cookie, which a creator login must have.
pub open spec fn kuaishou_required_cookie() -> Seq<char> {
    "kuaishou.web.cp.api_st"@
}

/// Whether the saved login has a non-blank Kuaishou session cookie.
pub fn login_cookie_has_required_cookie(login_cookie: &str, decoded: Option<&JsonValue>) -> (r: bool)
    ensures
        r == (match cookie_value_spec(login_cookie@, kuaishou_required_cookie(), opt_ref(decoded)) {
            Some(v) => trim(v).len() > 0,
            None => false,
        }),
{
    match login_cookie_value(login_cookie, "kuaishou.web.cp.api_st", decoded) {
        Some(v) => !is_blank(v.as_str()),
        None => false,
    }
}

/// The user id from the cookie, named
/// after its last four characters.
pub open spec fn kuaishou_cookie_account_spec(login_cookie: Seq<char>, decoded: Option<JsonValue>) -> Option<(Seq<char>, Seq<char>)> {
    let required = match cookie_value_spec(login_cookie, kuaishou_required_cookie(), decoded) {
        Some(v) => trim(v).len() > 0,
        None => false,
    };
    let raw = match cookie_value_spec(login_cookie, "userId"@, decoded) {
        Some(u) => Some(u),
        None => cookie_value_spec(login_cookie, "bUserId"@, decoded),
    };
    if !required || raw is None || trim(raw->0).len() == 0 {
        None
    } else {
        let uid = trim(raw->0);
        let suffix = if uid.len() <= 4 { uid } else { uid.skip(uid.len() - 4) };
        Some((uid, if suffix.len() == 0 { "快手账号"@ } else { "快手账号 "@ + suffix }))
    }
}

/// An account read from a Kuaishou login cookie alone: its user id, named
/// "快手账号" and the id's last four characters.
pub fn kuaishou_account_from_login_cookie(login_cookie: &str, decoded: Option<&JsonValue>) -> (r: Option<PluginAccountInfo>)
    ensures
        match r {
            Some(a) => kuaishou_cookie_account_spec(login_cookie@, opt_ref(decoded)) == Some((a.uid@, a.nickname@))
                && a.account@ == a.uid@ && a.avatar@ == Seq::<char>::empty()
                && a.fans_count is None && a.following_count is None && a.like_count is None
                && a.login_cookie@ == login_cookie@,
            None => kuaishou_cookie_account_spec(login_cookie@, opt_ref(decoded)) is None,
        },
{
    if !login_cookie_has_required_cookie(login_cookie, decoded) {
        return None;
    }
    let raw = match login_cookie_value(login_cookie, "userId", decoded) {
        Some(u) => u,
        None => match login_cookie_value(login_cookie, "bUserId", decoded) {
            Some(u) => u,
            None => return None,
        },
    };
    if is_blank(raw.as_str()) {
        return None;
    }
    let uid = trim_str(raw.as_str());
    let suffix = last_chars(uid.as_str(), 4);
    let nickname = if suffix.as_str().is_empty() {
        owned("快手账号")
    } else {
        let mut n = owned("快手账号 ");
        push_str(&mut n, suffix.as_str());
        n
    };
    Some(PluginAccountInfo {
        uid: uid.clone(),
        account: uid,
        nickname,
        avatar: String::new(),
        fans_count: None,
        following_count: None,
        like_count: None,
        login_cookie: owned(login_cookie),
    })
}

/// A "name=value" part with a non-blank value whose trimmed name is one of
/// `names`.
pub open spec fn pair_names_login(pair: Seq<char>, names: Seq<Seq<char>>) -> bool {
    match split_once(trim(pair), '=') {
        Some((n, v)) => trim(v).len() > 0 && names.contains(trim(n)),
        None => false,
    }
}

pub open spec fn kuaishou_login_cookie_names() -> Seq<Seq<char>> {
    seq![
        "kuaishou.web.cp.api_st"@,
        "kuaishou.web.cp.api_ph"@,
        "passToken"@,
        "userId"@,
        "bUserId"@,
    ]
}

/// Some part is a non-blank
/// login cookie, and some part sets the session cookie.
pub open spec fn kuaishou_header_spec(header: Seq<char>) -> bool {
    let parts = split(header, ';');
    &&& exists|i: int| 0 <= i < parts.len() && pair_names_login(parts[i], kuaishou_login_cookie_names())
    &&& exists|i: int| 0 <= i < parts.len() && starts_with(trim(parts[i]), kuaishou_required_cookie() + "="@)
}

fn names_contain(names: &[&str], n: &str) -> (r: bool)
    ensures
        r == strs_view(names@).contains(n@),
{
    let mut i: usize = 0;
    while i < names.len()
        invariant
            i <= names@.len(),
            forall|j: int| 0 <= j < i ==> names@[j]@ != n@,
        decreases names@.len() - i,
    {
        if crate::text::str_eq(names[i], n) {
            assert(strs_view(names@)[i as int] == n@);
            return true;
        }
        i += 1;
    }
    assert forall|j: int| 0 <= j < names@.len() implies #[trigger] strs_view(names@)[j] != n@ by {
        assert(strs_view(names@)[j] == names@[j]@);
    }
    false
}

fn pair_names_login_exec(pair: &str, names: &[&str]) -> (r: bool)
    ensures
        r == pair_names_login(pair@, strs_view(names@)),
{
    let p = trim_str(pair);
    match split_once_str(p.as_str(), '=') {
        Some((n, v)) => {
            if is_blank(v.as_str()) {
                return false;
            }
            let n = trim_str(n.as_str());
            names_contain(names, n.as_str())
        },
        None => false,
    }
}

/// Whether a Kuaishou cookie header carries a creator login: a non-blank
/// login cookie and the session cookie.
pub fn has_kuaishou_creator_login_cookie_header(cookie_header: &str) -> (r: bool)
    ensures
        r == kuaishou_header_spec(cookie_header@),
{
    let names: [&str; 5] = ["kuaishou.web.cp.api_st", "kuaishou.web.cp.api_ph", "passToken", "userId", "bUserId"];
    assert(strs_view(names@) =~= kuaishou_login_cookie_names());
    let parts = split_str(cookie_header, ';');
    let ghost pv = parts@.map_values(|x: String| x@);
    let mut has_login = false;
    let mut i: usize = 0;
    while i < parts.len()
        invariant
            i <= parts@.len(),
            pv == parts@.map_values(|x: String| x@),
            pv == split(cookie_header@, ';'),
            strs_view(names@) == kuaishou_login_cookie_names(),
            !has_login ==> forall|j: int| 0 <= j < i ==> !pair_names_login(#[trigger] pv[j], kuaishou_login_cookie_names()),
            has_login ==> exists|j: int| 0 <= j < pv.len() && pair_names_login(#[trigger] pv[j], kuaishou_login_cookie_names()),
        decreases parts@.len() - i,
    {
        assert(pv[i as int] == parts@[i as int]@);
        if pair_names_login_exec(parts[i].as_str(), &names) {
            has_login = true;
        }
        i += 1;
    }
    if !has_login {
        return false;
    }
    let required = concat_required();
    let mut j: usize = 0;
    while j < parts.len()
        invariant
            j <= parts@.len(),
            pv == parts@.map_values(|x: String| x@),
            pv == split(cookie_header@, ';'),
            required@ == kuaishou_required_cookie() + "="@,
            exists|k: int| 0 <= k < pv.len() && pair_names_login(#[trigger] pv[k], kuaishou_login_cookie_names()),
            forall|k: int| 0 <= k < j ==> !starts_with(trim(#[trigger] pv[k]), kuaishou_required_cookie() + "="@),
        decreases parts@.len() - j,
    {
        assert(pv[j as int] == parts@[j as int]@);
        let p = trim_str(parts[j].as_str());
        if str_starts_with(p.as_str(), required.as_str()) {
            assert(starts_with(trim(pv[j as int]), kuaishou_required_cookie() + "="@));
            return true;
        }
        j += 1;
    }
    false
}

fn concat_required() -> (r: String)
    ensures
        r@ == kuaishou_required_cookie() + "="@,
{
    crate::text::concat_str("kuaishou.web.cp.api_st", "=")
}

/// A part of a cookie header that sets one of the platform's login cookies
/// (name compared trimmed and in lower case) to a non-blank value.
pub open spec fn douyin_pair_login(pair: Seq<char>) -> bool {
    match split_once(trim(pair), '=') {
        Some((n, v)) => trim(v).len() > 0 && lower(trim(n)).len() > 0
            && douyin_view().login_cookie_names.contains(lower(trim(n))),
        None => false,
    }
}

/// Some part of the cookie header is a login.
pub open spec fn douyin_login_spec(login_cookie: Seq<char>, decoded: Option<JsonValue>) -> bool {
    let parts = split(cookie_header_spec(login_cookie, decoded), ';');
    exists|i: int| 0 <= i < parts.len() && douyin_pair_login(parts[i])
}

/// Whether a saved Douyin login cookie holds one of Douyin's login cookies
/// with a value. `decoded` is the trimmed cookie decoded as JSON, where it
/// decodes.
pub fn has_douyin_login_cookie(login_cookie: &str, decoded: Option<&JsonValue>) -> (r: bool)
    ensures
        r == douyin_login_spec(login_cookie@, opt_ref(decoded)),
{
    let platform = douyin_platform();
    let header = login_cookie_to_header(login_cookie, decoded);
    let parts = split_str(header.as_str(), ';');
    let ghost pv = parts@.map_values(|x: String| x@);
    let mut i: usize = 0;
    while i < parts.len()
        invariant
            i <= parts@.len(),
            pv == parts@.map_values(|x: String| x@),
            pv == split(cookie_header_spec(login_cookie@, opt_ref(decoded)), ';'),
            platform@ == douyin_view(),
            forall|j: int| 0 <= j < i ==> !douyin_pair_login(#[trigger] pv[j]),
        decreases parts@.len() - i,
    {
        assert(pv[i as int] == parts@[i as int]@);
        let p = trim_str(parts[i].as_str());
        match split_once_str(p.as_str(), '=') {
            Some((n, v)) => {
                if !is_blank(v.as_str()) && platform.is_login_cookie_name(n.as_str()) {
                    return true;
                }
            },
            None => {},
        }
        i += 1;
    }
    false
}

} // verus!
