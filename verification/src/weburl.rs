//! What the `url` crate's parser makes of a text, for the few places where
//! the logic asks whether a text is a URL and which host it names.

use vstd::prelude::*;

verus! {

/// `url::Url`, held as an opaque value.
#[verifier::external_type_specification]
#[verifier::external_body]
pub struct ExUrl(url::Url);

} // verus!

verus! {

/// What `url::Url::parse` makes of `text`: `None` where it refuses the text,
/// else the parsed URL's `host_str`. It depends on the text alone.
pub uninterp spec fn url_parse_host(text: Seq<char>) -> Option<Option<Seq<char>>>;

pub open spec fn opt_opt_view(r: Option<Option<String>>) -> Option<Option<Seq<char>>> {
    match r {
        Some(Some(h)) => Some(Some(h@)),
        Some(None) => Some(None),
        None => None,
    }
}

/// Calls `url::Url::parse` on `text` and, where it succeeds, `Url::host_str`
/// on the result. The contract claims only that the outcome is the one named
/// by `url_parse_host`: what the WHATWG parser accepts is not restated here.
#[verifier::external_body]
pub(crate) fn parse_host(text: &str) -> (r: Option<Option<String>>)
    ensures
        opt_opt_view(r) == url_parse_host(text@),
{
    match url::Url::parse(text) {
        Ok(parsed) => match parsed.host_str() {
            Some(host) => Some(Some(host.to_string())),
            None => Some(None),
        },
        Err(_) => None,
    }
}

/// Whether `url::Url::parse` accepts `text`.
pub fn url_parses(text: &str) -> (r: bool)
    ensures
        r == (url_parse_host(text@) is Some),
{
    parse_host(text).is_some()
}

/// What `url::Url::parse` makes of `text` as path and query: the error's
/// display text where it refuses the text, else the URL's `path()` and
/// `query()`. It depends on the text alone.
pub uninterp spec fn url_path_query(text: Seq<char>) -> Result<(Seq<char>, Option<Seq<char>>), Seq<char>>;

pub open spec fn path_query_view(r: Result<(String, Option<String>), String>) -> Result<(Seq<char>, Option<Seq<char>>), Seq<char>> {
    match r {
        Ok((p, Some(q))) => Ok((p@, Some(q@))),
        Ok((p, None)) => Ok((p@, None)),
        Err(e) => Err(e@),
    }
}

/// Calls `url::Url::parse` on `text`, then `Url::path` and `Url::query` on
/// the result, or `ParseError`'s `to_string` on the error. The contract
/// claims only that the outcome is the one named by `url_path_query`.
#[verifier::external_body]
pub(crate) fn parse_path_query(text: &str) -> (r: Result<(String, Option<String>), String>)
    ensures
        path_query_view(r) == url_path_query(text@),
{
    match url::Url::parse(text) {
        Ok(parsed) => match parsed.query() {
            Some(query) => Ok((parsed.path().to_string(), Some(query.to_string()))),
            None => Ok((parsed.path().to_string(), None)),
        },
        Err(error) => Err(error.to_string()),
    }
}

/// The URL `url::Url::parse` makes of `text` where it accepts the text. It
/// depends on the text alone.
pub uninterp spec fn url_parsed(text: Seq<char>) -> url::Url;

/// Calls `url::Url::parse` on `text`, with `ParseError`'s `to_string` for
/// a refusal. The contract claims that it succeeds exactly where the named
/// results say the parser accepts the text, that the URL is the one
/// `url_parsed` names, and that the error text is the one they name.
#[verifier::external_body]
pub(crate) fn parse_url(text: &str) -> (r: Result<url::Url, String>)
    ensures
        match r {
            Ok(u) => url_parse_host(text@) is Some && url_path_query(text@) is Ok && u == url_parsed(text@),
            Err(e) => url_parse_host(text@) is None && url_path_query(text@) == Err::<(Seq<char>, Option<Seq<char>>), Seq<char>>(e@),
        },
{
    match url::Url::parse(text) {
        Ok(parsed) => Ok(parsed),
        Err(error) => Err(error.to_string()),
    }
}

pub open spec fn pairs_view(v: Seq<(String, String)>) -> Seq<(Seq<char>, Seq<char>)> {
    v.map_values(|p: (String, String)| (p.0@, p.1@))
}

/// What `url::Url::parse` then `Url::query_pairs` give for `text`: `None`
/// where the parser refuses the text, else the decoded query pairs in
/// order. It depends on the text alone.
pub uninterp spec fn url_query_pairs(text: Seq<char>) -> Option<Seq<(Seq<char>, Seq<char>)>>;

/// Calls `url::Url::parse` on `text` and collects `Url::query_pairs` as
/// owned strings. The contract claims that the pairs are the ones named by
/// `url_query_pairs`, and that there are pairs exactly where the parser
/// accepts the text (as `url_parse_host` also records).
#[verifier::external_body]
pub(crate) fn query_pairs(text: &str) -> (r: Option<Vec<(String, String)>>)
    ensures
        match r {
            Some(v) => url_query_pairs(text@) == Some(pairs_view(v@)),
            None => url_query_pairs(text@) is None,
        },
        r is Some <==> url_parse_host(text@) is Some,
{
    match url::Url::parse(text) {
        Ok(parsed) => Some(parsed.query_pairs().into_owned().collect()),
        Err(_) => None,
    }
}

/// The text of the URL `text` parses to, after `Url::set_query(None)`.
pub uninterp spec fn url_cleared_query(text: Seq<char>) -> Seq<char>;

/// Parses `text`, removes its query with `Url::set_query(None)` and writes
/// it back with `to_string`. The contract claims only that the result is
/// the one `url_cleared_query` names.
#[verifier::external_body]
pub(crate) fn clear_query(text: &str) -> (r: String)
    requires
        url_parse_host(text@) is Some,
    ensures
        r@ == url_cleared_query(text@),
{
    match url::Url::parse(text) {
        Ok(mut parsed) => {
            parsed.set_query(None);
            parsed.to_string()
        },
        Err(_) => String::new(),
    }
}

/// The text of the URL `text` parses to, after `Url::set_query(None)` and
/// the pairs appended with `query_pairs_mut().extend_pairs`.
pub uninterp spec fn url_replaced_query(text: Seq<char>, pairs: Seq<(Seq<char>, Seq<char>)>) -> Seq<char>;

/// Parses `text`, replaces its query by the given pairs (form-encoded by
/// the `url` crate's serializer) and writes it back. The contract claims
/// only that the result is the one `url_replaced_query` names.
#[verifier::external_body]
pub(crate) fn replace_query(text: &str, pairs: &Vec<(String, String)>) -> (r: String)
    requires
        url_parse_host(text@) is Some,
    ensures
        r@ == url_replaced_query(text@, pairs_view(pairs@)),
{
    match url::Url::parse(text) {
        Ok(mut parsed) => {
            parsed.set_query(None);
            parsed.query_pairs_mut().extend_pairs(pairs.iter());
            parsed.to_string()
        },
        Err(_) => String::new(),
    }
}

/// The text of the URL `text` parses to, with the pairs appended to its
/// query by `query_pairs_mut().extend_pairs`.
pub uninterp spec fn url_appended_query(text: Seq<char>, pairs: Seq<(Seq<char>, Seq<char>)>) -> Seq<char>;

/// Parses `text`, appends the pairs to its query (form-encoded by the `url`
/// crate's serializer) and writes it back. The contract claims only that
/// the result is the one `url_appended_query` names.
#[verifier::external_body]
pub(crate) fn append_query(text: &str, pairs: &Vec<(String, String)>) -> (r: String)
    requires
        url_parse_host(text@) is Some,
    ensures
        r@ == url_appended_query(text@, pairs_view(pairs@)),
{
    match url::Url::parse(text) {
        Ok(mut parsed) => {
            parsed.query_pairs_mut().extend_pairs(pairs.iter());
            parsed.to_string()
        },
        Err(_) => String::new(),
    }
}

} // verus!
