//! The local HTTP callback: the path and query of the request a sign-in
//! redirect sends to it.

use vstd::prelude::*;
use crate::browser::text_lines;
use crate::strs::owned;
use crate::text::{chars_of, find_char, find_char_exec, is_ws, is_ws_char, lemma_find_char, lemma_trim_start_at, occurs_at, occurs_at_exec, str_eq, string_from_range, trim_start};
use crate::browser::lines_of;
use crate::weburl::pairs_view;

verus! {

/// What `form_urlencoded::parse` yields for the bytes of `text`: its
/// decoded name/value pairs in order. It depends on the text alone.
pub uninterp spec fn form_pairs(text: Seq<char>) -> Seq<(Seq<char>, Seq<char>)>;

/// Calls `form_urlencoded::parse` on the bytes of `text` and collects the
/// pairs as owned strings. The contract claims only that they are the
/// pairs `form_pairs` names.
#[verifier::external_body]
fn form_parse(text: &str) -> (r: Vec<(String, String)>)
    ensures
        pairs_view(r@) == form_pairs(text@),
{
    form_urlencoded::parse(text.as_bytes()).into_owned().collect()
}

/// The query as a map: a later pair for a name replaces an earlier one.
pub open spec fn pairs_map(ps: Seq<(Seq<char>, Seq<char>)>) -> Map<Seq<char>, Seq<char>>
    decreases ps.len(),
{
    if ps.len() == 0 {
        Map::empty()
    } else {
        pairs_map(ps.drop_last()).insert(ps.last().0, ps.last().1)
    }
}

/// Names occur once.
pub open spec fn names_distinct(ps: Seq<(Seq<char>, Seq<char>)>) -> bool {
    forall|i: int, j: int| 0 <= i < j < ps.len() ==> (#[trigger] ps[i]).0 != (#[trigger] ps[j]).0
}

/// A map held as pairs with distinct names.
pub open spec fn table_map(ps: Seq<(Seq<char>, Seq<char>)>) -> Map<Seq<char>, Seq<char>> {
    Map::new(
        |k: Seq<char>| exists|i: int| 0 <= i < ps.len() && (#[trigger] ps[i]).0 == k,
        |k: Seq<char>| ps[choose|i: int| 0 <= i < ps.len() && (#[trigger] ps[i]).0 == k].1,
    )
}

proof fn lemma_table_at(ps: Seq<(Seq<char>, Seq<char>)>, i: int)
    requires
        names_distinct(ps),
        0 <= i < ps.len(),
    ensures
        table_map(ps).contains_key(ps[i].0),
        table_map(ps)[ps[i].0] == ps[i].1,
{
    let k = ps[i].0;
    assert(exists|j: int| 0 <= j < ps.len() && (#[trigger] ps[j]).0 == k);
    let j = choose|j: int| 0 <= j < ps.len() && (#[trigger] ps[j]).0 == k;
    if j < i { assert(ps[j].0 != ps[i].0); } else if j > i { assert(ps[i].0 != ps[j].0); }
}

proof fn lemma_table_insert(ps: Seq<(Seq<char>, Seq<char>)>, k: Seq<char>, v: Seq<char>, idx: Option<int>) -> (next: Seq<(Seq<char>, Seq<char>)>)
    requires
        names_distinct(ps),
        match idx {
            Some(i) => 0 <= i < ps.len() && ps[i].0 == k,
            None => forall|i: int| 0 <= i < ps.len() ==> (#[trigger] ps[i]).0 != k,
        },
    ensures
        next == match idx { Some(i) => ps.update(i, (k, v)), None => ps.push((k, v)) },
        names_distinct(next),
        table_map(next) == table_map(ps).insert(k, v),
{
    let next = match idx { Some(i) => ps.update(i, (k, v)), None => ps.push((k, v)) };
    assert forall|a: int, b: int| 0 <= a < b < next.len() implies (#[trigger] next[a]).0 != (#[trigger] next[b]).0 by {
        match idx {
            Some(i) => {
                if a != i && b != i { assert(ps[a].0 != ps[b].0); }
                else if a == i { assert(ps[a].0 != ps[b].0); }
                else { assert(ps[a].0 != ps[b].0); }
            },
            None => {
                if b < ps.len() { assert(ps[a].0 != ps[b].0); } else { assert(next[a] == ps[a]); }
            },
        }
    }
    let m1 = table_map(next);
    let m2 = table_map(ps).insert(k, v);
    assert forall|key: Seq<char>| m1.contains_key(key) <==> m2.contains_key(key) by {
        if m1.contains_key(key) {
            let j = choose|j: int| 0 <= j < next.len() && (#[trigger] next[j]).0 == key;
            if key != k {
                assert(ps[j].0 == key);
            }
        }
        if table_map(ps).contains_key(key) {
            let j = choose|j: int| 0 <= j < ps.len() && (#[trigger] ps[j]).0 == key;
            match idx {
                Some(i) => { if j == i { assert(next[i].0 == key); } else { assert(next[j].0 == key); } },
                None => { assert(next[j].0 == key); },
            }
        }
        if key == k {
            match idx {
                Some(i) => { assert(next[i].0 == key); },
                None => { assert(next[ps.len() as int].0 == key); },
            }
        }
    }
    assert forall|key: Seq<char>| m1.contains_key(key) implies m1[key] == m2[key] by {
        let j = choose|j: int| 0 <= j < next.len() && (#[trigger] next[j]).0 == key;
        lemma_table_at(next, j);
        if key != k {
            assert(ps[j] == next[j]);
            lemma_table_at(ps, j);
        }
    }
    assert(m1 =~= m2);
    next
}

fn find_name(pairs: &Vec<(String, String)>, key: &str) -> (r: Option<usize>)
    ensures
        match r {
            Some(i) => i < pairs@.len() && pairs_view(pairs@)[i as int].0 == key@,
            None => forall|m: int| 0 <= m < pairs@.len() ==> (#[trigger] pairs_view(pairs@)[m]).0 != key@,
        },
{
    let mut j: usize = 0;
    while j < pairs.len()
        invariant
            j <= pairs@.len(),
            forall|m: int| 0 <= m < j ==> (#[trigger] pairs_view(pairs@)[m]).0 != key@,
        decreases pairs@.len() - j,
    {
        if str_eq(pairs[j].0.as_str(), key) {
            return Some(j);
        }
        j += 1;
    }
    None
}

/// The query pairs of `value` as a map, a later value for a name replacing
/// an earlier one (as collecting into a `HashMap` does). The result holds
/// each name once.
pub fn parse_query(value: &str) -> (r: Vec<(String, String)>)
    ensures
        names_distinct(pairs_view(r@)),
        table_map(pairs_view(r@)) == pairs_map(form_pairs(value@)),
{
    let pairs = form_parse(value);
    let ghost pv = pairs_view(pairs@);
    let mut out: Vec<(String, String)> = Vec::new();
    let mut i: usize = 0;
    assert(table_map(pairs_view(out@)) =~= pairs_map(pv.take(0)));
    while i < pairs.len()
        invariant
            i <= pairs@.len(),
            pv == pairs_view(pairs@),
            pv == form_pairs(value@),
            names_distinct(pairs_view(out@)),
            table_map(pairs_view(out@)) == pairs_map(pv.take(i as int)),
        decreases pairs@.len() - i,
    {
        let (k, v) = (&pairs[i].0, &pairs[i].1);
        let found = find_name(&out, k.as_str());
        let ghost before = pairs_view(out@);
        match found {
            Some(f) => {
                proof {
                    assert(before[f as int].0 == k@);
                    lemma_table_insert(before, k@, v@, Some(f as int));
                }
                out.set(f, (k.clone(), v.clone()));
                assert(pairs_view(out@) =~= before.update(f as int, (k@, v@)));
            },
            None => {
                proof { lemma_table_insert(before, k@, v@, None); }
                out.push((k.clone(), v.clone()));
                assert(pairs_view(out@) =~= before.push((k@, v@)));
            },
        }
        proof {
            assert(pv.take(i + 1).drop_last() =~= pv.take(i as int));
            assert(pv.take(i + 1).last() == (k@, v@));
        }
        i += 1;
    }
    assert(pv.take(pv.len() as int) =~= pv);
    out
}

/// The words of `s` separated by white space, as `split_whitespace` gives
/// them.
pub open spec fn ws_tokens(s: Seq<char>) -> Seq<Seq<char>>
    decreases s.len(),
{
    let t = trim_start(s);
    if t.len() == 0 {
        seq![]
    } else {
        let k = word_end(t, 0);
        if 0 < k <= t.len() && t.len() < s.len() + 1 {
            seq![t.take(k)] + ws_tokens(t.skip(k))
        } else {
            seq![t]
        }
    }
}

/// The index of the first white-space character at or after `i`.
pub open spec fn word_end(t: Seq<char>, i: nat) -> int
    decreases t.len() - i,
{
    if i >= t.len() { t.len() as int } else if is_ws(t[i as int]) { i as int } else { word_end(t, i + 1) }
}

/// The first occurrence of `needle` in `s`.
pub open spec fn first_occurrence(s: Seq<char>, needle: Seq<char>, from: nat) -> Option<int>
    decreases s.len() + 1 - from,
{
    if from + needle.len() > s.len() {
        None
    } else if occurs_at(s, needle, from as int) {
        Some(from as int)
    } else {
        first_occurrence(s, needle, from + 1)
    }
}

/// A request's path and query.
#[derive(Debug)]
pub struct HttpRequest {
    pub path: String,
    /// The query as pairs, each name once.
    pub query: Vec<(String, String)>,
}

/// The head before the blank line, its first line's
/// second word as the target (or "/"), split at its first '?' into the
/// path and the query.
pub open spec fn request_spec(raw: Seq<char>) -> Result<(Seq<char>, Map<Seq<char>, Seq<char>>), Seq<char>> {
    match first_occurrence(raw, "\r\n\r\n"@, 0) {
        None => Err("HTTP 请求格式无效"@),
        Some(h) => {
            let lines = text_lines(raw.take(h));
            if lines.len() == 0 {
                Err("HTTP 请求缺少请求行"@)
            } else {
                let words = ws_tokens(lines[0]);
                let target = if words.len() >= 2 { words[1] } else { "/"@ };
                match crate::text::find_char(target, '?') {
                    Some(q) => Ok((target.take(q), pairs_map(form_pairs(target.skip(q + 1))))),
                    None => Ok((target, Map::empty())),
                }
            }
        },
    }
}

proof fn lemma_word_end_at(t: Seq<char>, i: nat, j: int)
    requires
        i <= j <= t.len(),
        forall|m: int| i <= m < j ==> !is_ws(t[m]),
        j == t.len() || is_ws(t[j]),
    ensures
        word_end(t, i) == j,
    decreases t.len() - i,
{
    if i < t.len() && !is_ws(t[i as int]) {
        lemma_word_end_at(t, i + 1, j);
    }
}

/// The first word of `v[lo..]` and where it ends, as `(start, end)`;
/// `start == end` when there is none.
fn next_word(v: &[char], lo: usize) -> (r: (usize, usize))
    requires
        lo <= v@.len(),
    ensures
        lo <= r.0 <= r.1 <= v@.len(),
        trim_start(v@.skip(lo as int)) == v@.skip(r.0 as int),
        r.0 < r.1 <==> trim_start(v@.skip(lo as int)).len() > 0,
        r.0 < r.1 ==> word_end(v@.skip(r.0 as int), 0) == r.1 - r.0,
{
    let n = v.len();
    let mut a = lo;
    while a < n && is_ws_char(v[a])
        invariant
            lo <= a <= n == v@.len(),
            forall|m: int| lo <= m < a ==> is_ws(v@[m]),
        decreases n - a,
    {
        a += 1;
    }
    proof {
        let s = v@.skip(lo as int);
        assert forall|m: int| 0 <= m < a - lo implies is_ws(s[m]) by { assert(s[m] == v@[m + lo]); }
        if a < n { assert(s[a - lo] == v@[a as int]); }
        lemma_trim_start_at(s, a - lo);
        assert(s.skip(a - lo) =~= v@.skip(a as int));
    }
    let mut b = a;
    while b < n && !is_ws_char(v[b])
        invariant
            a <= b <= n == v@.len(),
            forall|m: int| a <= m < b ==> !is_ws(v@[m]),
        decreases n - b,
    {
        b += 1;
    }
    proof {
        let t = v@.skip(a as int);
        assert forall|m: int| 0 <= m < b - a implies !is_ws(t[m]) by { assert(t[m] == v@[m + a]); }
        if b < n { assert(t[b - a] == v@[b as int]); }
        lemma_word_end_at(t, 0, b - a);
    }
    (a, b)
}

/// The second word of a line, where it has one.
fn second_word(line: &str) -> (r: Option<String>)
    ensures
        match r {
            Some(w) => ws_tokens(line@).len() >= 2 && w@ == ws_tokens(line@)[1],
            None => ws_tokens(line@).len() < 2,
        },
{
    let v = chars_of(line);
    assert(v@.skip(0) =~= v@);
    let (a1, b1) = next_word(&v, 0);
    if a1 == b1 {
        return None;
    }
    let ghost t = v@.skip(a1 as int);
    assert(t.skip(b1 - a1) =~= v@.skip(b1 as int));
    assert(ws_tokens(v@) == seq![t.take(b1 - a1)] + ws_tokens(v@.skip(b1 as int)));
    let (a2, b2) = next_word(&v, b1);
    if a2 == b2 {
        assert(ws_tokens(v@.skip(b1 as int)) =~= Seq::<Seq<char>>::empty());
        return None;
    }
    let ghost t2 = v@.skip(a2 as int);
    assert(t2.skip(b2 - a2) =~= v@.skip(b2 as int));
    let w = string_from_range(&v, a2, b2);
    assert(w@ =~= t2.take(b2 - a2));
    Some(w)
}

fn first_blank_line(v: &[char]) -> (r: Option<usize>)
    ensures
        match r {
            Some(h) => first_occurrence(v@, "\r\n\r\n"@, 0) == Some(h as int) && h <= v@.len(),
            None => first_occurrence(v@, "\r\n\r\n"@, 0) is None,
        },
{
    let needle: [char; 4] = ['\r', '\n', '\r', '\n'];
    proof { reveal_strlit("\r\n\r\n"); }
    assert(needle@ =~= "\r\n\r\n"@);
    let mut i: usize = 0;
    while i <= v.len()
        invariant
            i <= v@.len() + 1,
            needle@ == "\r\n\r\n"@,
            first_occurrence(v@, "\r\n\r\n"@, 0) == first_occurrence(v@, "\r\n\r\n"@, i as nat),
        decreases v@.len() + 1 - i,
    {
        if v.len() - i < 4 {
            return None;
        }
        if occurs_at_exec(v, &needle, i) {
            return Some(i);
        }
        i += 1;
    }
    None
}

/// The path and query of a raw HTTP request; an error for a request
/// without a blank line after its head, or without a request line.
pub fn parse_http_request(raw: &str) -> (r: Result<HttpRequest, String>)
    ensures
        match r {
            Ok(req) => request_spec(raw@) matches Ok((path, query))
                && req.path@ == path && names_distinct(pairs_view(req.query@)) && table_map(pairs_view(req.query@)) == query,
            Err(e) => request_spec(raw@) == Err::<(Seq<char>, Map<Seq<char>, Seq<char>>), Seq<char>>(e@),
        },
{
    let v = chars_of(raw);
    let h = match first_blank_line(&v) {
        Some(h) => h,
        None => return Err(owned("HTTP 请求格式无效")),
    };
    let head = string_from_range(&v, 0, h);
    assert(head@ =~= raw@.take(h as int));
    let lines = lines_of(head.as_str());
    if lines.len() == 0 {
        return Err(owned("HTTP 请求缺少请求行"));
    }
    assert(lines@[0]@ == text_lines(raw@.take(h as int))[0]);
    let target = match second_word(lines[0].as_str()) {
        Some(w) => w,
        None => owned("/"),
    };
    let tv = chars_of(target.as_str());
    proof { lemma_find_char(tv@, '?'); }
    match find_char_exec(&tv, '?') {
        Some(q) => {
            let total = tv.len();
            assert(q < total);
            let path = string_from_range(&tv, 0, q);
            let rest = string_from_range(&tv, q + 1, tv.len());
            assert(path@ =~= tv@.take(q as int));
            assert(rest@ =~= tv@.skip(q + 1));
            let query = parse_query(rest.as_str());
            Ok(HttpRequest { path, query })
        },
        None => {
            let query: Vec<(String, String)> = Vec::new();
            assert(table_map(pairs_view(query@)) =~= Map::<Seq<char>, Seq<char>>::empty());
            Ok(HttpRequest { path: target, query })
        },
    }
}

} // verus!
