//! The managed browser: which platforms use it, how its DevTools endpoint's
//! HTTP replies are read, and which of its errors mean what.

use vstd::prelude::*;
use crate::number::{digits_value, parse_u64, parse_u64_str};
use crate::platforms::{platform, platform_view, allows_domain_spec, PlatformView};
use crate::json::{JsonValue, JsonNumber, NumberView, copy_number, jbool, jget, jstr, number_view};
use crate::text::starts_with;
use crate::platforms::cookies::{cookie_pairs, join};
use crate::text::push_str;
use crate::strs::{owned, opt_str_view};
use crate::text::{
    chars_of, concat_str, contains, ends_with, eq_ignore_case, find_char, find_char_exec,
    lemma_find_char, lower, lower_str, split, split_once, split_once_str, split_str, str_contains,
    str_ends_with, str_eq, string_from_range, trim, trim_str, is_ws,
};
use crate::weburl::{
    clear_query, pairs_view, parse_host, query_pairs, replace_query, url_cleared_query,
    url_parse_host, url_query_pairs, url_replaced_query,
};

verus! {

/// Whether an error from the browser's debugging endpoint means that the
/// browser is gone.
pub fn browser_debug_port_closed(error: &str) -> (r: bool)
    ensures
        r == (contains(error@, "Connection refused"@) || contains(error@, "connection refused"@)
            || contains(error@, "actively refused"@) || contains(error@, "No connection"@)
            || contains(error@, "连接浏览器失败"@)),
{
    str_contains(error, "Connection refused") || str_contains(error, "connection refused")
        || str_contains(error, "actively refused") || str_contains(error, "No connection")
        || str_contains(error, "连接浏览器失败")
}

/// Whether a page script failed only because the page was navigating, so
/// that it is worth trying again.
pub fn browser_page_eval_retryable(error: &str) -> (r: bool)
    ensures
        r == (contains(error@, "Execution context was destroyed"@)
            || contains(error@, "Cannot find context with specified id"@)
            || contains(error@, "Inspected target navigated or closed"@)
            || contains(error@, "浏览器脚本没有返回结果"@)),
{
    str_contains(error, "Execution context was destroyed")
        || str_contains(error, "Cannot find context with specified id")
        || str_contains(error, "Inspected target navigated or closed")
        || str_contains(error, "浏览器脚本没有返回结果")
}

/// Every supported platform opens its creator homepage in the managed
/// browser.
pub fn creator_home_uses_managed_browser(platform_id: &str) -> (r: bool)
    ensures
        r == (platform_view(platform_id@) is Some),
{
    platform(platform_id).is_some()
}

/// A page on the target host or one of its
/// subdomains; for a text that is not a URL, one that mentions the host.
pub open spec fn page_matches_spec(page_url: Seq<char>, target_host: Option<Seq<char>>) -> bool {
    match target_host {
        None => false,
        Some(t) => match url_parse_host(page_url) {
            None => contains(page_url, t),
            Some(None) => false,
            Some(Some(h)) => lower(h) == t || ends_with(lower(h), "."@ + t),
        },
    }
}

/// Whether a browser page is on the host a login waits for.
pub fn page_url_matches_target(page_url: &str, target_host: Option<&str>) -> (r: bool)
    ensures
        r == page_matches_spec(page_url@, opt_str_view(target_host)),
{
    let target = match target_host {
        Some(t) => t,
        None => return false,
    };
    match parse_host(page_url) {
        None => str_contains(page_url, target),
        Some(None) => false,
        Some(Some(h)) => {
            let l = lower_str(h.as_str());
            if str_eq(l.as_str(), target) {
                return true;
            }
            let dotted = concat_str(".", target);
            str_ends_with(l.as_str(), dotted.as_str())
        },
    }
}

/// The lines of a text as `str::lines` yields them: split at '\n', a '\r'
/// before the '\n' dropped, and no empty last line after a final '\n'.
pub open spec fn text_lines(s: Seq<char>) -> Seq<Seq<char>> {
    let pieces = split(s, '\n');
    let body = pieces.drop_last();
    let ended = body.map_values(|l: Seq<char>| if l.len() > 0 && l.last() == '\r' { l.drop_last() } else { l });
    if pieces.last().len() == 0 { ended } else { ended.push(pieces.last()) }
}

/// `str::parse::<usize>`.
pub open spec fn parse_usize(s: Seq<char>) -> Option<usize> {
    match parse_u64(s) {
        Some(n) => if n <= usize::MAX { Some(n as usize) } else { None },
        None => None,
    }
}

/// The value of the first "Content-Length" header line (name compared
/// trimmed, ignoring ASCII case) whose value parses.
pub open spec fn content_length_in(lines: Seq<Seq<char>>) -> Option<usize>
    decreases lines.len(),
{
    if lines.len() == 0 {
        None
    } else {
        match split_once(lines[0], ':') {
            Some((n, v)) if lower(trim(n)) == lower("content-length"@) && parse_usize(trim(v)) is Some => parse_usize(trim(v)),
            _ => content_length_in(lines.drop_first()),
        }
    }
}

/// The lines of a text, as `str::lines` yields them.
pub fn lines_of(s: &str) -> (r: Vec<String>)
    ensures
        r@.map_values(|x: String| x@) == text_lines(s@),
{
    let pieces = split_str(s, '\n');
    let ghost pv = pieces@.map_values(|x: String| x@);
    assert(pv.len() >= 1) by {
        crate::text::lemma_find_char(s@, '\n');
        lemma_split_nonempty(s@, '\n');
    }
    let mut out: Vec<String> = Vec::new();
    let n = pieces.len();
    let mut i: usize = 0;
    while i + 1 < n
        invariant
            n == pieces@.len() >= 1,
            i + 1 <= n,
            pv == pieces@.map_values(|x: String| x@),
            out@.map_values(|x: String| x@) == pv.take(i as int).map_values(|l: Seq<char>| if l.len() > 0 && l.last() == '\r' { l.drop_last() } else { l }),
        decreases n - i,
    {
        let p = &pieces[i];
        let cs = chars_of(p.as_str());
        let line = if cs.len() > 0 && cs[cs.len() - 1] == '\r' {
            string_from_range(&cs, 0, cs.len() - 1)
        } else {
            string_from_range(&cs, 0, cs.len())
        };
        proof {
            assert(pv[i as int] == p@);
            assert(cs@.subrange(0, cs@.len() as int) =~= cs@);
            if cs@.len() > 0 {
                assert(cs@.subrange(0, cs@.len() - 1) =~= cs@.drop_last());
            }
        }
        let ghost before = out@;
        out.push(line);
        assert(pv.take(i + 1) =~= pv.take(i as int).push(pv[i as int]));
        assert(out@.map_values(|x: String| x@) =~= before.map_values(|x: String| x@).push(line@));
        i += 1;
    }
    assert(pv.take((n - 1) as int) =~= pv.drop_last());
    let last = &pieces[n - 1];
    assert(pv.last() == last@);
    if !last.as_str().is_empty() {
        let ghost before = out@;
        out.push(last.clone());
        assert(out@.map_values(|x: String| x@) =~= before.map_values(|x: String| x@).push(last@));
    }
    out
}

proof fn lemma_split_nonempty(s: Seq<char>, c: char)
    ensures
        split(s, c).len() >= 1,
    decreases s.len(),
{
    lemma_find_char(s, c);
    match find_char(s, c) {
        Some(i) => {
            lemma_split_nonempty(s.skip(i + 1), c);
        },
        None => {},
    }
}

fn parse_usize_str(s: &str) -> (r: Option<usize>)
    ensures
        r == parse_usize(s@),
{
    match parse_u64_str(s) {
        Some(n) => if n <= usize::MAX as u64 { Some(n as usize) } else { None },
        None => None,
    }
}

/// The body length a response head declares.
pub fn http_content_length(head: &str) -> (r: Option<usize>)
    ensures
        r == content_length_in(text_lines(head@)),
{
    let lines = lines_of(head);
    let ghost lv = lines@.map_values(|x: String| x@);
    let mut i: usize = 0;
    assert(lv.skip(0) =~= lv);
    while i < lines.len()
        invariant
            i <= lines@.len(),
            lv == lines@.map_values(|x: String| x@),
            lv == text_lines(head@),
            content_length_in(lv) == content_length_in(lv.skip(i as int)),
        decreases lines@.len() - i,
    {
        proof {
            assert(lv.skip(i as int).drop_first() =~= lv.skip(i + 1));
            assert(lv.skip(i as int)[0] == lines@[i as int]@);
        }
        match split_once_str(lines[i].as_str(), ':') {
            Some((n, v)) => {
                let name = trim_str(n.as_str());
                if eq_ignore_case(name.as_str(), "content-length") {
                    let value = trim_str(v.as_str());
                    let parsed = parse_usize_str(value.as_str());
                    if parsed.is_some() {
                        return parsed;
                    }
                }
            },
            None => {},
        }
        i += 1;
    }
    None
}

/// What `String::from_utf8_lossy` makes of some bytes: the text they
/// encode, with each invalid sequence replaced. It depends on the bytes
/// alone.
pub uninterp spec fn utf8_lossy(bytes: Seq<u8>) -> Seq<char>;

/// Calls `String::from_utf8_lossy` on `bytes`. The contract claims only
/// that the text is the one `utf8_lossy` names.
#[verifier::external_body]
fn lossy_text(bytes: &[u8]) -> (r: String)
    ensures
        r@ == utf8_lossy(bytes@),
{
    String::from_utf8_lossy(bytes).into_owned()
}

/// Every byte is ASCII.
pub open spec fn all_ascii(b: Seq<u8>) -> bool {
    forall|i: int| 0 <= i < b.len() ==> b[i] < 128
}

/// The characters of ASCII bytes, one each.
pub open spec fn ascii_chars(b: Seq<u8>) -> Seq<char> {
    b.map_values(|x: u8| x as char)
}

/// The text of a line of bytes: ASCII bytes are their characters (ASCII is
/// valid UTF-8); other bytes are read as `utf8_lossy` names.
pub open spec fn line_text(b: Seq<u8>) -> Seq<char> {
    if all_ascii(b) { ascii_chars(b) } else { utf8_lossy(b) }
}

/// The text of a line of bytes.
fn line_string(bytes: &[u8]) -> (r: String)
    ensures
        r@ == line_text(bytes@),
{
    let mut out = String::new();
    let mut i: usize = 0;
    while i < bytes.len()
        invariant
            i <= bytes@.len(),
            forall|k: int| 0 <= k < i ==> bytes@[k] < 128,
            out@ == ascii_chars(bytes@.take(i as int)),
        decreases bytes@.len() - i,
    {
        let b = bytes[i];
        if b >= 128 {
            return lossy_text(bytes);
        }
        crate::text::push_char(&mut out, b as char);
        assert(ascii_chars(bytes@.take(i + 1)) =~= ascii_chars(bytes@.take(i as int)).push(b as char));
        i += 1;
    }
    assert(bytes@.take(bytes@.len() as int) =~= bytes@);
    out
}

/// The value of a hexadecimal digit.
pub open spec fn hex_digit(c: char) -> Option<nat> {
    if '0' <= c && c <= '9' {
        Some((c as u32 - '0' as u32) as nat)
    } else if 'a' <= c && c <= 'f' {
        Some((c as u32 - 'a' as u32 + 10) as nat)
    } else if 'A' <= c && c <= 'F' {
        Some((c as u32 - 'A' as u32 + 10) as nat)
    } else {
        None
    }
}

/// How `usize::from_str_radix(_, 16)` ends: a value, or its error's text.
pub open spec fn empty_error() -> Seq<char> { "cannot parse integer from empty string"@ }
pub open spec fn invalid_digit_error() -> Seq<char> { "invalid digit found in string"@ }
pub open spec fn overflow_error() -> Seq<char> { "number too large to fit in target type"@ }

/// The digits read left to right: the first character that is not a
/// digit, or the first digit that takes the value past `usize::MAX`, ends
/// it with an error.
pub open spec fn scan_hex(d: Seq<char>, acc: nat) -> Result<usize, Seq<char>>
    decreases d.len(),
{
    if d.len() == 0 {
        if acc <= usize::MAX { Ok(acc as usize) } else { Err(overflow_error()) }
    } else {
        match hex_digit(d[0]) {
            None => Err(invalid_digit_error()),
            Some(x) => if acc * 16 + x > usize::MAX { Err(overflow_error()) } else { scan_hex(d.drop_first(), acc * 16 + x) },
        }
    }
}

/// A hexadecimal size as `usize::from_str_radix(s, 16)` reads it: an
/// optional '+', then digits, or the error's text.
pub open spec fn parse_hex(s: Seq<char>) -> Result<usize, Seq<char>> {
    if s.len() == 0 {
        Err(empty_error())
    } else if (s[0] == '+' || s[0] == '-') && s.len() == 1 {
        Err(invalid_digit_error())
    } else if s[0] == '+' {
        scan_hex(s.drop_first(), 0)
    } else {
        scan_hex(s, 0)
    }
}

fn hex_digit_exec(c: char) -> (r: Option<u64>)
    ensures
        match r { Some(x) => hex_digit(c) == Some(x as nat) && x < 16, None => hex_digit(c) is None },
{
    if '0' <= c && c <= '9' {
        Some((c as u32 - '0' as u32) as u64)
    } else if 'a' <= c && c <= 'f' {
        Some((c as u32 - 'a' as u32 + 10) as u64)
    } else if 'A' <= c && c <= 'F' {
        Some((c as u32 - 'A' as u32 + 10) as u64)
    } else {
        None
    }
}

/// `usize::from_str_radix(s, 16)`, with the error's text.
pub fn parse_hex_str(s: &str) -> (r: Result<usize, String>)
    ensures
        crate::strs::result_view_usize(r) == parse_hex(s@),
{
    let v = chars_of(s);
    if v.len() == 0 {
        return Err(owned("cannot parse integer from empty string"));
    }
    if (v[0] == '+' || v[0] == '-') && v.len() == 1 {
        return Err(owned("invalid digit found in string"));
    }
    let start: usize = if v[0] == '+' { 1 } else { 0 };
    let ghost d = v@.skip(start as int);
    assert(start == 1 ==> d =~= v@.drop_first());
    assert(start == 0 ==> d =~= v@);
    let mut acc: usize = 0;
    let mut i: usize = start;
    assert(v@.skip(i as int) =~= d);
    assert(parse_hex(s@) == scan_hex(d, 0));
    while i < v.len()
        invariant
            start <= i <= v@.len(),
            v@ == s@,
            d == v@.skip(start as int),
            parse_hex(s@) == scan_hex(d, 0),
            scan_hex(d, 0) == scan_hex(v@.skip(i as int), acc as nat),
        decreases v@.len() - i,
    {
        proof {
            assert(v@.skip(i as int).drop_first() =~= v@.skip(i + 1));
            assert(v@.skip(i as int)[0] == v@[i as int]);
        }
        match hex_digit_exec(v[i]) {
            None => return Err(owned("invalid digit found in string")),
            Some(x) => {
                if acc > (usize::MAX - x as usize) / 16 {
                    assert(acc * 16 + x > usize::MAX) by (nonlinear_arith)
                        requires acc > (usize::MAX - x) / 16, x < 16;
                    return Err(owned("number too large to fit in target type"));
                }
                assert(acc * 16 + x <= usize::MAX) by (nonlinear_arith)
                    requires acc <= (usize::MAX - x) / 16, x < 16;
                acc = acc * 16 + x as usize;
            },
        }
        i += 1;
    }
    Ok(acc)
}

/// The position of the first "\r\n" in `s`.
pub open spec fn find_crlf(s: Seq<u8>) -> Option<int>
    decreases s.len(),
{
    if s.len() < 2 {
        None
    } else if s[0] == 13 && s[1] == 10 {
        Some(0)
    } else {
        match find_crlf(s.drop_first()) {
            Some(i) => Some(i + 1),
            None => None,
        }
    }
}

proof fn lemma_find_crlf(s: Seq<u8>)
    ensures
        match find_crlf(s) {
            Some(i) => 0 <= i && i + 2 <= s.len() && s[i] == 13 && s[i + 1] == 10
                && forall|j: int| 0 <= j < i ==> !(s[j] == 13 && #[trigger] s[j + 1] == 10),
            None => forall|j: int| 0 <= j && j + 2 <= s.len() ==> !(s[j] == 13 && #[trigger] s[j + 1] == 10),
        },
    decreases s.len(),
{
    if s.len() >= 2 && !(s[0] == 13 && s[1] == 10) {
        let t = s.drop_first();
        lemma_find_crlf(t);
        match find_crlf(t) {
            Some(i) => {
                assert forall|j: int| 0 <= j < i + 1 implies !(s[j] == 13 && #[trigger] s[j + 1] == 10) by {
                    if j > 0 { assert(s[j] == t[j - 1] && s[j + 1] == t[j]); }
                }
                assert(s[i + 1] == t[i] && s[i + 2] == t[i + 1]);
            },
            None => {
                assert forall|j: int| 0 <= j && j + 2 <= s.len() implies !(s[j] == 13 && #[trigger] s[j + 1] == 10) by {
                    if j > 0 { assert(s[j] == t[j - 1] && s[j + 1] == t[j]); }
                }
            },
        }
    }
}

proof fn lemma_find_crlf_at(s: Seq<u8>, k: int)
    requires
        0 <= k,
        forall|j: int| 0 <= j < k && j + 2 <= s.len() ==> !(s[j] == 13 && #[trigger] s[j + 1] == 10),
    ensures
        k + 2 <= s.len() && s[k] == 13 && s[k + 1] == 10 ==> find_crlf(s) == Some(k),
        k + 2 > s.len() ==> find_crlf(s) is None,
{
    lemma_find_crlf(s);
    match find_crlf(s) {
        Some(i) => {
            if i < k {
                assert(!(s[i] == 13 && s[i + 1] == 10));
            } else if i > k && k + 2 <= s.len() && s[k] == 13 && s[k + 1] == 10 {
                assert(!(s[k] == 13 && s[k + 1] == 10));
            }
        },
        None => {},
    }
}

/// Where reading a chunked body ends.
pub enum ChunkWalk {
    /// The terminating zero-size chunk was read; the body so far and the
    /// offset after its size line.
    Done(Seq<u8>, int),
    /// A size line does not end.
    NoLine,
    /// A size does not parse; the parse error's text.
    BadSize(Seq<char>),
    /// A chunk ends past the data.
    Short,
    /// A chunk's end lies past `usize::MAX`.
    Overflow,
}

/// Reading the chunks of `raw` from `offset`, with `out` read so far: a
/// size line in hexadecimal (anything after ';' ignored, trimmed), then
/// that many bytes and "\r\n", until a chunk of size zero.
pub open spec fn chunk_walk(raw: Seq<u8>, offset: int, out: Seq<u8>) -> ChunkWalk
    decreases raw.len() - offset,
{
    if offset < 0 || offset > raw.len() {
        ChunkWalk::NoLine
    } else {
        match find_crlf(raw.subrange(offset, raw.len() as int)) {
            None => ChunkWalk::NoLine,
            Some(le) => {
                let text = trim(crate::platforms::images::before_semicolon(line_text(raw.subrange(offset, offset + le))));
                match parse_hex(text) {
                    Err(e) => ChunkWalk::BadSize(e),
                    Ok(size) => {
                        let o2 = offset + le + 2;
                        if size == 0 {
                            ChunkWalk::Done(out, o2)
                        } else if o2 + size + 2 > usize::MAX {
                            ChunkWalk::Overflow
                        } else if raw.len() < o2 + size + 2 {
                            ChunkWalk::Short
                        } else if le < 0 {
                            ChunkWalk::NoLine
                        } else {
                            chunk_walk(raw, o2 + size + 2, out + raw.subrange(o2, o2 + size))
                        }
                    },
                }
            },
        }
    }
}

/// The lower-case hexadecimal digit byte of `d`.
pub open spec fn hex_byte(d: nat) -> u8 {
    if d < 10 { (48 + d) as u8 } else { (87 + d) as u8 }
}

/// `n` in lower-case hexadecimal, as `format!("{:x}", n)` writes it.
pub open spec fn hex_bytes(n: nat) -> Seq<u8>
    decreases n,
{
    if n < 16 { seq![hex_byte(n)] } else { hex_bytes(n / 16).push(hex_byte(n % 16)) }
}

/// One chunk as a chunked body sends it: its size in hexadecimal, "\r\n",
/// its bytes, "\r\n".
pub open spec fn chunk_frame(c: Seq<u8>) -> Seq<u8> {
    hex_bytes(c.len()) + seq![13u8, 10u8] + c + seq![13u8, 10u8]
}

/// A chunked body that sends `chunks` in turn and then ends.
pub open spec fn chunked_encoding(chunks: Seq<Seq<u8>>) -> Seq<u8>
    decreases chunks.len(),
{
    if chunks.len() == 0 {
        seq![48u8, 13u8, 10u8, 13u8, 10u8]
    } else {
        chunk_frame(chunks[0]) + chunked_encoding(chunks.drop_first())
    }
}

/// The bytes of `chunks` joined.
pub open spec fn joined_chunks(chunks: Seq<Seq<u8>>) -> Seq<u8>
    decreases chunks.len(),
{
    if chunks.len() == 0 { seq![] } else { chunks[0] + joined_chunks(chunks.drop_first()) }
}

/// The value of hexadecimal digits read left to right after `acc`.
pub open spec fn hex_fold(d: Seq<char>, acc: nat) -> nat
    decreases d.len(),
{
    if d.len() == 0 {
        acc
    } else {
        hex_fold(d.drop_first(), acc * 16 + match hex_digit(d[0]) { Some(x) => x, None => 0 })
    }
}

pub open spec fn all_hex(d: Seq<char>) -> bool {
    forall|i: int| 0 <= i < d.len() ==> hex_digit(d[i]) is Some
}

proof fn lemma_hex_fold_ge(d: Seq<char>, acc: nat)
    ensures
        hex_fold(d, acc) >= acc,
    decreases d.len(),
{
    if d.len() > 0 {
        let x = match hex_digit(d[0]) { Some(x) => x, None => 0 };
        lemma_hex_fold_ge(d.drop_first(), acc * 16 + x);
        assert(acc * 16 + x >= acc) by (nonlinear_arith);
    }
}

proof fn lemma_scan_hex(d: Seq<char>, acc: nat)
    requires
        all_hex(d),
        hex_fold(d, acc) <= usize::MAX,
    ensures
        scan_hex(d, acc) == Ok::<usize, Seq<char>>(hex_fold(d, acc) as usize),
    decreases d.len(),
{
    if d.len() > 0 {
        let x = hex_digit(d[0])->0;
        lemma_hex_fold_ge(d.drop_first(), acc * 16 + x);
        assert(all_hex(d.drop_first())) by {
            assert forall|i: int| 0 <= i < d.drop_first().len() implies hex_digit(d.drop_first()[i]) is Some by {
                assert(d.drop_first()[i] == d[i + 1]);
            }
        }
        lemma_scan_hex(d.drop_first(), acc * 16 + x);
    }
}

proof fn lemma_hex_fold_push(d: Seq<char>, c: char, acc: nat)
    requires
        hex_digit(c) is Some,
    ensures
        hex_fold(d.push(c), acc) == hex_fold(d, acc) * 16 + hex_digit(c)->0,
    decreases d.len(),
{
    let y = hex_digit(c)->0;
    if d.len() == 0 {
        assert(d.push(c).drop_first() =~= Seq::<char>::empty());
        assert(d.push(c)[0] == c);
        assert(hex_fold(Seq::<char>::empty(), acc * 16 + y) == acc * 16 + y);
        assert(hex_fold(d.push(c), acc) == hex_fold(d.push(c).drop_first(), acc * 16 + y));
    } else {
        let x = match hex_digit(d[0]) { Some(x) => x, None => 0 };
        assert(d.push(c).drop_first() =~= d.drop_first().push(c));
        assert(d.push(c)[0] == d[0]);
        lemma_hex_fold_push(d.drop_first(), c, acc * 16 + x);
        assert(hex_fold(d.push(c), acc) == hex_fold(d.push(c).drop_first(), acc * 16 + x));
        assert(hex_fold(d, acc) == hex_fold(d.drop_first(), acc * 16 + x));
    }
}

proof fn lemma_hex_byte(d: nat)
    requires
        d < 16,
    ensures
        hex_digit(hex_byte(d) as char) == Some(d),
        48 <= hex_byte(d) < 128,
        hex_byte(d) != 59,
        !crate::text::is_ws(hex_byte(d) as char),
{
}

/// The hexadecimal text of `n` reads back as `n`, with no ';' and no white
/// space at its ends.
proof fn lemma_hex_text(n: nat)
    ensures
        ({
            let b = hex_bytes(n);
            let t = ascii_chars(b);
            &&& b.len() > 0
            &&& all_ascii(b)
            &&& forall|i: int| 0 <= i < b.len() ==> 48 <= #[trigger] b[i] && b[i] != 59
            &&& all_hex(t)
            &&& hex_fold(t, 0) == n
            &&& forall|i: int| 0 <= i < t.len() ==> !crate::text::is_ws(#[trigger] t[i]) && t[i] != ';'
        }),
    decreases n,
{
    if n < 16 {
        lemma_hex_byte(n);
        let b = hex_bytes(n);
        let t = ascii_chars(b);
        assert(b == seq![hex_byte(n)]);
        assert(t[0] == hex_byte(n) as char);
        assert(t.drop_first() =~= Seq::<char>::empty());
        assert(hex_fold(Seq::<char>::empty(), n) == n);
        assert(hex_fold(t, 0) == hex_fold(t.drop_first(), 0 * 16 + n));
        assert forall|i: int| 0 <= i < b.len() implies 48 <= #[trigger] b[i] && b[i] != 59 by {
            assert(i == 0);
        }
        assert forall|i: int| 0 <= i < t.len() implies hex_digit(#[trigger] t[i]) is Some by {
            assert(i == 0);
        }
        assert forall|i: int| 0 <= i < t.len() implies !crate::text::is_ws(#[trigger] t[i]) && t[i] != ';' by {
            assert(i == 0);
        }
    } else {
        lemma_hex_text(n / 16);
        lemma_hex_byte(n % 16);
        let b0 = hex_bytes(n / 16);
        let b = hex_bytes(n);
        assert(b == b0.push(hex_byte(n % 16)));
        let t0 = ascii_chars(b0);
        let t = ascii_chars(b);
        assert(t =~= t0.push(hex_byte(n % 16) as char));
        assert forall|i: int| 0 <= i < b.len() implies 48 <= #[trigger] b[i] && b[i] != 59 by {
            if i < b0.len() { assert(b[i] == b0[i]); }
        }
        assert forall|i: int| 0 <= i < t.len() implies hex_digit(#[trigger] t[i]) is Some by {
            if i < t0.len() { assert(t[i] == t0[i]); }
        }
        assert forall|i: int| 0 <= i < t.len() implies !crate::text::is_ws(#[trigger] t[i]) && t[i] != ';' by {
            if i < t0.len() { assert(t[i] == t0[i]); }
        }
        lemma_hex_fold_push(t0, hex_byte(n % 16) as char, 0);
        assert(n == (n / 16) * 16 + n % 16);
        assert(hex_fold(t, 0) == (n / 16) * 16 + n % 16);
    }
}

/// A size line of hexadecimal digits reads as its value.
proof fn lemma_size_line(n: nat)
    requires
        n <= usize::MAX,
    ensures
        parse_hex(trim(crate::platforms::images::before_semicolon(line_text(hex_bytes(n))))) == Ok::<usize, Seq<char>>(n as usize),
{
    lemma_hex_text(n);
    let t = ascii_chars(hex_bytes(n));
    assert(line_text(hex_bytes(n)) == t);
    crate::text::lemma_find_char_at(t, ';', t.len() as int);
    assert(crate::platforms::images::before_semicolon(t) == t);
    crate::text::lemma_trim_start_at(t, 0);
    assert(t.skip(0) =~= t);
    crate::text::lemma_trim_end_at(t, t.len() as int);
    assert(t.take(t.len() as int) =~= t);
    assert(trim(t) == t);
    assert(hex_digit(t[0]) is Some);
    assert(t[0] != '+' && t[0] != '-');
    lemma_scan_hex(t, 0);
}

/// Reading a body made by `chunked_encoding` from `off` gives the chunks
/// joined, ending just before the final "\r\n".
pub proof fn lemma_walk_encoding(raw: Seq<u8>, off: int, chunks: Seq<Seq<u8>>, out: Seq<u8>)
    requires
        0 <= off <= raw.len(),
        raw.len() <= usize::MAX,
        raw.subrange(off, raw.len() as int) == chunked_encoding(chunks),
        forall|i: int| 0 <= i < chunks.len() ==> (#[trigger] chunks[i]).len() > 0,
    ensures
        chunk_walk(raw, off, out) == ChunkWalk::Done(out + joined_chunks(chunks), raw.len() - 2),
    decreases chunks.len(),
{
    let rest = raw.subrange(off, raw.len() as int);
    if chunks.len() == 0 {
        assert(rest[0] == 48u8 && rest[1] == 13u8 && rest[2] == 10u8);
        lemma_find_crlf_at(rest, 1);
        assert(raw.subrange(off, off + 1) =~= hex_bytes(0));
        lemma_size_line(0);
        assert(out + joined_chunks(chunks) =~= out);
    } else {
        let c = chunks[0];
        let h = hex_bytes(c.len());
        lemma_hex_text(c.len());
        let hl = h.len() as int;
        assert(rest =~= h + seq![13u8, 10u8] + c + seq![13u8, 10u8] + chunked_encoding(chunks.drop_first()));
        assert forall|j: int| 0 <= j < hl && j + 2 <= rest.len() implies !(rest[j] == 13 && #[trigger] rest[j + 1] == 10) by {
            assert(rest[j] == h[j]);
        }
        assert(rest[hl] == 13u8 && rest[hl + 1] == 10u8);
        lemma_find_crlf_at(rest, hl);
        assert(raw.subrange(off, off + hl) =~= h);
        lemma_size_line(c.len());
        let o2 = off + hl + 2;
        let e = chunked_encoding(chunks.drop_first());
        let l = c.len() as int;
        assert(o2 + l <= raw.len());
        assert forall|i: int| 0 <= i < l implies #[trigger] raw.subrange(o2, o2 + l)[i] == c[i] by {
            assert(rest[hl + 2 + i] == raw[o2 + i]);
            assert(rest[hl + 2 + i] == c[i]);
        }
        assert(raw.subrange(o2, o2 + l) =~= c);
        let next = o2 + l + 2;
        assert(rest.len() == hl + 2 + l + 2 + e.len());
        assert forall|i: int| 0 <= i < e.len() implies #[trigger] raw.subrange(next, raw.len() as int)[i] == e[i] by {
            assert(rest[hl + 2 + l + 2 + i] == raw[next + i]);
            assert(rest[hl + 2 + l + 2 + i] == e[i]);
        }
        assert(raw.subrange(next, raw.len() as int) =~= e);
        assert forall|i: int| 0 <= i < chunks.drop_first().len() implies (#[trigger] chunks.drop_first()[i]).len() > 0 by {
            assert(chunks.drop_first()[i] == chunks[i + 1]);
        }
        lemma_walk_encoding(raw, next, chunks.drop_first(), out + c);
        assert(out + c + joined_chunks(chunks.drop_first()) =~= out + joined_chunks(chunks));
    }
}

/// The chunk sizes never take an offset past `usize::MAX`.
pub open spec fn chunks_in_range(raw: Seq<u8>) -> bool {
    !(chunk_walk(raw, 0, seq![]) is Overflow)
}

/// The terminating chunk and the "\r\n" after it
/// are all there.
pub open spec fn chunked_complete_spec(raw: Seq<u8>) -> bool {
    match chunk_walk(raw, 0, seq![]) {
        ChunkWalk::Done(_, o) => raw.len() >= o + 2,
        _ => false,
    }
}

/// The body a chunked response carries: its chunks joined, or why it
/// cannot be read.
pub open spec fn chunked_decode_spec(raw: Seq<u8>) -> Result<Seq<u8>, Seq<char>> {
    match chunk_walk(raw, 0, seq![]) {
        ChunkWalk::Done(out, _) => Ok(out),
        ChunkWalk::BadSize(e) => Err("浏览器 chunked 响应长度无效: "@ + e),
        ChunkWalk::Short => Err("浏览器 chunked 响应内容不完整"@),
        _ => Err("浏览器 chunked 响应长度格式无效"@),
    }
}

/// One size line read at `offset`: its length to "\r\n" and the parsed size.
fn read_size_line(raw: &[u8], offset: usize) -> (r: Option<(usize, Result<usize, String>)>)
    requires
        offset <= raw@.len(),
    ensures
        match r {
            None => find_crlf(raw@.subrange(offset as int, raw@.len() as int)) is None,
            Some((le, parsed)) => find_crlf(raw@.subrange(offset as int, raw@.len() as int)) == Some(le as int)
                && offset + le + 2 <= raw@.len()
                && crate::strs::result_view_usize(parsed) == parse_hex(trim(crate::platforms::images::before_semicolon(
                    line_text(raw@.subrange(offset as int, offset + le))))),
        },
{
    let ghost rest = raw@.subrange(offset as int, raw@.len() as int);
    let mut j: usize = offset;
    while raw.len() - j > 1 && !(raw[j] == 13 && raw[j + 1] == 10)
        invariant
            offset <= j,
            j <= raw@.len(),
            rest == raw@.subrange(offset as int, raw@.len() as int),
            forall|k: int| 0 <= k < j - offset && k + 2 <= rest.len() ==> !(rest[k] == 13 && #[trigger] rest[k + 1] == 10),
        decreases raw@.len() - j,
    {
        proof {
            assert(rest[j - offset] == raw@[j as int]);
            assert(rest[j - offset + 1] == raw@[j + 1]);
        }
        j += 1;
    }
    if raw.len() - j <= 1 {
        proof { lemma_find_crlf_at(rest, j - offset); }
        return None;
    }
    proof {
        assert(rest[j - offset] == raw@[j as int]);
        assert(rest[j - offset + 1] == raw@[j + 1]);
        lemma_find_crlf_at(rest, j - offset);
    }
    let le = j - offset;
    let line = line_string(slice_range(raw, offset, j));
    let lv = chars_of(line.as_str());
    proof { lemma_find_char(lv@, ';'); }
    let head = match find_char_exec(&lv, ';') {
        Some(k) => string_from_range(&lv, 0, k),
        None => string_from_range(&lv, 0, lv.len()),
    };
    proof {
        assert(lv@.subrange(0, lv@.len() as int) =~= lv@);
        assert(forall|k: int| 0 <= k <= lv@.len() ==> #[trigger] lv@.subrange(0, k) =~= lv@.take(k));
    }
    let text = trim_str(head.as_str());
    Some((le, parse_hex_str(text.as_str())))
}

/// The bytes `raw[lo..hi]`.
fn slice_range(raw: &[u8], lo: usize, hi: usize) -> (r: &[u8])
    requires
        lo <= hi <= raw@.len(),
    ensures
        r@ == raw@.subrange(lo as int, hi as int),
{
    let (_, tail) = raw.split_at(lo);
    let (mid, _) = tail.split_at(hi - lo);
    assert(mid@ =~= raw@.subrange(lo as int, hi as int));
    mid
}

/// Whether a chunked body has been read to its end.
pub fn chunked_body_complete(raw: &[u8]) -> (r: bool)
    ensures
        r == chunked_complete_spec(raw@),
{
    let mut offset: usize = 0;
    let ghost mut out: Seq<u8> = seq![];
    loop
        invariant
            offset <= raw@.len(),
            chunk_walk(raw@, 0, seq![]) == chunk_walk(raw@, offset as int, out),
        decreases raw@.len() - offset,
    {
        match read_size_line(raw, offset) {
            None => return false,
            Some((le, parsed)) => {
                let total = raw.len();
                assert(offset + le + 2 <= total);
                let size = match parsed {
                    Ok(size) => size,
                    Err(_) => return false,
                };
                let o2 = offset + le + 2;
                if size == 0 {
                    return raw.len() - o2 >= 2;
                }
                if o2 > usize::MAX - 2 || size > usize::MAX - 2 - o2 {
                    return false;
                }
                if raw.len() < o2 + size + 2 {
                    return false;
                }
                proof { out = out + raw@.subrange(o2 as int, o2 + size); }
                offset = o2 + size + 2;
            },
        }
    }
}

/// The body of a chunked response, or why it cannot be read.
pub fn decode_chunked_body(raw: &[u8]) -> (r: Result<Vec<u8>, String>)
    ensures
        match r {
            Ok(body) => chunked_decode_spec(raw@) == Ok::<Seq<u8>, Seq<char>>(body@),
            Err(e) => chunked_decode_spec(raw@) == Err::<Seq<u8>, Seq<char>>(e@),
        },
{
    let mut output: Vec<u8> = Vec::new();
    let mut offset: usize = 0;
    loop
        invariant
            offset <= raw@.len(),
            chunk_walk(raw@, 0, seq![]) == chunk_walk(raw@, offset as int, output@),
        decreases raw@.len() - offset,
    {
        match read_size_line(raw, offset) {
            None => return Err(owned("浏览器 chunked 响应长度格式无效")),
            Some((le, parsed)) => {
                let total = raw.len();
                assert(offset + le + 2 <= total);
                let size = match parsed {
                    Ok(size) => size,
                    Err(e) => {
                        let mut m = owned("浏览器 chunked 响应长度无效: ");
                        crate::text::push_str(&mut m, e.as_str());
                        return Err(m);
                    },
                };
                let o2 = offset + le + 2;
                if size == 0 {
                    return Ok(output);
                }
                if o2 > usize::MAX - 2 || size > usize::MAX - 2 - o2 {
                    return Err(owned("浏览器 chunked 响应长度格式无效"));
                }
                if raw.len() < o2 + size + 2 {
                    return Err(owned("浏览器 chunked 响应内容不完整"));
                }
                let ghost before = output@;
                let mut k: usize = o2;
                let end = o2 + size;
                while k < end
                    invariant
                        o2 <= k <= end,
                        end == o2 + size,
                        end <= raw@.len(),
                        output@ == before + raw@.subrange(o2 as int, k as int),
                    decreases end - k,
                {
                    output.push(raw[k]);
                    assert(before + raw@.subrange(o2 as int, k + 1) =~= (before + raw@.subrange(o2 as int, k as int)).push(raw@[k as int]));
                    k += 1;
                }
                offset = o2 + size + 2;
            },
        }
    }
}

/// Query keys whose values are secrets (compared ignoring ASCII case).
pub open spec fn sensitive_keys() -> Seq<Seq<char>> {
    seq!["authToken"@, "token"@, "access_token"@, "refresh_token"@, "passToken"@, "captchaToken"@]
}

pub open spec fn is_sensitive(key: Seq<char>) -> bool {
    exists|i: int| 0 <= i < sensitive_keys().len() && lower(key) == lower(#[trigger] sensitive_keys()[i])
}

pub open spec fn masked_pairs(ps: Seq<(Seq<char>, Seq<char>)>) -> Seq<(Seq<char>, Seq<char>)> {
    ps.map_values(|p: (Seq<char>, Seq<char>)| if is_sensitive(p.0) { (p.0, "***"@) } else { p })
}

/// A URL with its secret query values
/// replaced by "***"; a text that is not a URL as it is.
pub open spec fn sanitized_spec(raw: Seq<char>) -> Seq<char> {
    match url_query_pairs(raw) {
        None => raw,
        Some(ps) => if ps.len() == 0 { url_cleared_query(raw) } else { url_replaced_query(raw, masked_pairs(ps)) },
    }
}

/// A URL fit for a log: the values of token parameters masked.
pub fn sanitize_sensitive_url_for_log(raw: &str) -> (r: String)
    ensures
        r@ == sanitized_spec(raw@),
{
    let pairs = match query_pairs(raw) {
        Some(p) => p,
        None => return owned(raw),
    };
    if pairs.len() == 0 {
        return clear_query(raw);
    }
    let keys: [&str; 6] = ["authToken", "token", "access_token", "refresh_token", "passToken", "captchaToken"];
    assert(crate::strs::strs_view(keys@) =~= sensitive_keys());
    let mut masked: Vec<(String, String)> = Vec::new();
    let mut i: usize = 0;
    while i < pairs.len()
        invariant
            i <= pairs@.len(),
            crate::strs::strs_view(keys@) == sensitive_keys(),
            pairs_view(masked@) == masked_pairs(pairs_view(pairs@).take(i as int)),
        decreases pairs@.len() - i,
    {
        let (k, v) = (&pairs[i].0, &pairs[i].1);
        let mut sensitive = false;
        let mut j: usize = 0;
        while j < 6
            invariant
                j <= 6,
                keys@.len() == 6,
                crate::strs::strs_view(keys@) == sensitive_keys(),
                !sensitive ==> forall|m: int| 0 <= m < j ==> lower(k@) != lower(#[trigger] sensitive_keys()[m]),
                sensitive ==> is_sensitive(k@),
            decreases 6 - j,
        {
            assert(sensitive_keys()[j as int] == keys@[j as int]@);
            if eq_ignore_case(k.as_str(), keys[j]) {
                sensitive = true;
            }
            j += 1;
        }
        let entry = if sensitive { (k.clone(), owned("***")) } else { (k.clone(), v.clone()) };
        let ghost before = masked@;
        masked.push(entry);
        proof {
            assert(pairs_view(pairs@).take(i + 1) =~= pairs_view(pairs@).take(i as int).push(pairs_view(pairs@)[i as int]));
            assert(pairs_view(masked@) =~= pairs_view(before).push((entry.0@, entry.1@)));
        }
        i += 1;
    }
    assert(pairs_view(pairs@).take(pairs@.len() as int) =~= pairs_view(pairs@));
    replace_query(raw, &masked)
}

/// A cookie as the browser's DevTools `Network.setCookie` takes it. Its
/// expiry is the number the saved cookie gives, which the caller turns into
/// seconds.
#[derive(Debug)]
pub struct CdpCookie {
    pub url: String,
    pub name: String,
    pub value: String,
    pub domain: String,
    pub path: String,
    pub secure: bool,
    pub http_only: bool,
    pub expires: Option<JsonNumber>,
}

pub struct CdpCookieView {
    pub url: Seq<char>,
    pub name: Seq<char>,
    pub value: Seq<char>,
    pub domain: Seq<char>,
    pub path: Seq<char>,
    pub secure: bool,
    pub http_only: bool,
    pub expires: Option<NumberView>,
}

impl View for CdpCookie {
    type V = CdpCookieView;

    open spec fn view(&self) -> CdpCookieView {
        CdpCookieView {
            url: self.url@,
            name: self.name@,
            value: self.value@,
            domain: self.domain@,
            path: self.path@,
            secure: self.secure,
            http_only: self.http_only,
            expires: match self.expires { Some(n) => Some(number_view(n)), None => None },
        }
    }
}

pub open spec fn cdp_cookies_view(v: Seq<CdpCookie>) -> Seq<CdpCookieView> {
    v.map_values(|c: CdpCookie| c@)
}

pub open spec fn str_at(c: JsonValue, key: Seq<char>) -> Option<Seq<char>> {
    match jget(c, key) {
        Some(x) => jstr(x),
        None => None,
    }
}

pub open spec fn bool_at(c: JsonValue, key: Seq<char>) -> Option<bool> {
    match jget(c, key) {
        Some(x) => jbool(x),
        None => None,
    }
}

pub open spec fn number_at(c: JsonValue, key: Seq<char>) -> Option<NumberView> {
    match jget(c, key) {
        Some(JsonValue::Number(n)) => Some(number_view(n)),
        _ => None,
    }
}

/// A cookie's expiry number: the first of "expires", "expirationDate" and "expiry"
/// that holds a number.
pub open spec fn cookie_expires(c: JsonValue) -> Option<NumberView> {
    match number_at(c, "expires"@) {
        Some(n) => Some(n),
        None => match number_at(c, "expirationDate"@) {
            Some(n) => Some(n),
            None => number_at(c, "expiry"@),
        },
    }
}

/// One cookie of a saved JSON list, if it has a name and value and a
/// domain the platform allows (or none, which gets the platform's).
pub open spec fn json_cdp_cookie(c: JsonValue, p: PlatformView) -> Option<CdpCookieView> {
    match (str_at(c, "name"@), str_at(c, "value"@)) {
        (Some(name), Some(value)) => {
            let raw = match str_at(c, "domain"@) { Some(d) => d, None => Seq::empty() };
            if trim(name).len() == 0 || (trim(raw).len() > 0 && !allows_domain_spec(p, raw)) {
                None
            } else {
                Some(CdpCookieView {
                    url: p.creator_home_url,
                    name: name,
                    value: value,
                    domain: if trim(raw).len() == 0 { p.default_cookie_domain } else { raw },
                    path: match str_at(c, "path"@) { Some(x) => x, None => "/"@ },
                    secure: match bool_at(c, "secure"@) { Some(b) => b, None => true },
                    http_only: match (match jget(c, "httpOnly"@) { Some(x) => jbool(x), None => bool_at(c, "http_only"@) }) {
                        Some(b) => b,
                        None => false,
                    },
                    expires: cookie_expires(c),
                })
            }
        },
        _ => None,
    }
}

pub open spec fn json_cdp_cookies(cs: Seq<JsonValue>, p: PlatformView) -> Seq<CdpCookieView>
    decreases cs.len(),
{
    if cs.len() == 0 {
        seq![]
    } else {
        let rest = json_cdp_cookies(cs.drop_last(), p);
        match json_cdp_cookie(cs.last(), p) {
            Some(x) => rest.push(x),
            None => rest,
        }
    }
}

/// One "name=value" piece of a cookie header, trimmed, if its name is not
/// blank.
pub open spec fn pair_cdp_cookie(part: Seq<char>, p: PlatformView) -> Option<CdpCookieView> {
    match split_once(trim(part), '=') {
        Some(nv) => if trim(nv.0).len() == 0 {
            None
        } else {
            Some(CdpCookieView {
                url: p.creator_home_url,
                name: trim(nv.0),
                value: trim(nv.1),
                domain: p.default_cookie_domain,
                path: "/"@,
                secure: true,
                http_only: false,
                expires: None,
            })
        },
        None => None,
    }
}

pub open spec fn pair_cdp_cookies(parts: Seq<Seq<char>>, p: PlatformView) -> Seq<CdpCookieView>
    decreases parts.len(),
{
    if parts.len() == 0 {
        seq![]
    } else {
        let rest = pair_cdp_cookies(parts.drop_last(), p);
        match pair_cdp_cookie(parts.last(), p) {
            Some(x) => rest.push(x),
            None => rest,
        }
    }
}

pub open spec fn decoded_view(d: Result<&JsonValue, String>) -> Result<JsonValue, Seq<char>> {
    match d {
        Ok(v) => Ok(*v),
        Err(e) => Err(e@),
    }
}

/// Nothing for an unknown platform or a blank
/// cookie; a JSON list (the trimmed text starts with '[') gives its usable
/// cookies, or the decoder's error; a header gives its pairs.
pub open spec fn cdp_cookies_spec(platform_id: Seq<char>, login_cookie: Seq<char>, decoded: Result<JsonValue, Seq<char>>) -> Result<Seq<CdpCookieView>, Seq<char>> {
    match platform_view(platform_id) {
        None => Ok(seq![]),
        Some(p) => {
            let t = trim(login_cookie);
            if t.len() == 0 {
                Ok(seq![])
            } else if starts_with(t, "["@) {
                match decoded {
                    Err(e) => Err("登录态 Cookie 格式无效: "@ + e),
                    Ok(JsonValue::Array(cs)) => Ok(json_cdp_cookies(cs@, p)),
                    Ok(_) => Ok(seq![]),
                }
            } else {
                Ok(pair_cdp_cookies(split(t, ';'), p))
            }
        },
    }
}

pub open spec fn cdp_result_view(r: Result<Vec<CdpCookie>, String>) -> Result<Seq<CdpCookieView>, Seq<char>> {
    match r {
        Ok(v) => Ok(cdp_cookies_view(v@)),
        Err(e) => Err(e@),
    }
}

fn str_at_exec(c: &JsonValue, key: &str) -> (r: Option<String>)
    ensures
        crate::strs::opt_string_view(r) == str_at(*c, key@),
{
    match c.get(key) {
        Some(x) => match x.as_str() {
            Some(t) => Some(owned(t)),
            None => None,
        },
        None => None,
    }
}

fn bool_at_exec(c: &JsonValue, key: &str) -> (r: Option<bool>)
    ensures
        r == bool_at(*c, key@),
{
    match c.get(key) {
        Some(x) => x.as_bool(),
        None => None,
    }
}

fn number_at_exec(c: &JsonValue, key: &str) -> (r: Option<JsonNumber>)
    ensures
        match r { Some(n) => Some(number_view(n)), None => None } == number_at(*c, key@),
{
    match c.get(key) {
        Some(JsonValue::Number(n)) => Some(copy_number(n)),
        _ => None,
    }
}

fn json_cdp_cookie_exec(c: &JsonValue, p: &crate::platforms::ChannelPlatform) -> (r: Option<CdpCookie>)
    ensures
        match r { Some(x) => Some(x@), None => None } == json_cdp_cookie(*c, p@),
{
    let name = match str_at_exec(c, "name") { Some(x) => x, None => return None };
    let value = match str_at_exec(c, "value") { Some(x) => x, None => return None };
    let raw = match str_at_exec(c, "domain") { Some(d) => d, None => String::new() };
    if crate::text::is_blank(name.as_str()) {
        return None;
    }
    let raw_blank = crate::text::is_blank(raw.as_str());
    if !raw_blank && !p.allows_cookie_domain(raw.as_str()) {
        return None;
    }
    let domain = if raw_blank { owned(p.default_cookie_domain) } else { raw };
    let path = match str_at_exec(c, "path") { Some(x) => x, None => owned("/") };
    let secure = match bool_at_exec(c, "secure") { Some(b) => b, None => true };
    let http = match c.get("httpOnly") {
        Some(x) => x.as_bool(),
        None => bool_at_exec(c, "http_only"),
    };
    let http_only = match http { Some(b) => b, None => false };
    let expires = match number_at_exec(c, "expires") {
        Some(n) => Some(n),
        None => match number_at_exec(c, "expirationDate") {
            Some(n) => Some(n),
            None => number_at_exec(c, "expiry"),
        },
    };
    Some(CdpCookie { url: owned(p.creator_home_url), name, value, domain, path, secure, http_only, expires })
}

/// The cookies to write into the managed browser for a saved login cookie.
/// `decoded` is the trimmed login cookie decoded as JSON, or the decoder's
/// error message; it is read only when the text starts with '['.
pub fn login_cookie_to_cdp_cookies(platform_id: &str, login_cookie: &str, decoded: Result<&JsonValue, String>) -> (r: Result<Vec<CdpCookie>, String>)
    ensures
        cdp_result_view(r) == cdp_cookies_spec(platform_id@, login_cookie@, decoded_view(decoded)),
{
    let p = match platform(platform_id) {
        Some(p) => p,
        None => {
            let out: Vec<CdpCookie> = Vec::new();
            assert(cdp_cookies_view(out@) =~= seq![]);
            return Ok(out);
        },
    };
    let t = trim_str(login_cookie);
    if crate::text::is_blank(t.as_str()) {
        proof { crate::text::lemma_trim_idempotent(login_cookie@); }
        let out: Vec<CdpCookie> = Vec::new();
        assert(cdp_cookies_view(out@) =~= seq![]);
        return Ok(out);
    }
    proof { crate::text::lemma_trim_idempotent(login_cookie@); }
    let mut out: Vec<CdpCookie> = Vec::new();
    if crate::text::str_starts_with(t.as_str(), "[") {
        match decoded {
            Err(e) => return Err(concat_str("登录态 Cookie 格式无效: ", e.as_str())),
            Ok(JsonValue::Array(cs)) => {
                let mut i: usize = 0;
                while i < cs.len()
                    invariant
                        i <= cs@.len(),
                        cdp_cookies_view(out@) == json_cdp_cookies(cs@.take(i as int), p@),
                    decreases cs@.len() - i,
                {
                    assert(cs@.take(i + 1).drop_last() =~= cs@.take(i as int));
                    assert(cs@.take(i + 1).last() == cs@[i as int]);
                    match json_cdp_cookie_exec(&cs[i], &p) {
                        Some(x) => {
                            let ghost before = out@;
                            out.push(x);
                            assert(cdp_cookies_view(out@) =~= cdp_cookies_view(before).push(x@));
                        },
                        None => {},
                    }
                    i += 1;
                }
                assert(cs@.take(cs@.len() as int) =~= cs@);
                return Ok(out);
            },
            Ok(_) => {
                assert(cdp_cookies_view(out@) =~= seq![]);
                return Ok(out);
            },
        }
    }
    let parts = split_str(t.as_str(), ';');
    let ghost pv = parts@.map_values(|x: String| x@);
    let mut i: usize = 0;
    while i < parts.len()
        invariant
            i <= parts@.len(),
            pv == parts@.map_values(|x: String| x@),
            cdp_cookies_view(out@) == pair_cdp_cookies(pv.take(i as int), p@),
        decreases parts@.len() - i,
    {
        assert(pv.take(i + 1).drop_last() =~= pv.take(i as int));
        assert(pv.take(i + 1).last() == parts@[i as int]@);
        let part = trim_str(parts[i].as_str());
        match split_once_str(part.as_str(), '=') {
            Some((n, v)) => {
                if !crate::text::is_blank(n.as_str()) {
                    let x = CdpCookie {
                        url: owned(p.creator_home_url),
                        name: trim_str(n.as_str()),
                        value: trim_str(v.as_str()),
                        domain: owned(p.default_cookie_domain),
                        path: owned("/"),
                        secure: true,
                        http_only: false,
                        expires: None,
                    };
                    let ghost before = out@;
                    out.push(x);
                    assert(cdp_cookies_view(out@) =~= cdp_cookies_view(before).push(x@));
                }
            },
            None => {},
        }
        i += 1;
    }
    assert(pv.take(pv.len() as int) =~= pv);
    Ok(out)
}

/// A cookie snapshot of the browser: a cookie the browser reports is kept
/// when its name and value are non-blank text and its domain, when it is
/// text, is one the platform allows.
pub open spec fn snapshot_keeps(c: JsonValue, p: PlatformView) -> bool {
    match (str_at(c, "name"@), str_at(c, "value"@)) {
        (Some(n), Some(v)) => trim(n).len() > 0 && trim(v).len() > 0 && match str_at(c, "domain"@) {
            Some(d) => allows_domain_spec(p, d),
            None => true,
        },
        _ => false,
    }
}

pub open spec fn kept_cookies(cs: Seq<JsonValue>, p: PlatformView) -> Seq<JsonValue>
    decreases cs.len(),
{
    if cs.len() == 0 {
        seq![]
    } else {
        let rest = kept_cookies(cs.drop_last(), p);
        if snapshot_keeps(cs.last(), p) { rest.push(cs.last()) } else { rest }
    }
}

pub open spec fn reported_cookies(v: JsonValue) -> Seq<JsonValue> {
    match jget(v, "cookies"@) {
        Some(JsonValue::Array(cs)) => cs@,
        _ => seq![],
    }
}

/// What a cookie snapshot holds: nothing for an unknown platform (an error),
/// none when no cookie is kept, else the kept cookies' positions in the
/// browser's reply and their "name=value" header.
pub open spec fn snapshot_ok(r: Option<(Vec<usize>, String)>, v: JsonValue, p: PlatformView) -> bool {
    let cs = reported_cookies(v);
    let kept = kept_cookies(cs, p);
    match r {
        None => kept.len() == 0 || trim(join(cookie_pairs(kept), "; "@)).len() == 0,
        Some(x) => {
            &&& kept.len() > 0
            &&& x.1@ == join(cookie_pairs(kept), "; "@)
            &&& trim(x.1@).len() > 0
            &&& x.0@.len() == kept.len()
            &&& forall|k: int| 0 <= k < kept.len() ==> (#[trigger] x.0@[k]) < cs.len() && cs[x.0@[k] as int] == kept[k]
            &&& forall|k: int, m: int| 0 <= k < m < kept.len() ==> #[trigger] x.0@[k] < #[trigger] x.0@[m]
        },
    }
}

/// Picks, from the browser's `Network.getCookies` reply, the cookies to keep
/// for a platform and makes their header; the caller stores the cookies at
/// the positions given, serialized, as the login cookie.
pub fn browser_cookie_snapshot(platform_id: &str, reply: &JsonValue) -> (r: Result<Option<(Vec<usize>, String)>, String>)
    ensures
        match r {
            Err(e) => platform_view(platform_id@) is None && e@ == "当前平台暂不支持"@,
            Ok(x) => platform_view(platform_id@) matches Some(p) && snapshot_ok(x, *reply, p),
        },
{
    let p = match platform(platform_id) {
        Some(p) => p,
        None => return Err(owned("当前平台暂不支持")),
    };
    let empty: Vec<JsonValue> = Vec::new();
    let cs: &Vec<JsonValue> = match reply.get("cookies") {
        Some(JsonValue::Array(cs)) => cs,
        _ => &empty,
    };
    assert(cs@ == reported_cookies(*reply));
    let mut kept: Vec<usize> = Vec::new();
    let mut header = String::new();
    let ghost mut parts: Seq<Seq<char>> = seq![];
    let mut i: usize = 0;
    while i < cs.len()
        invariant
            i <= cs@.len(),
            parts == cookie_pairs(kept_cookies(cs@.take(i as int), p@)),
            parts.len() == kept@.len(),
            kept@.len() == kept_cookies(cs@.take(i as int), p@).len(),
            header@ == join(parts, "; "@),
            forall|k: int| 0 <= k < kept@.len() ==> (#[trigger] kept@[k]) < i && cs@[kept@[k] as int] == kept_cookies(cs@.take(i as int), p@)[k],
            forall|k: int, m: int| 0 <= k < m < kept@.len() ==> #[trigger] kept@[k] < #[trigger] kept@[m],
        decreases cs@.len() - i,
    {
        let c = &cs[i];
        assert(cs@.take(i + 1).drop_last() =~= cs@.take(i as int));
        assert(cs@.take(i + 1).last() == cs@[i as int]);
        let name = str_at_exec(c, "name");
        let value = str_at_exec(c, "value");
        let domain_ok = match str_at_exec(c, "domain") {
            Some(d) => p.allows_cookie_domain(d.as_str()),
            None => true,
        };
        match (name, value) {
            (Some(n), Some(v)) => {
                if !crate::text::is_blank(n.as_str()) && !crate::text::is_blank(v.as_str()) && domain_ok {
                    let ghost before = kept_cookies(cs@.take(i as int), p@);
                    proof {
                        assert(kept_cookies(cs@.take(i + 1), p@) == before.push(cs@[i as int]));
                        assert(kept_cookies(cs@.take(i + 1), p@).drop_last() =~= before);
                    }
                    if kept.len() > 0 {
                        push_str(&mut header, "; ");
                    }
                    push_str(&mut header, n.as_str());
                    push_str(&mut header, "=");
                    push_str(&mut header, v.as_str());
                    let ghost old_parts = parts;
                    proof {
                        parts = parts.push(n@ + "="@ + v@);
                        if old_parts.len() > 0 {
                            assert(parts.drop_last() =~= old_parts);
                        } else {
                            assert(join(parts, "; "@) == parts[0]);
                        }
                    }
                    assert(header@ =~= join(parts, "; "@));
                    kept.push(i);
                }
            },
            _ => {},
        }
        i += 1;
    }
    assert(cs@.take(cs@.len() as int) =~= cs@);
    if kept.len() == 0 || crate::text::is_blank(header.as_str()) {
        return Ok(None);
    }
    Ok(Some((kept, header)))
}

/// `n` as `k` bytes, most significant first.
pub open spec fn be_bytes(n: nat, k: nat) -> Seq<u8>
    decreases k,
{
    if k == 0 {
        seq![]
    } else {
        be_bytes(n / 256, (k - 1) as nat).push((n % 256) as u8)
    }
}

fn push_be(out: &mut Vec<u8>, n: u64, k: usize)
    requires
        k <= 8,
    ensures
        final(out)@ == old(out)@ + be_bytes(n as nat, k as nat),
    decreases k,
{
    if k > 0 {
        push_be(out, n / 256, k - 1);
        let ghost before = out@;
        out.push((n % 256) as u8);
        assert(out@ =~= old(out)@ + be_bytes(n as nat, k as nat));
    } else {
        assert(out@ =~= old(out)@ + be_bytes(n as nat, 0));
    }
}

/// A payload with each byte XOR-ed with the mask byte at its position
/// modulo four.
pub open spec fn ws_masked(payload: Seq<u8>, mask: Seq<u8>) -> Seq<u8> {
    Seq::new(payload.len(), |i: int| payload[i] ^ mask[i % 4])
}

/// The length field of a masked client frame: the length with the mask
/// bit where it is at most 125, else 126 and two bytes, else 127 and eight
/// bytes, each with the mask bit.
pub open spec fn ws_len_field(len: nat) -> Seq<u8> {
    if len <= 125 {
        seq![(0x80 + len) as u8]
    } else if len <= 65535 {
        seq![0xfeu8] + be_bytes(len, 2)
    } else {
        seq![0xffu8] + be_bytes(len, 8)
    }
}

/// A final WebSocket frame a client sends: the opcode with the final bit,
/// the length field, the mask, and the masked payload.
pub open spec fn ws_frame_spec(opcode: u8, payload: Seq<u8>, mask: Seq<u8>) -> Seq<u8> {
    seq![(0x80 + opcode) as u8] + ws_len_field(payload.len()) + mask + ws_masked(payload, mask)
}

/// The payload XOR-ed with the mask, as a frame masks or unmasks it.
pub fn websocket_unmask(payload: &[u8], mask: [u8; 4]) -> (r: Vec<u8>)
    ensures
        r@ == ws_masked(payload@, mask@),
{
    let mut out: Vec<u8> = Vec::new();
    let mut i: usize = 0;
    while i < payload.len()
        invariant
            i <= payload@.len(),
            out@ == ws_masked(payload@, mask@).take(i as int),
        decreases payload@.len() - i,
    {
        out.push(payload[i] ^ mask[i % 4]);
        assert(out@ =~= ws_masked(payload@, mask@).take(i + 1));
        i += 1;
    }
    assert(ws_masked(payload@, mask@).take(payload@.len() as int) =~= ws_masked(payload@, mask@));
    out
}

/// The frame that sends `payload` with `opcode` from a client.
pub fn websocket_client_frame(opcode: u8, payload: &[u8], mask: [u8; 4]) -> (r: Vec<u8>)
    requires
        opcode < 16,
    ensures
        r@ == ws_frame_spec(opcode, payload@, mask@),
{
    let mut frame: Vec<u8> = Vec::new();
    frame.push(0x80 + opcode);
    let len = payload.len();
    if len <= 125 {
        frame.push(0x80 + len as u8);
    } else if len <= 65535 {
        frame.push(0xfe);
        push_be(&mut frame, len as u64, 2);
    } else {
        frame.push(0xff);
        push_be(&mut frame, len as u64, 8);
    }
    assert(frame@ =~= seq![(0x80 + opcode) as u8] + ws_len_field(payload@.len()));
    let ghost head = frame@;
    frame.push(mask[0]);
    frame.push(mask[1]);
    frame.push(mask[2]);
    frame.push(mask[3]);
    assert(frame@ =~= head + mask@);
    let masked = websocket_unmask(payload, mask);
    let mut i: usize = 0;
    let ghost with_mask = frame@;
    while i < masked.len()
        invariant
            i <= masked@.len(),
            frame@ == with_mask + masked@.take(i as int),
        decreases masked@.len() - i,
    {
        frame.push(masked[i]);
        assert(frame@ =~= with_mask + masked@.take(i + 1));
        i += 1;
    }
    assert(masked@.take(masked@.len() as int) =~= masked@);
    frame
}

} // verus!


