//! Image addresses found in platform responses: where they are looked up,
//! how they are normalized, and which image type a downloaded body has.

use vstd::prelude::*;
use base64::Engine;
use crate::json::{JsonValue, opt_ref};
use crate::json_ext::{first_string, first_string_spec, opt_string_view};
use crate::platforms::{normalize_platform_id, normalized_id, platform, platform_view};
use crate::strs::{owned, opt_str_view};
use crate::text::{
    chars_of, concat_str, find_char_exec, find_char, lower, lower_str, starts_with, str_eq,
    str_starts_with, string_from_range, trim, trim_start, trim_str, is_ws_char, lemma_find_char,
    is_blank, strip_leading, strip_leading_str, trim_start_str,
};
use crate::weburl::{url_parse_host, url_parses};

verus! {

/// The object fields that hold the address of an image, in the order tried.
pub open spec fn image_fields() -> Seq<&'static str> {
    seq!["url", "src", "link", "origin", "original", "large", "medium", "small", "value"]
}

/// The first image address held by a value.
pub open spec fn image_string(v: JsonValue, keys: Seq<&str>) -> Option<Seq<char>>
    decreases v, 2int,
{
    match v {
        JsonValue::String(s) => Some(s@),
        JsonValue::Array(items) => image_string_items(items@, keys),
        JsonValue::Object(es) => match first_string_spec(v, image_fields()) {
            Some(s) => Some(s),
            None => image_string_keys(es@, keys, keys),
        },
        _ => None,
    }
}

pub open spec fn image_string_items(s: Seq<JsonValue>, keys: Seq<&str>) -> Option<Seq<char>>
    decreases s, 0int,
{
    if s.len() == 0 {
        None
    } else {
        match image_string(s[0], keys) {
            Some(x) => Some(x),
            None => image_string_items(s.drop_first(), keys),
        }
    }
}

/// The first of `ks` whose member in `es` holds an image address.
pub open spec fn image_string_keys(es: Seq<(String, JsonValue)>, ks: Seq<&str>, keys: Seq<&str>) -> Option<Seq<char>>
    decreases es, ks.len() + 1,
{
    if ks.len() == 0 {
        None
    } else {
        match image_at_key(es, ks[0]@, keys) {
            Some(x) => Some(x),
            None => image_string_keys(es, ks.drop_first(), keys),
        }
    }
}

pub open spec fn image_at_key(es: Seq<(String, JsonValue)>, key: Seq<char>, keys: Seq<&str>) -> Option<Seq<char>>
    decreases es, 0int,
{
    if es.len() == 0 {
        None
    } else if es[0].0@ == key {
        image_string(es[0].1, keys)
    } else {
        image_at_key(es.drop_first(), key, keys)
    }
}

/// A string under one of `keys`; else, in an array,
/// the first element that yields one; in an object, the image address under
/// the first of `keys` that holds one, then the first member that yields one.
pub open spec fn profile_image(v: JsonValue, keys: Seq<&str>) -> Option<Seq<char>>
    decreases v, 1int,
{
    match first_string_spec(v, keys) {
        Some(s) => Some(s),
        None => match v {
            JsonValue::Array(items) => profile_image_items(items@, keys),
            JsonValue::Object(es) => match image_string_keys(es@, keys, keys) {
                Some(s) => Some(s),
                None => profile_image_entries(es@, keys),
            },
            _ => None,
        },
    }
}

pub open spec fn profile_image_items(s: Seq<JsonValue>, keys: Seq<&str>) -> Option<Seq<char>>
    decreases s, 0int,
{
    if s.len() == 0 {
        None
    } else {
        match profile_image(s[0], keys) {
            Some(x) => Some(x),
            None => profile_image_items(s.drop_first(), keys),
        }
    }
}

pub open spec fn profile_image_entries(s: Seq<(String, JsonValue)>, keys: Seq<&str>) -> Option<Seq<char>>
    decreases s, 0int,
{
    if s.len() == 0 {
        None
    } else {
        match profile_image(s[0].1, keys) {
            Some(x) => Some(x),
            None => profile_image_entries(s.drop_first(), keys),
        }
    }
}

fn image_at_key_exec(es: &Vec<(String, JsonValue)>, key: &str, keys: &[&str]) -> (r: Option<String>)
    ensures
        opt_string_view(r) == image_at_key(es@, key@, keys@),
    decreases es, 0int,
{
    let mut i: usize = 0;
    assert(es@.skip(0) =~= es@);
    while i < es.len()
        invariant
            i <= es@.len(),
            image_at_key(es@, key@, keys@) == image_at_key(es@.skip(i as int), key@, keys@),
        decreases es@.len() - i,
    {
        proof {
            assert(es@.skip(i as int).drop_first() =~= es@.skip(i + 1));
            assert(es@.skip(i as int)[0] == es@[i as int]);
        }
        if str_eq(es[i].0.as_str(), key) {
            return string_from_image_value(&es[i].1, keys);
        }
        i += 1;
    }
    None
}

fn image_string_keys_exec(es: &Vec<(String, JsonValue)>, keys: &[&str]) -> (r: Option<String>)
    ensures
        opt_string_view(r) == image_string_keys(es@, keys@, keys@),
    decreases es, keys@.len() + 2,
{
    let mut i: usize = 0;
    assert(keys@.skip(0) =~= keys@);
    while i < keys.len()
        invariant
            i <= keys@.len(),
            image_string_keys(es@, keys@, keys@) == image_string_keys(es@, keys@.skip(i as int), keys@),
        decreases keys@.len() - i,
    {
        proof {
            assert(keys@.skip(i as int).drop_first() =~= keys@.skip(i + 1));
            assert(keys@.skip(i as int)[0] == keys@[i as int]);
        }
        let found = image_at_key_exec(es, keys[i], keys);
        if found.is_some() {
            return found;
        }
        i += 1;
    }
    None
}

/// The first image address held by a value: the string itself, the first
/// element that yields one, or, in an object, a string under one of the
/// image fields ("url", "src", ...) and then the address under the first of
/// `keys` that yields one.
pub fn string_from_image_value(value: &JsonValue, keys: &[&str]) -> (r: Option<String>)
    ensures
        opt_string_view(r) == image_string(*value, keys@),
    decreases value, 2int,
{
    match value {
        JsonValue::String(s) => Some(s.clone()),
        JsonValue::Array(items) => {
            let mut i: usize = 0;
            assert(items@.skip(0) =~= items@);
            while i < items.len()
                invariant
                    i <= items@.len(),
                    *value == JsonValue::Array(*items),
                    image_string_items(items@, keys@) == image_string_items(items@.skip(i as int), keys@),
                decreases items@.len() - i,
            {
                proof {
                    assert(items@.skip(i as int).drop_first() =~= items@.skip(i + 1));
                    assert(items@.skip(i as int)[0] == items@[i as int]);
                }
                let found = string_from_image_value(&items[i], keys);
                if found.is_some() {
                    return found;
                }
                i += 1;
            }
            None
        },
        JsonValue::Object(es) => {
            let fields: [&str; 9] = ["url", "src", "link", "origin", "original", "large", "medium", "small", "value"];
            assert(fields@ =~= image_fields());
            let direct = first_string(value, &fields);
            if direct.is_some() {
                return direct;
            }
            image_string_keys_exec(es, keys)
        },
        _ => None,
    }
}

/// The first profile image in `value`: a string under one of `keys`; else,
/// in an array, the first element that yields one; in an object, the image
/// address under the first of `keys` that holds one, then the first member
/// that yields one.
pub fn first_profile_image(value: &JsonValue, keys: &[&str]) -> (r: Option<String>)
    ensures
        opt_string_view(r) == profile_image(*value, keys@),
    decreases value, 1int,
{
    let direct = first_string(value, keys);
    if direct.is_some() {
        return direct;
    }
    match value {
        JsonValue::Array(items) => {
            let mut i: usize = 0;
            assert(items@.skip(0) =~= items@);
            while i < items.len()
                invariant
                    i <= items@.len(),
                    *value == JsonValue::Array(*items),
                    first_string_spec(*value, keys@) is None,
                    profile_image_items(items@, keys@) == profile_image_items(items@.skip(i as int), keys@),
                decreases items@.len() - i,
            {
                proof {
                    assert(items@.skip(i as int).drop_first() =~= items@.skip(i + 1));
                    assert(items@.skip(i as int)[0] == items@[i as int]);
                }
                let found = first_profile_image(&items[i], keys);
                if found.is_some() {
                    return found;
                }
                i += 1;
            }
            None
        },
        JsonValue::Object(es) => {
            let by_key = image_string_keys_exec(es, keys);
            if by_key.is_some() {
                return by_key;
            }
            let mut j: usize = 0;
            assert(es@.skip(0) =~= es@);
            while j < es.len()
                invariant
                    j <= es@.len(),
                    *value == JsonValue::Object(*es),
                    first_string_spec(*value, keys@) is None,
                    image_string_keys(es@, keys@, keys@) is None,
                    profile_image_entries(es@, keys@) == profile_image_entries(es@.skip(j as int), keys@),
                decreases es@.len() - j,
            {
                proof {
                    assert(es@.skip(j as int).drop_first() =~= es@.skip(j + 1));
                    assert(es@.skip(j as int)[0] == es@[j as int]);
                }
                let found = first_profile_image(&es[j].1, keys);
                if found.is_some() {
                    return found;
                }
                j += 1;
            }
            None
        },
        _ => None,
    }
}

/// The trimmed text, with "https:" put before a
/// protocol-relative address.
pub open spec fn image_url_spec(v: Seq<char>) -> Seq<char> {
    let t = trim(v);
    if starts_with(t, "//"@) { "https:"@ + t } else { t }
}

/// An image address normalized for a platform's image hosts.
pub open spec fn platform_image_url_spec(platform_id: Seq<char>, v: Seq<char>) -> Seq<char> {
    let a = image_url_spec(v);
    let p = normalized_id(platform_id);
    let b = if (p == "xiaohongshu"@ || p == "bilibili"@) && starts_with(a, "http://"@) {
        "https://"@ + a.skip(7)
    } else {
        a
    };
    if trim(b).len() == 0 || starts_with(b, "data:image"@) || url_parse_host(b) is Some {
        b
    } else if p == "xiaohongshu"@ {
        "https://img.xiaohongshu.com/"@ + strip_leading(b, '/')
    } else {
        b
    }
}

/// Trims an image address and makes a protocol-relative one use https.
pub fn normalize_image_url(value: String) -> (r: String)
    ensures
        r@ == image_url_spec(value@),
{
    let t = trim_str(value.as_str());
    if str_starts_with(t.as_str(), "//") {
        concat_str("https:", t.as_str())
    } else {
        t
    }
}

/// Normalizes an image address for a platform: https for the platforms whose
/// images are served over it, and, for Xiaohongshu, a bare path made into an
/// address on its image host.
pub fn normalize_platform_image_url(platform_id: &str, value: String) -> (r: String)
    ensures
        r@ == platform_image_url_spec(platform_id@, value@),
{
    let mut v = normalize_image_url(value);
    let p = normalize_platform_id(platform_id);
    if (str_eq(p.as_str(), "xiaohongshu") || str_eq(p.as_str(), "bilibili"))
        && str_starts_with(v.as_str(), "http://") {
        let cs = chars_of(v.as_str());
        proof {
            reveal_strlit("http://");
        }
        let rest = string_from_range(&cs, 7, cs.len());
        assert(rest@ =~= cs@.skip(7));
        v = concat_str("https://", rest.as_str());
    }
    if is_blank(v.as_str()) || str_starts_with(v.as_str(), "data:image") || url_parses(v.as_str()) {
        return v;
    }
    if str_eq(p.as_str(), "xiaohongshu") {
        let path = strip_leading_str(v.as_str(), '/');
        return concat_str("https://img.xiaohongshu.com/", path.as_str());
    }
    v
}

/// Whether an avatar at `value` is downloaded and kept inline for a platform.
pub open spec fn materialize_spec(platform_id: Seq<char>, v: Seq<char>) -> bool {
    &&& match platform_view(platform_id) {
        Some(p) => p.materialize_avatar,
        None => false,
    }
    &&& trim(v).len() > 0
    &&& !starts_with(trim_start(v), "data:image"@)
}

/// Whether the image at `value` is fetched and kept as a data URL: only for
/// platforms that need it, and only for an address that is not one already.
pub fn should_materialize_avatar(platform_id: &str, value: &str) -> (r: bool)
    ensures
        r == materialize_spec(platform_id@, value@),
{
    let wanted = match platform(platform_id) {
        Some(p) => p.materialize_avatar,
        None => false,
    };
    if !wanted || is_blank(value) {
        return false;
    }
    let t = trim_start_str(value);
    !str_starts_with(t.as_str(), "data:image")
}

/// The part of a content type before its first `;`.
pub open spec fn before_semicolon(s: Seq<char>) -> Seq<char> {
    match find_char(s, ';') {
        Some(i) => s.take(i),
        None => s,
    }
}

pub open spec fn bytes_start(b: Seq<u8>, p: Seq<u8>) -> bool {
    p.len() <= b.len() && b.take(p.len() as int) == p
}

/// The declared image type where there is one, else the
/// type its leading bytes show, JPEG by default.
pub open spec fn mime_spec(content_type: Option<Seq<char>>, bytes: Seq<u8>) -> Seq<char> {
    let declared = match content_type {
        Some(ct) => Some(lower(trim(before_semicolon(ct)))),
        None => None,
    };
    if declared is Some && starts_with(declared->0, "image/"@) {
        declared->0
    } else if bytes_start(bytes, seq![0xFFu8, 0xD8u8, 0xFFu8]) {
        "image/jpeg"@
    } else if bytes_start(bytes, seq![0x89u8, 0x50u8, 0x4Eu8, 0x47u8, 0x0Du8, 0x0Au8, 0x1Au8, 0x0Au8]) {
        "image/png"@
    } else if bytes_start(bytes, seq![0x47u8, 0x49u8, 0x46u8, 0x38u8, 0x37u8, 0x61u8])
        || bytes_start(bytes, seq![0x47u8, 0x49u8, 0x46u8, 0x38u8, 0x39u8, 0x61u8]) {
        "image/gif"@
    } else if bytes.len() >= 12 && bytes_start(bytes, seq![0x52u8, 0x49u8, 0x46u8, 0x46u8])
        && bytes.subrange(8, 12) == seq![0x57u8, 0x45u8, 0x42u8, 0x50u8] {
        "image/webp"@
    } else {
        "image/jpeg"@
    }
}

fn bytes_start_exec(b: &[u8], p: &[u8]) -> (r: bool)
    ensures
        r == bytes_start(b@, p@),
{
    if p.len() > b.len() {
        return false;
    }
    let mut i: usize = 0;
    while i < p.len()
        invariant
            i <= p@.len() <= b@.len(),
            forall|j: int| 0 <= j < i ==> b@[j] == p@[j],
        decreases p@.len() - i,
    {
        if b[i] != p[i] {
            return false;
        }
        i += 1;
    }
    assert(b@.take(p@.len() as int) =~= p@);
    true
}

/// The MIME type of a downloaded image: the declared `image/` type where the
/// response has one, else the type its signature bytes show, else JPEG.
pub fn avatar_mime_type(content_type: Option<&str>, bytes: &[u8]) -> (r: String)
    ensures
        r@ == mime_spec(opt_str_view(content_type), bytes@),
{
    if let Some(ct) = content_type {
        let cs = chars_of(ct);
        proof {
            lemma_find_char(cs@, ';');
        }
        let head = match find_char_exec(&cs, ';') {
            Some(i) => string_from_range(&cs, 0, i),
            None => string_from_range(&cs, 0, cs.len()),
        };
        proof {
            lemma_find_char(cs@, ';');
            assert(cs@.subrange(0, cs@.len() as int) =~= cs@);
            assert(forall|i: int| 0 <= i <= cs@.len() ==> #[trigger] cs@.subrange(0, i) =~= cs@.take(i));
        }
        let mime = lower_str(trim_str(head.as_str()).as_str());
        if str_starts_with(mime.as_str(), "image/") {
            return mime;
        }
    }
    let jpeg: [u8; 3] = [0xFF, 0xD8, 0xFF];
    let png: [u8; 8] = [0x89, 0x50, 0x4E, 0x47, 0x0D, 0x0A, 0x1A, 0x0A];
    let gif7: [u8; 6] = [0x47, 0x49, 0x46, 0x38, 0x37, 0x61];
    let gif9: [u8; 6] = [0x47, 0x49, 0x46, 0x38, 0x39, 0x61];
    let riff: [u8; 4] = [0x52, 0x49, 0x46, 0x46];
    assert(jpeg@ =~= seq![0xFFu8, 0xD8u8, 0xFFu8]);
    assert(png@ =~= seq![0x89u8, 0x50u8, 0x4Eu8, 0x47u8, 0x0Du8, 0x0Au8, 0x1Au8, 0x0Au8]);
    assert(gif7@ =~= seq![0x47u8, 0x49u8, 0x46u8, 0x38u8, 0x37u8, 0x61u8]);
    assert(gif9@ =~= seq![0x47u8, 0x49u8, 0x46u8, 0x38u8, 0x39u8, 0x61u8]);
    assert(riff@ =~= seq![0x52u8, 0x49u8, 0x46u8, 0x46u8]);
    if bytes_start_exec(bytes, &jpeg) {
        return owned("image/jpeg");
    }
    if bytes_start_exec(bytes, &png) {
        return owned("image/png");
    }
    if bytes_start_exec(bytes, &gif7) || bytes_start_exec(bytes, &gif9) {
        return owned("image/gif");
    }
    if bytes.len() >= 12 && bytes_start_exec(bytes, &riff) && bytes[8] == 0x57 && bytes[9] == 0x45
        && bytes[10] == 0x42 && bytes[11] == 0x50 {
        assert(bytes@.subrange(8, 12) =~= seq![0x57u8, 0x45u8, 0x42u8, 0x50u8]);
        return owned("image/webp");
    }
    if bytes.len() >= 12 {
        assert(!(bytes_start(bytes@, seq![0x52u8, 0x49u8, 0x46u8, 0x46u8])
            && bytes@.subrange(8, 12) == seq![0x57u8, 0x45u8, 0x42u8, 0x50u8])) by {
            if bytes@.subrange(8, 12) == seq![0x57u8, 0x45u8, 0x42u8, 0x50u8] {
                assert(bytes@.subrange(8, 12)[0] == bytes@[8]);
                assert(bytes@.subrange(8, 12)[1] == bytes@[9]);
                assert(bytes@.subrange(8, 12)[2] == bytes@[10]);
                assert(bytes@.subrange(8, 12)[3] == bytes@[11]);
            }
        }
    }
    owned("image/jpeg")
}


/// What `base64::engine::general_purpose::STANDARD.encode` writes for
/// `bytes`: their standard base64 text, padded. It depends on the bytes
/// alone.
pub uninterp spec fn base64_standard(bytes: Seq<u8>) -> Seq<char>;

/// Calls `base64::engine::general_purpose::STANDARD.encode` on `bytes`.
/// The contract claims only that the text is the one `base64_standard`
/// names; the length bound keeps the encoded length from overflowing,
/// where the call panics.
#[verifier::external_body]
fn base64_encode(bytes: &[u8]) -> (r: String)
    requires
        bytes@.len() <= usize::MAX / 2,
    ensures
        r@ == base64_standard(bytes@),
{
    base64::engine::general_purpose::STANDARD.encode(bytes)
}

/// The largest avatar kept inline, in bytes.
pub open spec fn max_avatar_bytes() -> nat {
    2097152
}

/// A downloaded avatar as a data URL: refused when empty or larger than
/// the limit, else its MIME type and its base64 text.
pub open spec fn avatar_data_url_spec(content_type: Option<Seq<char>>, bytes: Seq<u8>) -> Result<Seq<char>, Seq<char>> {
    if bytes.len() == 0 {
        Err("头像图片为空"@)
    } else if bytes.len() > max_avatar_bytes() {
        Err("头像图片过大"@)
    } else {
        Ok("data:"@ + mime_spec(content_type, bytes) + ";base64,"@ + base64_standard(bytes))
    }
}

/// The data URL of a downloaded avatar with its declared content type.
pub fn avatar_data_url(content_type: Option<&str>, bytes: &[u8]) -> (r: Result<String, String>)
    ensures
        match r {
            Ok(u) => avatar_data_url_spec(opt_str_view(content_type), bytes@) == Ok::<Seq<char>, Seq<char>>(u@),
            Err(e) => avatar_data_url_spec(opt_str_view(content_type), bytes@) == Err::<Seq<char>, Seq<char>>(e@),
        },
{
    if bytes.len() == 0 {
        return Err(owned("头像图片为空"));
    }
    if bytes.len() > 2097152 {
        return Err(owned("头像图片过大"));
    }
    let mime = avatar_mime_type(content_type, bytes);
    let mut out = owned("data:");
    crate::text::push_str(&mut out, mime.as_str());
    crate::text::push_str(&mut out, ";base64,");
    let encoded = base64_encode(bytes);
    crate::text::push_str(&mut out, encoded.as_str());
    Ok(out)
}

} // verus!
