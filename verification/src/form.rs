//! `application/x-www-form-urlencoded` serialization, as the form_urlencoded
//! crate performs it.

use vstd::prelude::*;

verus! {

/// Bytes that `byte_serialize` copies unchanged.
pub open spec fn form_unchanged(b: u8) -> bool {
    b == 42 || b == 45 || b == 46 || (48 <= b && b <= 57) || (65 <= b && b <= 90) || b == 95 || (97 <= b
        && b <= 122)
}

pub open spec fn hex_upper(d: u8) -> char {
    if d < 10 { (48 + d) as char } else { (55 + d) as char }
}

/// The text that `byte_serialize` yields for one byte.
pub open spec fn form_byte(b: u8) -> Seq<char> {
    if form_unchanged(b) {
        seq![b as char]
    } else if b == 32 {
        seq!['+']
    } else {
        seq!['%', hex_upper(b / 16), hex_upper(b % 16)]
    }
}

pub open spec fn form_bytes(bs: Seq<u8>) -> Seq<char>
    decreases bs.len(),
{
    if bs.len() == 0 {
        Seq::empty()
    } else {
        form_byte(bs[0]) + form_bytes(bs.drop_first())
    }
}

/// Form-encoding of the UTF-8 bytes of `s`.
pub open spec fn form_encode(s: Seq<char>) -> Seq<char> {
    form_bytes(vstd::utf8::encode_utf8(s))
}

/// `form_urlencoded::byte_serialize` over the bytes of `value`, collected:
/// ASCII letters, digits and `*-._` are kept, a space becomes `+`, every
/// other byte of the UTF-8 encoding becomes `%` and two upper-case hex
/// digits.
#[verifier::external_body]
pub fn encode(value: &str) -> (r: String)
    ensures
        r@ == form_encode(value@),
{
    form_urlencoded::byte_serialize(value.as_bytes()).collect()
}

} // verus!
