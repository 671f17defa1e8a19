//! Identifier helpers: short task suffixes, stable FNV-1a hashes and the
//! labels derived from them, and query encoding.

use vstd::prelude::*;
use vstd::string::StringSliceAdditionalSpecFns;
use crate::form::{encode, form_encode};
use crate::text::{chars_of, push_char, string_from_range};

verus! {

/// The first eight characters of a task identifier.
pub open spec fn task_suffix_spec(task_id: Seq<char>) -> Seq<char> {
    if task_id.len() <= 8 { task_id } else { task_id.take(8) }
}

pub fn task_suffix(task_id: &str) -> (r: String)
    ensures
        r@ == task_suffix_spec(task_id@),
{
    let v = chars_of(task_id);
    let n = if v.len() <= 8 { v.len() } else { 8 };
    let r = string_from_range(&v, 0, n);
    assert(v@.subrange(0, n as int) =~= task_suffix_spec(task_id@));
    r
}

pub open spec fn fnv_prime() -> u64 {
    0x100000001b3
}

/// 64-bit FNV-1a over `bytes`, starting from `seed`.
pub open spec fn fnv1a(bytes: Seq<u8>, seed: u64) -> u64
    decreases bytes.len(),
{
    if bytes.len() == 0 {
        seed
    } else {
        (((fnv1a(bytes.drop_last(), seed) ^ (bytes.last() as u64)) as nat * fnv_prime() as nat) % 0x1_0000_0000_0000_0000) as u64
    }
}

/// FNV-1a of the UTF-8 bytes of `value`, starting from `seed`.
pub fn stable_hash(value: &str, seed: u64) -> (h: u64)
    ensures
        h == fnv1a(value.spec_bytes(), seed),
{
    let bytes = value.as_bytes();
    let mut h = seed;
    let mut i: usize = 0;
    while i < bytes.len()
        invariant
            i <= bytes@.len(),
            h == fnv1a(bytes@.take(i as int), seed),
        decreases bytes@.len() - i,
    {
        assert(bytes@.take(i + 1).drop_last() =~= bytes@.take(i as int));
        h = (h ^ (bytes[i] as u64)).wrapping_mul(0x100000001b3);
        i += 1;
    }
    assert(bytes@.take(bytes@.len() as int) =~= bytes@);
    h
}

pub open spec fn hex_lower(d: nat) -> char {
    if d < 10 { (48 + d) as char } else { (87 + d) as char }
}

/// The last `k` hexadecimal digits of `n`, lower case, zero-padded.
pub open spec fn hex_fixed(n: nat, k: nat) -> Seq<char>
    decreases k,
{
    if k == 0 {
        Seq::empty()
    } else {
        hex_fixed(n / 16, (k - 1) as nat).push(hex_lower(n % 16))
    }
}

fn push_hex(out: &mut String, n: u64, k: u64)
    ensures
        final(out)@ == old(out)@ + hex_fixed(n as nat, k as nat),
    decreases k,
{
    if k > 0 {
        push_hex(out, n / 16, k - 1);
        let d = n % 16;
        let c = if d < 10 { ((48 + d) as u8) as char } else { ((87 + d) as u8) as char };
        assert(c == hex_lower(d as nat));
        push_char(out, c);
        assert(old(out)@ + hex_fixed(n as nat, k as nat) =~= old(out)@ + hex_fixed((n / 16) as nat, (k - 1) as nat) + seq![c]);
    } else {
        assert(old(out)@ + hex_fixed(n as nat, 0) =~= old(out)@);
    }
}

pub open spec fn label_seed() -> u64 {
    0xcbf29ce484222325
}

/// A stable 16-digit hex label for `value`: `format!("{:016x}", ..)` of its
/// FNV-1a hash from the standard offset basis.
pub fn stable_label_fragment(value: &str) -> (r: String)
    ensures
        r@ == hex_fixed(fnv1a(value.spec_bytes(), label_seed()) as nat, 16),
{
    let h = stable_hash(value, 0xcbf29ce484222325);
    let mut out = String::new();
    push_hex(&mut out, h, 16);
    assert(Seq::<char>::empty() + hex_fixed(h as nat, 16) =~= hex_fixed(h as nat, 16));
    out
}

/// Form-encoding of a query value.
pub fn encode_query(value: &str) -> (r: String)
    ensures
        r@ == form_encode(value@),
{
    encode(value)
}

} // verus!
