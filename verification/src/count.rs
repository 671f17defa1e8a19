//! Counts written as text ("1.2万", "3,456", "5k") or as JSON numbers,
//! rounded to whole numbers.

use vstd::prelude::*;
use crate::number::{digits_value, digit_value, lemma_digits_value_step};
use crate::text::{chars_of, has_char, is_digit, lower, lower_char, lower_char_exec, trim, trim_bounds};

verus! {

/// Characters that `parse_count_string` drops as grouping or spacing.
pub open spec fn is_count_filler(c: char) -> bool {
    c == ',' || c == '\u{ff0c}' || c == ' ' || c == '\u{a0}'
}

/// `s` without filler characters.
pub open spec fn compact(s: Seq<char>) -> Seq<char>
    decreases s.len(),
{
    if s.len() == 0 {
        s
    } else if is_count_filler(s.last()) {
        compact(s.drop_last())
    } else {
        compact(s.drop_last()).push(s.last())
    }
}

/// Decimal exponent of the unit suffix: 亿 is 10^8, 万 or w is 10^4, k is 10^3.
pub open spec fn unit_exponent(compacted: Seq<char>) -> int {
    let low = lower(compacted);
    if has_char(compacted, '\u{4ebf}') {
        8
    } else if has_char(compacted, '\u{4e07}') || has_char(low, 'w') {
        4
    } else if has_char(low, 'k') {
        3
    } else {
        0
    }
}

/// The number taken from `s`: from the first digit or dot on, digits and at
/// most one dot, up to the first other character.
pub open spec fn extract_numeric(s: Seq<char>, started: bool, saw_dot: bool) -> Seq<char>
    decreases s.len(),
{
    if s.len() == 0 {
        s
    } else if is_digit(s[0]) {
        seq![s[0]] + extract_numeric(s.drop_first(), true, saw_dot)
    } else if s[0] == '.' && !saw_dot {
        seq![s[0]] + extract_numeric(s.drop_first(), true, true)
    } else if started {
        Seq::empty()
    } else {
        extract_numeric(s.drop_first(), started, saw_dot)
    }
}

/// Integer digits of `all` shifted so that `p` of them stand before the
/// point, padded with zeros.
pub open spec fn padded_int(all: Seq<char>, p: int) -> Seq<char> {
    if p <= 0 {
        Seq::empty()
    } else {
        Seq::new(p as nat, |j: int| if j < all.len() { all[j] } else { '0' })
    }
}

/// The first digit after the shifted point.
pub open spec fn round_digit(all: Seq<char>, p: int) -> char {
    if 0 <= p < all.len() { all[p] } else { '0' }
}

/// `int_part.frac` times `10^m`, rounded half away from zero.
pub open spec fn scaled_round(int_part: Seq<char>, frac: Seq<char>, m: int) -> nat {
    let all = int_part + frac;
    let p = int_part.len() + m;
    digits_value(padded_int(all, p)) + (if digit_value(round_digit(all, p)) >= 5 { 1nat } else { 0nat })
}

/// A count saturates at `u64::MAX`, as a float-to-integer cast does.
pub open spec fn saturate(n: nat) -> u64 {
    if n > u64::MAX { u64::MAX } else { n as u64 }
}

/// The digits before and after the (single) dot of an extracted number.
pub open spec fn split_point(num: Seq<char>) -> (Seq<char>, Seq<char>) {
    match crate::text::split_once(num, '.') {
        Some((a, b)) => (a, b),
        None => (num, Seq::empty()),
    }
}

/// The count written in `text`, if it holds a number.
pub open spec fn count_string(text: Seq<char>) -> Option<u64> {
    let c = compact(trim(text));
    let num = extract_numeric(lower(c), false, false);
    let (ip, fp) = split_point(num);
    if c.len() == 0 || ip.len() + fp.len() == 0 {
        None
    } else {
        Some(saturate(scaled_round(ip, fp, unit_exponent(c))))
    }
}

pub fn has_char_exec(v: &[char], c: char) -> (b: bool)
    ensures
        b == has_char(v@, c),
{
    let mut i: usize = 0;
    while i < v.len()
        invariant
            i <= v@.len(),
            forall|j: int| 0 <= j < i ==> v@[j] != c,
        decreases v@.len() - i,
    {
        if v[i] == c {
            return true;
        }
        i += 1;
    }
    false
}

fn is_count_filler_exec(c: char) -> (b: bool)
    ensures
        b == is_count_filler(c),
{
    c == ',' || c == '\u{ff0c}' || c == ' ' || c == '\u{a0}'
}

/// `int_part.frac` (given as `all` with `p` digits before the point after
/// scaling) rounded half away from zero and saturated.
pub fn scaled_round_exec(all: &[char], p: i128) -> (r: u64)
    requires
        crate::text::all_digits(all@),
    ensures
        r == saturate(digits_value(padded_int(all@, p as int)) + (if digit_value(round_digit(all@, p as int)) >= 5 { 1nat } else { 0nat })),
{
    let ghost pad = padded_int(all@, p as int);
    let mut acc: u128 = 0;
    if p > 0 {
        let mut j: i128 = 0;
        while j < p
            invariant
                0 <= j <= p,
                pad == padded_int(all@, p as int),
                pad.len() == p,
                crate::text::all_digits(all@),
                acc as nat == digits_value(pad.take(j as int)),
                acc <= u64::MAX,
            decreases p - j,
        {
            let d: u128 = if j < all.len() as i128 {
                let c = all[j as usize];
                proof { assert(is_digit(all@[j as int])); }
                (c as u32 - '0' as u32) as u128
            } else {
                0
            };
            proof {
                assert(pad[j as int] == if j < all@.len() { all@[j as int] } else { '0' });
                lemma_digits_value_step(pad, j as int);
                assert(d as nat == digit_value(pad[j as int]));
            }
            acc = acc * 10 + d;
            j += 1;
            if acc > u64::MAX as u128 {
                proof {
                    assert forall|k: int| 0 <= k < pad.len() implies is_digit(#[trigger] pad[k]) by {
                        if k < all@.len() { assert(is_digit(all@[k])); }
                    }
                    crate::number::lemma_digits_value_mono(pad, j as int);
                }
                return u64::MAX;
            }
        }
        assert(pad.take(p as int) =~= pad);
    } else {
        assert(pad =~= Seq::<char>::empty());
    }
    let rd: u128 = if 0 <= p && p < all.len() as i128 {
        let c = all[p as usize];
        proof { assert(is_digit(all@[p as int])); }
        (c as u32 - '0' as u32) as u128
    } else {
        0
    };
    assert(rd as nat == digit_value(round_digit(all@, p as int)));
    let total = if rd >= 5 { acc + 1 } else { acc };
    if total > u64::MAX as u128 { u64::MAX } else { total as u64 }
}

/// Reads a count such as "1.2万", "3,456" or "5k";
/// the unit multiplies the number, which is then rounded half away from zero.
#[verifier::spinoff_prover]
#[verifier::rlimit(60)]
pub fn parse_count_string(text: &str) -> (r: Option<u64>)
    ensures
        r == count_string(text@),
{
    let v = chars_of(text);
    let (lo, hi) = trim_bounds(&v);
    let ghost t = v@.subrange(lo as int, hi as int);
    let mut c: Vec<char> = Vec::new();
    let mut j = lo;
    while j < hi
        invariant
            lo <= j <= hi <= v@.len(),
            t == v@.subrange(lo as int, hi as int),
            c@ == compact(t.take(j - lo)),
        decreases hi - j,
    {
        proof {
            assert(t.take(j + 1 - lo).drop_last() =~= t.take(j - lo));
            assert(t.take(j + 1 - lo).last() == v@[j as int]);
        }
        if !is_count_filler_exec(v[j]) {
            c.push(v[j]);
        }
        j += 1;
    }
    assert(t.take(hi - lo) =~= t);
    if c.len() == 0 {
        return None;
    }
    let mut low: Vec<char> = Vec::new();
    let mut k: usize = 0;
    while k < c.len()
        invariant
            k <= c@.len(),
            low@ == lower(c@.take(k as int)),
        decreases c@.len() - k,
    {
        low.push(lower_char_exec(c[k]));
        assert(lower(c@.take(k + 1)) =~= lower(c@.take(k as int)).push(lower_char(c@[k as int])));
        k += 1;
    }
    assert(c@.take(c@.len() as int) =~= c@);
    let m: i128 = if has_char_exec(&c, '\u{4ebf}') {
        8
    } else if has_char_exec(&c, '\u{4e07}') || has_char_exec(&low, 'w') {
        4
    } else if has_char_exec(&low, 'k') {
        3
    } else {
        0
    };
    // the number: digits and at most one dot from the first digit or dot on
    let mut int_part: Vec<char> = Vec::new();
    let mut frac_part: Vec<char> = Vec::new();
    let mut started = false;
    let mut saw_dot = false;
    let mut i: usize = 0;
    assert(low@.skip(0) =~= low@);
    while i < low.len()
        invariant_except_break
            i <= low@.len(),
            crate::text::all_digits(int_part@),
            crate::text::all_digits(frac_part@),
            !saw_dot ==> frac_part@.len() == 0,
            (int_part@.len() > 0 || saw_dot) ==> started,
            (if saw_dot { int_part@ + seq!['.'] + frac_part@ } else { int_part@ })
                + extract_numeric(low@.skip(i as int), started, saw_dot)
                == extract_numeric(low@, false, false),
        ensures
            crate::text::all_digits(int_part@),
            crate::text::all_digits(frac_part@),
            !saw_dot ==> frac_part@.len() == 0,
            (if saw_dot { int_part@ + seq!['.'] + frac_part@ } else { int_part@ })
                == extract_numeric(low@, false, false),
        decreases low@.len() - i,
    {
        let ch = low[i];
        let ghost rest = low@.skip(i as int);
        proof {
            assert(rest.drop_first() =~= low@.skip(i + 1));
            assert(rest[0] == ch);
        }
        if '0' <= ch && ch <= '9' {
            let ghost before = if saw_dot { int_part@ + seq!['.'] + frac_part@ } else { int_part@ };
            if saw_dot {
                frac_part.push(ch);
            } else {
                int_part.push(ch);
            }
            started = true;
            proof {
                let after = if saw_dot { int_part@ + seq!['.'] + frac_part@ } else { int_part@ };
                assert(after =~= before + seq![ch]);
            }
        } else if ch == '.' && !saw_dot {
            saw_dot = true;
            started = true;
            proof {
                assert(int_part@ + seq!['.'] + frac_part@ =~= int_part@ + seq![ch]);
            }
        } else if started {
            proof {
                assert(extract_numeric(rest, started, saw_dot) =~= Seq::<char>::empty());
            }
            break;
        }
        i += 1;
    }
    if int_part.len() == 0 && frac_part.len() == 0 {
        return None;
    }
    let ghost num = extract_numeric(low@, false, false);
    proof {
        if saw_dot {
            assert(num[int_part@.len() as int] == '.');
            assert forall|q: int| 0 <= q < int_part@.len() implies num[q] != '.' by {
                assert(num[q] == int_part@[q]);
                assert(is_digit(int_part@[q]));
            }
            crate::text::lemma_find_char_at(num, '.', int_part@.len() as int);
            assert(num.take(int_part@.len() as int) =~= int_part@);
            assert(num.skip(int_part@.len() as int + 1) =~= frac_part@);
        } else {
            assert forall|q: int| 0 <= q < num.len() implies num[q] != '.' by {
                assert(is_digit(int_part@[q]));
            }
            crate::text::lemma_find_char_at(num, '.', num.len() as int);
        }
        assert(split_point(num) == (int_part@, frac_part@));
        assert(compact(trim(text@)) == c@);
        assert(lower(c@) == low@);
    }
    let mut all: Vec<char> = Vec::new();
    let mut q: usize = 0;
    while q < int_part.len()
        invariant
            q <= int_part@.len(),
            all@ == int_part@.take(q as int),
        decreases int_part@.len() - q,
    {
        all.push(int_part[q]);
        assert(int_part@.take(q + 1) =~= int_part@.take(q as int).push(int_part@[q as int]));
        q += 1;
    }
    let mut q2: usize = 0;
    while q2 < frac_part.len()
        invariant
            q2 <= frac_part@.len(),
            all@ == int_part@ + frac_part@.take(q2 as int),
        decreases frac_part@.len() - q2,
    {
        all.push(frac_part[q2]);
        assert(int_part@ + frac_part@.take(q2 + 1) =~= (int_part@ + frac_part@.take(q2 as int)).push(frac_part@[q2 as int]));
        q2 += 1;
    }
    assert(int_part@.take(int_part@.len() as int) =~= int_part@);
    assert(frac_part@.take(frac_part@.len() as int) =~= frac_part@);
    assert(crate::text::all_digits(all@)) by {
        assert forall|z: int| 0 <= z < all@.len() implies is_digit(#[trigger] all@[z]) by {
            if z < int_part@.len() {
                assert(all@[z] == int_part@[z]);
            } else {
                assert(all@[z] == frac_part@[z - int_part@.len()]);
            }
        }
    }
    let p: i128 = int_part.len() as i128 + m;
    Some(scaled_round_exec(&all, p))
}

} // verus!
