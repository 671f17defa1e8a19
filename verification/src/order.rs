//! The order of strings (`String`'s `Ord`, which for UTF-8 text is the
//! lexicographic order of its characters) and sorted, duplicate-free lists
//! kept in it.

use vstd::prelude::*;
use crate::domain::strings_view;

verus! {

/// `a` comes before `b`: at the first difference `a` has the smaller
/// character, or `a` is a proper prefix of `b`.
pub open spec fn lex_lt(a: Seq<char>, b: Seq<char>) -> bool
    decreases a.len(),
{
    if a.len() == 0 {
        b.len() > 0
    } else if b.len() == 0 {
        false
    } else if a[0] == b[0] {
        lex_lt(a.drop_first(), b.drop_first())
    } else {
        a[0] < b[0]
    }
}

/// Every element comes before every later one.
pub open spec fn strictly_sorted(s: Seq<Seq<char>>) -> bool {
    forall|i: int, j: int| 0 <= i < j < s.len() ==> lex_lt(#[trigger] s[i], #[trigger] s[j])
}

pub proof fn lemma_lex_irreflexive(a: Seq<char>)
    ensures
        !lex_lt(a, a),
    decreases a.len(),
{
    if a.len() > 0 {
        lemma_lex_irreflexive(a.drop_first());
    }
}

pub proof fn lemma_lex_trichotomy(a: Seq<char>, b: Seq<char>)
    ensures
        lex_lt(a, b) || a == b || lex_lt(b, a),
        !(lex_lt(a, b) && lex_lt(b, a)),
    decreases a.len(),
{
    if a.len() > 0 && b.len() > 0 {
        if a[0] == b[0] {
            lemma_lex_trichotomy(a.drop_first(), b.drop_first());
            if a.drop_first() == b.drop_first() {
                assert(a =~= seq![a[0]] + a.drop_first());
                assert(b =~= seq![b[0]] + b.drop_first());
            }
        }
    } else if a.len() == 0 && b.len() == 0 {
        assert(a =~= b);
    }
}

pub proof fn lemma_lex_transitive(a: Seq<char>, b: Seq<char>, c: Seq<char>)
    requires
        lex_lt(a, b),
        lex_lt(b, c),
    ensures
        lex_lt(a, c),
    decreases a.len(),
{
    if a.len() > 0 && b.len() > 0 && c.len() > 0 {
        if a[0] == b[0] && b[0] == c[0] {
            lemma_lex_transitive(a.drop_first(), b.drop_first(), c.drop_first());
        }
    }
}

/// Whether `a` comes before `b`.
pub fn str_lt(a: &str, b: &str) -> (r: bool)
    ensures
        r == lex_lt(a@, b@),
{
    let va = crate::text::chars_of(a);
    let vb = crate::text::chars_of(b);
    let mut i: usize = 0;
    assert(a@.skip(0) =~= a@);
    assert(b@.skip(0) =~= b@);
    while i < va.len() && i < vb.len() && va[i] == vb[i]
        invariant
            i <= va@.len(),
            i <= vb@.len(),
            va@ == a@,
            vb@ == b@,
            lex_lt(a@, b@) == lex_lt(a@.skip(i as int), b@.skip(i as int)),
        decreases va@.len() - i,
    {
        assert(a@.skip(i as int).drop_first() =~= a@.skip(i + 1));
        assert(b@.skip(i as int).drop_first() =~= b@.skip(i + 1));
        assert(a@.skip(i as int)[0] == va@[i as int]);
        assert(b@.skip(i as int)[0] == vb@[i as int]);
        i += 1;
    }
    if i == va.len() {
        return i < vb.len();
    }
    if i == vb.len() {
        return false;
    }
    assert(a@.skip(i as int)[0] == va@[i as int]);
    assert(b@.skip(i as int)[0] == vb@[i as int]);
    va[i] < vb[i]
}

/// Adds `x` to a strictly sorted list at its place, unless it is there
/// already.
pub fn insert_sorted_unique(v: &mut Vec<String>, x: String)
    requires
        strictly_sorted(strings_view(old(v)@)),
    ensures
        strictly_sorted(strings_view(final(v)@)),
        strings_view(final(v)@).to_set() == strings_view(old(v)@).to_set().insert(x@),
{
    let ghost old_view = strings_view(v@);
    let mut i: usize = 0;
    while i < v.len() && str_lt(v[i].as_str(), x.as_str())
        invariant
            i <= v@.len(),
            v@ == old(v)@,
            old_view == strings_view(v@),
            strictly_sorted(old_view),
            forall|j: int| 0 <= j < i ==> lex_lt(#[trigger] old_view[j], x@),
        decreases v@.len() - i,
    {
        assert(old_view[i as int] == v@[i as int]@);
        i += 1;
    }
    if i < v.len() {
        assert(old_view[i as int] == v@[i as int]@);
        if crate::text::str_eq(v[i].as_str(), x.as_str()) {
            assert(old_view.to_set().insert(x@) =~= old_view.to_set()) by {
                assert(old_view.to_set().contains(x@)) by {
                    assert(old_view[i as int] == x@);
                }
            }
            return;
        }
        proof {
            lemma_lex_trichotomy(old_view[i as int], x@);
            assert(lex_lt(x@, old_view[i as int]));
        }
    }
    let ghost xv = x@;
    v.insert(i, x);
    proof {
        let nv = strings_view(v@);
        assert(nv =~= old_view.insert(i as int, xv));
        assert forall|a: int, b: int| 0 <= a < b < nv.len() implies lex_lt(#[trigger] nv[a], #[trigger] nv[b]) by {
            if a < i && b < i {
                assert(nv[a] == old_view[a] && nv[b] == old_view[b]);
            } else if a < i && b == i {
                assert(nv[a] == old_view[a]);
            } else if a < i && b > i {
                assert(nv[a] == old_view[a] && nv[b] == old_view[b - 1]);
            } else if a == i {
                assert(nv[b] == old_view[b - 1]);
                if b - 1 > i {
                    assert(lex_lt(old_view[i as int], old_view[b - 1]));
                    lemma_lex_transitive(xv, old_view[i as int], old_view[b - 1]);
                }
            } else {
                assert(nv[a] == old_view[a - 1] && nv[b] == old_view[b - 1]);
            }
        }
        assert forall|s: Seq<char>| nv.to_set().contains(s) <==> old_view.to_set().insert(xv).contains(s) by {
            if nv.to_set().contains(s) {
                let k = choose|k: int| 0 <= k < nv.len() && nv[k] == s;
                if k < i {
                    assert(old_view[k] == s);
                } else if k > i {
                    assert(old_view[k - 1] == s);
                }
            }
            if old_view.to_set().contains(s) {
                let k = choose|k: int| 0 <= k < old_view.len() && old_view[k] == s;
                if k < i {
                    assert(nv[k] == s);
                } else {
                    assert(nv[k + 1] == s);
                }
            }
            if s == xv {
                assert(nv[i as int] == s);
            }
        }
        assert(nv.to_set() =~= old_view.to_set().insert(xv));
    }
}

/// The strings of `items`, sorted and without repeats, as `sort` then
/// `dedup` leave them.
pub fn sorted_unique(items: Vec<String>) -> (r: Vec<String>)
    ensures
        strictly_sorted(strings_view(r@)),
        strings_view(r@).to_set() == strings_view(items@).to_set(),
{
    let mut out: Vec<String> = Vec::new();
    let mut items = items;
    let ghost all = strings_view(items@);
    let mut i: usize = 0;
    let n = items.len();
    assert(strings_view(out@).to_set() =~= all.take(0).to_set());
    while i < n
        invariant
            i <= n == items@.len(),
            all == strings_view(items@),
            strictly_sorted(strings_view(out@)),
            strings_view(out@).to_set() == all.take(i as int).to_set(),
        decreases n - i,
    {
        let x = items[i].clone();
        assert(x@ == all[i as int]);
        insert_sorted_unique(&mut out, x);
        assert(all.take(i + 1) =~= all.take(i as int).push(all[i as int]));
        proof {
            all.take(i as int).lemma_push_to_set_commute(all[i as int]);
        }
        i += 1;
    }
    assert(all.take(n as int) =~= all);
    out
}

} // verus!
