//! Strings in lexicographic order, character by character (the order of
//! `String`'s `Ord`, since UTF-8 keeps the order of code points).
use vstd::prelude::*;
use vstd::relations::{sorted_by, total_ordering};

use crate::text::{to_chars, views_of};

verus! {

/// `a` comes before `b` or equals it in lexicographic order.
pub open spec fn lex_le(a: Seq<char>, b: Seq<char>) -> bool
    decreases a.len(),
{
    if a.len() == 0 {
        true
    } else if b.len() == 0 {
        false
    } else if (a[0] as int) < (b[0] as int) {
        true
    } else if (a[0] as int) > (b[0] as int) {
        false
    } else {
        lex_le(a.drop_first(), b.drop_first())
    }
}

pub open spec fn lex_order() -> spec_fn(Seq<char>, Seq<char>) -> bool {
    |a: Seq<char>, b: Seq<char>| lex_le(a, b)
}

proof fn lemma_lex_reflexive(a: Seq<char>)
    ensures
        lex_le(a, a),
    decreases a.len(),
{
    if a.len() > 0 {
        lemma_lex_reflexive(a.drop_first());
    }
}

proof fn lemma_lex_antisymmetric(a: Seq<char>, b: Seq<char>)
    requires
        lex_le(a, b),
        lex_le(b, a),
    ensures
        a == b,
    decreases a.len(),
{
    if a.len() > 0 && b.len() > 0 {
        lemma_lex_antisymmetric(a.drop_first(), b.drop_first());
        assert(a[0] == b[0]);
        assert(a =~= seq![a[0]] + a.drop_first());
        assert(b =~= seq![b[0]] + b.drop_first());
    } else {
        assert(a =~= b);
    }
}

proof fn lemma_lex_transitive(a: Seq<char>, b: Seq<char>, c: Seq<char>)
    requires
        lex_le(a, b),
        lex_le(b, c),
    ensures
        lex_le(a, c),
    decreases a.len(),
{
    if a.len() > 0 && b.len() > 0 && c.len() > 0 {
        if a[0] == b[0] && b[0] == c[0] {
            lemma_lex_transitive(a.drop_first(), b.drop_first(), c.drop_first());
        }
    }
}

proof fn lemma_lex_total(a: Seq<char>, b: Seq<char>)
    ensures
        lex_le(a, b) || lex_le(b, a),
    decreases a.len(),
{
    if a.len() > 0 && b.len() > 0 && a[0] == b[0] {
        lemma_lex_total(a.drop_first(), b.drop_first());
    }
}

pub proof fn lemma_lex_total_ordering()
    ensures
        total_ordering(lex_order()),
{
    assert forall|a: Seq<char>| #[trigger] lex_order()(a, a) by {
        lemma_lex_reflexive(a);
    }
    assert forall|a: Seq<char>, b: Seq<char>| #[trigger]
        lex_order()(a, b) && #[trigger] lex_order()(b, a) implies a == b by {
        lemma_lex_antisymmetric(a, b);
    }
    assert forall|a: Seq<char>, b: Seq<char>, c: Seq<char>| #[trigger]
        lex_order()(a, b) && #[trigger] lex_order()(b, c) implies lex_order()(a, c) by {
        lemma_lex_transitive(a, b, c);
    }
    assert forall|a: Seq<char>, b: Seq<char>| #[trigger]
        lex_order()(a, b) || #[trigger] lex_order()(b, a) by {
        lemma_lex_total(a, b);
    }
}

/// Whether `a` comes before `b` or equals it.
pub fn str_lex_le(a: &str, b: &str) -> (r: bool)
    ensures
        r == lex_le(a@, b@),
{
    let x = to_chars(a);
    let y = to_chars(b);
    let mut i: usize = 0;
    assert(x@.skip(0) =~= x@);
    assert(y@.skip(0) =~= y@);
    while i < x.len()
        invariant
            x@ == a@,
            y@ == b@,
            i <= x@.len(),
            i <= y@.len(),
            x@.subrange(0, i as int) == y@.subrange(0, i as int),
            lex_le(a@, b@) == lex_le(x@.skip(i as int), y@.skip(i as int)),
        decreases x@.len() - i,
    {
        if i >= y.len() {
            return false;
        }
        let c = x[i];
        let d = y[i];
        assert(x@.skip(i as int)[0] == c && y@.skip(i as int)[0] == d);
        if c < d {
            return true;
        }
        if c > d {
            return false;
        }
        assert(x@.skip(i as int).drop_first() =~= x@.skip(i + 1));
        assert(y@.skip(i as int).drop_first() =~= y@.skip(i + 1));
        assert(x@.subrange(0, i + 1) =~= x@.subrange(0, i as int).push(c));
        assert(y@.subrange(0, i + 1) =~= y@.subrange(0, i as int).push(d));
        i = i + 1;
    }
    assert(x@.skip(i as int).len() == 0);
    true
}

/// The strings in ascending lexicographic order (std's `sort` on strings).
pub fn sort_strings(v: Vec<String>) -> (r: Vec<String>)
    ensures
        sorted_by(views_of(r@), lex_order()),
        views_of(r@).to_multiset() == views_of(v@).to_multiset(),
        r@.len() == v@.len(),
{
    proof {
        lemma_lex_total_ordering();
    }
    let mut out: Vec<String> = Vec::new();
    let n = v.len();
    let mut rest = v;
    let ghost orig = views_of(rest@);
    let mut k: usize = 0;
    assert(views_of(out@) =~= orig.take(0));
    assert(orig.skip(0) =~= orig);
    while k < n
        invariant
            n == orig.len(),
            0 <= k <= n,
            rest@.len() == n - k,
            views_of(rest@) == orig.skip(k as int),
            out@.len() == k,
            sorted_by(views_of(out@), lex_order()),
            views_of(out@).to_multiset() == orig.take(k as int).to_multiset(),
            total_ordering(lex_order()),
        decreases n - k,
    {
        let ghost old_rest = rest@;
        let x = rest.remove(0);
        let ghost xv = x@;
        assert(views_of(old_rest)[0] == xv);
        assert(orig.skip(k as int)[0] == xv);
        assert(views_of(rest@) =~= views_of(old_rest).drop_first());
        assert(views_of(rest@) =~= orig.skip(k + 1));
        let ghost ov = views_of(out@);
        let m = out.len();
        let mut p: usize = 0;
        while p < m
            invariant
                m == out@.len(),
                ov == views_of(out@),
                0 <= p <= m,
                forall|j: int| 0 <= j < p ==> lex_le(ov[j], xv),
                xv == x@,
            ensures
                0 <= p <= m,
                forall|j: int| 0 <= j < p ==> lex_le(ov[j], xv),
                p < m ==> !lex_le(ov[p as int], xv),
            decreases m - p,
        {
            assert(ov[p as int] == out@[p as int]@);
            if !str_lex_le(out[p].as_str(), x.as_str()) {
                break;
            }
            p = p + 1;
        }
        proof {
            if p < m {
                assert(!lex_le(ov[p as int], xv));
                lemma_lex_total(ov[p as int], xv);
            }
        }
        out.insert(p, x);
        proof {
            let nv = views_of(out@);
            assert(nv =~= ov.insert(p as int, xv));
            assert forall|i: int, j: int| 0 <= i < j < nv.len() implies #[trigger] lex_le(nv[i], nv[j]) by {
                if j < p {
                    assert(lex_order()(ov[i], ov[j]));
                } else if j == p {
                } else {
                    // p < j, so the element at p in `ov` exists and follows xv.
                    assert(lex_le(xv, ov[p as int]));
                    if j - 1 > p {
                        assert(lex_order()(ov[p as int], ov[j - 1]));
                    }
                    assert(lex_le(ov[p as int], ov[j - 1])) by {
                        if j - 1 == p {
                            lemma_lex_reflexive(ov[p as int]);
                        }
                    }
                    lemma_lex_transitive(xv, ov[p as int], ov[j - 1]);
                    if i < p {
                        lemma_lex_transitive(ov[i], xv, ov[j - 1]);
                    } else if i > p {
                        assert(lex_order()(ov[i - 1], ov[j - 1]));
                    }
                }
            }
            assert(orig.take(k + 1) =~= orig.take(k as int).push(xv));
            vstd::seq_lib::to_multiset_insert(ov, p as int, xv);
            vstd::seq_lib::to_multiset_build(orig.take(k as int), xv);
            assert(sorted_by(nv, lex_order()));
        }
        k = k + 1;
    }
    assert(orig.take(n as int) =~= orig);
    out
}

} // verus!
