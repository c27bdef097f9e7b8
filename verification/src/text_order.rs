//! The order of `String`s (by code point, which is the order of their UTF-8
//! bytes), and sorting a list of strings into strictly increasing order.
use vstd::prelude::*;

use crate::strings::str_chars;

verus! {

/// `a` comes strictly before `b`: at the first position where they differ
/// `a` has the smaller character, or `a` is a proper prefix of `b`.
pub open spec fn text_lt(a: Seq<char>, b: Seq<char>) -> bool
    decreases a.len(),
{
    if a.len() == 0 {
        b.len() > 0
    } else if b.len() == 0 {
        false
    } else if a[0] != b[0] {
        (a[0] as int) < (b[0] as int)
    } else {
        text_lt(a.drop_first(), b.drop_first())
    }
}

/// Every element comes strictly before every later one.
pub open spec fn strictly_sorted(s: Seq<Seq<char>>) -> bool {
    forall|i: int, j: int| 0 <= i < j < s.len() ==> text_lt(#[trigger] s[i], #[trigger] s[j])
}

/// No text comes before itself.
pub proof fn lemma_text_lt_irreflexive(a: Seq<char>)
    ensures
        !text_lt(a, a),
    decreases a.len(),
{
    if a.len() > 0 {
        lemma_text_lt_irreflexive(a.drop_first());
    }
}

/// Two different texts are ordered one way or the other.
pub proof fn lemma_text_lt_total(a: Seq<char>, b: Seq<char>)
    ensures
        a != b ==> text_lt(a, b) || text_lt(b, a),
    decreases a.len(),
{
    if a.len() > 0 && b.len() > 0 && a[0] == b[0] {
        lemma_text_lt_total(a.drop_first(), b.drop_first());
        if a.drop_first() == b.drop_first() {
            assert(a =~= seq![a[0]] + a.drop_first());
            assert(b =~= seq![b[0]] + b.drop_first());
        }
    } else if a.len() > 0 && b.len() > 0 {
        assert((a[0] as int) != (b[0] as int));
    } else if a.len() == 0 && b.len() == 0 {
        assert(a =~= b);
    }
}

/// The order is transitive.
pub proof fn lemma_text_lt_transitive(a: Seq<char>, b: Seq<char>, c: Seq<char>)
    requires
        text_lt(a, b),
        text_lt(b, c),
    ensures
        text_lt(a, c),
    decreases a.len(),
{
    if a.len() > 0 && b.len() > 0 && c.len() > 0 && a[0] == b[0] && b[0] == c[0] {
        lemma_text_lt_transitive(a.drop_first(), b.drop_first(), c.drop_first());
    }
}

/// The order never holds both ways.
pub proof fn lemma_text_lt_asymmetric(a: Seq<char>, b: Seq<char>)
    requires
        text_lt(a, b),
    ensures
        !text_lt(b, a),
{
    if text_lt(b, a) {
        lemma_text_lt_transitive(a, b, a);
        lemma_text_lt_irreflexive(a);
    }
}

/// Two strictly sorted sequences with the same elements are the same.
pub proof fn lemma_strictly_sorted_unique(s: Seq<Seq<char>>, t: Seq<Seq<char>>)
    requires
        strictly_sorted(s),
        strictly_sorted(t),
        s.to_set() == t.to_set(),
    ensures
        s == t,
    decreases s.len(),
{
    if s.len() == 0 {
        if t.len() > 0 {
            assert(t.to_set().contains(t[0]));
        }
        assert(s =~= t);
    } else {
        if t.len() == 0 {
            assert(s.to_set().contains(s[0]));
            assert(false);
        }
        // The first elements are the least of the common set.
        assert(t.to_set().contains(s[0]));
        let j = choose|j: int| 0 <= j < t.len() && t[j] == s[0];
        assert(s.to_set().contains(t[0]));
        let i = choose|i: int| 0 <= i < s.len() && s[i] == t[0];
        if j > 0 {
            assert(text_lt(t[0], t[j]));
            if i > 0 {
                assert(text_lt(s[0], s[i]));
                lemma_text_lt_asymmetric(t[0], s[0]);
            } else {
                lemma_text_lt_irreflexive(t[0]);
            }
        }
        assert(s[0] == t[0]);
        let s1 = s.drop_first();
        let t1 = t.drop_first();
        assert forall|x: Seq<char>| s1.to_set().contains(x) implies t1.to_set().contains(x) by {
            let a = choose|a: int| 0 <= a < s1.len() && s1[a] == x;
            assert(s.to_set().contains(x));
            assert(text_lt(s[0], s[a + 1]));
            let b = choose|b: int| 0 <= b < t.len() && t[b] == x;
            if b == 0 {
                lemma_text_lt_irreflexive(x);
            }
            assert(t1[b - 1] == x);
        }
        assert forall|x: Seq<char>| t1.to_set().contains(x) implies s1.to_set().contains(x) by {
            let b = choose|b: int| 0 <= b < t1.len() && t1[b] == x;
            assert(t.to_set().contains(x));
            assert(text_lt(t[0], t[b + 1]));
            let a = choose|a: int| 0 <= a < s.len() && s[a] == x;
            if a == 0 {
                lemma_text_lt_irreflexive(x);
            }
            assert(s1[a - 1] == x);
        }
        assert(s1.to_set() =~= t1.to_set());
        lemma_strictly_sorted_unique(s1, t1);
        assert(s =~= seq![s[0]] + s1);
        assert(t =~= seq![t[0]] + t1);
    }
}

/// Whether `a` comes strictly before `b` (see [`text_lt`]).
pub fn text_less(a: &str, b: &str) -> (r: bool)
    ensures
        r == text_lt(a@, b@),
{
    let x = str_chars(a);
    let y = str_chars(b);
    let mut i: usize = 0;
    proof {
        assert(a@.skip(0) =~= a@);
        assert(b@.skip(0) =~= b@);
    }
    while i < x.len() && i < y.len() && x[i] == y[i]
        invariant
            0 <= i <= x@.len(),
            i <= y@.len(),
            x@ == a@,
            y@ == b@,
            x@.take(i as int) == y@.take(i as int),
            text_lt(a@, b@) == text_lt(a@.skip(i as int), b@.skip(i as int)),
        decreases x@.len() - i,
    {
        proof {
            let p = a@.skip(i as int);
            let q = b@.skip(i as int);
            assert(p.drop_first() =~= a@.skip(i + 1));
            assert(q.drop_first() =~= b@.skip(i + 1));
            assert(x@.take(i + 1) =~= x@.take(i as int).push(x@[i as int]));
            assert(y@.take(i + 1) =~= y@.take(i as int).push(y@[i as int]));
        }
        i = i + 1;
    }
    if i == x.len() {
        i < y.len()
    } else if i == y.len() {
        false
    } else {
        proof {
            assert(a@.skip(i as int)[0] == x@[i as int]);
            assert(b@.skip(i as int)[0] == y@[i as int]);
        }
        x[i] < y[i]
    }
}

/// The texts of `items` in strictly increasing order, each once.
pub fn sort_dedup(items: &Vec<String>) -> (r: Vec<String>)
    ensures
        strictly_sorted(r@.map_values(|t: String| t@)),
        r@.map_values(|t: String| t@).to_set() == items@.map_values(|t: String| t@).to_set(),
{
    let ghost src = items@.map_values(|t: String| t@);
    let mut r: Vec<String> = Vec::new();
    let mut i: usize = 0;
    while i < items.len()
        invariant
            0 <= i <= items@.len(),
            src == items@.map_values(|t: String| t@),
            strictly_sorted(r@.map_values(|t: String| t@)),
            r@.map_values(|t: String| t@).to_set() == src.take(i as int).to_set(),
        decreases items@.len() - i,
    {
        let x = &items[i];
        let ghost before = r@.map_values(|t: String| t@);
        // The first position whose text is not before `x`.
        let mut k: usize = 0;
        while k < r.len() && text_less(r[k].as_str(), x.as_str())
            invariant
                0 <= k <= r@.len(),
                before == r@.map_values(|t: String| t@),
                forall|m: int| 0 <= m < k ==> text_lt(#[trigger] before[m], x@),
            decreases r@.len() - k,
        {
            k = k + 1;
        }
        let dup = k < r.len() && !text_less(x.as_str(), r[k].as_str());
        proof {
            if k < r@.len() {
                assert(!text_lt(before[k as int], x@));
                if !dup {
                    assert(text_lt(x@, before[k as int]));
                } else {
                    lemma_text_lt_total(before[k as int], x@);
                }
            }
        }
        if !dup {
            r.insert(k, x.clone());
            proof {
                let after = r@.map_values(|t: String| t@);
                assert(after =~= before.insert(k as int, x@));
                assert forall|a: int, b: int| 0 <= a < b < after.len() implies text_lt(
                    #[trigger] after[a],
                    #[trigger] after[b],
                ) by {
                    if b < k {
                    } else if a < k && b == k {
                    } else if a < k && b > k {
                        assert(after[b] == before[b - 1]);
                        if k < before.len() {
                            lemma_text_lt_transitive(after[a], x@, before[k as int]);
                            if b - 1 > k {
                                lemma_text_lt_transitive(after[a], before[k as int], before[b - 1]);
                            }
                        }
                    } else if a == k {
                        assert(after[b] == before[b - 1]);
                        if b - 1 > k {
                            lemma_text_lt_transitive(x@, before[k as int], before[b - 1]);
                        }
                    } else {
                        assert(after[a] == before[a - 1]);
                        assert(after[b] == before[b - 1]);
                    }
                }
                assert(src.take(i + 1) =~= src.take(i as int).push(x@));
                assert forall|y: Seq<char>| after.to_set().contains(y) <==> src.take(i + 1).to_set().contains(
                    y,
                ) by {
                    if after.to_set().contains(y) {
                        let p = choose|p: int| 0 <= p < after.len() && after[p] == y;
                        if p < k {
                            assert(before[p] == y);
                            assert(before.to_set().contains(y));
                        } else if p > k {
                            assert(before[p - 1] == y);
                            assert(before.to_set().contains(y));
                        }
                        assert(src.take(i + 1)[i as int] == x@);
                        if before.to_set().contains(y) {
                            let q = choose|q: int| 0 <= q < i && #[trigger] src.take(i as int)[q] == y;
                            assert(src.take(i + 1)[q] == y);
                        }
                    }
                    if src.take(i + 1).to_set().contains(y) {
                        let q = choose|q: int| 0 <= q <= i && #[trigger] src.take(i + 1)[q] == y;
                        if q == i {
                            assert(after[k as int] == y);
                        } else {
                            assert(src.take(i as int)[q] == y);
                            assert(src.take(i as int).to_set().contains(y));
                            let p = choose|p: int| 0 <= p < before.len() && before[p] == y;
                            if p < k {
                                assert(after[p] == y);
                            } else {
                                assert(after[p + 1] == y);
                            }
                        }
                    }
                }
                assert(after.to_set() =~= src.take(i + 1).to_set());
            }
        } else {
            proof {
                let after = r@.map_values(|t: String| t@);
                assert(after == before);
                assert(before[k as int] == x@);
                assert(src.take(i + 1) =~= src.take(i as int).push(x@));
                assert forall|y: Seq<char>| after.to_set().contains(y) <==> src.take(i + 1).to_set().contains(
                    y,
                ) by {
                    if after.to_set().contains(y) {
                        let q = choose|q: int| 0 <= q < i && #[trigger] src.take(i as int)[q] == y;
                        assert(src.take(i + 1)[q] == y);
                    }
                    if src.take(i + 1).to_set().contains(y) {
                        let q = choose|q: int| 0 <= q <= i && #[trigger] src.take(i + 1)[q] == y;
                        if q == i {
                            assert(after[k as int] == y);
                        } else {
                            assert(src.take(i as int)[q] == y);
                            assert(src.take(i as int).to_set().contains(y));
                        }
                    }
                }
                assert(after.to_set() =~= src.take(i + 1).to_set());
            }
        }
        i = i + 1;
    }
    proof {
        assert(src.take(items@.len() as int) =~= src);
    }
    r
}

} // verus!
