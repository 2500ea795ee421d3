//! Sorting a list of indices by a strict total order on them.
use vstd::prelude::*;

verus! {

/// A strict total order over the indices of some collection.
pub trait IndexOrder {
    /// The indices the order speaks of.
    spec fn in_domain(&self, i: int) -> bool;

    /// `i` comes before `j`.
    spec fn precedes(&self, i: int, j: int) -> bool;

    fn precedes_exec(&self, i: usize, j: usize) -> (r: bool)
        requires
            self.in_domain(i as int),
            self.in_domain(j as int),
        ensures
            r == self.precedes(i as int, j as int),
    ;

    proof fn lemma_strict_total(&self, i: int, j: int, k: int)
        requires
            self.in_domain(i),
            self.in_domain(j),
            self.in_domain(k),
        ensures
            !self.precedes(i, i),
            i != j ==> (self.precedes(i, j) || self.precedes(j, i)),
            self.precedes(i, j) && self.precedes(j, k) ==> self.precedes(i, k),
    ;
}

/// Every element of `s` comes before every later one.
pub open spec fn sorted_by<O: IndexOrder>(o: &O, s: Seq<usize>) -> bool {
    forall|a: int, b: int|
        0 <= a < b < s.len() ==> #[trigger] o.precedes(s[a] as int, s[b] as int)
}

/// All elements of `s` lie in the order's domain.
pub open spec fn all_in_domain<O: IndexOrder>(o: &O, s: Seq<usize>) -> bool {
    forall|k: int| 0 <= k < s.len() ==> o.in_domain(#[trigger] s[k] as int)
}

/// Sorts distinct indices by `o` (insertion sort).
pub fn sort_indices<O: IndexOrder>(o: &O, v: &Vec<usize>) -> (r: Vec<usize>)
    requires
        all_in_domain(o, v@),
        v@.no_duplicates(),
    ensures
        r@.len() == v@.len(),
        r@.no_duplicates(),
        forall|x: usize| r@.contains(x) <==> v@.contains(x),
        sorted_by(o, r@),
        all_in_domain(o, r@),
{
    let mut r: Vec<usize> = Vec::new();
    let mut i: usize = 0;
    while i < v.len()
        invariant
            i <= v.len(),
            all_in_domain(o, v@),
            v@.no_duplicates(),
            r@.len() == i,
            r@.no_duplicates(),
            forall|x: usize| r@.contains(x) <==> v@.take(i as int).contains(x),
            sorted_by(o, r@),
            all_in_domain(o, r@),
        decreases v.len() - i,
    {
        let x = v[i];
        proof {
            assert(!v@.take(i as int).contains(x)) by {
                if v@.take(i as int).contains(x) {
                    let k = choose|k: int| 0 <= k < i && v@.take(i as int)[k] == x;
                    assert(v@[k] == v@[i as int]);
                }
            }
        }
        let mut p: usize = 0;
        while p < r.len() && !o.precedes_exec(x, r[p])
            invariant
                p <= r@.len(),
                o.in_domain(x as int),
                all_in_domain(o, r@),
                !r@.contains(x),
                forall|q: int| 0 <= q < p ==> o.precedes(#[trigger] r@[q] as int, x as int),
            decreases r@.len() - p,
        {
            proof {
                o.lemma_strict_total(r@[p as int] as int, x as int, x as int);
                assert(r@[p as int] != x);
            }
            p = p + 1;
        }
        let ghost old_r = r@;
        r.insert(p, x);
        proof {
            assert(r@ =~= old_r.subrange(0, p as int).push(x) + old_r.subrange(
                p as int,
                old_r.len() as int,
            ));
            assert forall|a: int, b: int| 0 <= a < b < r@.len() implies #[trigger] o.precedes(
                r@[a] as int,
                r@[b] as int,
            ) by {
                if b < p {
                    assert(r@[a] == old_r[a] && r@[b] == old_r[b]);
                } else if b == p {
                    assert(r@[a] == old_r[a]);
                } else if a == p {
                    assert(r@[b] == old_r[b - 1]);
                    if b - 1 > p {
                        assert(o.precedes(old_r[p as int] as int, old_r[b - 1] as int));
                        o.lemma_strict_total(x as int, old_r[p as int] as int, old_r[b - 1] as int);
                    }
                } else if a < p {
                    assert(r@[a] == old_r[a] && r@[b] == old_r[b - 1]);
                    assert(o.precedes(old_r[a] as int, old_r[b - 1] as int));
                } else {
                    assert(r@[a] == old_r[a - 1] && r@[b] == old_r[b - 1]);
                    assert(o.precedes(old_r[a - 1] as int, old_r[b - 1] as int));
                }
            }
            assert forall|a: int, b: int| 0 <= a < r@.len() && 0 <= b < r@.len() && a != b implies r@[a]
                != r@[b] by {
                let lo = if a < b { a } else { b };
                let hi = if a < b { b } else { a };
                assert(o.precedes(r@[lo] as int, r@[hi] as int));
                o.lemma_strict_total(r@[lo] as int, r@[lo] as int, r@[lo] as int);
            }
            assert(v@.take(i + 1) =~= v@.take(i as int).push(x));
            assert forall|y: usize| r@.contains(y) <==> v@.take(i + 1).contains(y) by {
                if r@.contains(y) {
                    let k = choose|k: int| 0 <= k < r@.len() && r@[k] == y;
                    if k == p {
                        assert(v@.take(i + 1)[i as int] == x);
                    } else {
                        if k < p {
                            assert(old_r[k] == y);
                        } else {
                            assert(old_r[k - 1] == y);
                        }
                        assert(old_r.contains(y));
                        assert(v@.take(i as int).contains(y));
                        let j = choose|j: int| 0 <= j < i && v@.take(i as int)[j] == y;
                        assert(v@.take(i + 1)[j] == y);
                    }
                    if k < p {
                        assert(old_r[k] == y);
                        assert(old_r.contains(y));
                    } else if k > p {
                        assert(old_r[k - 1] == y);
                        assert(old_r.contains(y));
                    }
                }
                if v@.take(i + 1).contains(y) && y != x {
                    assert(v@.take(i as int).contains(y));
                    assert(old_r.contains(y));
                    let k = choose|k: int| 0 <= k < old_r.len() && old_r[k] == y;
                    if k < p {
                        assert(r@[k] == y);
                    } else {
                        assert(r@[k + 1] == y);
                    }
                }
                if y == x {
                    assert(r@[p as int] == x);
                }
            }
        }
        i = i + 1;
    }
    assert(v@.take(v.len() as int) =~= v@);
    r
}

/// `prec` is a strict total order on the indices in `dom`.
pub open spec fn strict_total_on(prec: spec_fn(int, int) -> bool, dom: spec_fn(int) -> bool) -> bool {
    forall|i: int, j: int, k: int|
        dom(i) && dom(j) && dom(k) ==> {
            &&& !prec(i, i)
            &&& (i != j ==> (#[trigger] prec(i, j) || prec(j, i)))
            &&& (prec(i, j) && #[trigger] prec(j, k) ==> prec(i, k))
        }
}

/// Every element of `s` comes before every later one under `prec`.
pub open spec fn sorted_with(prec: spec_fn(int, int) -> bool, s: Seq<usize>) -> bool {
    forall|a: int, b: int| 0 <= a < b < s.len() ==> #[trigger] prec(s[a] as int, s[b] as int)
}

/// Two sorted lists of the same distinct indices are the same list.
pub proof fn lemma_sorted_unique(
    prec: spec_fn(int, int) -> bool,
    dom: spec_fn(int) -> bool,
    s: Seq<usize>,
    t: Seq<usize>,
)
    requires
        strict_total_on(prec, dom),
        forall|k: int| 0 <= k < s.len() ==> dom(#[trigger] s[k] as int),
        forall|k: int| 0 <= k < t.len() ==> dom(#[trigger] t[k] as int),
        sorted_with(prec, s),
        sorted_with(prec, t),
        s.len() == t.len(),
        forall|x: usize| s.contains(x) <==> t.contains(x),
    ensures
        s == t,
    decreases s.len(),
{
    if s.len() > 0 {
        let n = s.len() - 1;
        assert(t.contains(s[n]));
        assert(s.contains(t[n]));
        let ks = choose|k: int| 0 <= k < s.len() && s[k] == t[n];
        let kt = choose|k: int| 0 <= k < t.len() && t[k] == s[n];
        assert(dom(s[n] as int) && dom(t[n] as int));
        if s[n] != t[n] {
            assert(prec(s[n] as int, t[n] as int) || prec(t[n] as int, s[n] as int));
            if kt < n {
                assert(prec(t[kt] as int, t[n] as int));
            }
            if ks < n {
                assert(prec(s[ks] as int, s[n] as int));
            }
            assert(!prec(s[n] as int, s[n] as int));
            assert(!prec(t[n] as int, t[n] as int));
            if prec(s[n] as int, t[n] as int) {
                assert(prec(t[n] as int, s[n] as int) ==> prec(s[n] as int, s[n] as int));
            }
        }
        let s2 = s.drop_last();
        let t2 = t.drop_last();
        assert forall|x: usize| s2.contains(x) <==> t2.contains(x) by {
            if s2.contains(x) {
                let k = choose|k: int| 0 <= k < s2.len() && s2[k] == x;
                assert(prec(s[k] as int, s[n] as int));
                assert(dom(s[k] as int));
                assert(!prec(s[n] as int, s[n] as int));
                assert(x != s[n]);
                assert(t.contains(x));
                let j = choose|j: int| 0 <= j < t.len() && t[j] == x;
                assert(j != n);
                assert(t2[j] == x);
            }
            if t2.contains(x) {
                let k = choose|k: int| 0 <= k < t2.len() && t2[k] == x;
                assert(prec(t[k] as int, t[n] as int));
                assert(dom(t[k] as int));
                assert(!prec(t[n] as int, t[n] as int));
                assert(x != t[n]);
                assert(s.contains(x));
                let j = choose|j: int| 0 <= j < s.len() && s[j] == x;
                assert(j != n);
                assert(s2[j] == x);
            }
        }
        assert(sorted_with(prec, s2)) by {
            assert forall|a: int, b: int| 0 <= a < b < s2.len() implies #[trigger] prec(
                s2[a] as int,
                s2[b] as int,
            ) by {
                assert(s2[a] == s[a] && s2[b] == s[b]);
            }
        }
        assert(sorted_with(prec, t2)) by {
            assert forall|a: int, b: int| 0 <= a < b < t2.len() implies #[trigger] prec(
                t2[a] as int,
                t2[b] as int,
            ) by {
                assert(t2[a] == t[a] && t2[b] == t[b]);
            }
        }
        assert forall|k: int| 0 <= k < s2.len() implies dom(#[trigger] s2[k] as int) by {
            assert(s2[k] == s[k]);
        }
        assert forall|k: int| 0 <= k < t2.len() implies dom(#[trigger] t2[k] as int) by {
            assert(t2[k] == t[k]);
        }
        lemma_sorted_unique(prec, dom, s2, t2);
        assert(s =~= s2.push(s[n]));
        assert(t =~= t2.push(t[n]));
    }
}

} // verus!
