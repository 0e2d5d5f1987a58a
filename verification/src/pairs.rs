use vstd::prelude::*;

verus! {

/// All position pairs `(a, b)` with `lo <= a < b < hi`, each exactly once,
/// in lexicographic order.  These are the `C(n, 2)` unordered moves of one
/// neighbourhood, the counterpart of enumerating all two-element
/// combinations of the index range.
pub fn all_pairs(lo: usize, hi: usize) -> (r: Vec<(usize, usize)>)
    ensures
        forall|p: (usize, usize)| #[trigger]
            r@.contains(p) <==> lo <= p.0 && p.0 < p.1 && p.1 < hi,
        r@.no_duplicates(),
        forall|t: int| 0 <= t < r@.len() ==> lo <= #[trigger] r@[t].0 && r@[t].0 < r@[t].1
            && r@[t].1 < hi,
        lo < hi ==> r@.len() == (hi - lo) * (hi - lo - 1) / 2,
        hi <= lo ==> r@.len() == 0,
{
    let mut r: Vec<(usize, usize)> = Vec::new();
    let mut a = lo;
    while a < hi
        invariant
            lo <= a,
            a <= hi || a == lo,
            2 * r@.len() == (a - lo) * (2 * hi - lo - a - 1),
            forall|p: (usize, usize)| #[trigger]
                r@.contains(p) <==> lo <= p.0 && p.0 < p.1 && p.1 < hi && p.0 < a,
            r@.no_duplicates(),
        decreases hi - a,
    {
        let ghost len_at_row: int = r@.len() as int;
        let mut b = a + 1;
        while b < hi
            invariant
                lo <= a,
                a < b,
                b <= hi,
                r@.len() == len_at_row + (b - a - 1),
                forall|p: (usize, usize)| #[trigger]
                    r@.contains(p) <==> lo <= p.0 && p.0 < p.1 && p.1 < hi && (p.0 < a || (p.0 == a
                        && p.1 < b)),
                r@.no_duplicates(),
            decreases hi - b,
        {
            let ghost prev = r@;
            proof {
                assert(!prev.contains((a, b)));
            }
            r.push((a, b));
            proof {
                broadcast use vstd::seq_lib::lemma_seq_contains_after_push;

                assert(forall|p: (usize, usize)|
                    r@.contains(p) <==> #[trigger] prev.push((a, b)).contains(p));
                assert forall|i: int, j: int|
                    0 <= i < r@.len() && 0 <= j < r@.len() && i != j implies r@[i] != r@[j] by {
                    if i < prev.len() && j < prev.len() {
                    } else if j == prev.len() {
                        if r@[i] == (a, b) {
                            assert(prev.contains((a, b)));
                        }
                    } else {
                        if r@[j] == (a, b) {
                            assert(prev.contains((a, b)));
                        }
                    }
                }
            }
            b = b + 1;
        }
        proof {
            assert(r@.len() == len_at_row + (hi - a - 1));
            assert((a + 1 - lo) * (2 * hi - lo - (a + 1) - 1) == (a - lo) * (2 * hi - lo - a - 1)
                + 2 * (hi - a - 1)) by (nonlinear_arith);
        }
        a = a + 1;
    }
    proof {
        assert forall|t: int| 0 <= t < r@.len() implies lo <= r@[t].0 && r@[t].0 < r@[t].1
            && r@[t].1 < hi by {
            assert(r@.contains(r@[t]));
        }
        if lo < hi {
            assert(2 * r@.len() == (hi - lo) * (hi - lo - 1));
            assert(r@.len() == (hi - lo) * (hi - lo - 1) / 2);
        }
    }
    r
}

/// Removes every occurrence of one pair, keeping the order of the rest:
/// the counterpart of retaining all tuples other than a degenerate one.
pub fn remove_pair(v: &mut Vec<(usize, usize)>, bad: (usize, usize))
    ensures
        final(v)@ == old(v)@.filter(|p: (usize, usize)| p != bad),
{
    let ghost orig = old(v)@;
    let mut r: Vec<(usize, usize)> = Vec::new();
    let mut t: usize = 0;
    proof {
        reveal(Seq::filter);
        assert(orig.take(0) =~= Seq::<(usize, usize)>::empty());
        assert(orig.take(0).filter(|p: (usize, usize)| p != bad) =~= Seq::<(
            usize,
            usize,
        )>::empty());
    }
    while t < v.len()
        invariant
            t <= v@.len(),
            v@ == orig,
            r@ == orig.take(t as int).filter(|p: (usize, usize)| p != bad),
        decreases v@.len() - t,
    {
        let p = v[t];
        proof {
            broadcast use vstd::seq_lib::group_seq_properties;

            orig.lemma_take_succ_push(t as int);
            orig.take(t as int).lemma_filter_push(p, |q: (usize, usize)| q != bad);
            assert(orig.take(t + 1).filter(|q: (usize, usize)| q != bad) == orig.take(
                t as int,
            ).push(p).filter(|q: (usize, usize)| q != bad));
        }
        if !(p.0 == bad.0 && p.1 == bad.1) {
            proof {
                assert(p != bad);
            }
            r.push(p);
        } else {
            proof {
                assert(p == bad);
            }
        }
        t = t + 1;
    }
    proof {
        assert(orig.take(orig.len() as int) =~= orig);
    }
    *v = r;
}

/// Elementwise validity of a pair list survives any permutation of it.
pub proof fn lemma_pairs_still_valid(a: Seq<(usize, usize)>, b: Seq<(usize, usize)>, n: int)
    requires
        a.to_multiset() == b.to_multiset(),
        forall|t: int| 0 <= t < a.len() ==> (#[trigger] a[t]).0 < a[t].1 && a[t].1 < n,
    ensures
        forall|t: int| 0 <= t < b.len() ==> (#[trigger] b[t]).0 < b[t].1 && b[t].1 < n,
{
    broadcast use vstd::seq_lib::group_to_multiset_ensures;

    assert forall|t: int| 0 <= t < b.len() implies (#[trigger] b[t]).0 < b[t].1 && b[t].1
        < n by {
        assert(b.contains(b[t]));
        assert(b.to_multiset().count(b[t]) > 0);
        assert(a.to_multiset().count(b[t]) > 0);
        assert(a.contains(b[t]));
        let w = choose|i: int| 0 <= i < a.len() && a[i] == b[t];
        assert(a[w].0 < a[w].1 && a[w].1 < n);
    }
}

} // verus!
