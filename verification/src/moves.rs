use vstd::prelude::*;

verus! {

/// The sequence that results from a plain swap move: the elements at
/// positions `i` and `j` change places and everything else stays put.
pub open spec fn swapped<T>(s: Seq<T>, i: int, j: int) -> Seq<T> {
    s.update(i, s[j]).update(j, s[i])
}

/// The sequence that results from a geometric (2-opt) move on positions
/// `lo <= hi`: the two endpoints change places and the stretch strictly
/// between them is reversed.  Together that is one segment reversal of
/// `lo..=hi`, the edge exchange that keeps a cyclic tour simple.
pub open spec fn geometric_swapped<T>(s: Seq<T>, lo: int, hi: int) -> Seq<T> {
    Seq::new(s.len(), |k: int| if lo <= k <= hi { s[lo + hi - k] } else { s[k] })
}

/// A plain swap never duplicates or drops an element: the result holds the
/// same multiset of elements as the input, for every sequence and move.
pub proof fn lemma_swapped_permutes<T>(s: Seq<T>, i: int, j: int)
    requires
        0 <= i <= j < s.len(),
    ensures
        swapped(s, i, j).to_multiset() == s.to_multiset(),
        swapped(s, i, j).len() == s.len(),
{
    if i == j {
        assert(swapped(s, i, j) =~= s);
    } else {
        let t = swapped(s, i, j);
        assert(t =~= s.take(i) + seq![s[j]] + s.subrange(i + 1, j) + seq![s[i]] + s.skip(j + 1));
        assert(s =~= s.take(i) + seq![s[i]] + s.subrange(i + 1, j) + seq![s[j]] + s.skip(j + 1));
        lemma_five_piece_multiset(
            s.take(i),
            seq![s[j]],
            s.subrange(i + 1, j),
            seq![s[i]],
            s.skip(j + 1),
        );
        lemma_five_piece_multiset(
            s.take(i),
            seq![s[i]],
            s.subrange(i + 1, j),
            seq![s[j]],
            s.skip(j + 1),
        );
        assert(t.to_multiset() =~= s.to_multiset());
    }
}

/// The multiset of a five-way concatenation is the sum of the pieces'
/// multisets, which lets two pieces trade places without changing it.
proof fn lemma_five_piece_multiset<T>(a: Seq<T>, b: Seq<T>, c: Seq<T>, d: Seq<T>, e: Seq<T>)
    ensures
        (a + b + c + d + e).to_multiset() == a.to_multiset().add(b.to_multiset()).add(
            c.to_multiset(),
        ).add(d.to_multiset()).add(e.to_multiset()),
{
    vstd::seq_lib::lemma_multiset_commutative(a, b);
    vstd::seq_lib::lemma_multiset_commutative(a + b, c);
    vstd::seq_lib::lemma_multiset_commutative(a + b + c, d);
    vstd::seq_lib::lemma_multiset_commutative(a + b + c + d, e);
}

/// A geometric move never duplicates or drops an element either: it is a
/// reversal of one segment, so the multiset of elements is unchanged, for
/// every sequence and move.
pub proof fn lemma_geometric_swapped_permutes<T>(s: Seq<T>, lo: int, hi: int)
    requires
        0 <= lo <= hi < s.len(),
    ensures
        geometric_swapped(s, lo, hi).to_multiset() == s.to_multiset(),
        geometric_swapped(s, lo, hi).len() == s.len(),
{
    let t = geometric_swapped(s, lo, hi);
    let mid = s.subrange(lo, hi + 1);
    assert(t =~= s.take(lo) + mid.reverse() + s.skip(hi + 1));
    assert(s =~= s.take(lo) + mid + s.skip(hi + 1));
    mid.lemma_reverse_to_multiset();
    vstd::seq_lib::lemma_multiset_commutative(s.take(lo), mid.reverse());
    vstd::seq_lib::lemma_multiset_commutative(s.take(lo) + mid.reverse(), s.skip(hi + 1));
    vstd::seq_lib::lemma_multiset_commutative(s.take(lo), mid);
    vstd::seq_lib::lemma_multiset_commutative(s.take(lo) + mid, s.skip(hi + 1));
    assert(t.to_multiset() =~= s.to_multiset());
}

/// Reverses a whole vector by popping from the back and pushing.
fn reversed_vec<T>(v: Vec<T>) -> (r: Vec<T>)
    ensures
        r@ == v@.reverse(),
{
    let mut rest = v;
    let ghost orig = rest@;
    let ghost n: int = orig.len() as int;
    let mut r: Vec<T> = Vec::new();
    proof {
        assert(rest@ =~= orig.subrange(0, rest@.len() as int));
        assert(r@ =~= orig.subrange(rest@.len() as int, n).reverse());
    }
    while rest.len() != 0
        invariant
            n == orig.len(),
            rest@.len() <= n,
            rest@ == orig.subrange(0, rest@.len() as int),
            r@ == orig.subrange(rest@.len() as int, n).reverse(),
        decreases rest@.len(),
    {
        let ghost before = rest@;
        let ghost lb: int = rest@.len() as int;
        let popped = rest.pop();
        let x = popped.unwrap();
        proof {
            assert(rest@ == before.subrange(0, lb - 1));
            assert(forall|k: int| 0 <= k < lb - 1 ==> before.subrange(0, lb - 1)[k] == before[k]);
            assert(rest@ =~= orig.subrange(0, lb - 1));
            assert(x == before[lb - 1]);
            assert(before[lb - 1] == orig.subrange(0, lb)[lb - 1]);
            assert(x == orig[lb - 1]);
            assert(orig.subrange(lb - 1, n).reverse() =~= orig.subrange(lb, n).reverse().push(x));
        }
        r.push(x);
    }
    proof {
        assert(orig.subrange(0, n) =~= orig);
        assert(r@ =~= orig.reverse());
    }
    r
}

/// Applies the geometric (2-opt) move to positions `i` and `j`, in either
/// order: the points at the two positions change places and the stretch
/// strictly between them is reversed in place.
pub fn geometric_swap<T>(points: &mut Vec<T>, i: usize, j: usize)
    requires
        i < old(points).len(),
        j < old(points).len(),
    ensures
        final(points)@ == geometric_swapped(
            old(points)@,
            if i <= j { i as int } else { j as int },
            if i <= j { j as int } else { i as int },
        ),
        final(points)@.to_multiset() == old(points)@.to_multiset(),
        final(points).len() == old(points).len(),
{
    let lo = if i <= j { i } else { j };
    let hi = if i <= j { j } else { i };
    let ghost orig = points@;
    let mut tail = points.split_off(hi + 1);
    let mid = points.split_off(lo);
    let mut rev = reversed_vec(mid);
    points.append(&mut rev);
    points.append(&mut tail);
    proof {
        assert(points@ =~= orig.take(lo as int) + orig.subrange(lo as int, hi + 1).reverse()
            + orig.skip(hi + 1));
        assert(points@ =~= geometric_swapped(orig, lo as int, hi as int));
        lemma_geometric_swapped_permutes(orig, lo as int, hi as int);
    }
}

/// Applies a plain swap move: the elements at positions `i` and `j` change
/// places.
pub fn plain_swap<T: Copy>(points: &mut Vec<T>, i: usize, j: usize)
    requires
        i < old(points).len(),
        j < old(points).len(),
    ensures
        final(points)@ == swapped(old(points)@, i as int, j as int),
        final(points)@.to_multiset() == old(points)@.to_multiset(),
        final(points).len() == old(points).len(),
{
    let ghost orig = points@;
    let a = points[i];
    let b = points[j];
    points.set(i, b);
    points.set(j, a);
    proof {
        let lo = if i <= j { i as int } else { j as int };
        let hi = if i <= j { j as int } else { i as int };
        lemma_swapped_permutes(orig, lo, hi);
        assert(swapped(orig, lo, hi) =~= swapped(orig, i as int, j as int));
        assert(points@ =~= swapped(orig, i as int, j as int));
    }
}

} // verus!
