use vstd::prelude::*;

verus! {

/// A point of the plane.  The two fields carry the IEEE-754
/// double-precision bit patterns of the x and y coordinates.  The library
/// never interprets them numerically — it only moves whole points around —
/// so a tour's geometry is exactly what the caller put in.
#[derive(Clone, Copy, PartialEq, Eq, Structural, Debug, Default, Hash)]
pub struct Point(pub u64, pub u64);

/// A closed tour: the points in visiting order, the last joined back to
/// the first.
#[derive(Clone, Debug, PartialEq)]
pub struct Tsp {
    pub points: Vec<Point>,
}

/// An arbitrary total order on points (lexicographic on the coordinate
/// bit patterns), used only to write an unordered edge in a fixed way.
pub open spec fn point_le(p: Point, q: Point) -> bool {
    p.0 < q.0 || (p.0 == q.0 && p.1 <= q.1)
}

/// The undirected edge between two points: the pair written with its
/// smaller endpoint first, so that both directions of travel give the
/// same value.
pub open spec fn undirected_edge(p: Point, q: Point) -> (Point, Point) {
    if point_le(p, q) {
        (p, q)
    } else {
        (q, p)
    }
}

/// The cyclic edges of a tour: one undirected edge from each point to its
/// successor, the last point wrapping around to the first.  A tour's
/// energy is the sum of the lengths of exactly these edges, and the
/// length of an edge does not depend on the direction of travel, so any
/// two tours with the same multiset of cyclic edges have the same energy.
pub open spec fn cyclic_edges(s: Seq<Point>) -> Seq<(Point, Point)> {
    Seq::new(
        s.len(),
        |i: int|
            undirected_edge(
                s[i],
                s[
                    if i + 1 == s.len() {
                        0
                    } else {
                        i + 1
                    }
                ],
            ),
    )
}

/// The tour rotated left by `m` positions: the same cycle read from a
/// different starting point.
pub open spec fn rotated(s: Seq<Point>, m: int) -> Seq<Point> {
    s.subrange(m, s.len() as int) + s.subrange(0, m)
}

/// Reading a cycle from a different starting point keeps its multiset of
/// cyclic edges: the structural core of the energy's rotation invariance.
pub proof fn lemma_cyclic_edges_rotation(s: Seq<Point>, m: int)
    requires
        0 <= m <= s.len(),
    ensures
        cyclic_edges(rotated(s, m)).to_multiset() == cyclic_edges(s).to_multiset(),
{
    let n = s.len() as int;
    let e = cyclic_edges(s);
    let r = rotated(s, m);
    assert(r.len() == n);
    assert forall|i: int| 0 <= i < n implies cyclic_edges(r)[i] == (e.subrange(m, n) + e.subrange(
        0,
        m,
    ))[i] by {
        if i < n - m {
            assert(r[i] == s[m + i]);
            if i + 1 == n {
                assert(m == 0);
                assert(r[0] == s[m]);
            } else if i + 1 == n - m {
                assert(r[i + 1] == s[0]);
                assert(m + i + 1 == n);
            } else {
                assert(r[i + 1] == s[m + i + 1]);
            }
        } else {
            assert(r[i] == s[i - (n - m)]);
            if i + 1 == n {
                assert(r[0] == (if 0 < n - m {
                    s[m]
                } else {
                    s[0]
                }));
            } else {
                assert(r[i + 1] == s[i + 1 - (n - m)]);
            }
        }
    }
    assert(cyclic_edges(r) =~= e.subrange(m, n) + e.subrange(0, m));
    assert(e =~= e.subrange(0, m) + e.subrange(m, n));
    vstd::seq_lib::lemma_multiset_commutative(e.subrange(m, n), e.subrange(0, m));
    vstd::seq_lib::lemma_seq_union_to_multiset_commutative(e.subrange(m, n), e.subrange(0, m));
    vstd::seq_lib::lemma_multiset_commutative(e.subrange(0, m), e.subrange(m, n));
}

/// Travelling a cycle in the opposite direction keeps its multiset of
/// cyclic edges: the structural core of the energy's mirror invariance.
pub proof fn lemma_cyclic_edges_reversal(s: Seq<Point>)
    ensures
        cyclic_edges(s.reverse()).to_multiset() == cyclic_edges(s).to_multiset(),
{
    let n = s.len() as int;
    if n == 0 {
        assert(cyclic_edges(s.reverse()) =~= cyclic_edges(s));
    } else {
        let e = cyclic_edges(s);
        let r = s.reverse();
        assert forall|i: int| 0 <= i < n implies cyclic_edges(r)[i] == (e.subrange(
            0,
            n - 1,
        ).reverse() + seq![e[n - 1]])[i] by {
            if i < n - 1 {
                assert(r[i] == s[n - 1 - i]);
                assert(r[i + 1] == s[n - 2 - i]);
                assert(e.subrange(0, n - 1).reverse()[i] == e[n - 2 - i]);
                assert(e[n - 2 - i] == undirected_edge(s[n - 2 - i], s[n - 1 - i]));
            } else {
                assert(r[n - 1] == s[0]);
                assert(r[0] == s[n - 1]);
                assert(e[n - 1] == undirected_edge(s[n - 1], s[0]));
            }
        }
        assert(cyclic_edges(r) =~= e.subrange(0, n - 1).reverse() + seq![e[n - 1]]);
        e.subrange(0, n - 1).lemma_reverse_to_multiset();
        vstd::seq_lib::lemma_multiset_commutative(e.subrange(0, n - 1).reverse(), seq![e[n - 1]]);
        vstd::seq_lib::lemma_multiset_commutative(e.subrange(0, n - 1), seq![e[n - 1]]);
        assert(e =~= e.subrange(0, n - 1) + seq![e[n - 1]]);
    }
}

/// The wrap-around geometric move `(1, n-1)` only reads the same cycle
/// backwards from another starting point: it leaves the multiset of
/// cyclic edges — and with it the energy — unchanged, which is why a
/// neighbourhood may drop that pair as a wasted trial.
pub proof fn lemma_wraparound_move_keeps_edges(s: Seq<Point>)
    requires
        3 <= s.len(),
    ensures
        crate::moves::geometric_swapped(s, 1, s.len() - 1) == rotated(s.reverse(), s.len() - 1),
        cyclic_edges(crate::moves::geometric_swapped(s, 1, s.len() - 1)).to_multiset()
            == cyclic_edges(s).to_multiset(),
{
    let n = s.len() as int;
    let g = crate::moves::geometric_swapped(s, 1, n - 1);
    let r = rotated(s.reverse(), n - 1);
    assert forall|k: int| 0 <= k < n implies g[k] == r[k] by {
        if k == 0 {
            assert(r[0] == s.reverse()[n - 1]);
        } else {
            assert(r[k] == s.reverse()[k - 1]);
            assert(g[k] == s[n - k]);
        }
    }
    assert(g =~= r);
    lemma_cyclic_edges_rotation(s.reverse(), n - 1);
    lemma_cyclic_edges_reversal(s);
}

/// An owned copy of a tour buffer.
pub fn copied_points(v: &Vec<Point>) -> (r: Vec<Point>)
    ensures
        r@ == v@,
{
    let mut r: Vec<Point> = Vec::new();
    let mut t: usize = 0;
    while t < v.len()
        invariant
            t <= v@.len(),
            r@ == v@.take(t as int),
        decreases v@.len() - t,
    {
        let p = v[t];
        proof {
            v@.lemma_take_succ_push(t as int);
        }
        r.push(p);
        t = t + 1;
    }
    proof {
        assert(v@.take(v@.len() as int) =~= v@);
    }
    r
}

} // verus!
