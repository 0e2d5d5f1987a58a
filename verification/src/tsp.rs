use crate::moves::{plain_swap, swapped};
use crate::pairs::{all_pairs, lemma_pairs_still_valid};
use crate::random::{shuffle, Rng};
use crate::state::State;
use crate::tsp2::{copied_points, Point};
use vstd::prelude::*;

verus! {

/// The travelling-salesman instantiation of the generic engine: the
/// state is a tour, the conservation law is "same multiset of points",
/// and one move is a plain swap of two tour positions.
#[derive(Debug, PartialEq)]
pub struct Tsp {
    pub state: Vec<Point>,
}

impl Tsp {
    /// An owned copy of the tour, point for point.
    pub fn copied(&self) -> (r: Tsp)
        ensures
            r.state@ == self.state@,
    {
        Tsp { state: copied_points(&self.state) }
    }

    /// The swap candidates of this tour: exactly one per unordered pair
    /// of positions — all `C(n, 2)` of them, witnessed by a
    /// duplicate-free enumeration of the pairs that names each
    /// candidate's move — in an order drawn from the given source.
    pub fn next_states(&self, rng: &mut Rng) -> (r: Vec<Tsp>)
        ensures
            r@.len() == (self.state@.len() * (self.state@.len() - 1)) / 2,
            forall|t: int|
                0 <= t < r@.len() ==> (#[trigger] r@[t]).state@.to_multiset()
                    == self.state@.to_multiset(),
            exists|ps: Seq<(usize, usize)>|
                #![auto]
                ps.no_duplicates() && (forall|p: (usize, usize)|
                    ps.contains(p) <==> p.0 < p.1 && p.1 < self.state@.len()) && r@.len()
                    == ps.len() && (forall|t: int|
                    0 <= t < ps.len() ==> r@[t].state@ == swapped(
                        self.state@,
                        ps[t].0 as int,
                        ps[t].1 as int,
                    )),
    {
        let n = self.state.len();
        let mut swaps = all_pairs(0, n);
        let ghost before = swaps@;
        shuffle(&mut swaps, rng);
        proof {
            broadcast use vstd::seq_lib::group_to_multiset_ensures;

            lemma_pairs_still_valid(before, swaps@, n as int);
            assert forall|p: (usize, usize)| #[trigger]
                swaps@.contains(p) <==> before.contains(p) by {
                assert(swaps@.contains(p) <==> swaps@.to_multiset().count(p) > 0);
                assert(before.contains(p) <==> before.to_multiset().count(p) > 0);
            }
            before.lemma_multiset_has_no_duplicates();
            swaps@.lemma_multiset_has_no_duplicates_conv();
        }
        let mut out: Vec<Tsp> = Vec::new();
        let mut t: usize = 0;
        while t < swaps.len()
            invariant
                t == out@.len(),
                t <= swaps@.len(),
                forall|u: int| 0 <= u < swaps@.len() ==> (#[trigger] swaps@[u]).0 < swaps@[u].1
                    && swaps@[u].1 < self.state@.len(),
                forall|u: int|
                    0 <= u < out@.len() ==> (#[trigger] out@[u]).state@ == swapped(
                        self.state@,
                        swaps@[u].0 as int,
                        swaps@[u].1 as int,
                    ),
                forall|u: int|
                    0 <= u < out@.len() ==> (#[trigger] out@[u]).state@.to_multiset()
                        == self.state@.to_multiset(),
            decreases swaps@.len() - t,
        {
            let (i, j) = swaps[t];
            let mut c = copied_points(&self.state);
            plain_swap(&mut c, i, j);
            out.push(Tsp { state: c });
            t = t + 1;
        }
        proof {
            assert(out@.len() == swaps@.len());
            assert(swaps@.len() == before.len());
            assert(n > 0 ==> before.len() == (n - 0) * (n - 0 - 1) / 2);
            assert(n == 0 ==> before.len() == 0);
            assert(out@.len() == (self.state@.len() * (self.state@.len() - 1)) / 2);
            let ps = swaps@;
            assert(ps.no_duplicates() && (forall|p: (usize, usize)|
                ps.contains(p) <==> p.0 < p.1 && p.1 < self.state@.len()) && out@.len()
                == ps.len() && (forall|u: int|
                0 <= u < ps.len() ==> out@[u].state@ == swapped(
                    self.state@,
                    ps[u].0 as int,
                    ps[u].1 as int,
                )));
        }
        out
    }
}

impl State for Tsp {
    /// Two tours are compatible when they visit the same points.
    open spec fn compatible(self, other: Self) -> bool {
        self.state@.to_multiset() == other.state@.to_multiset()
    }

    /// One move away: the other tour is this one with two positions
    /// swapped.
    open spec fn in_neighbourhood(self, other: Self) -> bool {
        exists|i: int, j: int|
            0 <= i < j < self.state@.len() && other.state@ == swapped(self.state@, i, j)
    }

    /// One candidate per unordered pair of positions.
    open spec fn neighbourhood_size(self) -> nat {
        ((self.state@.len() * (self.state@.len() - 1)) / 2) as nat
    }

    proof fn lemma_compatible_refl(a: Self) {
    }

    proof fn lemma_compatible_trans(a: Self, b: Self, c: Self) {
    }

    fn duplicate(&self) -> (r: Self) {
        self.copied()
    }

    fn get_next_states(&self, rng: &mut Rng) -> (r: Vec<Self>) {
        let r = self.next_states(rng);
        proof {
            assert(self.state@.len() * (self.state@.len() - 1) >= 0) by (nonlinear_arith);
            let ps = choose|ps: Seq<(usize, usize)>|
                #![auto]
                ps.no_duplicates() && (forall|p: (usize, usize)|
                    ps.contains(p) <==> p.0 < p.1 && p.1 < self.state@.len()) && r@.len()
                    == ps.len() && (forall|t: int|
                    0 <= t < ps.len() ==> r@[t].state@ == swapped(
                        self.state@,
                        ps[t].0 as int,
                        ps[t].1 as int,
                    ));
            assert forall|t: int| 0 <= t < r@.len() implies self.in_neighbourhood(
                #[trigger] r@[t],
            ) by {
                assert(ps.contains(ps[t]));
                assert(r@[t].state@ == swapped(self.state@, ps[t].0 as int, ps[t].1 as int));
            }
        }
        r
    }
}

} // verus!
