use crate::tsp2::Point;
use vstd::multiset::Multiset;
use vstd::prelude::*;

verus! {

/// The index a stable linear scan with strict-less updates settles on:
/// the first position holding the minimum of the sequence.
pub open spec fn first_min_index(s: Seq<u64>) -> int
    decreases s.len(),
{
    if s.len() <= 1 {
        0
    } else {
        let m = first_min_index(s.drop_last());
        if s.last() < s[m] {
            s.len() - 1
        } else {
            m
        }
    }
}

/// What `first_min_index` names: a position of the minimum, with every
/// earlier position strictly larger — the first-found tie-break of a
/// stable linear scan.
pub proof fn lemma_first_min_index_spec(s: Seq<u64>)
    requires
        s.len() > 0,
    ensures
        0 <= first_min_index(s) < s.len(),
        forall|j: int| 0 <= j < s.len() ==> s[first_min_index(s)] <= #[trigger] s[j],
        forall|j: int| 0 <= j < first_min_index(s) ==> #[trigger] s[j] > s[first_min_index(s)],
    decreases s.len(),
{
    if s.len() > 1 {
        lemma_first_min_index_spec(s.drop_last());
        assert(forall|j: int| 0 <= j < s.len() - 1 ==> s.drop_last()[j] == #[trigger] s[j]);
    }
}

/// Nearest-neighbour tour construction as a state machine.
///
/// The builder keeps the bookkeeping exact: the tour opens with the last
/// point of the input, every step moves one remaining point to the end of
/// the tour, and nothing is ever duplicated or dropped.  Which remaining
/// point is "nearest" is a distance comparison in double precision, so
/// the driver measures and names the point of each step by its index.
pub struct GreedyBuilder {
    remaining: Vec<Point>,
    tour: Vec<Point>,
    initial: Ghost<Seq<Point>>,
}

impl GreedyBuilder {
    /// The partial tour built so far.
    pub closed spec fn tour_view(self) -> Seq<Point> {
        self.tour@
    }

    /// The points not yet placed, in their current scan order.
    pub closed spec fn remaining_view(self) -> Seq<Point> {
        self.remaining@
    }

    /// The collection the construction started from.
    pub closed spec fn initial_view(self) -> Seq<Point> {
        self.initial@
    }

    /// Internal consistency: tour and remainder together are exactly the
    /// initial collection, and a non-empty construction is anchored at
    /// the initial collection's last point.
    pub closed spec fn wf(self) -> bool {
        &&& self.tour@.to_multiset().add(self.remaining@.to_multiset())
            == self.initial@.to_multiset()
        &&& self.initial@.len() > 0 ==> self.tour@.len() > 0 && self.tour@[0]
            == self.initial@[self.initial@.len() - 1]
        &&& self.initial@.len() == 0 ==> self.tour@.len() == 0 && self.remaining@.len() == 0
    }

    /// Starts from the given collection.  An empty collection yields the
    /// empty tour; otherwise the collection's last point opens the tour
    /// and the rest wait to be chosen.
    pub fn new(points: Vec<Point>) -> (r: GreedyBuilder)
        ensures
            r.wf(),
            r.initial_view() == points@,
            points@.len() > 0 ==> r.tour_view() == seq![points@[points@.len() - 1]]
                && r.remaining_view() == points@.take(points@.len() - 1),
            points@.len() == 0 ==> r.tour_view().len() == 0 && r.remaining_view().len() == 0,
    {
        let ghost initial = points@;
        let mut remaining = points;
        let mut tour: Vec<Point> = Vec::new();
        let popped = remaining.pop();
        match popped {
            Some(p) => {
                tour.push(p);
                proof {
                    broadcast use vstd::seq_lib::group_to_multiset_ensures;
                    broadcast use vstd::multiset::group_multiset_axioms;

                    assert(tour@ =~= seq![initial[initial.len() - 1]]);
                    assert(initial =~= remaining@ + tour@);
                    vstd::seq_lib::lemma_multiset_commutative(tour@, remaining@);
                    vstd::seq_lib::lemma_seq_union_to_multiset_commutative(tour@, remaining@);
                    assert(tour@.to_multiset().add(remaining@.to_multiset())
                        == initial.to_multiset());
                }
            },
            None => {
                proof {
                    assert(initial =~= remaining@ + tour@);
                    vstd::seq_lib::lemma_multiset_commutative(tour@, remaining@);
                    vstd::seq_lib::lemma_seq_union_to_multiset_commutative(tour@, remaining@);
                    assert(tour@.to_multiset().add(remaining@.to_multiset())
                        == initial.to_multiset());
                }
            },
        }
        GreedyBuilder { remaining, tour, initial: Ghost(initial) }
    }

    /// Whether every point has been placed.
    pub fn done(&self) -> (r: bool)
        ensures
            r == (self.remaining_view().len() == 0),
    {
        self.remaining.len() == 0
    }

    /// The points still to be chosen, for the driver to measure.
    pub fn remaining(&self) -> (r: &Vec<Point>)
        ensures
            r@ == self.remaining_view(),
    {
        &self.remaining
    }

    /// The most recently placed point: the anchor the driver measures
    /// distances from.
    pub fn last_added(&self) -> (r: Point)
        requires
            self.tour_view().len() > 0,
        ensures
            r == self.tour_view().last(),
    {
        self.tour[self.tour.len() - 1]
    }

    /// Moves the `i`-th remaining point — the one the driver found
    /// nearest — to the end of the tour.
    pub fn take(&mut self, i: usize)
        requires
            old(self).wf(),
            i < old(self).remaining_view().len(),
        ensures
            final(self).wf(),
            final(self).initial_view() == old(self).initial_view(),
            final(self).tour_view() == old(self).tour_view().push(
                old(self).remaining_view()[i as int],
            ),
            final(self).remaining_view() == old(self).remaining_view().remove(i as int),
    {
        let ghost old_tour = self.tour@;
        let ghost old_rem = self.remaining@;
        let p = self.remaining.remove(i);
        self.tour.push(p);
        proof {
            broadcast use vstd::seq_lib::group_to_multiset_ensures;

            assert(self.tour@.to_multiset() =~= old_tour.to_multiset().insert(p));
            assert(self.remaining@.to_multiset() =~= old_rem.to_multiset().remove(p));
            assert(old_rem.to_multiset().count(p) > 0);
            assert(self.tour@.to_multiset().add(self.remaining@.to_multiset())
                =~= old_tour.to_multiset().add(old_rem.to_multiset()));
        }
    }

    /// Moves the remaining point nearest to the anchor — under the given
    /// distances — to the end of the tour.  `distance_bits` holds, for
    /// each remaining point in order, the IEEE-754 bit pattern of its
    /// distance from the anchor; on the non-negative doubles that
    /// distances are, unsigned order of the bit patterns coincides with
    /// numeric order.  Ties break to the first nearest point of a stable
    /// linear scan.
    pub fn take_nearest(&mut self, distance_bits: &Vec<u64>)
        requires
            old(self).wf(),
            old(self).remaining_view().len() > 0,
            distance_bits@.len() == old(self).remaining_view().len(),
        ensures
            final(self).wf(),
            final(self).initial_view() == old(self).initial_view(),
            final(self).tour_view() == old(self).tour_view().push(
                old(self).remaining_view()[first_min_index(distance_bits@)],
            ),
            final(self).remaining_view() == old(self).remaining_view().remove(
                first_min_index(distance_bits@),
            ),
    {
        let mut best: usize = 0;
        let mut t: usize = 1;
        proof {
            assert(distance_bits@.take(1) =~= seq![distance_bits@[0]]);
        }
        while t < distance_bits.len()
            invariant
                1 <= t <= distance_bits@.len(),
                best as int == first_min_index(distance_bits@.take(t as int)),
                best < t,
            decreases distance_bits@.len() - t,
        {
            proof {
                assert(distance_bits@.take(t + 1).drop_last() =~= distance_bits@.take(t as int));
                assert(distance_bits@.take(t + 1).last() == distance_bits@[t as int]);
            }
            if distance_bits[t] < distance_bits[best] {
                best = t;
            }
            t = t + 1;
        }
        proof {
            assert(distance_bits@.take(distance_bits@.len() as int) =~= distance_bits@);
        }
        self.take(best);
    }

    /// Hands the finished tour back: a permutation of the initial
    /// collection, anchored at its last point.
    pub fn into_tour(self) -> (r: Vec<Point>)
        requires
            self.wf(),
            self.remaining_view().len() == 0,
        ensures
            r@ == self.tour_view(),
            r@.to_multiset() == self.initial_view().to_multiset(),
            r@.len() == self.initial_view().len(),
            self.initial_view().len() > 0 ==> r@.len() > 0 && r@[0] == self.initial_view().last(),
    {
        proof {
            broadcast use vstd::seq_lib::group_to_multiset_ensures;

            assert(self.remaining@ =~= Seq::<Point>::empty());
            assert(self.remaining@.to_multiset() =~= Multiset::<Point>::empty());
            assert(self.tour@.to_multiset().add(Multiset::<Point>::empty())
                =~= self.tour@.to_multiset());
            self.tour@.to_multiset_ensures();
            self.initial@.to_multiset_ensures();
        }
        self.tour
    }
}

} // verus!
