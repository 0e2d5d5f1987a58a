use crate::pairs::{all_pairs, remove_pair};
use crate::schedule::Schedule;
use crate::simulated_annealing::SimulatedAnnealing;
use vstd::prelude::*;

verus! {

/// The IEEE-754 double-precision bit pattern of 10.0.
pub const TEN_BITS: u64 = 0x4024000000000000;

/// The IEEE-754 double-precision bit pattern of 1.2.
pub const SIX_FIFTHS_BITS: u64 = 0x3FF3333333333333;

/// Handle for the data-point streaming service.  The transport that
/// exposes it lives with the embedding application; the handle pins down
/// what the service runs: an annealed tour under the configuration and
/// move neighbourhood below, streamed one accepted state at a time.
#[derive(Debug, Default)]
pub struct MyProvider {}

impl MyProvider {
    /// The service's annealing configuration: inverse-power decay
    /// `10 / k^1.2` with a budget of 5000 steps.
    pub fn config(&self) -> (r: SimulatedAnnealing)
        ensures
            r.temperature == (Schedule::InversePower {
                numerator: TEN_BITS,
                exponent: SIX_FIFTHS_BITS,
            }),
            r.max_k == 5000,
    {
        SimulatedAnnealing {
            temperature: Schedule::InversePower {
                numerator: TEN_BITS,
                exponent: SIX_FIFTHS_BITS,
            },
            max_k: 5000,
        }
    }

    /// The service's move neighbourhood on an `n`-point tour: every pair
    /// of positions inside `1..n`, so position 0 is pinned, except the
    /// wrap-around pair `(1, n-1)`, whose geometric move reverses the
    /// whole cycle but for one point and so wastes a trial.  An empty or
    /// single-point tour has no pairs at all.
    pub fn move_pairs(&self, n: usize) -> (r: Vec<(usize, usize)>)
        ensures
            forall|p: (usize, usize)| #[trigger]
                r@.contains(p) <==> 1 <= p.0 && p.0 < p.1 && p.1 < n && !(p.0 == 1 && p.1 + 1
                    == n),
            r@.no_duplicates(),
            forall|t: int| 0 <= t < r@.len() ==> 1 <= (#[trigger] r@[t]).0 && r@[t].0 < r@[t].1
                && r@[t].1 < n,
    {
        if n == 0 {
            let r: Vec<(usize, usize)> = Vec::new();
            return r;
        }
        let mut pairs = all_pairs(1, n);
        let ghost before = pairs@;
        let bad = (1usize, n - 1);
        remove_pair(&mut pairs, bad);
        proof {
            lemma_filter_characterizes(before, |q: (usize, usize)| q != bad);
            lemma_filter_no_duplicates(before, |q: (usize, usize)| q != bad);
            assert forall|t: int| 0 <= t < pairs@.len() implies 1 <= (#[trigger] pairs@[t]).0
                && pairs@[t].0 < pairs@[t].1 && pairs@[t].1 < n by {
                assert(pairs@.contains(pairs@[t]));
            }
        }
        pairs
    }
}

/// What a filtered sequence holds: exactly the elements of the original
/// that satisfy the predicate.
proof fn lemma_filter_characterizes<A>(s: Seq<A>, pred: spec_fn(A) -> bool)
    ensures
        forall|x: A| #[trigger] s.filter(pred).contains(x) <==> s.contains(x) && pred(x),
    decreases s.len(),
{
    reveal(Seq::filter);
    broadcast use vstd::seq_lib::lemma_seq_contains_after_push;

    if s.len() == 0 {
        assert(forall|x: A| !s.contains(x));
    } else {
        let rest = s.drop_last();
        lemma_filter_characterizes(rest, pred);
        assert(s == rest.push(s.last()));
        assert(forall|x: A| #[trigger] s.contains(x) <==> rest.contains(x) || x == s.last());
        if pred(s.last()) {
            assert(s.filter(pred) == rest.filter(pred).push(s.last()));
        } else {
            assert(s.filter(pred) == rest.filter(pred));
        }
    }
}

/// Filtering keeps a duplicate-free sequence duplicate-free.
proof fn lemma_filter_no_duplicates<A>(s: Seq<A>, pred: spec_fn(A) -> bool)
    requires
        s.no_duplicates(),
    ensures
        s.filter(pred).no_duplicates(),
    decreases s.len(),
{
    reveal(Seq::filter);
    if s.len() == 0 {
    } else {
        let rest = s.drop_last();
        assert(rest.no_duplicates());
        lemma_filter_no_duplicates(rest, pred);
        lemma_filter_characterizes(rest, pred);
        if pred(s.last()) {
            assert(!rest.contains(s.last()));
            assert(!rest.filter(pred).contains(s.last()));
            let f = rest.filter(pred);
            assert(s.filter(pred) == f.push(s.last()));
            assert forall|i: int, j: int|
                0 <= i < f.push(s.last()).len() && 0 <= j < f.push(s.last()).len() && i
                    != j implies f.push(s.last())[i] != f.push(s.last())[j] by {
                if i < f.len() && j < f.len() {
                } else if j == f.len() {
                    if f.push(s.last())[i] == s.last() {
                        assert(f.contains(s.last()));
                    }
                } else {
                    if f.push(s.last())[j] == s.last() {
                        assert(f.contains(s.last()));
                    }
                }
            }
        }
    }
}

} // verus!
