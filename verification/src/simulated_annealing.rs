use crate::annealer::{Annealer, MoveKind, Status};
use crate::builder::SimulatedAnnealingBuilder;
use crate::random::Rng;
use crate::schedule::Schedule;
use crate::tsp2::Point;
use vstd::prelude::*;

pub use crate::state::State;

verus! {

/// An annealing configuration: the temperature schedule and the step
/// budget `max_k`.
pub struct SimulatedAnnealing {
    pub temperature: Schedule,
    pub max_k: usize,
}

impl Default for SimulatedAnnealing {
    fn default() -> (r: SimulatedAnnealing)
        ensures
            r.temperature == (Schedule::Linear {
                intercept: crate::schedule::ONE_BITS,
                slope: crate::schedule::CENTI_BITS,
            }),
            r.max_k == 100,
    {
        SimulatedAnnealing { temperature: Schedule::linear_default(), max_k: 100 }
    }
}

impl SimulatedAnnealing {
    /// The stock configuration: linear decay and 100 steps.
    pub fn new() -> (r: SimulatedAnnealing)
        ensures
            r.temperature == (Schedule::Linear {
                intercept: crate::schedule::ONE_BITS,
                slope: crate::schedule::CENTI_BITS,
            }),
            r.max_k == 100,
    {
        SimulatedAnnealing::default()
    }

    /// A builder starting from the stock configuration.
    pub fn builder() -> (r: SimulatedAnnealingBuilder)
        ensures
            r.temperature == (Schedule::Linear {
                intercept: crate::schedule::ONE_BITS,
                slope: crate::schedule::CENTI_BITS,
            }),
            r.max_k == 100,
    {
        SimulatedAnnealingBuilder::default()
    }

    /// Starts an engine run on the given tour under this configuration's
    /// step budget.  The driver supplies the tour's energy bits, the move
    /// semantics, the move neighbourhood and the random source, then
    /// answers the engine's pending candidates, evaluating this
    /// configuration's schedule for the temperature of each step.
    pub fn start(
        &self,
        points: Vec<Point>,
        energy_bits: u64,
        kind: MoveKind,
        pairs: Vec<(usize, usize)>,
        rng: Rng,
    ) -> (r: Annealer)
        requires
            forall|t: int|
                0 <= t < pairs@.len() ==> (#[trigger] pairs@[t]).0 < pairs@[t].1 && pairs@[t].1
                    < points@.len(),
        ensures
            r.wf(),
            r.tour() == points@,
            r.initial_tour() == points@,
            r.energy() == energy_bits,
            r.kind_of() == kind,
            r.step() == 0,
            r.budget() == self.max_k as int,
            r.move_set().to_multiset() == pairs@.to_multiset(),
            r.scan_index() == 0,
            r.phase() == (if self.max_k == 0 {
                Status::Exhausted
            } else if pairs@.len() == 0 {
                Status::Converged
            } else {
                Status::Running
            }),
    {
        Annealer::new(points, energy_bits, self.max_k, kind, pairs, rng)
    }
}

} // verus!
