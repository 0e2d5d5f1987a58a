use crate::schedule::Schedule;
use crate::simulated_annealing::SimulatedAnnealing;
use vstd::prelude::*;

verus! {

/// Builder for an annealing configuration.
pub struct SimulatedAnnealingBuilder {
    pub temperature: Schedule,
    pub max_k: usize,
}

impl Default for SimulatedAnnealingBuilder {
    fn default() -> (r: SimulatedAnnealingBuilder)
        ensures
            r.temperature == (Schedule::Linear {
                intercept: crate::schedule::ONE_BITS,
                slope: crate::schedule::CENTI_BITS,
            }),
            r.max_k == 100,
    {
        SimulatedAnnealingBuilder { temperature: Schedule::linear_default(), max_k: 100 }
    }
}

impl SimulatedAnnealingBuilder {
    /// A builder with the stock schedule and a budget of 100 steps.
    pub fn new() -> (r: SimulatedAnnealingBuilder)
        ensures
            r.temperature == (Schedule::Linear {
                intercept: crate::schedule::ONE_BITS,
                slope: crate::schedule::CENTI_BITS,
            }),
            r.max_k == 100,
    {
        SimulatedAnnealingBuilder::default()
    }

    /// Replaces both knobs of the configuration.
    pub fn with_temperature_and_max_iter(self, temperature: Schedule, max_k: usize) -> (r:
        SimulatedAnnealingBuilder)
        ensures
            r.temperature == temperature,
            r.max_k == max_k,
    {
        SimulatedAnnealingBuilder { temperature, max_k }
    }

    /// Finishes the configuration.
    pub fn build(self) -> (r: SimulatedAnnealing)
        ensures
            r.temperature == self.temperature,
            r.max_k == self.max_k,
    {
        SimulatedAnnealing { temperature: self.temperature, max_k: self.max_k }
    }
}

} // verus!
