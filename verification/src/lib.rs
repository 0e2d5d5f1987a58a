//! Simulated annealing for the Euclidean travelling-salesman problem.
//!
//! The crate verifies the combinatorial heart of the search: tour moves,
//! neighbourhood enumeration, the annealing state machines and the
//! construction heuristic all carry contracts, and the central invariant
//! — a run never duplicates or drops a point of its tour — is proved.
//! Scalar quantities such as distances, energies and temperatures are
//! IEEE-754 doubles; they are carried through the library as their `u64`
//! bit patterns and evaluated by the embedding driver, which feeds the
//! resulting verdicts back into the verified engines.

pub mod annealer;
pub mod builder;
pub mod greedy;
pub mod moves;
pub mod pairs;
pub mod provider;
pub mod random;
pub mod schedule;
pub mod simulated_annealing;
pub mod state;
pub mod tsp;
pub mod tsp2;
