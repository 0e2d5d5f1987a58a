use rand::seq::SliceRandom;
use rand::SeedableRng;
use vstd::prelude::*;

verus! {

#[verifier::external_type_specification]
#[verifier::external_body]
pub struct ExStdRng(rand::rngs::StdRng);

/// An explicitly owned random source.  Every draw the library makes goes
/// through a value of this type, which the caller hands to an engine at
/// its entry point, so a run started from a fixed seed (and judged by a
/// driver that also seeds its sampling) can be replayed exactly.
pub struct Rng {
    inner: rand::rngs::StdRng,
}

impl Rng {
    /// Relies on rand's `StdRng::seed_from_u64` (`SeedableRng`): the same
    /// seed always yields the same generator state.
    #[verifier::external_body]
    pub fn from_seed(seed: u64) -> (r: Rng) {
        Rng { inner: rand::rngs::StdRng::seed_from_u64(seed) }
    }

    /// Relies on rand's `StdRng::from_entropy`: a generator seeded from
    /// the operating system, for runs that need no replay.
    #[verifier::external_body]
    pub fn from_entropy() -> (r: Rng) {
        Rng { inner: rand::rngs::StdRng::from_entropy() }
    }
}

/// Relies on rand's `SliceRandom::shuffle`: it permutes the slice in
/// place, so the length and the multiset of elements are unchanged.  The
/// resulting order is determined by the generator's state; nothing is
/// assumed of it.
#[verifier::external_body]
pub fn shuffle<T>(v: &mut Vec<T>, rng: &mut Rng)
    ensures
        final(v)@.len() == old(v)@.len(),
        final(v)@.to_multiset() == old(v)@.to_multiset(),
{
    v.shuffle(&mut rng.inner);
}

} // verus!
