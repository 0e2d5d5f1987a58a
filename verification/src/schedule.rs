use vstd::prelude::*;

verus! {

/// The IEEE-754 double-precision bit pattern of 1.0.
pub const ONE_BITS: u64 = 0x3FF0000000000000;

/// The IEEE-754 double-precision bit pattern of 0.01.
pub const CENTI_BITS: u64 = 0x3F847AE147AE147B;

/// The IEEE-754 double-precision bit pattern of 0.0.
pub const ZERO_BITS: u64 = 0;

/// A temperature schedule: a pure function from the 0-based step index to
/// a temperature.  Schedules are first-order data — named decay families
/// with parameters carried as IEEE-754 double bit patterns — so a
/// configuration can be stored, compared and serialized instead of hiding
/// behind an opaque closure.  The driver evaluates the schedule in double
/// precision at `clamped_index(k)`, never at a raw singular index, and
/// must treat a non-positive temperature as a fault.
#[derive(Clone, Copy, PartialEq, Eq, Structural, Debug)]
pub enum Schedule {
    /// `t(k) = intercept - slope * k`.
    Linear { intercept: u64, slope: u64 },
    /// `t(k) = numerator / k^exponent`; singular at `k = 0`, so the
    /// index is clamped to 1 there.
    InversePower { numerator: u64, exponent: u64 },
    /// `t(k) = numerator / k`; singular at `k = 0`, so the index is
    /// clamped to 1 there.
    Reciprocal { numerator: u64 },
}

impl Schedule {
    /// The stock schedule: linear decay `1.0 - 0.01 k`.
    pub fn linear_default() -> (r: Schedule)
        ensures
            r == (Schedule::Linear { intercept: ONE_BITS, slope: CENTI_BITS }),
    {
        Schedule::Linear { intercept: ONE_BITS, slope: CENTI_BITS }
    }

    /// The step index at which the driver evaluates this schedule for
    /// step `k`.  The quotient families divide by a power of the index,
    /// which is undefined at step 0: that step is evaluated at index 1
    /// instead of letting an infinite temperature through.
    pub fn clamped_index(&self, k: usize) -> (r: usize)
        ensures
            r == (match *self {
                Schedule::Linear { .. } => k,
                Schedule::InversePower { .. } | Schedule::Reciprocal { .. } => if k == 0 {
                    1usize
                } else {
                    k
                },
            }),
    {
        match *self {
            Schedule::Linear { .. } => k,
            Schedule::InversePower { .. } | Schedule::Reciprocal { .. } => if k == 0 {
                1
            } else {
                k
            },
        }
    }
}

impl Default for Schedule {
    fn default() -> (r: Schedule)
        ensures
            r == (Schedule::Linear { intercept: ONE_BITS, slope: CENTI_BITS }),
    {
        Schedule::linear_default()
    }
}

} // verus!
