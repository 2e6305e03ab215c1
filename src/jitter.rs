//! The arithmetic of one jittered step: the ceiling of the draw range, the
//! clamp of a drawn value, and the draw itself.

use vstd::prelude::*;

verus! {

/// Fixed-point unit of a multiplier: a multiplier of `m` stands for the
/// factor `m / MULTIPLIER_ONE`, so this value is the factor 1.0.
pub const MULTIPLIER_ONE: u64 = 1_000_000;

/// `last` times the factor that `multiplier` stands for, in exact
/// arithmetic, truncated toward zero and saturated at `u64::MAX`.
pub open spec fn ceiling_of(last: u64, multiplier: u64) -> u64 {
    let exact = (last as int * multiplier as int) / (MULTIPLIER_ONE as int);
    if exact > u64::MAX as int {
        u64::MAX
    } else {
        exact as u64
    }
}

/// `min(max_ns, draw + 1)`: a drawn value moved off zero, then clamped.
pub open spec fn clamped_of(max_ns: u64, draw: u64) -> u64 {
    if (draw as int) < (max_ns as int) {
        (draw + 1) as u64
    } else {
        max_ns
    }
}

/// The largest value that may be drawn for the step after a delay of `last`
/// nanoseconds, with the fixed-point `multiplier`.
pub fn jitter_ceiling(last: u64, multiplier: u64) -> (r: u64)
    ensures
        r == ceiling_of(last, multiplier),
{
    proof {
        assert((last as int) * (multiplier as int) <= (u64::MAX as int) * (u64::MAX as int))
            by (nonlinear_arith);
    }
    let product: u128 = (last as u128) * (multiplier as u128);
    let exact: u128 = product / (MULTIPLIER_ONE as u128);
    if exact > u64::MAX as u128 {
        u64::MAX
    } else {
        exact as u64
    }
}

/// The delay that a drawn value gives: one more than the draw, at most `max_ns`.
pub fn clamp_draw(max_ns: u64, draw: u64) -> (r: u64)
    ensures
        r == clamped_of(max_ns, draw),
{
    if draw < max_ns {
        draw + 1
    } else {
        max_ns
    }
}

/// Relies on `rand::rng` and `Rng::random_range` on the inclusive range
/// `0..=upper`: the thread-local generator yields a value within that range,
/// which is never empty.
#[verifier::external_body]
pub(crate) fn random_at_most(upper: u64) -> (r: u64)
    ensures
        r <= upper,
{
    rand::Rng::random_range(&mut rand::rng(), 0..=upper)
}

} // verus!
