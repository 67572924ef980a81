//! What the solvers that integrate share: the finite-difference step and
//! the test for divergence.

use vstd::prelude::*;
use crate::numeric::fixed::Fixed;

verus! {

/// The three-point finite-difference step for `psi'' = 2 (V - E) psi`:
/// the sample that follows `prev` and `cur` on a grid of spacing `h`, where
/// the potential at `cur` is `potential` and the trial energy is `energy`,
/// `2 cur - prev - 2 (energy - potential) h^2 cur`.
pub open spec fn recurrence(
    prev: Fixed,
    cur: Fixed,
    energy: Fixed,
    potential: Fixed,
    h: Fixed,
) -> Fixed {
    cur.double().saturating_sub(prev).saturating_sub(
        energy.saturating_sub(potential).double().saturating_mul(
            h.saturating_mul(h),
        ).saturating_mul(cur),
    )
}

/// The sample that follows `prev` and `cur`. The step does not depend on
/// the sign of `h`, so it serves both directions of integration.
#[verifier::when_used_as_spec(recurrence)]
pub fn next_sample(prev: Fixed, cur: Fixed, energy: Fixed, potential: Fixed, h: Fixed) -> (next:
    Fixed)
    ensures
        next == recurrence(prev, cur, energy, potential, h),
{
    cur.double().saturating_sub(prev).saturating_sub(
        energy.saturating_sub(potential).double().saturating_mul(
            h.saturating_mul(h),
        ).saturating_mul(cur),
    )
}

/// A sample diverges where its magnitude is greater than the cutoff.
pub open spec fn diverges(sample: Fixed, cutoff: Fixed) -> bool {
    sample.exceeds(cutoff)
}

/// Whether a sample diverges.
#[verifier::when_used_as_spec(diverges)]
pub fn is_diverging(sample: Fixed, cutoff: Fixed) -> (diverging: bool)
    ensures
        diverging == diverges(sample, cutoff),
{
    sample.exceeds(cutoff)
}

} // verus!
