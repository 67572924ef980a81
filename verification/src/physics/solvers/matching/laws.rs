//! Laws of the matching solver: what holds of every joined wavefunction,
//! proved from the model.

use vstd::prelude::*;
use vstd::arithmetic::div_mod::lemma_fundamental_div_mod_converse;
use crate::numeric::fixed::magnitude;
use crate::numeric::fixed::Fixed;
use crate::physics::solvers::matching::model::stitched;
use crate::physics::solvers::matching::model::MatchingProblem;
use crate::physics::solvers::search::SearchState;

verus! {

proof fn lemma_magnitude_of_product(a: int, b: int)
    by (nonlinear_arith)
    ensures
        magnitude(a * b) == magnitude(a) * magnitude(b),
        b != 0 ==> ((a * b < 0) == (b < 0) <==> a >= 0) || a == 0,
        a == 0 ==> a * b == 0,
{
}

proof fn lemma_grid_point_in_range(i: int, steps: int, h: int)
    by (nonlinear_arith)
    requires
        h > 0,
        0 <= i <= steps,
    ensures
        0 <= i * h <= steps * h,
{
}

/// A number multiplied by the ratio of two others, the second of them
/// being the number itself and not zero, is the first of them: no rounding
/// comes between.
pub proof fn lemma_mul_div_cancels(number: Fixed, target: Fixed)
    requires
        number@ != 0,
    ensures
        number.mul_div(target, number) == target,
{
    let a = number@;
    let b = target@;
    lemma_magnitude_of_product(b, a);
    assert(a * b == b * a) by (nonlinear_arith);
    lemma_fundamental_div_mod_converse(magnitude(b) * magnitude(a), magnitude(a), magnitude(b), 0);
}

/// The joined wavefunction is continuous at the matching point: where the
/// right branch is not zero there, its sample at the matching point,
/// brought to the scale of the left branch as the other samples of the
/// right branch are, is the sample of the left branch, which the joined
/// wavefunction holds at that point.
pub proof fn lemma_join_is_continuous(left: Seq<Fixed>, right: Seq<Fixed>, x_min: Fixed, h: Fixed)
    requires
        left.len() >= 1,
        right.len() >= 1,
        right.last()@ != 0,
    ensures
        stitched(left, right, x_min, h).len() == left.len() + right.len() - 1,
        stitched(left, right, x_min, h)[left.len() - 1].1 == left.last(),
        right.last().mul_div(left.last(), right.last()) == left.last(),
        forall|i: int|
            left.len() <= i < left.len() + right.len() - 1 ==> (#[trigger] stitched(
                left,
                right,
                x_min,
                h,
            )[i]).1 == right[left.len() + right.len() - 2 - i].mul_div(left.last(), right.last()),
{
    lemma_mul_div_cancels(right.last(), left.last());
}

impl MatchingProblem {
    /// A search is a function of the configuration and of the state in
    /// which it starts: from the state that a reset leaves, it ends where
    /// the search of a fresh solver with the same configuration ends.
    pub proof fn lemma_search_repeats_after_reset(self, fresh: SearchState, reset: SearchState)
        requires
            fresh == self.initial_state(),
            reset == self.initial_state(),
        ensures
            self.search(reset) == self.search(fresh),
    {
    }

    /// The magnitude of the energy step is non-increasing over the
    /// iterations of the search, and the search stops exactly when it
    /// first is at most the cutoff: the search ends in the state after some
    /// number `n` of iterations, none of the states before had converged,
    /// and it reports convergence where that state has converged; where it
    /// does not, all the iterations allowed were made.
    pub proof fn lemma_search_stops_at_first_convergence(self, state: SearchState) -> (n: nat)
        ensures
            n <= self.max_iterations,
            self.search(state).state == self.search_rule().state_after(state, n),
            self.search(state).converged == self.search(state).state.converged(
                self.energy_step_size_cutoff,
            ),
            forall|j: nat|
                j < n ==> !(#[trigger] self.search_rule().state_after(state, j)).converged(
                    self.energy_step_size_cutoff,
                ),
            !self.search(state).converged ==> n == self.max_iterations,
            forall|j: nat, k: nat|
                j <= k ==> (#[trigger] self.search_rule().state_after(
                    state,
                    k,
                )).energy_step_size.saturating_abs()@ <= (#[trigger] self.search_rule().state_after(
                    state,
                    j,
                )).energy_step_size.saturating_abs()@,
    {
        let rule = self.search_rule();
        let n = rule.lemma_run_stops_at_first_convergence(state, self.max_iterations);
        rule.lemma_run_outcome(state, self.max_iterations);
        assert forall|j: nat, k: nat| j <= k implies (#[trigger] rule.state_after(
            state,
            k,
        )).energy_step_size.saturating_abs()@ <= (#[trigger] rule.state_after(
            state,
            j,
        )).energy_step_size.saturating_abs()@ by {
            rule.lemma_energy_step_is_non_increasing(state, j, k);
        }
        n
    }

    /// For a well-formed configuration, the two branches of one pass
    /// together cover the grid: the left one has a sample for every grid
    /// point up to the matching point, the right one for every grid point
    /// from there on, and the joined wavefunction has one point for every
    /// grid point, `round((x_max - x_min) / step_size) + 1` in all, point
    /// `i` lying at `x_min + i step_size`.
    pub proof fn lemma_pass_covers_grid(self, energy: Fixed, i: int)
        requires
            self.well_formed(),
            0 <= i <= self.steps(),
        ensures
            self.left_branch(energy).len() == self.match_idx + 1,
            self.right_branch(energy).len() == self.steps() - self.match_idx + 1,
            stitched(
                self.left_branch(energy),
                self.right_branch(energy),
                self.x_min,
                self.step_size,
            ).len() == self.grid_points(),
            stitched(
                self.left_branch(energy),
                self.right_branch(energy),
                self.x_min,
                self.step_size,
            )[i].0@ == self.x_min@ + i * self.step_size@,
            i <= self.match_idx ==> stitched(
                self.left_branch(energy),
                self.right_branch(energy),
                self.x_min,
                self.step_size,
            )[i].1 == self.left(energy, i as nat),
    {
        lemma_grid_point_in_range(i, self.steps(), self.step_size@);
    }
}

} // verus!
