//! Laws of the shooting solver: what holds of every pass and of every
//! search, proved from the model.

use vstd::prelude::*;
use crate::numeric::fixed::Fixed;
use crate::numeric::fixed::round_div;
use crate::physics::solvers::shooting::model::mirrored;
use crate::physics::solvers::shooting::model::points_of;
use crate::physics::solvers::shooting::model::ShootingProblem;
use crate::physics::solvers::search::SearchState;
use crate::physics::solvers::shooting::Parity;

verus! {

proof fn lemma_scaled_in_range(k: int, n: int, h: int)
    by (nonlinear_arith)
    requires
        h >= 0,
        0 <= k <= n,
        n * h <= i128::MAX,
    ensures
        0 <= k * h <= i128::MAX,
        i128::MIN < (-k) * h <= 0,
        (-k) * h == -(k * h),
{
}

proof fn lemma_grid_edge_in_range(len: int, grid: int, h: int)
    by (nonlinear_arith)
    requires
        h > 0,
        0 <= len <= grid,
        grid * h <= i128::MAX,
    ensures
        len * h <= i128::MAX,
{
}

/// The points of a half-domain wavefunction whose sample at the origin is
/// its own mirror image lie at whole multiples of the grid spacing, each
/// being the mirror image of the one as far on the other side of the
/// origin: their positions are opposite, and the amplitude on the negative
/// side is that on the positive side for even parity, its negation for odd
/// parity.
pub proof fn lemma_points_are_symmetric(samples: Seq<Fixed>, parity: Parity, h: Fixed, k: int)
    requires
        h@ >= 0,
        (samples.len() - 1) * h@ <= i128::MAX,
        0 <= k < samples.len(),
        mirrored(parity, samples[0]) == samples[0],
    ensures
        points_of(samples, parity, h).len() == 2 * samples.len() - 1,
        points_of(samples, parity, h)[samples.len() - 1 + k] == (h.spec_scale(k), samples[k]),
        points_of(samples, parity, h)[samples.len() - 1 + k].0@ == k * h@,
        points_of(samples, parity, h)[samples.len() - 1 - k].0@ == -(k * h@),
        points_of(samples, parity, h)[samples.len() - 1 - k].1 == mirrored(
            parity,
            points_of(samples, parity, h)[samples.len() - 1 + k].1,
        ),
{
    let n = samples.len() as int;
    lemma_scaled_in_range(k, n - 1, h@);
}

impl ShootingProblem {
    /// A pass that has `n` samples stops with at least as many and, but
    /// for those, within the grid; it stops short of the grid only at a
    /// diverging sample, and no sample that it went beyond diverges.
    pub proof fn lemma_pass_len_from(self, energy: Fixed, n: nat)
        requires
            n >= 1,
        ensures
            n <= self.pass_len_from(energy, n),
            self.pass_len_from(energy, n) <= n || self.pass_len_from(energy, n)
                <= self.grid_points(),
            forall|i: int|
                n - 1 <= i < self.pass_len_from(energy, n) - 1 ==> !self.diverging(
                    #[trigger] self.trial(energy, i as nat),
                ),
            self.pass_len_from(energy, n) < self.grid_points() ==> self.diverging(
                self.trial(energy, (self.pass_len_from(energy, n) - 1) as nat),
            ),
        decreases self.grid_points() - n,
    {
        if n >= self.grid_points() || self.diverging(self.trial(energy, (n - 1) as nat)) {
        } else {
            self.lemma_pass_len_from(energy, n + 1);
        }
    }

    /// One integration pass holds the two seeds first, then what the
    /// finite-difference step makes of them, and has no more samples than
    /// the grid has points (but that the seeds are always two). It stops
    /// short of the outer boundary only at a sample whose magnitude
    /// exceeds the cutoff, and never goes on from such a sample.
    pub proof fn lemma_pass(self, energy: Fixed)
        ensures
            self.pass(energy).len() >= 2,
            self.pass(energy).len() == 2 || self.pass(energy).len() <= self.grid_points(),
            self.pass(energy)[0] == self.first_seed(),
            self.pass(energy)[1] == self.second_seed(),
            forall|i: int|
                0 <= i < self.pass(energy).len() ==> #[trigger] self.pass(energy)[i] == self.trial(
                    energy,
                    i as nat,
                ),
            forall|i: int|
                1 <= i < self.pass(energy).len() - 1 ==> !self.diverging(
                    #[trigger] self.pass(energy)[i],
                ),
            self.pass(energy).len() < self.grid_points() ==> self.diverging(
                self.pass(energy).last(),
            ),
    {
        self.lemma_pass_len_from(energy, 2);
    }

    /// For a well-formed configuration, a pass in which no sample before
    /// the outer boundary diverges has `round(x_max / step_size) + 1`
    /// samples.
    pub proof fn lemma_full_pass_covers_grid(self, energy: Fixed)
        requires
            self.well_formed(),
            forall|i: int|
                1 <= i < round_div(self.x_max@, self.step_size@) ==> !self.diverging(
                    #[trigger] self.trial(energy, i as nat),
                ),
        ensures
            self.pass(energy).len() == round_div(self.x_max@, self.step_size@) + 1,
    {
        self.lemma_pass_len_from(energy, 2);
        self.lemma_well_formed_grid();
    }

    /// A well-formed configuration has a positive outer boundary and a
    /// grid of `round(x_max / step_size) + 1` points, two at least.
    pub proof fn lemma_well_formed_grid(self)
        requires
            self.well_formed(),
        ensures
            self.x_max@ > 0,
            self.grid_points() == round_div(self.x_max@, self.step_size@) + 1,
            self.grid_points() >= 2,
    {
        let x = self.x_max@;
        let d = self.step_size@;
        assert(x > 0) by (nonlinear_arith)
            requires
                d > 0,
                (2 * x + d) / (2 * d) >= 1,
        ;
    }

    /// For a well-formed configuration, the points that a pass stands for
    /// are mirror images of each other: for every sample of the pass, the
    /// point `k` steps to the left of the origin has the opposite position
    /// of the point `k` steps to the right, which holds the sample, and
    /// the same amplitude for even parity, the negated one for odd parity.
    pub proof fn lemma_pass_points_are_symmetric(self, energy: Fixed, k: int)
        requires
            self.well_formed(),
            0 <= k < self.pass(energy).len(),
        ensures
            ({
                let points = points_of(self.pass(energy), self.parity, self.step_size);
                let origin = self.pass(energy).len() - 1;
                &&& points.len() == 2 * self.pass(energy).len() - 1
                &&& points[origin + k] == (self.position(k), self.pass(energy)[k])
                &&& points[origin + k].0@ == k * self.step_size@
                &&& points[origin - k].0@ == -(k * self.step_size@)
                &&& points[origin - k].1 == mirrored(self.parity, points[origin + k].1)
            }),
    {
        self.lemma_pass(energy);
        self.lemma_well_formed_grid();
        lemma_grid_edge_in_range(
            self.pass(energy).len() - 1,
            self.grid_points() - 1,
            self.step_size@,
        );
        lemma_points_are_symmetric(self.pass(energy), self.parity, self.step_size, k);
    }

    /// The magnitude of the energy step is non-increasing over the
    /// iterations of the search, and the search stops exactly when it
    /// first is at most the cutoff: the search ends in the state after some
    /// number `n` of iterations, none of the states before had converged,
    /// and it reports convergence where that state has converged; where it
    /// does not, all the iterations allowed were made.
    pub proof fn lemma_search_stops_at_first_convergence(self, state: SearchState) -> (n: nat)
        ensures
            n <= self.max_iterations,
            self.search(state).state == self.search_rule().state_after(state, n),
            self.search(state).converged == self.search(state).state.converged(
                self.energy_step_size_cutoff,
            ),
            forall|j: nat|
                j < n ==> !(#[trigger] self.search_rule().state_after(state, j)).converged(
                    self.energy_step_size_cutoff,
                ),
            !self.search(state).converged ==> n == self.max_iterations,
            forall|j: nat, k: nat|
                j <= k ==> (#[trigger] self.search_rule().state_after(
                    state,
                    k,
                )).energy_step_size.saturating_abs()@ <= (#[trigger] self.search_rule().state_after(
                    state,
                    j,
                )).energy_step_size.saturating_abs()@,
    {
        let rule = self.search_rule();
        let n = rule.lemma_run_stops_at_first_convergence(state, self.max_iterations);
        rule.lemma_run_outcome(state, self.max_iterations);
        assert forall|j: nat, k: nat| j <= k implies (#[trigger] rule.state_after(
            state,
            k,
        )).energy_step_size.saturating_abs()@ <= (#[trigger] rule.state_after(
            state,
            j,
        )).energy_step_size.saturating_abs()@ by {
            rule.lemma_energy_step_is_non_increasing(state, j, k);
        }
        n
    }

    /// A search is a function of the configuration and of the state in
    /// which it starts: from the state that a reset leaves, it ends where
    /// the search of a fresh solver with the same configuration ends.
    pub proof fn lemma_search_repeats_after_reset(self, fresh: SearchState, reset: SearchState)
        requires
            fresh == self.initial_state(),
            reset == self.initial_state(),
        ensures
            self.search(reset) == self.search(fresh),
    {
    }
}

} // verus!
