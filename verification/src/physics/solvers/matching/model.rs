//! What the matching solver computes, as mathematics: the two branches of
//! the trial wavefunction for an energy, their mismatch at the matching
//! point, the search that the mismatch drives, and the joined wavefunction.

use vstd::prelude::*;
use crate::numeric::fixed::Fixed;
use crate::numeric::fixed::round_div;
use crate::physics::potential::potential_fn;
use crate::physics::solvers::matching::MatchingConfig;
use crate::physics::solvers::search::Search;
use crate::physics::solvers::search::SearchOutcome;
use crate::physics::solvers::search::SearchState;
use crate::physics::solvers::search::Sign;
use crate::physics::solvers::stepping::recurrence;

verus! {

/// The problem that a configuration poses: its numbers, and its potential
/// as a function of position.
pub struct MatchingProblem {
    /// The grid spacing.
    pub step_size: Fixed,
    /// The first trial energy.
    pub initial_energy: Fixed,
    /// The first energy step.
    pub initial_energy_step_size: Fixed,
    /// The potential energy at a position.
    pub potential: spec_fn(Fixed) -> Fixed,
    /// The magnitude of the energy step at which the search stops.
    pub energy_step_size_cutoff: Fixed,
    /// The left boundary.
    pub x_min: Fixed,
    /// The right boundary.
    pub x_max: Fixed,
    /// The grid index at which the two branches meet.
    pub match_idx: int,
    /// The most iterations that one search may take.
    pub max_iterations: nat,
}

impl<F: Fn(Fixed) -> Fixed> MatchingConfig<F> {
    /// The problem that the configuration poses.
    pub open spec fn problem(self) -> MatchingProblem {
        MatchingProblem {
            step_size: self.step_size,
            initial_energy: self.initial_energy,
            initial_energy_step_size: self.initial_energy_step_size,
            potential: potential_fn(self.potential),
            energy_step_size_cutoff: self.energy_step_size_cutoff,
            x_min: self.x_min,
            x_max: self.x_max,
            match_idx: self.match_idx as int,
            max_iterations: self.max_iterations as nat,
        }
    }
}

/// The mismatch of two branches at the matching point, from the last two
/// samples of each: the Wronskian `left * right' - right * left'` with the
/// slopes taken as differences toward each branch's own side, times the
/// grid spacing. `left_before` and `left_at` are the left branch one step
/// before the matching point and at it, `right_at` and `right_after` the
/// right branch at it and one step after.
pub open spec fn mismatch_of(
    left_before: Fixed,
    left_at: Fixed,
    right_at: Fixed,
    right_after: Fixed,
) -> Fixed {
    left_at.saturating_mul(right_after.saturating_sub(right_at)).saturating_sub(
        right_at.saturating_mul(left_at.saturating_sub(left_before)),
    )
}

/// The wavefunction over the whole domain that two branches stand for,
/// each given from its own boundary inward and ending at the matching
/// point: the left branch as it is, then the right branch without its
/// sample at the matching point, every sample of it multiplied by the
/// ratio of the two branches there, so that the two agree at the matching
/// point. Point `i` lies at `x_min + i h`. Without samples on either side
/// there are no points.
pub open spec fn stitched(left: Seq<Fixed>, right: Seq<Fixed>, x_min: Fixed, h: Fixed) -> Seq<
    (Fixed, Fixed),
> {
    if left.len() == 0 || right.len() == 0 {
        Seq::empty()
    } else {
        let n = left.len() + right.len() - 1;
        Seq::new(
            n as nat,
            |i: int|
                (
                    x_min.saturating_add(h.spec_scale(i)),
                    if i < left.len() {
                        left[i]
                    } else {
                        right[n - 1 - i].mul_div(left.last(), right.last())
                    },
                ),
        )
    }
}

impl MatchingProblem {
    /// The number of grid steps from the left boundary to the right one,
    /// `round((x_max - x_min) / step_size)`.
    pub open spec fn steps(self) -> int {
        round_div(self.x_max@ - self.x_min@, self.step_size@)
    }

    /// The number of grid points, both boundaries included.
    pub open spec fn grid_points(self) -> int {
        self.steps() + 1
    }

    /// A configuration is well formed where its step size is positive, its
    /// right boundary lies to the right of the left one, no further than
    /// the numbers reach, a `usize` can count the grid points, every grid
    /// point and its distance from the left boundary lie in the range of
    /// the numbers, and the matching point is a grid point that is no
    /// boundary.
    pub open spec fn well_formed(self) -> bool {
        &&& self.step_size@ > 0
        &&& self.x_min@ < self.x_max@
        &&& self.x_max@ - self.x_min@ <= i128::MAX
        &&& self.steps() < usize::MAX
        &&& 1 <= self.match_idx < self.steps()
        &&& self.steps() * self.step_size@ <= i128::MAX
        &&& self.x_min@ + self.steps() * self.step_size@ <= i128::MAX
    }

    /// The position of grid point `i`.
    pub open spec fn position(self, i: int) -> Fixed {
        self.x_min.saturating_add(self.step_size.spec_scale(i))
    }

    /// Sample `i` of the branch that starts at the left boundary: zero at
    /// the boundary, the step size one step inward, then what the
    /// finite-difference step makes of them.
    pub open spec fn left(self, energy: Fixed, i: nat) -> Fixed
        decreases i,
    {
        if i == 0 {
            Fixed::zero()
        } else if i == 1 {
            self.step_size
        } else {
            recurrence(
                self.left(energy, (i - 2) as nat),
                self.left(energy, (i - 1) as nat),
                energy,
                (self.potential)(self.position(i - 1)),
                self.step_size,
            )
        }
    }

    /// Sample `j` of the branch that starts at the right boundary,
    /// counted from that boundary inward: zero at the boundary, the step
    /// size one step inward, then what the finite-difference step makes
    /// of them. Sample `j` lies at grid point `steps - j`.
    pub open spec fn right(self, energy: Fixed, j: nat) -> Fixed
        decreases j,
    {
        if j == 0 {
            Fixed::zero()
        } else if j == 1 {
            self.step_size
        } else {
            recurrence(
                self.right(energy, (j - 2) as nat),
                self.right(energy, (j - 1) as nat),
                energy,
                (self.potential)(self.position(self.steps() - (j - 1))),
                self.step_size,
            )
        }
    }

    /// The left branch from the boundary to the matching point.
    pub open spec fn left_branch(self, energy: Fixed) -> Seq<Fixed> {
        Seq::new((self.match_idx + 1) as nat, |i: int| self.left(energy, i as nat))
    }

    /// The right branch from the boundary to the matching point.
    pub open spec fn right_branch(self, energy: Fixed) -> Seq<Fixed> {
        Seq::new(
            (self.steps() - self.match_idx + 1) as nat,
            |j: int| self.right(energy, j as nat),
        )
    }

    /// The mismatch of the two branches for `energy`.
    pub open spec fn mismatch(self, energy: Fixed) -> Fixed {
        mismatch_of(
            self.left(energy, (self.match_idx - 1) as nat),
            self.left(energy, self.match_idx as nat),
            self.right(energy, (self.steps() - self.match_idx) as nat),
            self.right(energy, (self.steps() - self.match_idx - 1) as nat),
        )
    }

    /// The state in which a fresh solver starts.
    pub open spec fn initial_state(self) -> SearchState {
        SearchState {
            energy: self.initial_energy,
            energy_step_size: self.initial_energy_step_size,
            last_sign: Sign::Unseen,
        }
    }

    /// The search that the passes drive: its signal is the mismatch of the
    /// two branches for an energy.
    pub open spec fn search_rule(self) -> Search {
        Search { signal: |energy: Fixed| self.mismatch(energy), cutoff: self.energy_step_size_cutoff }
    }

    /// The search from `state` with the iterations that the configuration
    /// allows.
    pub open spec fn search(self, state: SearchState) -> SearchOutcome {
        self.search_rule().run(state, self.max_iterations)
    }
}

} // verus!
