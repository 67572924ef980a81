//! What the shooting solver computes, as mathematics: the trial
//! wavefunction for an energy, the integration pass that cuts it off, and
//! the search over energy that the passes drive.

use vstd::prelude::*;
use crate::numeric::fixed::Fixed;
use crate::numeric::fixed::round_div;
use crate::physics::potential::potential_fn;
use crate::physics::solvers::shooting::Parity;
use crate::physics::solvers::search::Search;
use crate::physics::solvers::search::SearchOutcome;
use crate::physics::solvers::search::SearchState;
use crate::physics::solvers::search::Sign;
use crate::physics::solvers::shooting::ShootingConfig;
use crate::physics::solvers::stepping::diverges;
use crate::physics::solvers::stepping::recurrence;

verus! {

/// The problem that a configuration poses: its numbers, and its potential
/// as a function of position.
pub struct ShootingProblem {
    /// The outer boundary; the domain is `[0, x_max]`, mirrored.
    pub x_max: Fixed,
    /// The grid spacing.
    pub step_size: Fixed,
    /// The first trial energy.
    pub initial_energy: Fixed,
    /// The first energy step.
    pub initial_energy_step_size: Fixed,
    /// The magnitude beyond which a sample counts as diverging.
    pub wavefunction_cutoff: Fixed,
    /// The potential energy at a position.
    pub potential: spec_fn(Fixed) -> Fixed,
    /// The magnitude of the energy step at which the search stops.
    pub energy_step_size_cutoff: Fixed,
    /// The symmetry of the solution.
    pub parity: Parity,
    /// The most iterations that one search may take.
    pub max_iterations: nat,
}

impl<F: Fn(Fixed) -> Fixed> ShootingConfig<F> {
    /// The problem that the configuration poses.
    pub open spec fn problem(self) -> ShootingProblem {
        ShootingProblem {
            x_max: self.x_max,
            step_size: self.step_size,
            initial_energy: self.initial_energy,
            initial_energy_step_size: self.intitial_energy_step_size,
            wavefunction_cutoff: self.wavefunction_cutoff,
            potential: potential_fn(self.potential),
            energy_step_size_cutoff: self.energy_step_size_cutoff,
            parity: self.parity,
            max_iterations: self.max_iterations as nat,
        }
    }
}

/// The sample mirrored to the negative half-axis.
pub open spec fn mirrored(parity: Parity, sample: Fixed) -> Fixed {
    match parity {
        Parity::Even => sample,
        Parity::Odd => sample.saturating_neg(),
    }
}

/// The points of the whole domain that a half-domain wavefunction stands
/// for: the samples mirrored in decreasing order, without the one at the
/// origin, then the samples themselves. Point `k` lies `k - (n - 1)`
/// grid steps from the origin.
pub open spec fn points_of(samples: Seq<Fixed>, parity: Parity, h: Fixed) -> Seq<(Fixed, Fixed)> {
    let n = samples.len() as int;
    Seq::new(
        if n == 0 {
            0nat
        } else {
            (2 * n - 1) as nat
        },
        |k: int|
            (
                h.spec_scale(k - (n - 1)),
                if k < n - 1 {
                    mirrored(parity, samples[n - 1 - k])
                } else {
                    samples[k - (n - 1)]
                },
            ),
    )
}

impl ShootingProblem {
    /// The number of grid points from the origin to the outer boundary,
    /// both included: `round(x_max / step_size) + 1`, as far as a `usize`
    /// can count. Without a positive step size, or with a boundary on the
    /// negative half-axis, the origin is the only point.
    pub open spec fn grid_points(self) -> int {
        if self.step_size@ > 0 && self.x_max@ >= 0 {
            let n = round_div(self.x_max@, self.step_size@) + 1;
            if n > usize::MAX {
                usize::MAX as int
            } else {
                n
            }
        } else {
            1
        }
    }

    /// A configuration is well formed where its step size is positive, its
    /// grid has at least two points, a `usize` can count them, and the
    /// outermost lies in the range of the numbers.
    pub open spec fn well_formed(self) -> bool {
        &&& self.step_size@ > 0
        &&& 1 <= round_div(self.x_max@, self.step_size@) < usize::MAX
        &&& round_div(self.x_max@, self.step_size@) * self.step_size@ <= i128::MAX
    }

    /// The position of grid point `i`.
    pub open spec fn position(self, i: int) -> Fixed {
        self.step_size.spec_scale(i)
    }

    /// The sample at the origin: one for even parity, zero for odd.
    pub open spec fn first_seed(self) -> Fixed {
        match self.parity {
            Parity::Even => Fixed::one(),
            Parity::Odd => Fixed::zero(),
        }
    }

    /// The sample one step from the origin: one for even parity (no
    /// slope), the step size for odd (unit slope).
    pub open spec fn second_seed(self) -> Fixed {
        match self.parity {
            Parity::Even => Fixed::one(),
            Parity::Odd => self.step_size,
        }
    }

    /// Sample `i` of the trial wavefunction for `energy`, integrated
    /// without regard to divergence.
    pub open spec fn trial(self, energy: Fixed, i: nat) -> Fixed
        decreases i,
    {
        if i == 0 {
            self.first_seed()
        } else if i == 1 {
            self.second_seed()
        } else {
            recurrence(
                self.trial(energy, (i - 2) as nat),
                self.trial(energy, (i - 1) as nat),
                energy,
                (self.potential)(self.position(i - 1)),
                self.step_size,
            )
        }
    }

    /// Whether a sample has left the band that the cutoff allows.
    pub open spec fn diverging(self, sample: Fixed) -> bool {
        diverges(sample, self.wavefunction_cutoff)
    }

    /// The number of samples at which a pass stops that has `n` of them
    /// already: `n` where the grid is full or the last sample diverges.
    pub open spec fn pass_len_from(self, energy: Fixed, n: nat) -> nat
        decreases self.grid_points() - n,
    {
        if n >= self.grid_points() || self.diverging(self.trial(energy, (n - 1) as nat)) {
            n
        } else {
            self.pass_len_from(energy, n + 1)
        }
    }

    /// The samples of one integration pass for `energy`: the trial
    /// wavefunction from the two seeds up to the first diverging sample,
    /// or to the outer boundary where none diverges.
    pub open spec fn pass(self, energy: Fixed) -> Seq<Fixed> {
        Seq::new(self.pass_len_from(energy, 2), |i: int| self.trial(energy, i as nat))
    }

    /// The last sample of the pass for `energy`.
    pub open spec fn terminal(self, energy: Fixed) -> Fixed {
        self.pass(energy).last()
    }

    /// The state in which a fresh solver starts.
    pub open spec fn initial_state(self) -> SearchState {
        SearchState {
            energy: self.initial_energy,
            energy_step_size: self.initial_energy_step_size,
            last_sign: Sign::Unseen,
        }
    }

    /// The search that the passes drive: its signal is the last sample of
    /// the pass for an energy.
    pub open spec fn search_rule(self) -> Search {
        Search { signal: |energy: Fixed| self.terminal(energy), cutoff: self.energy_step_size_cutoff }
    }

    /// The search from `state` with the iterations that the configuration
    /// allows.
    pub open spec fn search(self, state: SearchState) -> SearchOutcome {
        self.search_rule().run(state, self.max_iterations)
    }
}

} // verus!
