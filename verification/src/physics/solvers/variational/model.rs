//! What the variational solver computes, as mathematics: the energy
//! estimate of a trial wavefunction, and the search over the parameter of
//! the trial family that lowers it.

use vstd::prelude::*;
use crate::numeric::fixed::Fixed;
use crate::numeric::fixed::round_div;
use crate::physics::potential::potential_fn;
use crate::physics::solvers::search::refined;
use crate::physics::solvers::variational::VariationalConfig;
use crate::physics::solvers::variational::VariationalState;

verus! {

/// The value that a trial family returns for the parameter `alpha` at `x`.
pub open spec fn family_value<G: Fn(Fixed, Fixed) -> Fixed>(
    family: G,
    alpha: Fixed,
    x: Fixed,
) -> Fixed {
    choose|v: Fixed| call_ensures(family, (alpha, x), v)
}

/// A trial family is pure where it accepts every parameter and position
/// and returns one value for each.
pub open spec fn is_pure_family<G: Fn(Fixed, Fixed) -> Fixed>(family: G) -> bool {
    &&& forall|alpha: Fixed, x: Fixed| call_requires(family, (alpha, x))
    &&& forall|alpha: Fixed, x: Fixed, v: Fixed|
        call_ensures(family, (alpha, x), v) ==> v == family_value(family, alpha, x)
}

/// A trial family as a function of parameter and position.
pub open spec fn family_fn<G: Fn(Fixed, Fixed) -> Fixed>(family: G) -> spec_fn(
    Fixed,
    Fixed,
) -> Fixed {
    |alpha: Fixed, x: Fixed| family_value(family, alpha, x)
}

/// The problem that a configuration poses: its numbers, and its potential
/// and trial family as functions.
pub struct VariationalProblem {
    /// The grid spacing.
    pub step_size: Fixed,
    /// The potential energy at a position.
    pub potential: spec_fn(Fixed) -> Fixed,
    /// The left boundary.
    pub x_min: Fixed,
    /// The right boundary.
    pub x_max: Fixed,
    /// The trial wavefunction for a parameter, at a position.
    pub trial: spec_fn(Fixed, Fixed) -> Fixed,
    /// The first parameter.
    pub initial_parameter: Fixed,
    /// The first parameter step.
    pub initial_parameter_step: Fixed,
    /// The magnitude of the parameter step at which the search stops.
    pub parameter_step_cutoff: Fixed,
    /// The most iterations that one search may take.
    pub max_iterations: nat,
}

/// How a search ended.
pub struct VariationalOutcome {
    /// The state in which it stopped.
    pub state: VariationalState,
    /// Whether the parameter step had fallen to the cutoff.
    pub converged: bool,
}

impl<F: Fn(Fixed) -> Fixed, G: Fn(Fixed, Fixed) -> Fixed> VariationalConfig<F, G> {
    /// The problem that the configuration poses.
    pub open spec fn problem(self) -> VariationalProblem {
        VariationalProblem {
            step_size: self.step_size,
            potential: potential_fn(self.potential),
            x_min: self.x_min,
            x_max: self.x_max,
            trial: family_fn(self.trial),
            initial_parameter: self.initial_parameter,
            initial_parameter_step: self.initial_parameter_step,
            parameter_step_cutoff: self.parameter_step_cutoff,
            max_iterations: self.max_iterations as nat,
        }
    }
}

/// What one grid point adds to the norm of a wavefunction: the square of
/// its sample there.
pub open spec fn local_norm(cur: Fixed) -> Fixed {
    cur.saturating_mul(cur)
}

/// What one grid point adds to the expectation value of the Hamiltonian:
/// `psi (-psi'' / 2 + V psi)` with the second derivative taken as the
/// difference `(prev - 2 cur + next) / h^2` of the samples around it.
pub open spec fn local_energy(prev: Fixed, cur: Fixed, next: Fixed, v: Fixed, h: Fixed) -> Fixed {
    cur.mul_div(
        cur.double().saturating_sub(prev).saturating_sub(next).halve(),
        h.saturating_mul(h),
    ).saturating_add(v.saturating_mul(cur).saturating_mul(cur))
}

impl VariationalProblem {
    /// The number of grid steps from the left boundary to the right one,
    /// `round((x_max - x_min) / step_size)`.
    pub open spec fn steps(self) -> int {
        round_div(self.x_max@ - self.x_min@, self.step_size@)
    }

    /// A configuration is well formed where its step size is positive, its
    /// right boundary lies to the right of the left one, no further than
    /// the numbers reach, the grid has a point between the boundaries, a
    /// `usize` can count the grid points, and every grid point and its
    /// distance from the left boundary lie in the range of the numbers.
    pub open spec fn well_formed(self) -> bool {
        &&& self.step_size@ > 0
        &&& self.x_min@ < self.x_max@
        &&& self.x_max@ - self.x_min@ <= i128::MAX
        &&& 2 <= self.steps() < usize::MAX
        &&& self.steps() * self.step_size@ <= i128::MAX
        &&& self.x_min@ + self.steps() * self.step_size@ <= i128::MAX
    }

    /// The position of grid point `i`.
    pub open spec fn position(self, i: int) -> Fixed {
        self.x_min.saturating_add(self.step_size.spec_scale(i))
    }

    /// The trial wavefunction for `alpha` at grid point `i`.
    pub open spec fn sample(self, alpha: Fixed, i: int) -> Fixed {
        (self.trial)(alpha, self.position(i))
    }

    /// The sum of what the grid points `1` to `k` add to the expectation
    /// value of the Hamiltonian.
    pub open spec fn numerator(self, alpha: Fixed, k: nat) -> Fixed
        decreases k,
    {
        if k == 0 {
            Fixed::zero()
        } else {
            self.numerator(alpha, (k - 1) as nat).saturating_add(
                local_energy(
                    self.sample(alpha, k - 1),
                    self.sample(alpha, k as int),
                    self.sample(alpha, (k + 1) as int),
                    (self.potential)(self.position(k as int)),
                    self.step_size,
                ),
            )
        }
    }

    /// The sum of what the grid points `1` to `k` add to the norm.
    pub open spec fn norm(self, alpha: Fixed, k: nat) -> Fixed
        decreases k,
    {
        if k == 0 {
            Fixed::zero()
        } else {
            self.norm(alpha, (k - 1) as nat).saturating_add(
                local_norm(self.sample(alpha, k as int)),
            )
        }
    }

    /// The energy estimate of the trial wavefunction for `alpha`: the
    /// expectation value of the Hamiltonian over the norm, both summed
    /// over the grid points between the boundaries.
    pub open spec fn energy_of(self, alpha: Fixed) -> Fixed {
        self.numerator(alpha, (self.steps() - 1) as nat).saturating_div(
            self.norm(alpha, (self.steps() - 1) as nat),
        )
    }

    /// The trial wavefunction for `alpha` over the grid, by increasing
    /// position.
    pub open spec fn points(self, alpha: Fixed) -> Seq<(Fixed, Fixed)> {
        Seq::new((self.steps() + 1) as nat, |i: int| (self.position(i), self.sample(alpha, i)))
    }

    /// The state in which a fresh solver starts.
    pub open spec fn initial_state(self) -> VariationalState {
        VariationalState {
            parameter: self.initial_parameter,
            energy: self.energy_of(self.initial_parameter),
            parameter_step: self.initial_parameter_step,
        }
    }

    /// The search has converged where the magnitude of its parameter step
    /// is at most the cutoff.
    pub open spec fn converged(self, state: VariationalState) -> bool {
        !state.parameter_step.exceeds(self.parameter_step_cutoff)
    }

    /// One iteration of the search: the parameter moved by the step is
    /// accepted where its energy estimate is lower than the current one;
    /// where it is not, the step is halved and reversed.
    pub open spec fn step(self, state: VariationalState) -> VariationalState {
        let candidate = state.parameter.saturating_add(state.parameter_step);
        if self.energy_of(candidate)@ < state.energy@ {
            VariationalState {
                parameter: candidate,
                energy: self.energy_of(candidate),
                parameter_step: state.parameter_step,
            }
        } else {
            VariationalState {
                parameter: state.parameter,
                energy: state.energy,
                parameter_step: refined(state.parameter_step),
            }
        }
    }

    /// The state after `k` iterations.
    pub open spec fn state_after(self, state: VariationalState, k: nat) -> VariationalState
        decreases k,
    {
        if k == 0 {
            state
        } else {
            self.step(self.state_after(state, (k - 1) as nat))
        }
    }

    /// The search from `state` with at most `fuel` iterations: it stops in
    /// the first converged state, or unconverged when the iterations are
    /// used up.
    pub open spec fn run(self, state: VariationalState, fuel: nat) -> VariationalOutcome
        decreases fuel,
    {
        if self.converged(state) {
            VariationalOutcome { state, converged: true }
        } else if fuel == 0 {
            VariationalOutcome { state, converged: false }
        } else {
            self.run(self.step(state), (fuel - 1) as nat)
        }
    }

    /// The search from `state` with the iterations that the configuration
    /// allows.
    pub open spec fn search(self, state: VariationalState) -> VariationalOutcome {
        self.run(state, self.max_iterations)
    }
}

} // verus!
