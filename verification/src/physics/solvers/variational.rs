//! Variational method for the ground state of the stationary Schrodinger
//! equation in one dimension.
//!
//! The wavefunction is taken from a family with one parameter. For every
//! parameter the expectation value of the Hamiltonian over the norm is an
//! upper estimate of the ground-state energy; a search over the parameter
//! that only accepts what lowers the estimate closes in on the best
//! member of the family.

use vstd::prelude::*;
use crate::numeric::fixed::magnitude_of;
use crate::numeric::fixed::Fixed;
use crate::physics::potential::is_pure;
use crate::physics::solvers::SolveError;
use self::model::is_pure_family;

pub mod laws;
pub mod model;

verus! {

/// Configuration for the variational solver.
pub struct VariationalConfig<F, G> {
    /// The grid spacing.
    pub step_size: Fixed,
    /// The potential energy at a position.
    pub potential: F,
    /// The left boundary of the domain.
    pub x_min: Fixed,
    /// The right boundary of the domain.
    pub x_max: Fixed,
    /// The trial wavefunction for a parameter, at a position.
    pub trial: G,
    /// The first parameter.
    pub initial_parameter: Fixed,
    /// The first parameter step.
    pub initial_parameter_step: Fixed,
    /// The search stops once the magnitude of the parameter step is at
    /// most this.
    pub parameter_step_cutoff: Fixed,
    /// The most iterations that one search may take.
    pub max_iterations: usize,
}

/// Where the search over the parameter stands.
#[derive(Clone, Copy, PartialEq, Eq, Structural, Debug)]
pub struct VariationalState {
    /// The best parameter found.
    pub parameter: Fixed,
    /// The energy estimate for that parameter.
    pub energy: Fixed,
    /// The signed amount by which the next candidate differs.
    pub parameter_step: Fixed,
}

impl<F: Copy, G: Copy> Clone for VariationalConfig<F, G> {
    fn clone(&self) -> (copy: Self)
        ensures
            copy == *self,
    {
        VariationalConfig {
            step_size: self.step_size,
            potential: self.potential,
            x_min: self.x_min,
            x_max: self.x_max,
            trial: self.trial,
            initial_parameter: self.initial_parameter,
            initial_parameter_step: self.initial_parameter_step,
            parameter_step_cutoff: self.parameter_step_cutoff,
            max_iterations: self.max_iterations,
        }
    }
}

impl<F: Fn(Fixed) -> Fixed + Copy, G: Fn(Fixed, Fixed) -> Fixed + Copy> VariationalConfig<F, G> {
    /// Both functions of the configuration are pure.
    pub open spec fn pure(self) -> bool {
        is_pure(self.potential) && is_pure_family(self.trial)
    }

    /// `Ok` for a well-formed configuration.
    pub fn validate(&self) -> (checked: Result<(), SolveError>)
        ensures
            checked is Ok <==> self.problem().well_formed(),
            checked is Err ==> checked == Err::<(), SolveError>(SolveError::InvalidConfiguration),
    {
        if self.step_size.raw <= 0 || self.x_min.raw >= self.x_max.raw {
            return Err(SolveError::InvalidConfiguration);
        }
        let span: i128 = match self.x_max.raw.checked_sub(self.x_min.raw) {
            Some(span) => span,
            None => {
                return Err(SolveError::InvalidConfiguration);
            },
        };
        let steps: u128 = Fixed::from_raw(span).rounded_quotient(self.step_size);
        if steps >= usize::MAX as u128 || steps < 2 {
            return Err(SolveError::InvalidConfiguration);
        }
        let reach: u128 = match steps.checked_mul(self.step_size.raw as u128) {
            Some(reach) => reach,
            None => {
                return Err(SolveError::InvalidConfiguration);
            },
        };
        let room: u128 = if self.x_min.raw >= 0 {
            (i128::MAX - self.x_min.raw) as u128
        } else {
            (i128::MAX as u128) + magnitude_of(self.x_min.raw)
        };
        if reach <= i128::MAX as u128 && reach <= room {
            Ok(())
        } else {
            Err(SolveError::InvalidConfiguration)
        }
    }

    /// The number of grid steps from the left boundary to the right one.
    pub fn steps(&self) -> (steps: usize)
        requires
            self.problem().well_formed(),
        ensures
            steps == self.problem().steps(),
            (2 * steps - 1) * self.step_size@ <= 2 * (self.x_max@ - self.x_min@) < (2 * steps + 1)
                * self.step_size@,
    {
        let span: i128 = self.x_max.raw - self.x_min.raw;
        Fixed::from_raw(span).rounded_quotient(self.step_size) as usize
    }

    /// The position of grid point `i`.
    pub fn position(&self, i: usize) -> (x: Fixed)
        ensures
            x == self.problem().position(i as int),
    {
        self.x_min.saturating_add(self.step_size.scale(i as i128))
    }

    /// The energy estimate of the trial wavefunction for `alpha`.
    pub fn energy_estimate(&self, alpha: Fixed) -> (energy: Fixed)
        requires
            self.problem().well_formed(),
            self.pure(),
        ensures
            energy == self.problem().energy_of(alpha),
    {
        let h = self.step_size;
        let h2 = h.saturating_mul(h);
        let steps: usize = self.steps();
        let mut numerator = Fixed::zero();
        let mut norm = Fixed::zero();
        let mut prev = (self.trial)(alpha, self.position(0));
        let mut cur = (self.trial)(alpha, self.position(1));
        let mut i: usize = 1;
        while i < steps
            invariant
                self.problem().well_formed(),
                self.pure(),
                h == self.step_size,
                h2 == h.saturating_mul(h),
                steps == self.problem().steps(),
                1 <= i <= steps,
                prev == self.problem().sample(alpha, i - 1),
                cur == self.problem().sample(alpha, i as int),
                numerator == self.problem().numerator(alpha, (i - 1) as nat),
                norm == self.problem().norm(alpha, (i - 1) as nat),
            decreases steps - i,
        {
            let next = (self.trial)(alpha, self.position(i + 1));
            let v = (self.potential)(self.position(i));
            let curvature = cur.double().saturating_sub(prev).saturating_sub(next).halve();
            let local = cur.mul_div(curvature, h2).saturating_add(
                v.saturating_mul(cur).saturating_mul(cur),
            );
            numerator = numerator.saturating_add(local);
            norm = norm.saturating_add(cur.saturating_mul(cur));
            prev = cur;
            cur = next;
            i = i + 1;
        }
        numerator.saturating_div(norm)
    }
}

/// A solver that looks for the member of a trial family with the lowest
/// energy estimate.
pub struct VariationalSolver<F, G> {
    config: VariationalConfig<F, G>,
    state: VariationalState,
}

/// The state of a solver: its configuration, and where its search stands.
pub struct VariationalView<F, G> {
    pub config: VariationalConfig<F, G>,
    pub state: VariationalState,
}

impl<F, G> View for VariationalSolver<F, G> {
    type V = VariationalView<F, G>;

    closed spec fn view(&self) -> VariationalView<F, G> {
        VariationalView { config: self.config, state: self.state }
    }
}

impl<F: Fn(Fixed) -> Fixed + Copy, G: Fn(Fixed, Fixed) -> Fixed + Copy> VariationalSolver<F, G> {
    /// A solver is well formed where its configuration is and the energy
    /// that it holds is the estimate for the parameter that it holds.
    pub open spec fn wf(&self) -> bool {
        &&& self@.config.problem().well_formed()
        &&& self@.state.energy == self@.config.problem().energy_of(self@.state.parameter)
    }

    /// A solver at the start of its search, holding the first parameter
    /// and its energy estimate; an error for a configuration that is not
    /// well formed.
    pub fn new(config: &VariationalConfig<F, G>) -> (made: Result<Self, SolveError>)
        requires
            config.pure(),
        ensures
            made is Ok <==> config.problem().well_formed(),
            made is Ok ==> {
                &&& made->Ok_0.wf()
                &&& made->Ok_0@.config == *config
                &&& made->Ok_0@.state == config.problem().initial_state()
            },
            made is Err ==> made->Err_0 == SolveError::InvalidConfiguration,
    {
        match config.validate() {
            Ok(()) => Ok(
                VariationalSolver {
                    config: config.clone(),
                    state: VariationalState {
                        parameter: config.initial_parameter,
                        energy: config.energy_estimate(config.initial_parameter),
                        parameter_step: config.initial_parameter_step,
                    },
                },
            ),
            Err(e) => Err(e),
        }
    }

    /// Searches for the best parameter from the current state: until the
    /// parameter step has fallen to the cutoff, tries the parameter moved
    /// by the step and keeps it where its energy estimate is lower;
    /// where it is not, halves and reverses the step.
    pub fn solve(&mut self) -> (outcome: Result<(), SolveError>)
        requires
            old(self).wf(),
            old(self)@.config.pure(),
        ensures
            final(self).wf(),
            final(self)@.config == old(self)@.config,
            final(self)@.state == old(self)@.config.problem().search(old(self)@.state).state,
            outcome is Ok <==> old(self)@.config.problem().search(old(self)@.state).converged,
            outcome is Err ==> outcome == Err::<(), SolveError>(SolveError::NonConvergent),
    {
        let mut remaining: usize = self.config.max_iterations;
        loop
            invariant
                self@.config == old(self)@.config,
                self.wf(),
                self.config.pure(),
                self.config.problem().search(old(self)@.state) == self.config.problem().run(
                    self@.state,
                    remaining as nat,
                ),
            decreases remaining,
        {
            if !self.state.parameter_step.exceeds(self.config.parameter_step_cutoff) {
                return Ok(());
            }
            if remaining == 0 {
                return Err(SolveError::NonConvergent);
            }
            let candidate = self.state.parameter.saturating_add(self.state.parameter_step);
            let energy = self.config.energy_estimate(candidate);
            if energy.raw < self.state.energy.raw {
                self.state = VariationalState {
                    parameter: candidate,
                    energy,
                    parameter_step: self.state.parameter_step,
                };
            } else {
                self.state = VariationalState {
                    parameter: self.state.parameter,
                    energy: self.state.energy,
                    parameter_step: self.state.parameter_step.saturating_neg().halve(),
                };
            }
            remaining = remaining - 1;
        }
    }

    /// The energy estimate for the best parameter found so far.
    pub fn current_energy(&self) -> (energy: Fixed)
        ensures
            energy == self@.state.energy,
    {
        self.state.energy
    }

    /// The best parameter found so far.
    pub fn parameter(&self) -> (alpha: Fixed)
        ensures
            alpha == self@.state.parameter,
    {
        self.state.parameter
    }

    /// The signed amount by which the next candidate will differ from the
    /// best parameter.
    pub fn parameter_step(&self) -> (step: Fixed)
        ensures
            step == self@.state.parameter_step,
    {
        self.state.parameter_step
    }

    /// The left boundary of the domain.
    pub fn x_min(&self) -> (x: Fixed)
        ensures
            x == self@.config.x_min,
    {
        self.config.x_min
    }

    /// The right boundary of the domain.
    pub fn x_max(&self) -> (x: Fixed)
        ensures
            x == self@.config.x_max,
    {
        self.config.x_max
    }

    /// Puts the solver back to the start of its search.
    pub fn reset(&mut self)
        requires
            old(self).wf(),
            old(self)@.config.pure(),
        ensures
            final(self).wf(),
            final(self)@.config == old(self)@.config,
            final(self)@.state == old(self)@.config.problem().initial_state(),
    {
        self.state = VariationalState {
            parameter: self.config.initial_parameter,
            energy: self.config.energy_estimate(self.config.initial_parameter),
            parameter_step: self.config.initial_parameter_step,
        };
    }

    /// The trial wavefunction for the best parameter found so far, over
    /// the grid, by increasing position.
    pub fn wavefunction_points(&self) -> (points: Vec<(Fixed, Fixed)>)
        requires
            self.wf(),
            self@.config.pure(),
        ensures
            points@ == self@.config.problem().points(self@.state.parameter),
    {
        let steps: usize = self.config.steps();
        let alpha = self.state.parameter;
        let mut points: Vec<(Fixed, Fixed)> = Vec::new();
        let mut i: usize = 0;
        while i <= steps
            invariant
                self.wf(),
                self.config.pure(),
                steps == self.config.problem().steps(),
                alpha == self.state.parameter,
                i <= steps + 1,
                points@.len() == i,
                forall|k: int|
                    0 <= k < i ==> points@[k] == self.config.problem().points(alpha)[k],
            decreases steps + 1 - i,
        {
            let x = self.config.position(i);
            points.push((x, (self.config.trial)(alpha, x)));
            i = i + 1;
        }
        assert(points@ =~= self.config.problem().points(alpha));
        points
    }
}

} // verus!
