//! Shooting method for the stationary Schrodinger equation in one
//! dimension, for potentials that are symmetric about the origin.
//!
//! A trial wavefunction is integrated outward from the origin for a trial
//! energy. Away from an eigenvalue it runs away to one side; the side
//! changes as the energy passes an eigenvalue, and a search that halves
//! and reverses its step at every change closes in on it.

use vstd::prelude::*;
use crate::numeric::fixed::Fixed;
use crate::numeric::fixed::round_div;
use crate::physics::potential::is_pure;
use crate::physics::potential::potential_value;
use crate::physics::solvers::search::SearchState;
use crate::physics::solvers::search::Sign;
use crate::physics::solvers::stepping::is_diverging;
use crate::physics::solvers::stepping::next_sample;
use crate::physics::solvers::stepping::recurrence;
use crate::physics::solvers::SolveError;
use self::model::points_of;

pub mod laws;
pub mod model;

verus! {

/// The symmetry of the solutions that a solver looks for.
#[derive(Clone, Copy, PartialEq, Eq, Structural, Debug)]
pub enum Parity {
    Even,
    Odd,
}

/// Configuration for the shooting solver.
pub struct ShootingConfig<F> {
    /// The outer boundary; the domain is `[0, x_max]`, mirrored.
    pub x_max: Fixed,
    /// The grid spacing.
    pub step_size: Fixed,
    /// The first trial energy.
    pub initial_energy: Fixed,
    /// The first energy step.
    pub intitial_energy_step_size: Fixed,
    /// The magnitude beyond which a sample counts as diverging.
    pub wavefunction_cutoff: Fixed,
    /// The potential energy at a position.
    pub potential: F,
    /// The search stops once the magnitude of the energy step is at most
    /// this.
    pub energy_step_size_cutoff: Fixed,
    /// The symmetry of the solution.
    pub parity: Parity,
    /// The most iterations that one search may take.
    pub max_iterations: usize,
}

impl<F: Copy> Clone for ShootingConfig<F> {
    fn clone(&self) -> (copy: Self)
        ensures
            copy == *self,
    {
        ShootingConfig {
            x_max: self.x_max,
            step_size: self.step_size,
            initial_energy: self.initial_energy,
            intitial_energy_step_size: self.intitial_energy_step_size,
            wavefunction_cutoff: self.wavefunction_cutoff,
            potential: self.potential,
            energy_step_size_cutoff: self.energy_step_size_cutoff,
            parity: self.parity,
            max_iterations: self.max_iterations,
        }
    }
}

impl<F: Fn(Fixed) -> Fixed + Copy> ShootingConfig<F> {
    /// `Ok` for a well-formed configuration.
    pub fn validate(&self) -> (checked: Result<(), SolveError>)
        ensures
            checked is Ok <==> self.problem().well_formed(),
            checked is Err ==> checked == Err::<(), SolveError>(SolveError::InvalidConfiguration),
    {
        if self.step_size.raw <= 0 {
            return Err(SolveError::InvalidConfiguration);
        }
        if self.x_max.raw < 0 {
            proof {
                lemma_round_div_of_negative(self.x_max@, self.step_size@);
            }
            return Err(SolveError::InvalidConfiguration);
        }
        let steps: u128 = self.x_max.rounded_quotient(self.step_size);
        if steps < 1 || steps >= usize::MAX as u128 {
            return Err(SolveError::InvalidConfiguration);
        }
        match steps.checked_mul(self.step_size.raw as u128) {
            Some(edge) => if edge <= i128::MAX as u128 {
                Ok(())
            } else {
                Err(SolveError::InvalidConfiguration)
            },
            None => Err(SolveError::InvalidConfiguration),
        }
    }

    /// The number of grid points from the origin to the outer boundary:
    /// one more than the whole number nearest to `x_max / step_size`, as
    /// far as a `usize` can count.
    pub fn sample_count(&self) -> (count: usize)
        ensures
            count == self.problem().grid_points(),
            count >= 1,
            self.step_size@ > 0 && self.x_max@ >= 0 ==> (2 * count - 3) * self.step_size@ <= 2
                * self.x_max@,
            self.step_size@ > 0 && self.x_max@ >= 0 && count < usize::MAX ==> 2 * self.x_max@ < (2
                * count - 1) * self.step_size@,
    {
        if self.step_size.raw <= 0 || self.x_max.raw < 0 {
            return 1;
        }
        let steps: u128 = self.x_max.rounded_quotient(self.step_size);
        if steps >= usize::MAX as u128 {
            proof {
                lemma_scaled_is_monotonic(
                    2 * usize::MAX - 3,
                    2 * steps - 1,
                    self.step_size@,
                );
            }
            usize::MAX
        } else {
            (steps + 1) as usize
        }
    }
}

proof fn lemma_scaled_is_monotonic(a: int, b: int, h: int)
    by (nonlinear_arith)
    requires
        a <= b,
        h >= 0,
    ensures
        a * h <= b * h,
{
}

proof fn lemma_round_div_of_negative(x: int, d: int)
    by (nonlinear_arith)
    requires
        x < 0,
        d > 0,
    ensures
        round_div(x, d) <= 0,
{
}

/// A solver that looks for solutions of the desired parity using the
/// shooting method.
pub struct ShootingSolver<F> {
    pub config: ShootingConfig<F>,
    search: SearchState,
    wavefunction: Vec<Fixed>,
}

/// The state of a solver: its configuration, where its search stands, and
/// the samples of the trial wavefunction that it holds, by increasing
/// distance from the origin.
pub struct ShootingView<F> {
    pub config: ShootingConfig<F>,
    pub search: SearchState,
    pub samples: Seq<Fixed>,
}

impl<F> View for ShootingSolver<F> {
    type V = ShootingView<F>;

    closed spec fn view(&self) -> ShootingView<F> {
        ShootingView {
            config: self.config,
            search: self.search,
            samples: self.wavefunction@,
        }
    }
}

impl<F: Fn(Fixed) -> Fixed + Copy> ShootingSolver<F> {
    /// A solver at the start of its search, with no samples.
    pub fn new(config: &ShootingConfig<F>) -> (solver: Self)
        ensures
            solver@.config == *config,
            solver@.search == config.problem().initial_state(),
            solver@.samples == Seq::<Fixed>::empty(),
    {
        ShootingSolver {
            config: config.clone(),
            search: SearchState {
                energy: config.initial_energy,
                energy_step_size: config.intitial_energy_step_size,
                last_sign: Sign::Unseen,
            },
            wavefunction: Vec::new(),
        }
    }

    /// Applies the finite-difference step once: appends the sample that
    /// follows the two most recent ones.
    pub fn step(&mut self)
        requires
            is_pure(old(self)@.config.potential),
            old(self)@.samples.len() >= 2,
        ensures
            final(self)@.config == old(self)@.config,
            final(self)@.search == old(self)@.search,
            final(self)@.samples == old(self)@.samples.push(
                recurrence(
                    old(self)@.samples[old(self)@.samples.len() - 2],
                    old(self)@.samples[old(self)@.samples.len() - 1],
                    old(self)@.search.energy,
                    potential_value(
                        old(self)@.config.potential,
                        old(self)@.config.problem().position(old(self)@.samples.len() - 1),
                    ),
                    old(self)@.config.step_size,
                ),
            ),
    {
        let i: usize = self.wavefunction.len() - 1;
        let h = self.config.step_size;
        let cur = self.wavefunction[i];
        let prev = self.wavefunction[i - 1];
        let v = (self.config.potential)(h.scale(i as i128));
        self.wavefunction.push(next_sample(prev, cur, self.search.energy, v, h));
    }

    /// Whether the most recent sample has left the band that the cutoff
    /// allows.
    pub fn is_diverging(&self) -> (diverging: bool)
        requires
            self@.samples.len() >= 1,
        ensures
            diverging == self@.config.problem().diverging(self@.samples.last()),
    {
        is_diverging(
            self.wavefunction[self.wavefunction.len() - 1],
            self.config.wavefunction_cutoff,
        )
    }

    /// Replaces the samples by the two seeds that state the boundary
    /// condition at the origin.
    pub fn reset_wavefunction(&mut self)
        ensures
            final(self)@.config == old(self)@.config,
            final(self)@.search == old(self)@.search,
            final(self)@.samples == seq![
                old(self)@.config.problem().first_seed(),
                old(self)@.config.problem().second_seed(),
            ],
    {
        self.wavefunction.clear();
        match self.config.parity {
            Parity::Even => {
                self.wavefunction.push(Fixed::one());
                self.wavefunction.push(Fixed::one());
            },
            Parity::Odd => {
                self.wavefunction.push(Fixed::zero());
                self.wavefunction.push(self.config.step_size);
            },
        }
        assert(self.wavefunction@ =~= seq![
            self.config.problem().first_seed(),
            self.config.problem().second_seed(),
        ]);
    }

    /// Integrates the trial wavefunction for the current energy: from the
    /// seeds to the outer boundary, or to the first sample that diverges.
    pub fn compute_wavefunction(&mut self)
        requires
            is_pure(old(self)@.config.potential),
        ensures
            final(self)@.config == old(self)@.config,
            final(self)@.search == old(self)@.search,
            final(self)@.samples == old(self)@.config.problem().pass(old(self)@.search.energy),
            final(self)@.samples.len() >= 2,
    {
        self.reset_wavefunction();
        let steps = self.config.sample_count();
        let ghost energy = self.search.energy;
        while self.wavefunction.len() < steps
            invariant
                self.config == old(self).config,
                self@.search == old(self)@.search,
                energy == self@.search.energy,
                is_pure(self.config.potential),
                steps == self.config.problem().grid_points(),
                self@.samples.len() >= 2,
                forall|i: int|
                    0 <= i < self@.samples.len() ==> self@.samples[i] == self.config.problem().trial(
                        energy,
                        i as nat,
                    ),
                self.config.problem().pass_len_from(energy, 2) == self.config.problem().pass_len_from(
                    energy,
                    self@.samples.len(),
                ),
            ensures
                self@.samples.len() == self.config.problem().pass_len_from(energy, 2),
            decreases steps - self.wavefunction.len(),
        {
            if self.is_diverging() {
                break ;
            }
            self.step();
        }
        assert(self@.samples =~= self.config.problem().pass(energy));
    }

    /// Searches for an eigenvalue from the current state: integrates, and
    /// until the energy step has fallen to the cutoff moves the energy by
    /// the step, which is halved and reversed whenever the wavefunction
    /// runs away to the other side than in the pass before.
    pub fn solve(&mut self) -> (outcome: Result<(), SolveError>)
        requires
            is_pure(old(self)@.config.potential),
        ensures
            final(self)@.config == old(self)@.config,
            final(self)@.search == old(self)@.config.problem().search(old(self)@.search).state,
            outcome is Ok <==> old(self)@.config.problem().search(old(self)@.search).converged,
            outcome is Err ==> outcome == Err::<(), SolveError>(SolveError::NonConvergent),
            final(self)@.samples == old(self)@.config.problem().pass(final(self)@.search.energy),
            final(self)@.samples.len() >= 2,
    {
        let mut remaining: usize = self.config.max_iterations;
        loop
            invariant
                self.config == old(self).config,
                is_pure(self.config.potential),
                self.config.problem().search(old(self)@.search)
                    == self.config.problem().search_rule().run(self@.search, remaining as nat),
            decreases remaining,
        {
            self.compute_wavefunction();
            if self.search.converged(self.config.energy_step_size_cutoff) {
                return Ok(());
            }
            if remaining == 0 {
                return Err(SolveError::NonConvergent);
            }
            let terminal = self.wavefunction[self.wavefunction.len() - 1];
            self.search = self.search.advance(terminal);
            remaining = remaining - 1;
        }
    }

    /// The current trial energy; after a search that converged, the
    /// eigenvalue found.
    pub fn energy(&self) -> (energy: Fixed)
        ensures
            energy == self@.search.energy,
    {
        self.search.energy
    }

    /// The signed amount by which the next trial energy will differ from
    /// the current one.
    pub fn energy_step_size(&self) -> (step: Fixed)
        ensures
            step == self@.search.energy_step_size,
    {
        self.search.energy_step_size
    }

    /// The sign of the last sample of the last pass that the search took
    /// note of.
    pub fn last_diverge(&self) -> (sign: Sign)
        ensures
            sign == self@.search.last_sign,
    {
        self.search.last_sign
    }

    /// The samples of the trial wavefunction, by increasing distance from
    /// the origin.
    pub fn wavefunction(&self) -> (samples: &Vec<Fixed>)
        ensures
            samples@ == self@.samples,
    {
        &self.wavefunction
    }

    /// Puts the solver back to the start of its search.
    pub fn reset(&mut self)
        ensures
            final(self)@.config == old(self)@.config,
            final(self)@.search == old(self)@.config.problem().initial_state(),
            final(self)@.samples == Seq::<Fixed>::empty(),
    {
        *self = Self::new(&self.config);
    }

    /// The wavefunction over the whole domain, by increasing position:
    /// the samples mirrored to the negative half-axis, with their sign
    /// changed for odd parity, then the samples themselves.
    pub fn wavefunction_points(&self) -> (points: Vec<(Fixed, Fixed)>)
        ensures
            points@ == points_of(self@.samples, self@.config.parity, self@.config.step_size),
    {
        let n: usize = self.wavefunction.len();
        let h = self.config.step_size;
        let mut points: Vec<(Fixed, Fixed)> = Vec::new();
        let ghost expected = points_of(self@.samples, self.config.parity, h);
        if n == 0 {
            assert(points@ =~= expected);
            return points;
        }
        let mut j: usize = n - 1;
        while j > 0
            invariant
                n == self.wavefunction.len(),
                n >= 1,
                h == self.config.step_size,
                expected == points_of(self@.samples, self.config.parity, h),
                j <= n - 1,
                points@.len() == n - 1 - j,
                forall|k: int| 0 <= k < points@.len() ==> points@[k] == expected[k],
            decreases j,
        {
            let sample = self.wavefunction[j];
            let amplitude = match self.config.parity {
                Parity::Even => sample,
                Parity::Odd => sample.saturating_neg(),
            };
            points.push((h.scale(-(j as i128)), amplitude));
            j = j - 1;
        }
        let mut i: usize = 0;
        while i < n
            invariant
                n == self.wavefunction.len(),
                n >= 1,
                h == self.config.step_size,
                expected == points_of(self@.samples, self.config.parity, h),
                i <= n,
                points@.len() == n - 1 + i,
                forall|k: int| 0 <= k < points@.len() ==> points@[k] == expected[k],
            decreases n - i,
        {
            points.push((h.scale(i as i128), self.wavefunction[i]));
            i = i + 1;
        }
        assert(points@ =~= expected);
        points
    }
}

} // verus!
