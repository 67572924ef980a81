//! Matching method for the stationary Schrodinger equation in one
//! dimension.
//!
//! Two trial wavefunctions are integrated for a trial energy, one from each
//! boundary of the domain inward to the matching point. At an eigenvalue
//! the two join smoothly there; the sign of their mismatch changes as the
//! energy passes an eigenvalue, and a search that halves and reverses its
//! step at every change closes in on it.

use vstd::prelude::*;
use crate::numeric::fixed::magnitude_of;
use crate::numeric::fixed::Fixed;
use crate::physics::potential::is_pure;
use crate::physics::solvers::search::SearchState;
use crate::physics::solvers::search::Sign;
use crate::physics::solvers::stepping::next_sample;
use crate::physics::solvers::SolveError;
use self::model::mismatch_of;
use self::model::stitched;

pub mod laws;
pub mod model;

verus! {

/// Configuration for the matching solver.
pub struct MatchingConfig<F> {
    /// The grid spacing.
    pub step_size: Fixed,
    /// The first trial energy.
    pub initial_energy: Fixed,
    /// The first energy step.
    pub initial_energy_step_size: Fixed,
    /// The potential energy at a position.
    pub potential: F,
    /// The search stops once the magnitude of the energy step is at most
    /// this.
    pub energy_step_size_cutoff: Fixed,
    /// The left boundary of the domain.
    pub x_min: Fixed,
    /// The right boundary of the domain.
    pub x_max: Fixed,
    /// The grid index at which the two branches meet, counted from the
    /// left boundary.
    pub match_idx: usize,
    /// The most iterations that one search may take.
    pub max_iterations: usize,
}

impl<F: Copy> Clone for MatchingConfig<F> {
    fn clone(&self) -> (copy: Self)
        ensures
            copy == *self,
    {
        MatchingConfig {
            step_size: self.step_size,
            initial_energy: self.initial_energy,
            initial_energy_step_size: self.initial_energy_step_size,
            potential: self.potential,
            energy_step_size_cutoff: self.energy_step_size_cutoff,
            x_min: self.x_min,
            x_max: self.x_max,
            match_idx: self.match_idx,
            max_iterations: self.max_iterations,
        }
    }
}

impl<F: Fn(Fixed) -> Fixed + Copy> MatchingConfig<F> {
    /// `Ok` for a well-formed configuration.
    pub fn validate(&self) -> (checked: Result<(), SolveError>)
        ensures
            checked is Ok <==> self.problem().well_formed(),
            checked is Err ==> checked == Err::<(), SolveError>(SolveError::InvalidConfiguration),
    {
        if self.step_size.raw <= 0 || self.x_min.raw >= self.x_max.raw {
            return Err(SolveError::InvalidConfiguration);
        }
        let span: i128 = match self.x_max.raw.checked_sub(self.x_min.raw) {
            Some(span) => span,
            None => {
                return Err(SolveError::InvalidConfiguration);
            },
        };
        let steps: u128 = Fixed::from_raw(span).rounded_quotient(self.step_size);
        if steps >= usize::MAX as u128 || self.match_idx < 1 || self.match_idx as u128 >= steps {
            return Err(SolveError::InvalidConfiguration);
        }
        let reach: u128 = match steps.checked_mul(self.step_size.raw as u128) {
            Some(reach) => reach,
            None => {
                return Err(SolveError::InvalidConfiguration);
            },
        };
        let room: u128 = if self.x_min.raw >= 0 {
            (i128::MAX - self.x_min.raw) as u128
        } else {
            (i128::MAX as u128) + magnitude_of(self.x_min.raw)
        };
        if reach <= i128::MAX as u128 && reach <= room {
            Ok(())
        } else {
            Err(SolveError::InvalidConfiguration)
        }
    }

    /// The number of grid steps from the left boundary to the right one.
    pub fn steps(&self) -> (steps: usize)
        requires
            self.problem().well_formed(),
        ensures
            steps == self.problem().steps(),
            (2 * steps - 1) * self.step_size@ <= 2 * (self.x_max@ - self.x_min@) < (2 * steps + 1)
                * self.step_size@,
    {
        let span: i128 = self.x_max.raw - self.x_min.raw;
        Fixed::from_raw(span).rounded_quotient(self.step_size) as usize
    }

    /// The position of grid point `i`.
    pub fn position(&self, i: usize) -> (x: Fixed)
        ensures
            x == self.problem().position(i as int),
    {
        self.x_min.saturating_add(self.step_size.scale(i as i128))
    }
}

/// A solver that joins two inward integrations at a matching point.
pub struct MatchingSolver<F> {
    config: MatchingConfig<F>,
    search: SearchState,
    left: Vec<Fixed>,
    right: Vec<Fixed>,
}

/// The state of a solver: its configuration, where its search stands, and
/// the two branches of the trial wavefunction that it holds, each by
/// increasing distance from its own boundary.
pub struct MatchingView<F> {
    pub config: MatchingConfig<F>,
    pub search: SearchState,
    pub left: Seq<Fixed>,
    pub right: Seq<Fixed>,
}

impl<F> View for MatchingSolver<F> {
    type V = MatchingView<F>;

    closed spec fn view(&self) -> MatchingView<F> {
        MatchingView {
            config: self.config,
            search: self.search,
            left: self.left@,
            right: self.right@,
        }
    }
}

impl<F: Fn(Fixed) -> Fixed + Copy> MatchingSolver<F> {
    /// A solver is well formed where its configuration is.
    pub open spec fn wf(&self) -> bool {
        self@.config.problem().well_formed()
    }

    /// A solver at the start of its search, with no samples; an error
    /// for a configuration that is not well formed.
    pub fn new(config: &MatchingConfig<F>) -> (made: Result<Self, SolveError>)
        ensures
            made is Ok <==> config.problem().well_formed(),
            made is Ok ==> {
                &&& made->Ok_0.wf()
                &&& made->Ok_0@.config == *config
                &&& made->Ok_0@.search == config.problem().initial_state()
                &&& made->Ok_0@.left == Seq::<Fixed>::empty()
                &&& made->Ok_0@.right == Seq::<Fixed>::empty()
            },
            made is Err ==> made->Err_0 == SolveError::InvalidConfiguration,
    {
        match config.validate() {
            Ok(()) => Ok(
                MatchingSolver {
                    config: config.clone(),
                    search: SearchState {
                        energy: config.initial_energy,
                        energy_step_size: config.initial_energy_step_size,
                        last_sign: Sign::Unseen,
                    },
                    left: Vec::new(),
                    right: Vec::new(),
                },
            ),
            Err(e) => Err(e),
        }
    }

    /// Integrates both branches of the trial wavefunction for the current
    /// energy, each from its boundary to the matching point.
    pub fn compute_wavefunction(&mut self)
        requires
            old(self).wf(),
            is_pure(old(self)@.config.potential),
        ensures
            final(self)@.config == old(self)@.config,
            final(self)@.search == old(self)@.search,
            final(self)@.left == old(self)@.config.problem().left_branch(old(self)@.search.energy),
            final(self)@.right == old(self)@.config.problem().right_branch(
                old(self)@.search.energy,
            ),
    {
        let h = self.config.step_size;
        let energy = self.search.energy;
        let steps: usize = self.config.steps();
        let join: usize = self.config.match_idx;
        self.left.clear();
        self.left.push(Fixed::zero());
        self.left.push(h);
        while self.left.len() < join + 1
            invariant
                self@.config == old(self)@.config,
                self@.search == old(self)@.search,
                self.wf(),
                is_pure(self.config.potential),
                h == self.config.step_size,
                energy == self.search.energy,
                join == self.config.match_idx,
                2 <= self.left.len() <= join + 1 <= usize::MAX,
                forall|i: int|
                    0 <= i < self.left.len() ==> self.left[i] == self.config.problem().left(
                        energy,
                        i as nat,
                    ),
            decreases join + 1 - self.left.len(),
        {
            let i: usize = self.left.len() - 1;
            let v = (self.config.potential)(self.config.position(i));
            let next = next_sample(self.left[i - 1], self.left[i], energy, v, h);
            self.left.push(next);
        }
        self.right.clear();
        self.right.push(Fixed::zero());
        self.right.push(h);
        let target: usize = steps - join + 1;
        while self.right.len() < target
            invariant
                self@.config == old(self)@.config,
                self@.search == old(self)@.search,
                self.wf(),
                is_pure(self.config.potential),
                h == self.config.step_size,
                energy == self.search.energy,
                steps == self.config.problem().steps(),
                target == steps - self.config.match_idx + 1,
                2 <= self.right.len() <= target,
                self.left@ == old(self)@.config.problem().left_branch(energy),
                forall|j: int|
                    0 <= j < self.right.len() ==> self.right[j] == self.config.problem().right(
                        energy,
                        j as nat,
                    ),
            decreases target - self.right.len(),
        {
            let j: usize = self.right.len() - 1;
            let v = (self.config.potential)(self.config.position(steps - j));
            let next = next_sample(self.right[j - 1], self.right[j], energy, v, h);
            self.right.push(next);
        }
        assert(self.right@ =~= self.config.problem().right_branch(energy));
    }

    /// The mismatch of the two branches at the matching point.
    pub fn mismatch(&self) -> (mismatch: Fixed)
        requires
            self@.left.len() >= 2,
            self@.right.len() >= 2,
        ensures
            mismatch == mismatch_of(
                self@.left[self@.left.len() - 2],
                self@.left.last(),
                self@.right.last(),
                self@.right[self@.right.len() - 2],
            ),
    {
        let left_at = self.left[self.left.len() - 1];
        let left_before = self.left[self.left.len() - 2];
        let right_at = self.right[self.right.len() - 1];
        let right_after = self.right[self.right.len() - 2];
        left_at.saturating_mul(right_after.saturating_sub(right_at)).saturating_sub(
            right_at.saturating_mul(left_at.saturating_sub(left_before)),
        )
    }

    /// Searches for an eigenvalue from the current state: integrates both
    /// branches, and until the energy step has fallen to the cutoff moves
    /// the energy by the step, which is halved and reversed whenever the
    /// sign of the mismatch differs from the one in the pass before.
    pub fn solve(&mut self) -> (outcome: Result<(), SolveError>)
        requires
            old(self).wf(),
            is_pure(old(self)@.config.potential),
        ensures
            final(self).wf(),
            final(self)@.config == old(self)@.config,
            final(self)@.search == old(self)@.config.problem().search(old(self)@.search).state,
            outcome is Ok <==> old(self)@.config.problem().search(old(self)@.search).converged,
            outcome is Err ==> outcome == Err::<(), SolveError>(SolveError::NonConvergent),
            final(self)@.left == old(self)@.config.problem().left_branch(
                final(self)@.search.energy,
            ),
            final(self)@.right == old(self)@.config.problem().right_branch(
                final(self)@.search.energy,
            ),
    {
        let mut remaining: usize = self.config.max_iterations;
        loop
            invariant
                self@.config == old(self)@.config,
                self.wf(),
                is_pure(self.config.potential),
                self.config.problem().search(old(self)@.search)
                    == self.config.problem().search_rule().run(self@.search, remaining as nat),
            decreases remaining,
        {
            self.compute_wavefunction();
            if self.search.converged(self.config.energy_step_size_cutoff) {
                return Ok(());
            }
            if remaining == 0 {
                return Err(SolveError::NonConvergent);
            }
            let signal = self.mismatch();
            self.search = self.search.advance(signal);
            remaining = remaining - 1;
        }
    }

    /// The current trial energy; after a search that converged, the
    /// eigenvalue found.
    pub fn energy(&self) -> (energy: Fixed)
        ensures
            energy == self@.search.energy,
    {
        self.search.energy
    }

    /// The signed amount by which the next trial energy will differ from
    /// the current one.
    pub fn energy_step_size(&self) -> (step: Fixed)
        ensures
            step == self@.search.energy_step_size,
    {
        self.search.energy_step_size
    }

    /// The left boundary of the domain.
    pub fn x_min(&self) -> (x: Fixed)
        ensures
            x == self@.config.x_min,
    {
        self.config.x_min
    }

    /// The right boundary of the domain.
    pub fn x_max(&self) -> (x: Fixed)
        ensures
            x == self@.config.x_max,
    {
        self.config.x_max
    }

    /// The branch that starts at the left boundary, by increasing
    /// position.
    pub fn left_branch(&self) -> (samples: &Vec<Fixed>)
        ensures
            samples@ == self@.left,
    {
        &self.left
    }

    /// The branch that starts at the right boundary, by decreasing
    /// position.
    pub fn right_branch(&self) -> (samples: &Vec<Fixed>)
        ensures
            samples@ == self@.right,
    {
        &self.right
    }

    /// Puts the solver back to the start of its search.
    pub fn reset(&mut self)
        requires
            old(self).wf(),
        ensures
            final(self).wf(),
            final(self)@.config == old(self)@.config,
            final(self)@.search == old(self)@.config.problem().initial_state(),
            final(self)@.left == Seq::<Fixed>::empty(),
            final(self)@.right == Seq::<Fixed>::empty(),
    {
        self.search = SearchState {
            energy: self.config.initial_energy,
            energy_step_size: self.config.initial_energy_step_size,
            last_sign: Sign::Unseen,
        };
        self.left.clear();
        self.right.clear();
    }

    /// The wavefunction over the whole domain, by increasing position:
    /// the left branch, then the right branch brought to the scale of the
    /// left one so that the two agree at the matching point.
    pub fn wavefunction_points(&self) -> (points: Vec<(Fixed, Fixed)>)
        ensures
            points@ == stitched(
                self@.left,
                self@.right,
                self@.config.x_min,
                self@.config.step_size,
            ),
    {
        let mut points: Vec<(Fixed, Fixed)> = Vec::new();
        let ghost expected = stitched(
            self@.left,
            self@.right,
            self@.config.x_min,
            self@.config.step_size,
        );
        let l: usize = self.left.len();
        let r: usize = self.right.len();
        if l == 0 || r == 0 {
            assert(points@ =~= expected);
            return points;
        }
        let left_at = self.left[l - 1];
        let right_at = self.right[r - 1];
        let mut i: usize = 0;
        while i < l
            invariant
                l == self.left.len(),
                r == self.right.len(),
                l >= 1,
                r >= 1,
                i <= l,
                expected == stitched(
                    self@.left,
                    self@.right,
                    self@.config.x_min,
                    self@.config.step_size,
                ),
                points@.len() == i,
                forall|k: int| 0 <= k < points@.len() ==> points@[k] == expected[k],
            decreases l - i,
        {
            points.push((self.config.position(i), self.left[i]));
            i = i + 1;
        }
        let mut j: usize = r - 1;
        while j > 0
            invariant
                l == self.left.len(),
                r == self.right.len(),
                l >= 1,
                r >= 1,
                j <= r - 1,
                left_at == self.left@.last(),
                right_at == self.right@.last(),
                expected == stitched(
                    self@.left,
                    self@.right,
                    self@.config.x_min,
                    self@.config.step_size,
                ),
                points@.len() == l + (r - 1 - j),
                forall|k: int| 0 <= k < points@.len() ==> points@[k] == expected[k],
            decreases j,
        {
            j = j - 1;
            let at: i128 = (l as i128) + ((r - 2 - j) as i128);
            let x = self.config.x_min.saturating_add(self.config.step_size.scale(at));
            points.push((x, self.right[j].mul_div(left_at, right_at)));
        }
        assert(points@ =~= expected);
        points
    }
}

} // verus!
