//! Laws of the variational solver: what holds of every search, proved
//! from the model.

use vstd::prelude::*;
use crate::physics::solvers::variational::model::VariationalProblem;
use crate::physics::solvers::variational::VariationalState;

verus! {

impl VariationalProblem {
    /// A search is a function of the configuration and of the state in
    /// which it starts: from the state that a reset leaves, it ends where
    /// the search of a fresh solver with the same configuration ends.
    pub proof fn lemma_search_repeats_after_reset(
        self,
        fresh: VariationalState,
        reset: VariationalState,
    )
        requires
            fresh == self.initial_state(),
            reset == self.initial_state(),
        ensures
            self.search(reset) == self.search(fresh),
    {
    }

    /// One iteration keeps the energy that the state holds the estimate
    /// for the parameter that it holds, never raises that energy, and
    /// never lengthens the parameter step.
    pub proof fn lemma_step(self, state: VariationalState)
        ensures
            state.energy == self.energy_of(state.parameter) ==> self.step(state).energy
                == self.energy_of(self.step(state).parameter),
            self.step(state).energy@ <= state.energy@,
            self.step(state).parameter_step.saturating_abs()@
                <= state.parameter_step.saturating_abs()@,
    {
    }

    /// Over the iterations of a search the energy estimate never rises,
    /// the parameter step never grows, and the energy held stays the
    /// estimate for the parameter held.
    pub proof fn lemma_estimate_is_non_increasing(self, state: VariationalState, j: nat, k: nat)
        requires
            j <= k,
        ensures
            self.state_after(state, k).energy@ <= self.state_after(state, j).energy@,
            self.state_after(state, k).parameter_step.saturating_abs()@ <= self.state_after(
                state,
                j,
            ).parameter_step.saturating_abs()@,
            state.energy == self.energy_of(state.parameter) ==> self.state_after(state, k).energy
                == self.energy_of(self.state_after(state, k).parameter),
        decreases k,
    {
        if k > 0 {
            if j < k {
                self.lemma_estimate_is_non_increasing(state, j, (k - 1) as nat);
            } else {
                self.lemma_estimate_is_non_increasing(state, (k - 1) as nat, (k - 1) as nat);
            }
            self.lemma_step(self.state_after(state, (k - 1) as nat));
        }
    }

    /// Stepping once and then `k` times is stepping `k` times and then
    /// once.
    pub proof fn lemma_state_after_shift(self, state: VariationalState, k: nat)
        ensures
            self.state_after(self.step(state), k) == self.state_after(state, k + 1),
        decreases k,
    {
        if k > 0 {
            self.lemma_state_after_shift(state, (k - 1) as nat);
        } else {
            assert(self.state_after(state, 0) == state);
        }
    }

    /// A search ends in the state after some number `n` of iterations, the
    /// first that has converged or, where it reports no convergence, the
    /// last that was allowed. The energy estimate in which it ends is no
    /// higher than the one from which it started, and is the estimate for
    /// the parameter in which it ends where that held at the start.
    pub proof fn lemma_search_never_raises_the_estimate(self, state: VariationalState) -> (n: nat)
        ensures
            n <= self.max_iterations,
            self.search(state).state == self.state_after(state, n),
            self.search(state).converged == self.converged(self.search(state).state),
            forall|j: nat| j < n ==> !self.converged(#[trigger] self.state_after(state, j)),
            !self.search(state).converged ==> n == self.max_iterations,
            self.search(state).state.energy@ <= state.energy@,
            state.energy == self.energy_of(state.parameter) ==> self.search(state).state.energy
                == self.energy_of(self.search(state).state.parameter),
    {
        let n = self.lemma_run(state, self.max_iterations);
        self.lemma_estimate_is_non_increasing(state, 0, n);
        n
    }

    /// A search with at most `fuel` iterations ends in the state after
    /// some number `n` of them, the first that has converged or, where it
    /// reports no convergence, the last.
    pub proof fn lemma_run(self, state: VariationalState, fuel: nat) -> (n: nat)
        ensures
            n <= fuel,
            self.run(state, fuel).state == self.state_after(state, n),
            self.run(state, fuel).converged == self.converged(self.run(state, fuel).state),
            forall|j: nat| j < n ==> !self.converged(#[trigger] self.state_after(state, j)),
            !self.run(state, fuel).converged ==> n == fuel,
        decreases fuel,
    {
        if self.converged(state) || fuel == 0 {
            0
        } else {
            let m = self.lemma_run(self.step(state), (fuel - 1) as nat);
            self.lemma_state_after_shift(state, m);
            assert forall|j: nat| j < m + 1 implies !self.converged(
                #[trigger] self.state_after(state, j),
            ) by {
                if j > 0 {
                    self.lemma_state_after_shift(state, (j - 1) as nat);
                }
            }
            m + 1
        }
    }
}

} // verus!
