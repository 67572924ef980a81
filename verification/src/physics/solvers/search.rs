//! The search over energy that the integrating solvers share.
//!
//! Each trial energy yields a signal, a number whose sign changes as the
//! energy passes an eigenvalue. The search moves the energy by a step and
//! halves and reverses the step whenever the sign of the signal differs
//! from the one before, until the magnitude of the step is at most a
//! cutoff.

use vstd::prelude::*;
use crate::numeric::fixed::Fixed;

verus! {

/// The sign of the signal of the previous trial.
#[derive(Clone, Copy, PartialEq, Eq, Structural, Debug)]
pub enum Sign {
    /// No trial has been made yet.
    Unseen,
    /// The signal was zero or positive.
    NonNegative,
    /// The signal was negative.
    Negative,
}

/// What the search carries from one trial to the next.
#[derive(Clone, Copy, PartialEq, Eq, Structural, Debug)]
pub struct SearchState {
    /// The trial energy.
    pub energy: Fixed,
    /// The signed amount by which the next trial energy differs.
    pub energy_step_size: Fixed,
    /// The sign of the signal of the previous trial.
    pub last_sign: Sign,
}

/// How a search ended.
pub struct SearchOutcome {
    /// The state in which it stopped.
    pub state: SearchState,
    /// Whether the energy step had fallen to the cutoff.
    pub converged: bool,
}

/// Whether a signal lies strictly on the other side of zero than the one
/// before it. A signal of zero crosses nothing, and nothing crosses before
/// the first trial.
pub open spec fn crosses(signal: Fixed, last: Sign) -> bool {
    ||| signal@ < 0 && last == Sign::NonNegative
    ||| signal@ > 0 && last == Sign::Negative
}

/// The sign to remember of a signal.
pub open spec fn sign_of(signal: Fixed) -> Sign {
    if signal@ >= 0 {
        Sign::NonNegative
    } else {
        Sign::Negative
    }
}

/// The energy step after a crossing: half as long, in the other direction.
pub open spec fn refined(step: Fixed) -> Fixed {
    step.saturating_neg().halve()
}

impl SearchState {
    /// A search has converged where the magnitude of its energy step is at
    /// most the cutoff.
    pub open spec fn spec_converged(self, cutoff: Fixed) -> bool {
        !self.energy_step_size.exceeds(cutoff)
    }

    /// Whether the search has converged.
    #[verifier::when_used_as_spec(spec_converged)]
    pub fn converged(self, cutoff: Fixed) -> (done: bool)
        ensures
            done == self.spec_converged(cutoff),
    {
        !self.energy_step_size.exceeds(cutoff)
    }

    /// One iteration of the search: where the signal crosses zero the step
    /// is halved and reversed; the energy moves by the step; the sign of
    /// the signal is remembered.
    pub open spec fn spec_advance(self, signal: Fixed) -> SearchState {
        let step = if crosses(signal, self.last_sign) {
            refined(self.energy_step_size)
        } else {
            self.energy_step_size
        };
        SearchState {
            energy: self.energy.saturating_add(step),
            energy_step_size: step,
            last_sign: sign_of(signal),
        }
    }

    /// The state after one iteration in which the trial gave `signal`.
    #[verifier::when_used_as_spec(spec_advance)]
    pub fn advance(self, signal: Fixed) -> (next: SearchState)
        ensures
            next == self.spec_advance(signal),
    {
        let crossing = match self.last_sign {
            Sign::Unseen => false,
            Sign::NonNegative => signal.raw < 0,
            Sign::Negative => signal.raw > 0,
        };
        let step = if crossing {
            self.energy_step_size.saturating_neg().halve()
        } else {
            self.energy_step_size
        };
        SearchState {
            energy: self.energy.saturating_add(step),
            energy_step_size: step,
            last_sign: if signal.raw >= 0 {
                Sign::NonNegative
            } else {
                Sign::Negative
            },
        }
    }
}

/// A search as mathematics: the signal that each energy yields, and the
/// cutoff at which the search stops.
pub struct Search {
    /// The signal of the trial for an energy.
    pub signal: spec_fn(Fixed) -> Fixed,
    /// The magnitude of the energy step at which the search stops.
    pub cutoff: Fixed,
}

impl Search {
    /// The state after one iteration from `state`.
    pub open spec fn step(self, state: SearchState) -> SearchState {
        state.advance((self.signal)(state.energy))
    }

    /// The state after `k` iterations from `state`.
    pub open spec fn state_after(self, state: SearchState, k: nat) -> SearchState
        decreases k,
    {
        if k == 0 {
            state
        } else {
            self.step(self.state_after(state, (k - 1) as nat))
        }
    }

    /// The search from `state` with at most `fuel` iterations: it stops in
    /// the first converged state, or unconverged when the iterations are
    /// used up.
    pub open spec fn run(self, state: SearchState, fuel: nat) -> SearchOutcome
        decreases fuel,
    {
        if state.converged(self.cutoff) {
            SearchOutcome { state, converged: true }
        } else if fuel == 0 {
            SearchOutcome { state, converged: false }
        } else {
            self.run(self.step(state), (fuel - 1) as nat)
        }
    }

    /// One iteration never lengthens the energy step, whatever the signal.
    pub proof fn lemma_step_is_no_longer(self, state: SearchState)
        ensures
            self.step(state).energy_step_size.saturating_abs()@
                <= state.energy_step_size.saturating_abs()@,
    {
    }

    /// The magnitude of the energy step is non-increasing over the
    /// iterations of a search.
    pub proof fn lemma_energy_step_is_non_increasing(self, state: SearchState, j: nat, k: nat)
        requires
            j <= k,
        ensures
            self.state_after(state, k).energy_step_size.saturating_abs()@ <= self.state_after(
                state,
                j,
            ).energy_step_size.saturating_abs()@,
        decreases k - j,
    {
        if j < k {
            self.lemma_energy_step_is_non_increasing(state, j, (k - 1) as nat);
            self.lemma_step_is_no_longer(self.state_after(state, (k - 1) as nat));
        }
    }

    /// Stepping once and then `k` times is stepping `k` times and then
    /// once.
    pub proof fn lemma_state_after_shift(self, state: SearchState, k: nat)
        ensures
            self.state_after(self.step(state), k) == self.state_after(state, k + 1),
        decreases k,
    {
        if k > 0 {
            self.lemma_state_after_shift(state, (k - 1) as nat);
        } else {
            assert(self.state_after(state, 0) == state);
        }
    }

    /// A search stops exactly when the magnitude of its energy step first
    /// is at most the cutoff: it ends in the state after some number `n` of
    /// iterations, no earlier state had converged, and it reports
    /// convergence where that state has converged; where it does not, all
    /// the iterations allowed were made.
    pub proof fn lemma_run_stops_at_first_convergence(self, state: SearchState, fuel: nat) -> (n:
        nat)
        ensures
            n <= fuel,
            self.run(state, fuel).state == self.state_after(state, n),
            self.run(state, fuel).converged == self.state_after(state, n).converged(self.cutoff),
            forall|j: nat|
                j < n ==> !(#[trigger] self.state_after(state, j)).converged(self.cutoff),
            !self.run(state, fuel).converged ==> n == fuel,
        decreases fuel,
    {
        if state.converged(self.cutoff) || fuel == 0 {
            0
        } else {
            let m = self.lemma_run_stops_at_first_convergence(self.step(state), (fuel - 1) as nat);
            self.lemma_state_after_shift(state, m);
            assert forall|j: nat| j < m + 1 implies !(#[trigger] self.state_after(
                state,
                j,
            )).converged(self.cutoff) by {
                if j > 0 {
                    self.lemma_state_after_shift(state, (j - 1) as nat);
                }
            }
            m + 1
        }
    }

    /// A search that converged ends with an energy step within the cutoff;
    /// one that did not, with a longer one.
    pub proof fn lemma_run_outcome(self, state: SearchState, fuel: nat)
        ensures
            self.run(state, fuel).converged == self.run(state, fuel).state.converged(self.cutoff),
        decreases fuel,
    {
        if state.converged(self.cutoff) || fuel == 0 {
        } else {
            self.lemma_run_outcome(self.step(state), (fuel - 1) as nat);
        }
    }
}

} // verus!
