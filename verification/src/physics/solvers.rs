//! Solvers for the stationary Schrodinger equation `psi'' = 2 (V - E) psi`.
//!
//! Every solver is made from a configuration, searches in `solve`, and
//! then holds an energy and the points of a wavefunction. A search stops
//! when its step has fallen to a cutoff, or gives up when it has used the
//! iterations that its configuration allows.

use vstd::prelude::*;

pub mod matching;
pub mod search;
pub mod shooting;
pub mod stepping;
pub mod variational;

verus! {

/// Why a solver gave no solution.
#[derive(Clone, Copy, PartialEq, Eq, Structural, Debug)]
pub enum SolveError {
    /// The configuration describes no grid, or a matching point that is no
    /// inner grid point.
    InvalidConfiguration,
    /// The search used up its iterations before its step fell to the
    /// cutoff.
    NonConvergent,
}

} // verus!
