//! Bound states of a particle in a one-dimensional potential.
//!
//! The stationary Schrodinger equation `psi'' = 2 (V - E) psi` (units with
//! mass and the reduced Planck constant equal to one) is solved on a grid
//! by three methods:
//!
//! - the shooting method integrates a trial wavefunction outward from the
//!   origin and searches for the energy at which it stops running away;
//! - the matching method integrates inward from both boundaries and
//!   searches for the energy at which the two branches join smoothly;
//! - the variational method searches a one-parameter family of trial
//!   wavefunctions for the member with the lowest energy estimate.
//!
//! All numbers are fixed-point numbers with 64 fractional bits and
//! saturating arithmetic, so every result is a function of the inputs that
//! can be stated exactly: each solver comes with a model of what it
//! computes and with the laws that hold of that model.

pub mod numeric;
pub mod physics;
pub mod prelude;
