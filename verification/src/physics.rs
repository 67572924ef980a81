//! Numerical quantum mechanics in one dimension.

pub mod potential;
pub mod solvers;
