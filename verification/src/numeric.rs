//! Number representations used by the solvers.

pub mod fixed;
pub mod wide;
