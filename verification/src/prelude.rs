//! The items that most callers need.

pub use crate::numeric::fixed::Fixed;
pub use crate::physics::solvers::shooting::Parity;
pub use crate::physics::solvers::matching::MatchingConfig;
pub use crate::physics::solvers::matching::MatchingSolver;
pub use crate::physics::solvers::search::SearchState;
pub use crate::physics::solvers::search::Sign;
pub use crate::physics::solvers::shooting::ShootingConfig;
pub use crate::physics::solvers::shooting::ShootingSolver;
pub use crate::physics::solvers::variational::VariationalConfig;
pub use crate::physics::solvers::variational::VariationalSolver;
pub use crate::physics::solvers::SolveError;
