//! The contact constraint solver.

pub mod constraint;

pub use constraint::{ConstraintSolver, ContactConstraint, SolverParams};
