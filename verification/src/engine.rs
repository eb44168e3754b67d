//! The engine core: bodies, collision detection, constraint solving, and the
//! world that orchestrates one simulation step.

pub mod body;
pub mod collision;
pub mod integrator;
pub mod params;
pub mod solver;
pub mod world;

pub use body::{Particle, RigidBody};
pub use collision::shape::{Aabb, Collider2D};
pub use integrator::Integrator;
pub use params::SimParams;
pub use solver::constraint::{ConstraintSolver, ContactConstraint, SolverParams};
pub use world::World;
