//! Body types: full rigid bodies and shapeless particles.

pub mod particle;
pub mod rigid_body;

pub use particle::Particle;
pub use rigid_body::RigidBody;
