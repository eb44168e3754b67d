//! A 2D rigid-body physics engine over fixed-point arithmetic.
//!
//! Bodies carry linear and angular state; one `step` advances the world by a
//! fixed time step: gravity and force generators accumulate forces, velocities
//! integrate, a sweep-and-prune broad phase proposes pairs, the narrow phase
//! builds contact manifolds, and a warm-started sequential-impulse solver
//! resolves the contacts before positions integrate.
//!
//! Every scalar is a signed 64-bit count of millionths (see `fx`), so the
//! whole pipeline is exact integer arithmetic with saturation at the
//! representable edge, and each stage's result is pinned to a specification
//! function.

pub mod engine;
pub mod forces;
pub mod fx;
pub mod math;
