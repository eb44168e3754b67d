//! Integration of unconstrained motion.

use vstd::prelude::*;

use crate::engine::body::rigid_body::RigidBody;
use crate::fx::{fx_add, fx_add_spec, fx_mul, fx_mul_spec};
use crate::math::vec::{vadd_spec, vscale_spec, Vec2};

verus! {

/// Which integration scheme a world uses. The semi-implicit scheme updates
/// velocity first and integrates position from the new velocity; the explicit
/// scheme integrates position from the old velocity.
#[derive(Debug, Clone, Copy, PartialEq, Eq, Structural)]
pub enum Integrator {
    ExplicitEuler,
    SemiImplicitEuler,
}

/// Velocity integration: `vel += force * inv_mass * dt` and
/// `omega += torque * inv_inertia * dt`; a non-positive step changes nothing.
pub open spec fn integrate_velocity_spec(b: RigidBody, dt: int) -> RigidBody {
    if dt <= 0 {
        b
    } else {
        RigidBody {
            vel: vadd_spec(b.vel, vscale_spec(vscale_spec(b.force, b.inv_mass as int), dt)),
            omega: fx_add_spec(
                b.omega as int,
                fx_mul_spec(fx_mul_spec(b.torque as int, b.inv_inertia as int), dt),
            ) as i64,
            ..b
        }
    }
}

/// Position integration: `pos += vel * dt` and `angle += omega * dt`; a
/// non-positive step changes nothing.
pub open spec fn integrate_position_spec(b: RigidBody, dt: int) -> RigidBody {
    if dt <= 0 {
        b
    } else {
        RigidBody {
            pos: vadd_spec(b.pos, vscale_spec(b.vel, dt)),
            angle: fx_add_spec(b.angle as int, fx_mul_spec(b.omega as int, dt)) as i64,
            ..b
        }
    }
}

/// One whole unconstrained step under the chosen scheme.
pub open spec fn integrate_spec(b: RigidBody, dt: int, integrator: Integrator) -> RigidBody {
    match integrator {
        Integrator::ExplicitEuler => integrate_velocity_spec(integrate_position_spec(b, dt), dt),
        Integrator::SemiImplicitEuler => integrate_position_spec(integrate_velocity_spec(b, dt), dt),
    }
}

/// Integrate linear and angular velocity from the accumulated force and
/// torque. Accumulators are not cleared here; the caller owns their lifetime.
pub fn integrate_velocity(entity: &mut RigidBody, dt: i64, _integrator: Integrator)
    ensures
        *final(entity) == integrate_velocity_spec(*old(entity), dt as int),
{
    if dt <= 0 {
        return;
    }
    let a = entity.force.scale(entity.inv_mass);
    let alpha = fx_mul(entity.torque, entity.inv_inertia);
    entity.vel = entity.vel.add(a.scale(dt));
    entity.omega = fx_add(entity.omega, fx_mul(alpha, dt));
}

/// Integrate position and orientation from the current velocity.
pub fn integrate_position(entity: &mut RigidBody, dt: i64, _integrator: Integrator)
    ensures
        *final(entity) == integrate_position_spec(*old(entity), dt as int),
{
    if dt <= 0 {
        return;
    }
    entity.pos = entity.pos.add(entity.vel.scale(dt));
    entity.angle = fx_add(entity.angle, fx_mul(entity.omega, dt));
}

/// One unconstrained step: explicit Euler takes position before velocity,
/// semi-implicit (symplectic) Euler takes velocity before position.
pub fn integrate(entity: &mut RigidBody, dt: i64, integrator: Integrator)
    ensures
        *final(entity) == integrate_spec(*old(entity), dt as int, integrator),
{
    match integrator {
        Integrator::ExplicitEuler => {
            integrate_position(entity, dt, integrator);
            integrate_velocity(entity, dt, integrator);
        },
        Integrator::SemiImplicitEuler => {
            integrate_velocity(entity, dt, integrator);
            integrate_position(entity, dt, integrator);
        },
    }
}

} // verus!
