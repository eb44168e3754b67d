//! A point mass: the angular channel exists but stays inert.

use vstd::prelude::*;

use crate::engine::body::rigid_body::RigidBody;
use crate::math::vec::Vec2;

verus! {

/// A shapeless point mass. Its angular state is carried so it can share the
/// integration path with rigid bodies, but its inverse inertia is zero.
#[derive(Debug, Clone, Copy, PartialEq, Eq)]
pub struct Particle {
    pub pos: Vec2,
    pub vel: Vec2,
    pub force: Vec2,
    pub inv_mass: i64,
    pub angle: i64,
    pub omega: i64,
    pub torque: i64,
    pub inv_inertia: i64,
    pub delta_pos: Vec2,
    pub delta_angle: i64,
}

impl Particle {
    pub fn new(pos: Vec2, vel: Vec2, inv_mass: i64) -> (r: Self)
        ensures
            r.pos == pos && r.vel == vel && r.inv_mass == inv_mass,
            r.force == (Vec2 { x: 0i64, y: 0i64 }),
            r.angle == 0 && r.omega == 0 && r.torque == 0 && r.inv_inertia == 0,
            r.delta_pos == (Vec2 { x: 0i64, y: 0i64 }) && r.delta_angle == 0,
    {
        Particle {
            pos,
            vel,
            force: Vec2::zero(),
            inv_mass,
            angle: 0,
            omega: 0,
            torque: 0,
            inv_inertia: 0,
            delta_pos: Vec2::zero(),
            delta_angle: 0,
        }
    }

    /// The same state as a shapeless rigid body, so a particle can be
    /// inserted into a world.
    pub fn to_rigid_body(&self) -> (r: RigidBody)
        ensures
            r.pos == self.pos && r.vel == self.vel && r.inv_mass == self.inv_mass,
            r.force == self.force && r.angle == self.angle && r.omega == self.omega,
            r.torque == self.torque && r.inv_inertia == self.inv_inertia,
            r.collider == None::<crate::engine::collision::shape::Collider2D>,
            r.delta_pos == self.delta_pos && r.delta_angle == self.delta_angle,
    {
        RigidBody {
            pos: self.pos,
            vel: self.vel,
            force: self.force,
            inv_mass: self.inv_mass,
            angle: self.angle,
            omega: self.omega,
            torque: self.torque,
            inv_inertia: self.inv_inertia,
            collider: None,
            delta_pos: self.delta_pos,
            delta_angle: self.delta_angle,
        }
    }
}

} // verus!
