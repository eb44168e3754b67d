//! A rigid body: linear and angular state with an optional collision shape.

use vstd::prelude::*;

use crate::engine::collision::shape::{inertia_spec, Collider2D};
use crate::fx::{fx_div, fx_div_spec, FX_ONE};
use crate::math::vec::Vec2;

verus! {

/// Linear and angular state of one body. A body is static exactly when
/// `inv_mass` is zero; static bodies also carry zero `inv_inertia` and ignore
/// impulses and forces.
#[derive(Debug, Clone, Copy, PartialEq, Eq)]
pub struct RigidBody {
    pub pos: Vec2,
    pub vel: Vec2,
    pub force: Vec2,
    pub inv_mass: i64,
    pub angle: i64,
    pub omega: i64,
    pub torque: i64,
    pub inv_inertia: i64,
    pub collider: Option<Collider2D>,
    /// Position change predicted within the current step, for the solver.
    pub delta_pos: Vec2,
    /// Angle change predicted within the current step, for the solver.
    pub delta_angle: i64,
}

/// Whether a body takes no part in dynamics: both inverse mass and inverse
/// inertia are zero.
pub open spec fn is_static_spec(b: RigidBody) -> bool {
    b.inv_mass == 0 && b.inv_inertia == 0
}

/// The body a constructor yields before any shape is attached.
pub open spec fn body_at_spec(pos: Vec2, angle: int, inv_mass: int, inv_inertia: int) -> RigidBody {
    RigidBody {
        pos,
        vel: Vec2 { x: 0i64, y: 0i64 },
        force: Vec2 { x: 0i64, y: 0i64 },
        inv_mass: inv_mass as i64,
        angle: angle as i64,
        omega: 0i64,
        torque: 0i64,
        inv_inertia: inv_inertia as i64,
        collider: None,
        delta_pos: Vec2 { x: 0i64, y: 0i64 },
        delta_angle: 0i64,
    }
}

/// Reciprocal of a mass or inertia: zero for non-positive input, making the
/// body static along that degree of freedom.
pub open spec fn inv_of_spec(m: int) -> int {
    if m > 0 {
        fx_div_spec(FX_ONE as int, m)
    } else {
        0
    }
}

impl RigidBody {
    pub fn new(pos: Vec2, angle: i64, inv_mass: i64, inv_inertia: i64) -> (r: Self)
        ensures
            r == body_at_spec(pos, angle as int, inv_mass as int, inv_inertia as int),
    {
        RigidBody {
            pos,
            vel: Vec2::zero(),
            force: Vec2::zero(),
            inv_mass,
            angle,
            omega: 0,
            torque: 0,
            inv_inertia,
            collider: None,
            delta_pos: Vec2::zero(),
            delta_angle: 0,
        }
    }

    /// A box body of the given full width and height; `mass <= 0` makes it
    /// static.
    pub fn box_xy(pos: Vec2, angle: i64, mass: i64, width: i64, height: i64) -> (r: Self)
        ensures
            r.collider == Some(Collider2D::Box {
                half_extents: Vec2 { x: tdiv_half(width as int) as i64, y: tdiv_half(height as int) as i64 },
            }),
            r.inv_mass as int == inv_of_spec(mass as int),
            r.inv_inertia as int == inv_of_spec(inertia_spec(r.collider->Some_0, mass as int)),
            r.pos == pos && r.angle == angle,
            r.vel == (Vec2 { x: 0i64, y: 0i64 }) && r.omega == 0,
            r.force == (Vec2 { x: 0i64, y: 0i64 }) && r.torque == 0,
            r.delta_pos == (Vec2 { x: 0i64, y: 0i64 }) && r.delta_angle == 0,
    {
        let inv_mass = if mass > 0 {
            fx_div(FX_ONE, mass)
        } else {
            0
        };
        let collider = Collider2D::Box {
            half_extents: Vec2 { x: half_of(width), y: half_of(height) },
        };
        let inertia = collider.inertia_about_center(mass);
        let inv_inertia = if inertia > 0 {
            fx_div(FX_ONE, inertia)
        } else {
            0
        };
        proof {
            if mass > 0 && inertia <= 0 {
                assert(inv_of_spec(inertia as int) == 0);
            }
        }
        RigidBody {
            pos,
            vel: Vec2::zero(),
            force: Vec2::zero(),
            inv_mass,
            angle,
            omega: 0,
            torque: 0,
            inv_inertia,
            collider: Some(collider),
            delta_pos: Vec2::zero(),
            delta_angle: 0,
        }
    }

    /// A circle body of the given radius; `mass <= 0` makes it static.
    pub fn circle(pos: Vec2, angle: i64, mass: i64, radius: i64) -> (r: Self)
        ensures
            r.collider == Some(Collider2D::Circle { radius }),
            r.inv_mass as int == inv_of_spec(mass as int),
            r.inv_inertia as int == inv_of_spec(inertia_spec(Collider2D::Circle { radius }, mass as int)),
            r.pos == pos && r.angle == angle,
            r.vel == (Vec2 { x: 0i64, y: 0i64 }) && r.omega == 0,
            r.force == (Vec2 { x: 0i64, y: 0i64 }) && r.torque == 0,
            r.delta_pos == (Vec2 { x: 0i64, y: 0i64 }) && r.delta_angle == 0,
    {
        let inv_mass = if mass > 0 {
            fx_div(FX_ONE, mass)
        } else {
            0
        };
        let collider = Collider2D::Circle { radius };
        let inertia = collider.inertia_about_center(mass);
        let inv_inertia = if inertia > 0 {
            fx_div(FX_ONE, inertia)
        } else {
            0
        };
        RigidBody {
            pos,
            vel: Vec2::zero(),
            force: Vec2::zero(),
            inv_mass,
            angle,
            omega: 0,
            torque: 0,
            inv_inertia,
            collider: Some(collider),
            delta_pos: Vec2::zero(),
            delta_angle: 0,
        }
    }
}

/// Half of a scalar, rounding toward zero.
pub open spec fn tdiv_half(w: int) -> int {
    crate::fx::tdiv(w, 2)
}

fn half_of(w: i64) -> (r: i64)
    ensures
        r as int == tdiv_half(w as int),
{
    proof {
        if w >= 0 {
            crate::fx::lemma_div_mag(w as int, 2);
        } else {
            crate::fx::lemma_div_mag(-(w as int), 2);
        }
    }
    w / 2
}

} // verus!
