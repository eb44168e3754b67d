//! A Hookean spring with viscous damping between two bodies, or between a
//! body and a fixed anchor.

use vstd::prelude::*;

use crate::engine::body::rigid_body::RigidBody;
use crate::fx::{fx_div, fx_div_spec, fx_mul, fx_mul_spec, fx_neg, fx_neg_spec, fx_sub, fx_sub_spec};
use crate::math::vec::{
    vadd_spec, vdot_spec, vlen_spec, vscale_spec, vsub_spec, Vec2,
};

verus! {

/// One end of a spring: a body by index, or a fixed world point.
#[derive(Debug, Clone, Copy, PartialEq, Eq)]
pub enum SpringEnd {
    Entity(usize),
    Anchor(Vec2),
}

/// A spring of stiffness `k`, damping `c`, and rest length `rest`.
#[derive(Debug, Clone, Copy, PartialEq, Eq)]
pub struct Spring {
    pub a: SpringEnd,
    pub b: SpringEnd,
    pub k: i64,
    pub c: i64,
    pub rest: i64,
}

/// The kinematic state a spring end contributes: position, velocity, and
/// inverse mass (an anchor is immovable). `None` when a body index is out of
/// range.
pub open spec fn end_state_spec(end: SpringEnd, bodies: Seq<RigidBody>) -> Option<(Vec2, Vec2, i64)> {
    match end {
        SpringEnd::Entity(i) => if (i as int) < bodies.len() {
            Some((bodies[i as int].pos, bodies[i as int].vel, bodies[i as int].inv_mass))
        } else {
            None
        },
        SpringEnd::Anchor(p) => Some((p, Vec2 { x: 0i64, y: 0i64 }, 0i64)),
    }
}

/// The force the spring exerts on its first end:
/// `-k (|d| - rest) d_hat - c (v_rel . d_hat) d_hat`, with `d` the offset
/// from the second end to the first. Zero-length springs exert nothing.
pub open spec fn spring_force_spec(s: Spring, pa: Vec2, va: Vec2, pb: Vec2, vb: Vec2) -> Vec2 {
    let displacement = vsub_spec(pa, pb);
    let distance = vlen_spec(displacement);
    let direction = Vec2 {
        x: fx_div_spec(displacement.x as int, distance) as i64,
        y: fx_div_spec(displacement.y as int, distance) as i64,
    };
    let extension = fx_sub_spec(distance, s.rest as int);
    let f_spring = vscale_spec(direction, fx_neg_spec(fx_mul_spec(s.k as int, extension)));
    let v_rel = vsub_spec(va, vb);
    let axial = vdot_spec(v_rel, direction);
    let f_damp = vscale_spec(direction, fx_neg_spec(fx_mul_spec(s.c as int, axial)));
    vadd_spec(f_spring, f_damp)
}

/// What the spring adds to the bodies: the axial force on each dynamic end,
/// equal and opposite; nothing at all when an end's index is out of range or
/// the ends coincide.
pub open spec fn spring_apply_spec(s: Spring, bodies: Seq<RigidBody>) -> Seq<RigidBody> {
    match end_state_spec(s.a, bodies) {
        None => bodies,
        Some(ea) => match end_state_spec(s.b, bodies) {
            None => bodies,
            Some(eb) => {
                let distance = vlen_spec(vsub_spec(ea.0, eb.0));
                if distance < 1 {
                    bodies
                } else {
                    let f_a = spring_force_spec(s, ea.0, ea.1, eb.0, eb.1);
                    let bodies1 = match s.a {
                        SpringEnd::Entity(i) => if ea.2 > 0 {
                            bodies.update(i as int, RigidBody {
                                force: vadd_spec(bodies[i as int].force, f_a),
                                ..bodies[i as int]
                            })
                        } else {
                            bodies
                        },
                        SpringEnd::Anchor(_) => bodies,
                    };
                    match s.b {
                        SpringEnd::Entity(j) => if eb.2 > 0 {
                            bodies1.update(j as int, RigidBody {
                                force: vsub_spec(bodies1[j as int].force, f_a),
                                ..bodies1[j as int]
                            })
                        } else {
                            bodies1
                        },
                        SpringEnd::Anchor(_) => bodies1,
                    }
                }
            },
        },
    }
}

impl Spring {
    /// A spring between two bodies.
    pub fn between(i: usize, j: usize, k: i64, c: i64, rest: i64) -> (r: Self)
        ensures
            r == (Spring { a: SpringEnd::Entity(i), b: SpringEnd::Entity(j), k, c, rest }),
    {
        Spring { a: SpringEnd::Entity(i), b: SpringEnd::Entity(j), k, c, rest }
    }

    /// A spring from a body to a fixed anchor.
    pub fn to_anchor(i: usize, anchor: Vec2, k: i64, c: i64, rest: i64) -> (r: Self)
        ensures
            r == (Spring { a: SpringEnd::Entity(i), b: SpringEnd::Anchor(anchor), k, c, rest }),
    {
        Spring { a: SpringEnd::Entity(i), b: SpringEnd::Anchor(anchor), k, c, rest }
    }

    fn end_state(&self, end: &SpringEnd, bodies: &Vec<RigidBody>) -> (r: Option<(Vec2, Vec2, i64)>)
        ensures
            r == end_state_spec(*end, bodies@),
    {
        match end {
            SpringEnd::Entity(i) => {
                if *i < bodies.len() {
                    let e = &bodies[*i];
                    Some((e.pos, e.vel, e.inv_mass))
                } else {
                    None
                }
            },
            SpringEnd::Anchor(p) => Some((*p, Vec2 { x: 0, y: 0 }, 0)),
        }
    }

    /// Add the spring force to each dynamic end's accumulator, equal and
    /// opposite.
    #[verifier::rlimit(100)]
    pub fn apply(&self, bodies: &mut Vec<RigidBody>)
        ensures
            final(bodies)@ == spring_apply_spec(*self, old(bodies)@),
    {
        let sa = self.a;
        let sb = self.b;
        let (pa, va, inv_ma) = match self.end_state(&sa, bodies) {
            Some(v) => v,
            None => {
                return;
            },
        };
        let (pb, vb, inv_mb) = match self.end_state(&sb, bodies) {
            Some(v) => v,
            None => {
                return;
            },
        };

        let displacement = pa.sub(pb);
        let distance = displacement.length();
        if distance < 1 {
            return;
        }

        let direction = Vec2 { x: fx_div(displacement.x, distance), y: fx_div(displacement.y, distance) };
        let extension = fx_sub(distance, self.rest);
        let f_spring = direction.scale(fx_neg(fx_mul(self.k, extension)));
        let v_rel = va.sub(vb);
        let axial = v_rel.dot(direction);
        let f_damp = direction.scale(fx_neg(fx_mul(self.c, axial)));
        let f_a = f_spring.add(f_damp);

        if let SpringEnd::Entity(i) = sa {
            if inv_ma > 0 {
                let e = bodies[i];
                bodies.set(i, RigidBody { force: e.force.add(f_a), ..e });
            }
        }
        if let SpringEnd::Entity(j) = sb {
            if inv_mb > 0 {
                let e = bodies[j];
                bodies.set(j, RigidBody { force: e.force.sub(f_a), ..e });
            }
        }
    }
}


/// A spring never touches a static body: force is added to an end only when
/// its inverse mass is positive.
pub proof fn lemma_spring_apply_static(s: Spring, bodies: Seq<RigidBody>, k: int)
    requires
        0 <= k < bodies.len(),
        bodies[k].inv_mass == 0,
    ensures
        spring_apply_spec(s, bodies).len() == bodies.len(),
        spring_apply_spec(s, bodies)[k] == bodies[k],
{
}

} // verus!
