//! Sequential-impulse contact constraints with warm starting.
//!
//! Each contact point becomes one scalar constraint. A step applies cached
//! impulses first, then sweeps the constraints a fixed number of times,
//! applying a normal impulse (with a Baumgarte bias against penetration,
//! clamped so the accumulated normal impulse stays non-negative) and a
//! tangent impulse (clamped to the friction cone around the current normal
//! impulse), and ends with a restitution pass.

use vstd::prelude::*;

use crate::engine::body::rigid_body::RigidBody;
use crate::engine::collision::manifold::{ContactPoint, Manifold, ManifoldView};
use crate::engine::collision::narrow_phase::manifold_views;
use crate::fx::{
    fx_add, fx_add_spec, fx_clamp, fx_clamp_spec, fx_div, fx_div_spec, fx_max, fx_max_spec, fx_min,
    fx_min_spec, fx_mul, fx_mul_spec, fx_neg, fx_neg_spec, fx_sub, fx_sub_spec, FX_MAX, FX_ONE,
};
use crate::math::mat::{mmul_vec_spec, mrotation_spec, mtranspose_spec, Mat2};
use crate::math::vec::{vadd_spec, vcross_spec, vdot_spec, vperp_spec, vscale_spec, vsub_spec, Vec2};

verus! {

/// One scalar contact constraint between two bodies at one contact point.
#[derive(Debug, Clone, Copy, PartialEq, Eq, Structural)]
pub struct ContactConstraint {
    pub index_a: usize,
    pub index_b: usize,
    pub normal: Vec2,
    pub tangent: Vec2,
    pub local_anchor_a: Vec2,
    pub local_anchor_b: Vec2,
    /// Separation at build time: the negated penetration.
    pub base_separation: i64,
    pub normal_mass: i64,
    pub tangent_mass: i64,
    /// Accumulated normal impulse; kept non-negative.
    pub jn: i64,
    /// Accumulated tangent impulse; kept inside the friction cone.
    pub jt: i64,
    /// Relative normal velocity captured at build time, for restitution.
    pub relative_velocity: i64,
}

/// Solver tuning knobs.
#[derive(Debug, Clone, Copy, PartialEq, Eq, Structural)]
pub struct SolverParams {
    /// Baumgarte factor: the bias is `bias_rate * penetration / dt`.
    pub bias_rate: i64,
    /// Penetration below this is not corrected, preventing jitter at rest.
    pub slop: i64,
    /// Cap on the bias velocity, against explosive corrections.
    pub max_bias_velocity: i64,
    /// Minimum approach speed for a bounce.
    pub restitution_threshold: i64,
    /// Default restitution coefficient.
    pub restitution: i64,
    /// Default friction coefficient.
    pub friction: i64,
}

impl Default for SolverParams {
    /// Baumgarte rate 0.05, one centimetre of slop, bias capped at 4 m/s,
    /// bounces above 1 m/s, restitution 0.3, friction 0.5.
    fn default() -> (r: Self)
        ensures
            r == (SolverParams {
                bias_rate: 50_000i64,
                slop: 10_000i64,
                max_bias_velocity: 4_000_000i64,
                restitution_threshold: 1_000_000i64,
                restitution: 300_000i64,
                friction: 500_000i64,
            }),
    {
        SolverParams {
            bias_rate: 50_000,
            slop: 10_000,
            max_bias_velocity: 4_000_000,
            restitution_threshold: 1_000_000,
            restitution: 300_000,
            friction: 500_000,
        }
    }
}

/// Warm-start cache key: the body pair and both anchors snapped to a grid,
/// so small motions still match across steps.
#[derive(Debug, Clone, Copy, PartialEq, Eq, Structural)]
pub struct CacheKey {
    pub pair_a: usize,
    pub pair_b: usize,
    pub cell_ax: i64,
    pub cell_ay: i64,
    pub cell_bx: i64,
    pub cell_by: i64,
}

/// Grid cell width for the warm-start cache: five centimetres.
pub const CACHE_CELL_SIZE: i64 = 50_000;

/// A coordinate snapped to the nearest cache grid cell.
pub open spec fn cell_of_spec(v: int) -> int {
    if v >= 0 {
        (v + 25_000) / (CACHE_CELL_SIZE as int)
    } else {
        -(((-v) + 25_000) / (CACHE_CELL_SIZE as int))
    }
}

/// The cache key of a constraint.
pub open spec fn cache_key_spec(c: ContactConstraint) -> CacheKey {
    CacheKey {
        pair_a: c.index_a,
        pair_b: c.index_b,
        cell_ax: cell_of_spec(c.local_anchor_a.x as int) as i64,
        cell_ay: cell_of_spec(c.local_anchor_a.y as int) as i64,
        cell_bx: cell_of_spec(c.local_anchor_b.x as int) as i64,
        cell_by: cell_of_spec(c.local_anchor_b.y as int) as i64,
    }
}

/// The cached impulses under a key; the latest insertion wins.
pub open spec fn cache_lookup_spec(cache: Seq<(CacheKey, (i64, i64))>, key: CacheKey) -> Option<(i64, i64)>
    decreases cache.len(),
{
    if cache.len() == 0 {
        None
    } else if cache.last().0 == key {
        Some(cache.last().1)
    } else {
        cache_lookup_spec(cache.drop_last(), key)
    }
}

/// Velocity of a body's material point at offset `r` from its centre.
pub open spec fn velocity_at_spec(r: Vec2, e: RigidBody) -> Vec2 {
    vadd_spec(
        e.vel,
        Vec2 {
            x: fx_mul_spec(fx_neg_spec(e.omega as int), r.y as int) as i64,
            y: fx_mul_spec(e.omega as int, r.x as int) as i64,
        },
    )
}

/// The effective scalar mass along an axis: the reciprocal of the
/// Jacobian-weighted inverse masses, or zero when that sum vanishes.
pub open spec fn eff_mass_spec(r_a: Vec2, r_b: Vec2, axis: Vec2, a: RigidBody, b: RigidBody) -> int {
    let rn_a = vcross_spec(r_a, axis);
    let rn_b = vcross_spec(r_b, axis);
    let inv = fx_add_spec(
        fx_add_spec(a.inv_mass as int, b.inv_mass as int),
        fx_add_spec(
            fx_mul_spec(fx_mul_spec(rn_a, rn_a), a.inv_inertia as int),
            fx_mul_spec(fx_mul_spec(rn_b, rn_b), b.inv_inertia as int),
        ),
    );
    if inv > 0 {
        fx_div_spec(FX_ONE as int, inv)
    } else {
        0
    }
}

/// World anchors of a constraint at the bodies' current orientations.
pub open spec fn world_anchor_spec(c_anchor: Vec2, angle: int) -> Vec2 {
    mmul_vec_spec(mrotation_spec(angle), c_anchor)
}

/// A fresh constraint for one contact point: anchors stored in each body's
/// local frame, effective masses along normal and tangent, separation the
/// negated penetration, and the approach speed captured for restitution.
pub open spec fn constraint_new_spec(
    index_a: int,
    index_b: int,
    normal: Vec2,
    cp: ContactPoint,
    a: RigidBody,
    b: RigidBody,
) -> ContactConstraint {
    let r_a_world0 = vsub_spec(cp.point, a.pos);
    let r_b_world0 = vsub_spec(cp.point, b.pos);
    let local_anchor_a = mmul_vec_spec(mtranspose_spec(mrotation_spec(a.angle as int)), r_a_world0);
    let local_anchor_b = mmul_vec_spec(mtranspose_spec(mrotation_spec(b.angle as int)), r_b_world0);
    let r_a = world_anchor_spec(local_anchor_a, a.angle as int);
    let r_b = world_anchor_spec(local_anchor_b, b.angle as int);
    let tangent = vperp_spec(normal);
    let rel_vel = vsub_spec(velocity_at_spec(r_b, b), velocity_at_spec(r_a, a));
    ContactConstraint {
        index_a: index_a as usize,
        index_b: index_b as usize,
        normal,
        tangent,
        local_anchor_a,
        local_anchor_b,
        base_separation: fx_neg_spec(cp.penetration as int) as i64,
        normal_mass: eff_mass_spec(r_a, r_b, normal, a, b) as i64,
        tangent_mass: eff_mass_spec(r_a, r_b, tangent, a, b) as i64,
        jn: 0i64,
        jt: 0i64,
        relative_velocity: vdot_spec(rel_vel, normal) as i64,
    }
}

/// An impulse of the given magnitude along `dir` applied at the two world
/// anchors: equal and opposite velocity and spin changes, weighted by each
/// body's inverse mass and inertia.
pub open spec fn apply_impulse_pair_spec(
    a: RigidBody,
    b: RigidBody,
    r_a: Vec2,
    r_b: Vec2,
    dir: Vec2,
    magnitude: int,
) -> (RigidBody, RigidBody) {
    let impulse = vscale_spec(dir, magnitude);
    let a2 = RigidBody {
        vel: vsub_spec(a.vel, vscale_spec(impulse, a.inv_mass as int)),
        omega: fx_sub_spec(
            a.omega as int,
            fx_mul_spec(a.inv_inertia as int, vcross_spec(r_a, impulse)),
        ) as i64,
        ..a
    };
    let b2 = RigidBody {
        vel: vadd_spec(b.vel, vscale_spec(impulse, b.inv_mass as int)),
        omega: fx_add_spec(
            b.omega as int,
            fx_mul_spec(b.inv_inertia as int, vcross_spec(r_b, impulse)),
        ) as i64,
        ..b
    };
    (a2, b2)
}

/// Refresh the two bodies' predicted step motion after an impulse.
pub open spec fn sync_pair_deltas_spec(
    a: RigidBody,
    b: RigidBody,
    index_a: int,
    index_b: int,
    delta_pos: Seq<Vec2>,
    delta_angle: Seq<i64>,
    dt: int,
) -> (Seq<Vec2>, Seq<i64>) {
    if dt <= 0 {
        (delta_pos, delta_angle)
    } else {
        (
            delta_pos.update(index_a, vscale_spec(a.vel, dt)).update(index_b, vscale_spec(b.vel, dt)),
            delta_angle.update(index_a, fx_mul_spec(a.omega as int, dt) as i64).update(
                index_b,
                fx_mul_spec(b.omega as int, dt) as i64,
            ),
        )
    }
}

/// Whether a constraint's indices address two distinct bodies, and the delta
/// arrays cover them.
pub open spec fn pair_ok_spec(
    c: ContactConstraint,
    bodies: Seq<RigidBody>,
    delta_pos: Seq<Vec2>,
    delta_angle: Seq<i64>,
) -> bool {
    c.index_a != c.index_b && (c.index_a as int) < bodies.len() && (c.index_b as int) < bodies.len()
        && delta_pos.len() == bodies.len() && delta_angle.len() == bodies.len()
}

/// One normal solve: measure the predicted separation, turn overlap into a
/// clamped bias velocity, propose an impulse against the relative normal
/// velocity, clamp the accumulated impulse at zero, and apply the difference.
pub open spec fn solve_normal_spec(
    c: ContactConstraint,
    bodies: Seq<RigidBody>,
    delta_pos: Seq<Vec2>,
    delta_angle: Seq<i64>,
    dt: int,
    params: SolverParams,
    use_bias: bool,
) -> (ContactConstraint, Seq<RigidBody>, Seq<Vec2>, Seq<i64>) {
    if !pair_ok_spec(c, bodies, delta_pos, delta_angle) {
        (c, bodies, delta_pos, delta_angle)
    } else {
        let ia = c.index_a as int;
        let ib = c.index_b as int;
        let a = bodies[ia];
        let b = bodies[ib];
        let r_a0 = world_anchor_spec(c.local_anchor_a, a.angle as int);
        let r_b0 = world_anchor_spec(c.local_anchor_b, b.angle as int);
        let dr_a = vscale_spec(vperp_spec(r_a0), delta_angle[ia] as int);
        let dr_b = vscale_spec(vperp_spec(r_b0), delta_angle[ib] as int);
        let dp = vsub_spec(delta_pos[ib], delta_pos[ia]);
        let separation = fx_add_spec(
            c.base_separation as int,
            vdot_spec(vadd_spec(dp, vsub_spec(dr_b, dr_a)), c.normal),
        );
        let velocity_bias = if dt <= 0 {
            0
        } else if separation > 0 {
            fx_div_spec(separation, dt)
        } else if use_bias {
            let err = fx_min_spec(fx_add_spec(separation, params.slop as int), 0);
            fx_max_spec(
                fx_div_spec(fx_mul_spec(params.bias_rate as int, err), dt),
                fx_neg_spec(params.max_bias_velocity as int),
            )
        } else {
            0
        };
        let vn = vdot_spec(vsub_spec(velocity_at_spec(r_b0, b), velocity_at_spec(r_a0, a)), c.normal);
        let impulse = fx_neg_spec(fx_mul_spec(c.normal_mass as int, fx_add_spec(vn, velocity_bias)));
        let jn_new = fx_max_spec(fx_add_spec(c.jn as int, impulse), 0);
        let delta = fx_sub_spec(jn_new, c.jn as int);
        let ab2 = apply_impulse_pair_spec(a, b, r_a0, r_b0, c.normal, delta);
        let bodies2 = bodies.update(ia, ab2.0).update(ib, ab2.1);
        let deltas2 = sync_pair_deltas_spec(ab2.0, ab2.1, ia, ib, delta_pos, delta_angle, dt);
        (
            ContactConstraint { jn: jn_new as i64, ..c },
            bodies2,
            deltas2.0,
            deltas2.1,
        )
    }
}

/// One tangent solve: propose an impulse against the relative tangent
/// velocity and clamp the accumulated tangent impulse into the Coulomb cone
/// around the current normal impulse.
pub open spec fn solve_tangent_spec(
    c: ContactConstraint,
    bodies: Seq<RigidBody>,
    delta_pos: Seq<Vec2>,
    delta_angle: Seq<i64>,
    dt: int,
    friction: int,
) -> (ContactConstraint, Seq<RigidBody>, Seq<Vec2>, Seq<i64>) {
    if !pair_ok_spec(c, bodies, delta_pos, delta_angle) {
        (c, bodies, delta_pos, delta_angle)
    } else {
        let ia = c.index_a as int;
        let ib = c.index_b as int;
        let a = bodies[ia];
        let b = bodies[ib];
        let r_a0 = world_anchor_spec(c.local_anchor_a, a.angle as int);
        let r_b0 = world_anchor_spec(c.local_anchor_b, b.angle as int);
        let vt = vdot_spec(vsub_spec(velocity_at_spec(r_b0, b), velocity_at_spec(r_a0, a)), c.tangent);
        let lambda = fx_neg_spec(fx_mul_spec(c.tangent_mass as int, vt));
        let max_jt = fx_mul_spec(friction, c.jn as int);
        let jt_new = fx_clamp_spec(fx_add_spec(c.jt as int, lambda), fx_neg_spec(max_jt), max_jt);
        let delta = fx_sub_spec(jt_new, c.jt as int);
        let ab2 = apply_impulse_pair_spec(a, b, r_a0, r_b0, c.tangent, delta);
        let bodies2 = bodies.update(ia, ab2.0).update(ib, ab2.1);
        let deltas2 = sync_pair_deltas_spec(ab2.0, ab2.1, ia, ib, delta_pos, delta_angle, dt);
        (
            ContactConstraint { jt: jt_new as i64, ..c },
            bodies2,
            deltas2.0,
            deltas2.1,
        )
    }
}

/// The restitution pass for one constraint: only for contacts that were
/// overlapping at build time and approaching faster than the threshold, add
/// the bounce target to the normal solve, keeping the accumulated impulse
/// non-negative.
pub open spec fn apply_restitution_spec(
    c: ContactConstraint,
    bodies: Seq<RigidBody>,
    delta_pos: Seq<Vec2>,
    delta_angle: Seq<i64>,
    dt: int,
    restitution: int,
    threshold: int,
) -> (ContactConstraint, Seq<RigidBody>, Seq<Vec2>, Seq<i64>) {
    if restitution == 0 || c.base_separation >= 0 || c.relative_velocity as int
        > fx_neg_spec(threshold) || c.jn == 0 || !pair_ok_spec(c, bodies, delta_pos, delta_angle) {
        (c, bodies, delta_pos, delta_angle)
    } else {
        let ia = c.index_a as int;
        let ib = c.index_b as int;
        let a = bodies[ia];
        let b = bodies[ib];
        let r_a0 = world_anchor_spec(c.local_anchor_a, a.angle as int);
        let r_b0 = world_anchor_spec(c.local_anchor_b, b.angle as int);
        let vn = vdot_spec(vsub_spec(velocity_at_spec(r_b0, b), velocity_at_spec(r_a0, a)), c.normal);
        let impulse = fx_neg_spec(fx_mul_spec(
            c.normal_mass as int,
            fx_add_spec(vn, fx_mul_spec(restitution, c.relative_velocity as int)),
        ));
        let jn_new = fx_max_spec(fx_add_spec(c.jn as int, impulse), 0);
        let delta = fx_sub_spec(jn_new, c.jn as int);
        let ab2 = apply_impulse_pair_spec(a, b, r_a0, r_b0, c.normal, delta);
        let bodies2 = bodies.update(ia, ab2.0).update(ib, ab2.1);
        let deltas2 = sync_pair_deltas_spec(ab2.0, ab2.1, ia, ib, delta_pos, delta_angle, dt);
        (
            ContactConstraint { jn: jn_new as i64, ..c },
            bodies2,
            deltas2.0,
            deltas2.1,
        )
    }
}

/// The warm-start application of one constraint's cached impulses.
pub open spec fn apply_warm_start_spec(c: ContactConstraint, bodies: Seq<RigidBody>) -> Seq<RigidBody> {
    if (c.jn == 0 && c.jt == 0) || c.index_a == c.index_b || (c.index_a as int) >= bodies.len()
        || (c.index_b as int) >= bodies.len() {
        bodies
    } else {
        let ia = c.index_a as int;
        let ib = c.index_b as int;
        let a = bodies[ia];
        let b = bodies[ib];
        let r_a0 = world_anchor_spec(c.local_anchor_a, a.angle as int);
        let r_b0 = world_anchor_spec(c.local_anchor_b, b.angle as int);
        let ab1 = apply_impulse_pair_spec(a, b, r_a0, r_b0, c.normal, c.jn as int);
        let ab2 = apply_impulse_pair_spec(ab1.0, ab1.1, r_a0, r_b0, c.tangent, c.jt as int);
        bodies.update(ia, ab2.0).update(ib, ab2.1)
    }
}

fn world_anchor(c_anchor: Vec2, angle: i64) -> (r: Vec2)
    ensures
        r == world_anchor_spec(c_anchor, angle as int),
{
    Mat2::rotation(angle).mul_vec2(c_anchor)
}

fn velocity_at(r: Vec2, e: &RigidBody) -> (v: Vec2)
    ensures
        v == velocity_at_spec(r, *e),
{
    e.vel.add(Vec2 { x: fx_mul(fx_neg(e.omega), r.y), y: fx_mul(e.omega, r.x) })
}

fn eff_mass(r_a: Vec2, r_b: Vec2, axis: Vec2, a: &RigidBody, b: &RigidBody) -> (m: i64)
    ensures
        m as int == eff_mass_spec(r_a, r_b, axis, *a, *b),
{
    let rn_a = r_a.cross(axis);
    let rn_b = r_b.cross(axis);
    let inv = fx_add(
        fx_add(a.inv_mass, b.inv_mass),
        fx_add(
            fx_mul(fx_mul(rn_a, rn_a), a.inv_inertia),
            fx_mul(fx_mul(rn_b, rn_b), b.inv_inertia),
        ),
    );
    if inv > 0 {
        fx_div(FX_ONE, inv)
    } else {
        0
    }
}

/// Apply an impulse along `dir` to both bodies of a pair, equal and
/// opposite.
fn apply_impulse_pair(
    a: &mut RigidBody,
    b: &mut RigidBody,
    r_a: Vec2,
    r_b: Vec2,
    dir: Vec2,
    magnitude: i64,
)
    ensures
        (*final(a), *final(b)) == apply_impulse_pair_spec(*old(a), *old(b), r_a, r_b, dir, magnitude as int),
{
    let impulse = dir.scale(magnitude);
    a.vel = a.vel.sub(impulse.scale(a.inv_mass));
    a.omega = fx_sub(a.omega, fx_mul(a.inv_inertia, r_a.cross(impulse)));
    b.vel = b.vel.add(impulse.scale(b.inv_mass));
    b.omega = fx_add(b.omega, fx_mul(b.inv_inertia, r_b.cross(impulse)));
}

impl ContactConstraint {
    /// Build the constraint for one contact point of a manifold.
    pub fn new(
        index_a: usize,
        index_b: usize,
        normal: Vec2,
        cp: &ContactPoint,
        a: &RigidBody,
        b: &RigidBody,
    ) -> (r: Self)
        ensures
            r == constraint_new_spec(index_a as int, index_b as int, normal, *cp, *a, *b),
    {
        let r_a_world0 = cp.point.sub(a.pos);
        let r_b_world0 = cp.point.sub(b.pos);
        let rot_a_t = Mat2::rotation(a.angle).transpose();
        let rot_b_t = Mat2::rotation(b.angle).transpose();
        let local_anchor_a = rot_a_t.mul_vec2(r_a_world0);
        let local_anchor_b = rot_b_t.mul_vec2(r_b_world0);

        let r_a = world_anchor(local_anchor_a, a.angle);
        let r_b = world_anchor(local_anchor_b, b.angle);
        let tangent = normal.perp();

        let rel_vel = velocity_at(r_b, b).sub(velocity_at(r_a, a));

        ContactConstraint {
            index_a,
            index_b,
            normal,
            tangent,
            local_anchor_a,
            local_anchor_b,
            base_separation: fx_neg(cp.penetration),
            normal_mass: eff_mass(r_a, r_b, normal, a, b),
            tangent_mass: eff_mass(r_a, r_b, tangent, a, b),
            jn: 0,
            jt: 0,
            relative_velocity: rel_vel.dot(normal),
        }
    }

    fn pair_ok(
        &self,
        entities: &Vec<RigidBody>,
        delta_pos: &Vec<Vec2>,
        delta_angle: &Vec<i64>,
    ) -> (r: bool)
        ensures
            r == pair_ok_spec(*self, entities@, delta_pos@, delta_angle@),
    {
        self.index_a != self.index_b && self.index_a < entities.len() && self.index_b < entities.len()
            && delta_pos.len() == entities.len() && delta_angle.len() == entities.len()
    }

    /// The normal impulse solve for this constraint, with the separation
    /// predicted from the tracked per-body step motion.
    #[verifier::rlimit(100)]
    pub fn solve_normal(
        &mut self,
        entities: &mut Vec<RigidBody>,
        delta_pos: &mut Vec<Vec2>,
        delta_angle: &mut Vec<i64>,
        dt: i64,
        params: &SolverParams,
        use_bias: bool,
    )
        ensures
            ({
                let r = solve_normal_spec(
                    *old(self), old(entities)@, old(delta_pos)@, old(delta_angle)@, dt as int,
                    *params, use_bias,
                );
                *final(self) == r.0 && final(entities)@ == r.1 && final(delta_pos)@ == r.2
                    && final(delta_angle)@ == r.3
            }),
    {
        if !self.pair_ok(entities, delta_pos, delta_angle) {
            return;
        }
        let ia = self.index_a;
        let ib = self.index_b;
        let mut a = entities[ia];
        let mut b = entities[ib];

        let r_a0 = world_anchor(self.local_anchor_a, a.angle);
        let r_b0 = world_anchor(self.local_anchor_b, b.angle);

        let dr_a = r_a0.perp().scale(delta_angle[ia]);
        let dr_b = r_b0.perp().scale(delta_angle[ib]);

        let dp = delta_pos[ib].sub(delta_pos[ia]);
        let separation = fx_add(self.base_separation, dp.add(dr_b.sub(dr_a)).dot(self.normal));

        let velocity_bias = if dt <= 0 {
            0
        } else if separation > 0 {
            fx_div(separation, dt)
        } else if use_bias {
            let err = fx_min(fx_add(separation, params.slop), 0);
            fx_max(fx_div(fx_mul(params.bias_rate, err), dt), fx_neg(params.max_bias_velocity))
        } else {
            0
        };

        let vn = velocity_at(r_b0, &b).sub(velocity_at(r_a0, &a)).dot(self.normal);

        let impulse = fx_neg(fx_mul(self.normal_mass, fx_add(vn, velocity_bias)));

        let jn_old = self.jn;
        self.jn = fx_max(fx_add(jn_old, impulse), 0);
        let delta = fx_sub(self.jn, jn_old);

        apply_impulse_pair(&mut a, &mut b, r_a0, r_b0, self.normal, delta);
        entities.set(ia, a);
        entities.set(ib, b);

        sync_pair_deltas(&a, &b, ia, ib, delta_pos, delta_angle, dt);
    }

    /// The tangent impulse solve for this constraint, the accumulated
    /// impulse clamped into the Coulomb cone around the current `jn`.
    #[verifier::rlimit(100)]
    pub fn solve_tangent(
        &mut self,
        entities: &mut Vec<RigidBody>,
        delta_pos: &mut Vec<Vec2>,
        delta_angle: &mut Vec<i64>,
        dt: i64,
        friction: i64,
    )
        ensures
            ({
                let r = solve_tangent_spec(
                    *old(self), old(entities)@, old(delta_pos)@, old(delta_angle)@, dt as int,
                    friction as int,
                );
                *final(self) == r.0 && final(entities)@ == r.1 && final(delta_pos)@ == r.2
                    && final(delta_angle)@ == r.3
            }),
    {
        if !self.pair_ok(entities, delta_pos, delta_angle) {
            return;
        }
        let ia = self.index_a;
        let ib = self.index_b;
        let mut a = entities[ia];
        let mut b = entities[ib];

        let r_a0 = world_anchor(self.local_anchor_a, a.angle);
        let r_b0 = world_anchor(self.local_anchor_b, b.angle);
        let vt = velocity_at(r_b0, &b).sub(velocity_at(r_a0, &a)).dot(self.tangent);
        let lambda = fx_neg(fx_mul(self.tangent_mass, vt));

        let max_jt = fx_mul(friction, self.jn);
        let jt_old = self.jt;
        self.jt = fx_clamp(fx_add(jt_old, lambda), fx_neg(max_jt), max_jt);
        let delta = fx_sub(self.jt, jt_old);

        apply_impulse_pair(&mut a, &mut b, r_a0, r_b0, self.tangent, delta);
        entities.set(ia, a);
        entities.set(ib, b);

        sync_pair_deltas(&a, &b, ia, ib, delta_pos, delta_angle, dt);
    }

    /// The separate restitution pass: bounce contacts that were overlapping
    /// and approaching faster than the threshold.
    #[verifier::rlimit(100)]
    pub fn apply_restitution(
        &mut self,
        entities: &mut Vec<RigidBody>,
        delta_pos: &mut Vec<Vec2>,
        delta_angle: &mut Vec<i64>,
        dt: i64,
        restitution: i64,
        threshold: i64,
    )
        ensures
            ({
                let r = apply_restitution_spec(
                    *old(self), old(entities)@, old(delta_pos)@, old(delta_angle)@, dt as int,
                    restitution as int, threshold as int,
                );
                *final(self) == r.0 && final(entities)@ == r.1 && final(delta_pos)@ == r.2
                    && final(delta_angle)@ == r.3
            }),
    {
        if restitution == 0 {
            return;
        }
        if self.base_separation >= 0 {
            return;
        }
        if self.relative_velocity > fx_neg(threshold) || self.jn == 0 {
            return;
        }
        if !self.pair_ok(entities, delta_pos, delta_angle) {
            return;
        }
        let ia = self.index_a;
        let ib = self.index_b;
        let mut a = entities[ia];
        let mut b = entities[ib];

        let r_a0 = world_anchor(self.local_anchor_a, a.angle);
        let r_b0 = world_anchor(self.local_anchor_b, b.angle);
        let vn = velocity_at(r_b0, &b).sub(velocity_at(r_a0, &a)).dot(self.normal);
        let impulse = fx_neg(fx_mul(
            self.normal_mass,
            fx_add(vn, fx_mul(restitution, self.relative_velocity)),
        ));

        let jn_old = self.jn;
        self.jn = fx_max(fx_add(jn_old, impulse), 0);
        let delta = fx_sub(self.jn, jn_old);

        apply_impulse_pair(&mut a, &mut b, r_a0, r_b0, self.normal, delta);
        entities.set(ia, a);
        entities.set(ib, b);

        sync_pair_deltas(&a, &b, ia, ib, delta_pos, delta_angle, dt);
    }

    fn apply_warm_start(&self, entities: &mut Vec<RigidBody>)
        ensures
            final(entities)@ == apply_warm_start_spec(*self, old(entities)@),
    {
        if self.jn == 0 && self.jt == 0 {
            return;
        }
        if self.index_a == self.index_b || self.index_a >= entities.len() || self.index_b
            >= entities.len() {
            return;
        }
        let ia = self.index_a;
        let ib = self.index_b;
        let mut a = entities[ia];
        let mut b = entities[ib];
        let r_a0 = world_anchor(self.local_anchor_a, a.angle);
        let r_b0 = world_anchor(self.local_anchor_b, b.angle);
        apply_impulse_pair(&mut a, &mut b, r_a0, r_b0, self.normal, self.jn);
        apply_impulse_pair(&mut a, &mut b, r_a0, r_b0, self.tangent, self.jt);
        entities.set(ia, a);
        entities.set(ib, b);
    }
}

fn sync_pair_deltas(
    a: &RigidBody,
    b: &RigidBody,
    index_a: usize,
    index_b: usize,
    delta_pos: &mut Vec<Vec2>,
    delta_angle: &mut Vec<i64>,
    dt: i64,
)
    requires
        dt > 0 ==> (index_a as int) < old(delta_pos)@.len() && (index_b as int) < old(delta_pos)@.len()
            && old(delta_angle)@.len() == old(delta_pos)@.len(),
    ensures
        ({
            let r = sync_pair_deltas_spec(
                *a, *b, index_a as int, index_b as int, old(delta_pos)@, old(delta_angle)@, dt as int,
            );
            final(delta_pos)@ == r.0 && final(delta_angle)@ == r.1
        }),
{
    if dt <= 0 {
        return;
    }
    delta_pos.set(index_a, a.vel.scale(dt));
    delta_angle.set(index_a, fx_mul(a.omega, dt));
    delta_pos.set(index_b, b.vel.scale(dt));
    delta_angle.set(index_b, fx_mul(b.omega, dt));
}

fn cell_of(v: i64) -> (r: i64)
    ensures
        r as int == cell_of_spec(v as int),
{
    let w: i128 = v as i128;
    if v >= 0 {
        ((w + 25_000) / (CACHE_CELL_SIZE as i128)) as i64
    } else {
        (-((-w + 25_000) / (CACHE_CELL_SIZE as i128))) as i64
    }
}

fn cache_key_of(c: &ContactConstraint) -> (r: CacheKey)
    ensures
        r == cache_key_spec(*c),
{
    CacheKey {
        pair_a: c.index_a,
        pair_b: c.index_b,
        cell_ax: cell_of(c.local_anchor_a.x),
        cell_ay: cell_of(c.local_anchor_a.y),
        cell_bx: cell_of(c.local_anchor_b.x),
        cell_by: cell_of(c.local_anchor_b.y),
    }
}

fn cache_lookup(cache: &Vec<(CacheKey, (i64, i64))>, key: CacheKey) -> (r: Option<(i64, i64)>)
    ensures
        r == cache_lookup_spec(cache@, key),
{
    let mut k = cache.len();
    proof {
        assert(cache@.subrange(0, cache@.len() as int) =~= cache@);
    }
    while k > 0
        invariant
            k <= cache@.len(),
            cache_lookup_spec(cache@, key) == cache_lookup_spec(cache@.subrange(0, k as int), key),
        decreases k,
    {
        k = k - 1;
        let entry = cache[k];
        proof {
            assert(cache@.subrange(0, k as int + 1).last() == cache@[k as int]);
            assert(cache@.subrange(0, k as int + 1).drop_last() =~= cache@.subrange(0, k as int));
        }
        if entry.0 == key {
            return Some(entry.1);
        }
    }
    proof {
        assert(cache@.subrange(0, 0) =~= Seq::<(CacheKey, (i64, i64))>::empty());
    }
    None
}


/// The mathematical shadow of a constraint solver.
pub ghost struct SolverView {
    pub constraints: Seq<ContactConstraint>,
    pub iterations: usize,
    pub params: SolverParams,
    pub cache: Seq<(CacheKey, (i64, i64))>,
    pub dt: i64,
    pub last_dt: i64,
    pub delta_pos: Seq<Vec2>,
    pub delta_angle: Seq<i64>,
}

/// Contact constraints plus the warm-start cache and the per-body motion
/// predicted within the current step.
pub struct ConstraintSolver {
    pub constraints: Vec<ContactConstraint>,
    pub iterations: usize,
    pub params: SolverParams,
    cache: Vec<(CacheKey, (i64, i64))>,
    dt: i64,
    last_dt: i64,
    delta_pos: Vec<Vec2>,
    delta_angle: Vec<i64>,
}

impl View for ConstraintSolver {
    type V = SolverView;

    closed spec fn view(&self) -> SolverView {
        SolverView {
            constraints: self.constraints@,
            iterations: self.iterations,
            params: self.params,
            cache: self.cache@,
            dt: self.dt,
            last_dt: self.last_dt,
            delta_pos: self.delta_pos@,
            delta_angle: self.delta_angle@,
        }
    }
}

/// The warm-start cache harvested from the previous step's constraints:
/// every constraint that accumulated an impulse files it under its key.
pub open spec fn harvest_cache_spec(cs: Seq<ContactConstraint>) -> Seq<(CacheKey, (i64, i64))>
    decreases cs.len(),
{
    if cs.len() == 0 {
        Seq::empty()
    } else {
        let rest = harvest_cache_spec(cs.drop_last());
        let c = cs.last();
        if c.jn != 0 || c.jt != 0 {
            rest.push((cache_key_spec(c), (c.jn, c.jt)))
        } else {
            rest
        }
    }
}

/// A fresh constraint for one point, its impulses inherited from the cache
/// on a key hit, scaled by the step-size ratio.
pub open spec fn constraint_for_point_spec(
    index_a: int,
    index_b: int,
    normal: Vec2,
    cp: ContactPoint,
    bodies: Seq<RigidBody>,
    cache: Seq<(CacheKey, (i64, i64))>,
    dt_ratio: int,
) -> ContactConstraint {
    let c = constraint_new_spec(index_a, index_b, normal, cp, bodies[index_a], bodies[index_b]);
    match cache_lookup_spec(cache, cache_key_spec(c)) {
        Some(hit) => ContactConstraint {
            jn: fx_mul_spec(hit.0 as int, dt_ratio) as i64,
            jt: fx_mul_spec(hit.1 as int, dt_ratio) as i64,
            ..c
        },
        None => c,
    }
}

/// The constraints of one manifold's points, in order.
pub open spec fn constraints_of_points_spec(
    m: ManifoldView,
    pts: Seq<ContactPoint>,
    bodies: Seq<RigidBody>,
    cache: Seq<(CacheKey, (i64, i64))>,
    dt_ratio: int,
) -> Seq<ContactConstraint>
    decreases pts.len(),
{
    if pts.len() == 0 {
        Seq::empty()
    } else {
        constraints_of_points_spec(m, pts.drop_last(), bodies, cache, dt_ratio).push(
            constraint_for_point_spec(m.a, m.b, m.normal, pts.last(), bodies, cache, dt_ratio),
        )
    }
}

/// The flat constraint list of a manifold list; manifolds with out-of-range
/// indices are skipped.
pub open spec fn build_list_spec(
    ms: Seq<ManifoldView>,
    bodies: Seq<RigidBody>,
    cache: Seq<(CacheKey, (i64, i64))>,
    dt_ratio: int,
) -> Seq<ContactConstraint>
    decreases ms.len(),
{
    if ms.len() == 0 {
        Seq::empty()
    } else {
        let rest = build_list_spec(ms.drop_last(), bodies, cache, dt_ratio);
        let m = ms.last();
        if 0 <= m.a < bodies.len() && 0 <= m.b < bodies.len() {
            rest + constraints_of_points_spec(m, m.points, bodies, cache, dt_ratio)
        } else {
            rest
        }
    }
}

/// Delta storage brought to the body count: untouched when it already
/// matches, else the old prefix kept and the tail zeroed.
pub open spec fn ensure_len_spec(dp: Seq<Vec2>, da: Seq<i64>, n: int) -> (Seq<Vec2>, Seq<i64>) {
    if dp.len() == n {
        (dp, da)
    } else {
        (
            Seq::new(n as nat, |i: int| if i < dp.len() { dp[i] } else { Vec2 { x: 0i64, y: 0i64 } }),
            Seq::new(n as nat, |i: int| if i < da.len() { da[i] } else { 0i64 }),
        )
    }
}

/// The step-size ratio that rescales cached impulses: one on the first step.
pub open spec fn dt_ratio_spec(dt: int, last_dt: int) -> int {
    if last_dt > 0 {
        fx_div_spec(dt, last_dt)
    } else {
        FX_ONE as int
    }
}

/// What `build_constraints` does: harvest the cache from the outgoing
/// constraints, then materialise one constraint per manifold point, each
/// warm-started from the cache with its impulses rescaled by the step-size
/// ratio.
pub open spec fn build_constraints_spec(
    s: SolverView,
    ms: Seq<ManifoldView>,
    bodies: Seq<RigidBody>,
    dt: i64,
) -> SolverView {
    let deltas = ensure_len_spec(s.delta_pos, s.delta_angle, bodies.len() as int);
    let ratio = dt_ratio_spec(dt as int, s.last_dt as int);
    let cache2 = harvest_cache_spec(s.constraints);
    SolverView {
        constraints: build_list_spec(ms, bodies, cache2, ratio),
        cache: cache2,
        dt: dt,
        last_dt: dt,
        delta_pos: deltas.0,
        delta_angle: deltas.1,
        ..s
    }
}

/// The predicted per-body motion at the start of the solve.
pub open spec fn init_deltas_spec(bodies: Seq<RigidBody>, dt: int) -> (Seq<Vec2>, Seq<i64>) {
    (
        Seq::new(bodies.len(), |i: int| if dt <= 0 {
            Vec2 { x: 0i64, y: 0i64 }
        } else {
            vscale_spec(bodies[i].vel, dt)
        }),
        Seq::new(bodies.len(), |i: int| if dt <= 0 {
            0i64
        } else {
            fx_mul_spec(bodies[i].omega as int, dt) as i64
        }),
    )
}

/// The first `k` constraints' cached impulses applied to the bodies.
pub open spec fn warm_start_all_spec(cs: Seq<ContactConstraint>, bodies: Seq<RigidBody>, k: int) -> Seq<RigidBody>
    decreases k,
{
    if k <= 0 {
        bodies
    } else {
        apply_warm_start_spec(cs[k - 1], warm_start_all_spec(cs, bodies, k - 1))
    }
}

/// One normal pass over the first `k` constraints, in list order.
pub open spec fn normal_sweep_spec(
    cs: Seq<ContactConstraint>,
    bodies: Seq<RigidBody>,
    dp: Seq<Vec2>,
    da: Seq<i64>,
    k: int,
    dt: int,
    params: SolverParams,
    use_bias: bool,
) -> (Seq<ContactConstraint>, Seq<RigidBody>, Seq<Vec2>, Seq<i64>)
    decreases k,
{
    if k <= 0 {
        (cs, bodies, dp, da)
    } else {
        let prev = normal_sweep_spec(cs, bodies, dp, da, k - 1, dt, params, use_bias);
        let r = solve_normal_spec(prev.0[k - 1], prev.1, prev.2, prev.3, dt, params, use_bias);
        (prev.0.update(k - 1, r.0), r.1, r.2, r.3)
    }
}

/// One tangent pass over the first `k` constraints, in list order.
pub open spec fn tangent_sweep_spec(
    cs: Seq<ContactConstraint>,
    bodies: Seq<RigidBody>,
    dp: Seq<Vec2>,
    da: Seq<i64>,
    k: int,
    dt: int,
    friction: int,
) -> (Seq<ContactConstraint>, Seq<RigidBody>, Seq<Vec2>, Seq<i64>)
    decreases k,
{
    if k <= 0 {
        (cs, bodies, dp, da)
    } else {
        let prev = tangent_sweep_spec(cs, bodies, dp, da, k - 1, dt, friction);
        let r = solve_tangent_spec(prev.0[k - 1], prev.1, prev.2, prev.3, dt, friction);
        (prev.0.update(k - 1, r.0), r.1, r.2, r.3)
    }
}

/// The restitution pass over the first `k` constraints.
pub open spec fn restitution_sweep_spec(
    cs: Seq<ContactConstraint>,
    bodies: Seq<RigidBody>,
    dp: Seq<Vec2>,
    da: Seq<i64>,
    k: int,
    dt: int,
    restitution: int,
    threshold: int,
) -> (Seq<ContactConstraint>, Seq<RigidBody>, Seq<Vec2>, Seq<i64>)
    decreases k,
{
    if k <= 0 {
        (cs, bodies, dp, da)
    } else {
        let prev = restitution_sweep_spec(cs, bodies, dp, da, k - 1, dt, restitution, threshold);
        let r = apply_restitution_spec(prev.0[k - 1], prev.1, prev.2, prev.3, dt, restitution, threshold);
        (prev.0.update(k - 1, r.0), r.1, r.2, r.3)
    }
}

/// The given number of Gauss-Seidel rounds: each a normal pass with bias,
/// then a tangent pass.
pub open spec fn iteration_rounds_spec(
    cs: Seq<ContactConstraint>,
    bodies: Seq<RigidBody>,
    dp: Seq<Vec2>,
    da: Seq<i64>,
    rounds: nat,
    dt: int,
    params: SolverParams,
) -> (Seq<ContactConstraint>, Seq<RigidBody>, Seq<Vec2>, Seq<i64>)
    decreases rounds,
{
    if rounds == 0 {
        (cs, bodies, dp, da)
    } else {
        let prev = iteration_rounds_spec(cs, bodies, dp, da, (rounds - 1) as nat, dt, params);
        let n = normal_sweep_spec(prev.0, prev.1, prev.2, prev.3, prev.0.len() as int, dt, params, true);
        tangent_sweep_spec(n.0, n.1, n.2, n.3, n.0.len() as int, dt, params.friction as int)
    }
}

/// What `solve` does: warm-start every constraint, seed the predicted
/// motion, run the iteration rounds, and finish with the restitution pass.
pub open spec fn solve_spec(s: SolverView, bodies: Seq<RigidBody>) -> (SolverView, Seq<RigidBody>) {
    let bodies1 = warm_start_all_spec(s.constraints, bodies, s.constraints.len() as int);
    let deltas = init_deltas_spec(bodies1, s.dt as int);
    let rounds = iteration_rounds_spec(
        s.constraints, bodies1, deltas.0, deltas.1, s.iterations as nat, s.dt as int, s.params,
    );
    let rest = restitution_sweep_spec(
        rounds.0, rounds.1, rounds.2, rounds.3, rounds.0.len() as int, s.dt as int,
        s.params.restitution as int, s.params.restitution_threshold as int,
    );
    (
        SolverView { constraints: rest.0, delta_pos: rest.2, delta_angle: rest.3, ..s },
        rest.1,
    )
}

impl ConstraintSolver {
    /// A fresh solver with no constraints and default parameters.
    pub fn new(iterations: usize) -> (r: Self)
        ensures
            r@.constraints.len() == 0,
            r@.iterations == iterations,
            r@.params == (SolverParams {
                bias_rate: 50_000i64,
                slop: 10_000i64,
                max_bias_velocity: 4_000_000i64,
                restitution_threshold: 1_000_000i64,
                restitution: 300_000i64,
                friction: 500_000i64,
            }),
            r@.cache.len() == 0,
            r@.dt == 0 && r@.last_dt == 0,
            r@.delta_pos.len() == 0 && r@.delta_angle.len() == 0,
    {
        ConstraintSolver {
            constraints: Vec::new(),
            iterations,
            params: SolverParams::default(),
            cache: Vec::new(),
            dt: 0,
            last_dt: 0,
            delta_pos: Vec::new(),
            delta_angle: Vec::new(),
        }
    }

    fn ensure_delta_capacity(&mut self, count: usize)
        ensures
            ({
                let r = ensure_len_spec(old(self)@.delta_pos, old(self)@.delta_angle, count as int);
                final(self)@ == (SolverView { delta_pos: r.0, delta_angle: r.1, ..old(self)@ })
            }),
    {
        if self.delta_pos.len() != count {
            let mut dp: Vec<Vec2> = Vec::new();
            let mut da: Vec<i64> = Vec::new();
            let mut i: usize = 0;
            while i < count
                invariant
                    i <= count,
                    dp@.len() == i as int,
                    da@.len() == i as int,
                    forall|j: int| 0 <= j < i as int ==> dp@[j] == (if j < old(self)@.delta_pos.len() {
                        old(self)@.delta_pos[j]
                    } else {
                        Vec2 { x: 0i64, y: 0i64 }
                    }),
                    forall|j: int| 0 <= j < i as int ==> da@[j] == (if j < old(self)@.delta_angle.len() {
                        old(self)@.delta_angle[j]
                    } else {
                        0i64
                    }),
                    self@ == old(self)@,
                decreases count - i,
            {
                if i < self.delta_pos.len() {
                    dp.push(self.delta_pos[i]);
                } else {
                    dp.push(Vec2 { x: 0, y: 0 });
                }
                if i < self.delta_angle.len() {
                    da.push(self.delta_angle[i]);
                } else {
                    da.push(0);
                }
                i += 1;
            }
            self.delta_pos = dp;
            self.delta_angle = da;
            proof {
                let r = ensure_len_spec(old(self)@.delta_pos, old(self)@.delta_angle, count as int);
                assert(self@.delta_pos =~= r.0);
                assert(self@.delta_angle =~= r.1);
            }
        }
    }

    /// Rebuild the constraint list from this step's manifolds: cache the
    /// outgoing impulses, then warm-start each fresh constraint from the
    /// cache, rescaled by the step-size ratio.
    #[verifier::rlimit(100)]
    pub fn build_constraints(
        &mut self,
        manifolds: &Vec<Manifold>,
        entities: &Vec<RigidBody>,
        dt: i64,
    )
        ensures
            final(self)@ == build_constraints_spec(old(self)@, manifold_views(manifolds@), entities@, dt),
    {
        let ghost mv = manifold_views(manifolds@);
        self.dt = dt;
        self.ensure_delta_capacity(entities.len());
        let dt_ratio = if self.last_dt > 0 {
            fx_div(dt, self.last_dt)
        } else {
            FX_ONE
        };

        // Cache the outgoing impulses for warm starting.
        let ghost cs0 = self.constraints@;
        self.cache = Vec::new();
        let mut k: usize = 0;
        proof {
            assert(cs0.subrange(0, 0) =~= Seq::<ContactConstraint>::empty());
            assert(self.cache@ =~= harvest_cache_spec(cs0.subrange(0, 0)));
        }
        while k < self.constraints.len()
            invariant
                k <= cs0.len(),
                self.constraints@ == cs0,
                self.cache@ == harvest_cache_spec(cs0.subrange(0, k as int)),
                self@.iterations == old(self)@.iterations,
                self@.params == old(self)@.params,
                self@.dt == dt,
                self@.last_dt == old(self)@.last_dt,
                self@.delta_pos == ensure_len_spec(old(self)@.delta_pos, old(self)@.delta_angle, entities@.len() as int).0,
                self@.delta_angle == ensure_len_spec(old(self)@.delta_pos, old(self)@.delta_angle, entities@.len() as int).1,
            decreases cs0.len() - k as int,
        {
            let c = self.constraints[k];
            if c.jn != 0 || c.jt != 0 {
                let key = cache_key_of(&c);
                self.cache.push((key, (c.jn, c.jt)));
            }
            proof {
                let sub1 = cs0.subrange(0, k as int + 1);
                assert(sub1.drop_last() =~= cs0.subrange(0, k as int));
                assert(sub1.last() == cs0[k as int]);
            }
            k += 1;
        }
        proof {
            assert(cs0.subrange(0, cs0.len() as int) =~= cs0);
        }

        // Materialise one constraint per manifold point.
        self.constraints = Vec::new();
        let ghost cache2 = self.cache@;
        let ghost ratio = dt_ratio_spec(dt as int, old(self)@.last_dt as int);
        let mut mi: usize = 0;
        proof {
            assert(mv.subrange(0, 0) =~= Seq::<ManifoldView>::empty());
            assert(self.constraints@ =~= build_list_spec(mv.subrange(0, 0), entities@, cache2, ratio));
        }
        while mi < manifolds.len()
            invariant
                mi <= manifolds@.len(),
                mv == manifold_views(manifolds@),
                mv.len() == manifolds@.len(),
                self.cache@ == cache2,
                dt_ratio as int == ratio,
                self.constraints@ == build_list_spec(mv.subrange(0, mi as int), entities@, cache2, ratio),
                self@.iterations == old(self)@.iterations,
                self@.params == old(self)@.params,
                self@.dt == dt,
                self@.last_dt == old(self)@.last_dt,
                self@.delta_pos == ensure_len_spec(old(self)@.delta_pos, old(self)@.delta_angle, entities@.len() as int).0,
                self@.delta_angle == ensure_len_spec(old(self)@.delta_pos, old(self)@.delta_angle, entities@.len() as int).1,
            decreases manifolds@.len() - mi as int,
        {
            let m = &manifolds[mi];
            proof {
                assert(mv[mi as int] == manifolds@[mi as int]@);
            }
            if m.a < entities.len() && m.b < entities.len() {
                let mut pi: usize = 0;
                proof {
                    assert(mv[mi as int].points.subrange(0, 0) =~= Seq::<ContactPoint>::empty());
                    assert(constraints_of_points_spec(
                        mv[mi as int], mv[mi as int].points.subrange(0, 0), entities@, cache2, ratio,
                    ) =~= Seq::<ContactConstraint>::empty());
                    assert(self.constraints@ =~= build_list_spec(mv.subrange(0, mi as int), entities@, cache2, ratio)
                        + constraints_of_points_spec(
                            mv[mi as int], mv[mi as int].points.subrange(0, 0), entities@, cache2, ratio,
                        ));
                }
                while pi < m.points.len()
                    invariant
                        pi <= m.points@.len(),
                        mv == manifold_views(manifolds@),
                        mv.len() == manifolds@.len(),
                        mi < manifolds@.len(),
                        m == manifolds@[mi as int],
                        mv[mi as int] == manifolds@[mi as int]@,
                        (m.a as int) < entities@.len(),
                        (m.b as int) < entities@.len(),
                        self.cache@ == cache2,
                        dt_ratio as int == ratio,
                        self.constraints@ == build_list_spec(mv.subrange(0, mi as int), entities@, cache2, ratio)
                            + constraints_of_points_spec(
                                mv[mi as int], mv[mi as int].points.subrange(0, pi as int), entities@, cache2,
                                ratio,
                            ),
                        self@.iterations == old(self)@.iterations,
                        self@.params == old(self)@.params,
                        self@.dt == dt,
                        self@.last_dt == old(self)@.last_dt,
                        self@.delta_pos == ensure_len_spec(old(self)@.delta_pos, old(self)@.delta_angle, entities@.len() as int).0,
                        self@.delta_angle == ensure_len_spec(old(self)@.delta_pos, old(self)@.delta_angle, entities@.len() as int).1,
                    decreases m.points@.len() - pi as int,
                {
                    let mut c = ContactConstraint::new(
                        m.a, m.b, m.normal, &m.points[pi], &entities[m.a], &entities[m.b],
                    );
                    let key = cache_key_of(&c);
                    match cache_lookup(&self.cache, key) {
                        Some(hit) => {
                            c.jn = fx_mul(hit.0, dt_ratio);
                            c.jt = fx_mul(hit.1, dt_ratio);
                        },
                        None => {},
                    }
                    self.constraints.push(c);
                    proof {
                        let pts1 = mv[mi as int].points.subrange(0, pi as int + 1);
                        assert(pts1.drop_last() =~= mv[mi as int].points.subrange(0, pi as int));
                        assert(pts1.last() == mv[mi as int].points[pi as int]);
                        assert(mv[mi as int].points[pi as int] == m.points@[pi as int]);
                        assert(c == constraint_for_point_spec(
                            mv[mi as int].a, mv[mi as int].b, mv[mi as int].normal,
                            mv[mi as int].points[pi as int], entities@, cache2, ratio,
                        ));
                        assert(self.constraints@ =~= build_list_spec(mv.subrange(0, mi as int), entities@, cache2, ratio)
                            + constraints_of_points_spec(mv[mi as int], pts1, entities@, cache2, ratio));
                    }
                    pi += 1;
                }
                proof {
                    assert(mv[mi as int].points.subrange(0, m.points@.len() as int) =~= mv[mi as int].points);
                }
            }
            proof {
                let sub1 = mv.subrange(0, mi as int + 1);
                assert(sub1.drop_last() =~= mv.subrange(0, mi as int));
                assert(sub1.last() == mv[mi as int]);
                assert(self.constraints@ =~= build_list_spec(sub1, entities@, cache2, ratio));
            }
            mi += 1;
        }
        proof {
            assert(mv.subrange(0, mv.len() as int) =~= mv);
        }
        self.last_dt = dt;
    }

    fn init_predicted_deltas(&mut self, entities: &Vec<RigidBody>, dt: i64)
        ensures
            ({
                let r = init_deltas_spec(entities@, dt as int);
                final(self)@ == (SolverView { delta_pos: r.0, delta_angle: r.1, ..old(self)@ })
            }),
    {
        let n = entities.len();
        let mut dp: Vec<Vec2> = Vec::new();
        let mut da: Vec<i64> = Vec::new();
        let mut i: usize = 0;
        while i < n
            invariant
                i <= n,
                n == entities@.len(),
                dp@.len() == i as int,
                da@.len() == i as int,
                forall|j: int| 0 <= j < i as int ==> dp@[j] == (if dt as int <= 0 {
                    Vec2 { x: 0i64, y: 0i64 }
                } else {
                    vscale_spec(entities@[j].vel, dt as int)
                }),
                forall|j: int| 0 <= j < i as int ==> da@[j] == (if dt as int <= 0 {
                    0i64
                } else {
                    fx_mul_spec(entities@[j].omega as int, dt as int) as i64
                }),
                self@ == old(self)@,
            decreases n - i,
        {
            if dt <= 0 {
                dp.push(Vec2 { x: 0, y: 0 });
                da.push(0);
            } else {
                dp.push(entities[i].vel.scale(dt));
                da.push(fx_mul(entities[i].omega, dt));
            }
            i += 1;
        }
        self.delta_pos = dp;
        self.delta_angle = da;
        proof {
            let r = init_deltas_spec(entities@, dt as int);
            assert(self@.delta_pos =~= r.0);
            assert(self@.delta_angle =~= r.1);
        }
    }

    /// Run the solve: warm-start, the iteration rounds of normal and tangent
    /// passes, then the restitution pass. Only velocities and spins change.
    #[verifier::rlimit(100)]
    pub fn solve(&mut self, entities: &mut Vec<RigidBody>)
        ensures
            ({
                let r = solve_spec(old(self)@, old(entities)@);
                final(self)@ == r.0 && final(entities)@ == r.1
            }),
    {
        let dt = self.dt;
        let ghost s0 = old(self)@;
        let ghost bodies0 = old(entities)@;

        // Warm start.
        let ghost cs0 = self.constraints@;
        let mut k: usize = 0;
        while k < self.constraints.len()
            invariant
                k <= cs0.len(),
                self.constraints@ == cs0,
                self@ == s0,
                entities@ == warm_start_all_spec(cs0, bodies0, k as int),
            decreases cs0.len() - k as int,
        {
            let c = self.constraints[k];
            c.apply_warm_start(entities);
            k += 1;
        }
        let ghost bodies1 = entities@;

        // Seed the predicted per-body motion from the warmed velocities.
        self.init_predicted_deltas(entities, dt);
        let ghost dp0 = self@.delta_pos;
        let ghost da0 = self@.delta_angle;

        // Main rounds: a normal pass with bias, then a tangent pass.
        let params = self.params;
        let iterations = self.iterations;
        let mut round: usize = 0;
        while round < iterations
            invariant
                round <= iterations,
                self@.iterations == iterations,
                self@.params == params,
                self@.dt == dt,
                self@.cache == s0.cache,
                self@.last_dt == s0.last_dt,
                ({
                    let r = iteration_rounds_spec(cs0, bodies1, dp0, da0, round as nat, dt as int, params);
                    self@.constraints == r.0 && entities@ == r.1 && self@.delta_pos == r.2
                        && self@.delta_angle == r.3
                }),
            decreases iterations - round,
        {
            let ghost csr = self@.constraints;
            let ghost br = entities@;
            let ghost dpr = self@.delta_pos;
            let ghost dar = self@.delta_angle;
            let mut i: usize = 0;
            while i < self.constraints.len()
                invariant
                    i <= self.constraints@.len(),
                    self@.iterations == iterations,
                    self@.params == params,
                    self@.dt == dt,
                    self@.cache == s0.cache,
                    self@.last_dt == s0.last_dt,
                    self.constraints@.len() == csr.len(),
                    ({
                        let r = normal_sweep_spec(csr, br, dpr, dar, i as int, dt as int, params, true);
                        self@.constraints == r.0 && entities@ == r.1 && self@.delta_pos == r.2
                            && self@.delta_angle == r.3
                    }),
                decreases self.constraints@.len() - i as int,
            {
                let mut c = self.constraints[i];
                c.solve_normal(entities, &mut self.delta_pos, &mut self.delta_angle, dt, &params, true);
                self.constraints.set(i, c);
                proof {
                    let prev = normal_sweep_spec(csr, br, dpr, dar, i as int, dt as int, params, true);
                    assert(prev.0[i as int] == csr[i as int]) by {
                        lemma_sweep_untouched_normal(csr, br, dpr, dar, i as int, dt as int, params, true, i as int);
                    }
                }
                i += 1;
            }
            let ghost csn = self@.constraints;
            let ghost bn = entities@;
            let ghost dpn = self@.delta_pos;
            let ghost dan = self@.delta_angle;
            let mut i2: usize = 0;
            while i2 < self.constraints.len()
                invariant
                    i2 <= self.constraints@.len(),
                    self@.iterations == iterations,
                    self@.params == params,
                    self@.dt == dt,
                    self@.cache == s0.cache,
                    self@.last_dt == s0.last_dt,
                    self.constraints@.len() == csn.len(),
                    ({
                        let r = tangent_sweep_spec(csn, bn, dpn, dan, i2 as int, dt as int, params.friction as int);
                        self@.constraints == r.0 && entities@ == r.1 && self@.delta_pos == r.2
                            && self@.delta_angle == r.3
                    }),
                decreases self.constraints@.len() - i2 as int,
            {
                let mut c = self.constraints[i2];
                c.solve_tangent(entities, &mut self.delta_pos, &mut self.delta_angle, dt, params.friction);
                self.constraints.set(i2, c);
                proof {
                    lemma_sweep_untouched_tangent(csn, bn, dpn, dan, i2 as int, dt as int, params.friction as int, i2 as int);
                }
                i2 += 1;
            }
            round += 1;
        }

        // Restitution pass.
        let ghost csq = self@.constraints;
        let ghost bq = entities@;
        let ghost dpq = self@.delta_pos;
        let ghost daq = self@.delta_angle;
        let mut i3: usize = 0;
        while i3 < self.constraints.len()
            invariant
                i3 <= self.constraints@.len(),
                self@.iterations == iterations,
                self@.params == params,
                self@.dt == dt,
                self@.cache == s0.cache,
                self@.last_dt == s0.last_dt,
                self.constraints@.len() == csq.len(),
                ({
                    let r = restitution_sweep_spec(
                        csq, bq, dpq, daq, i3 as int, dt as int, params.restitution as int,
                        params.restitution_threshold as int,
                    );
                    self@.constraints == r.0 && entities@ == r.1 && self@.delta_pos == r.2
                        && self@.delta_angle == r.3
                }),
            decreases self.constraints@.len() - i3 as int,
        {
            let mut c = self.constraints[i3];
            c.apply_restitution(
                entities, &mut self.delta_pos, &mut self.delta_angle, dt, params.restitution,
                params.restitution_threshold,
            );
            self.constraints.set(i3, c);
            proof {
                lemma_sweep_untouched_restitution(
                    csq, bq, dpq, daq, i3 as int, dt as int, params.restitution as int,
                    params.restitution_threshold as int, i3 as int,
                );
            }
            i3 += 1;
        }
    }
}

/// Positions at or past the sweep index are untouched by the normal sweep.
proof fn lemma_sweep_untouched_normal(
    cs: Seq<ContactConstraint>,
    bodies: Seq<RigidBody>,
    dp: Seq<Vec2>,
    da: Seq<i64>,
    k: int,
    dt: int,
    params: SolverParams,
    use_bias: bool,
    j: int,
)
    requires
        k <= j < cs.len(),
        0 <= k,
    ensures
        normal_sweep_spec(cs, bodies, dp, da, k, dt, params, use_bias).0[j] == cs[j],
        normal_sweep_spec(cs, bodies, dp, da, k, dt, params, use_bias).0.len() == cs.len(),
    decreases k,
{
    if k > 0 {
        lemma_sweep_untouched_normal(cs, bodies, dp, da, k - 1, dt, params, use_bias, j);
    }
}

/// Positions at or past the sweep index are untouched by the tangent sweep.
proof fn lemma_sweep_untouched_tangent(
    cs: Seq<ContactConstraint>,
    bodies: Seq<RigidBody>,
    dp: Seq<Vec2>,
    da: Seq<i64>,
    k: int,
    dt: int,
    friction: int,
    j: int,
)
    requires
        k <= j < cs.len(),
        0 <= k,
    ensures
        tangent_sweep_spec(cs, bodies, dp, da, k, dt, friction).0[j] == cs[j],
        tangent_sweep_spec(cs, bodies, dp, da, k, dt, friction).0.len() == cs.len(),
    decreases k,
{
    if k > 0 {
        lemma_sweep_untouched_tangent(cs, bodies, dp, da, k - 1, dt, friction, j);
    }
}

/// Positions at or past the sweep index are untouched by the restitution
/// pass.
proof fn lemma_sweep_untouched_restitution(
    cs: Seq<ContactConstraint>,
    bodies: Seq<RigidBody>,
    dp: Seq<Vec2>,
    da: Seq<i64>,
    k: int,
    dt: int,
    restitution: int,
    threshold: int,
    j: int,
)
    requires
        k <= j < cs.len(),
        0 <= k,
    ensures
        restitution_sweep_spec(cs, bodies, dp, da, k, dt, restitution, threshold).0[j] == cs[j],
        restitution_sweep_spec(cs, bodies, dp, da, k, dt, restitution, threshold).0.len() == cs.len(),
    decreases k,
{
    if k > 0 {
        lemma_sweep_untouched_restitution(cs, bodies, dp, da, k - 1, dt, restitution, threshold, j);
    }
}


/// A body the dynamics cannot move: zero inverse mass and inverse inertia,
/// with its velocity fields inside the representable range.
pub open spec fn static_in_range_spec(b: RigidBody) -> bool {
    b.inv_mass == 0 && b.inv_inertia == 0 && b.vel.x != i64::MIN && b.vel.y != i64::MIN
        && b.omega != i64::MIN
}

/// An impulse does nothing to a static body: its inverse mass and inertia
/// weight every change to zero.
pub proof fn lemma_apply_impulse_static(
    a: RigidBody,
    b: RigidBody,
    r_a: Vec2,
    r_b: Vec2,
    dir: Vec2,
    magnitude: int,
)
    ensures
        static_in_range_spec(a) ==> apply_impulse_pair_spec(a, b, r_a, r_b, dir, magnitude).0 == a,
        static_in_range_spec(b) ==> apply_impulse_pair_spec(a, b, r_a, r_b, dir, magnitude).1 == b,
{
    let impulse = vscale_spec(dir, magnitude);
    if static_in_range_spec(a) {
        vstd::arithmetic::mul::lemma_mul_by_zero_is_zero(impulse.x as int);
        vstd::arithmetic::mul::lemma_mul_by_zero_is_zero(impulse.y as int);
        vstd::arithmetic::mul::lemma_mul_by_zero_is_zero(vcross_spec(r_a, impulse));
        vstd::arithmetic::div_mod::lemma_div_of0(FX_ONE as int);
    }
    if static_in_range_spec(b) {
        vstd::arithmetic::mul::lemma_mul_by_zero_is_zero(impulse.x as int);
        vstd::arithmetic::mul::lemma_mul_by_zero_is_zero(impulse.y as int);
        vstd::arithmetic::mul::lemma_mul_by_zero_is_zero(vcross_spec(r_b, impulse));
        vstd::arithmetic::div_mod::lemma_div_of0(FX_ONE as int);
    }
}

/// The normal pass does not move a static body.
proof fn lemma_solve_normal_static(
    c: ContactConstraint,
    bodies: Seq<RigidBody>,
    dp: Seq<Vec2>,
    da: Seq<i64>,
    dt: int,
    params: SolverParams,
    use_bias: bool,
    k: int,
)
    requires
        0 <= k < bodies.len(),
        static_in_range_spec(bodies[k]),
    ensures
        solve_normal_spec(c, bodies, dp, da, dt, params, use_bias).1.len() == bodies.len(),
        solve_normal_spec(c, bodies, dp, da, dt, params, use_bias).1[k] == bodies[k],
{
    if pair_ok_spec(c, bodies, dp, da) {
        let ia = c.index_a as int;
        let ib = c.index_b as int;
        let a = bodies[ia];
        let b = bodies[ib];
        let r_a0 = world_anchor_spec(c.local_anchor_a, a.angle as int);
        let r_b0 = world_anchor_spec(c.local_anchor_b, b.angle as int);
        let dr_a = vscale_spec(vperp_spec(r_a0), da[ia] as int);
        let dr_b = vscale_spec(vperp_spec(r_b0), da[ib] as int);
        let dpv = vsub_spec(dp[ib], dp[ia]);
        let separation = fx_add_spec(
            c.base_separation as int,
            vdot_spec(vadd_spec(dpv, vsub_spec(dr_b, dr_a)), c.normal),
        );
        let velocity_bias = if dt <= 0 {
            0
        } else if separation > 0 {
            fx_div_spec(separation, dt)
        } else if use_bias {
            let err = fx_min_spec(fx_add_spec(separation, params.slop as int), 0);
            fx_max_spec(
                fx_div_spec(fx_mul_spec(params.bias_rate as int, err), dt),
                fx_neg_spec(params.max_bias_velocity as int),
            )
        } else {
            0
        };
        let vn = vdot_spec(vsub_spec(velocity_at_spec(r_b0, b), velocity_at_spec(r_a0, a)), c.normal);
        let impulse = fx_neg_spec(fx_mul_spec(c.normal_mass as int, fx_add_spec(vn, velocity_bias)));
        let jn_new = fx_max_spec(fx_add_spec(c.jn as int, impulse), 0);
        let delta = fx_sub_spec(jn_new, c.jn as int);
        lemma_apply_impulse_static(a, b, r_a0, r_b0, c.normal, delta);
    }
}

/// The tangent pass does not move a static body.
proof fn lemma_solve_tangent_static(
    c: ContactConstraint,
    bodies: Seq<RigidBody>,
    dp: Seq<Vec2>,
    da: Seq<i64>,
    dt: int,
    friction: int,
    k: int,
)
    requires
        0 <= k < bodies.len(),
        static_in_range_spec(bodies[k]),
    ensures
        solve_tangent_spec(c, bodies, dp, da, dt, friction).1.len() == bodies.len(),
        solve_tangent_spec(c, bodies, dp, da, dt, friction).1[k] == bodies[k],
{
    if pair_ok_spec(c, bodies, dp, da) {
        let ia = c.index_a as int;
        let ib = c.index_b as int;
        let a = bodies[ia];
        let b = bodies[ib];
        let r_a0 = world_anchor_spec(c.local_anchor_a, a.angle as int);
        let r_b0 = world_anchor_spec(c.local_anchor_b, b.angle as int);
        let vt = vdot_spec(vsub_spec(velocity_at_spec(r_b0, b), velocity_at_spec(r_a0, a)), c.tangent);
        let lambda = fx_neg_spec(fx_mul_spec(c.tangent_mass as int, vt));
        let max_jt = fx_mul_spec(friction, c.jn as int);
        let jt_new = fx_clamp_spec(fx_add_spec(c.jt as int, lambda), fx_neg_spec(max_jt), max_jt);
        let delta = fx_sub_spec(jt_new, c.jt as int);
        lemma_apply_impulse_static(a, b, r_a0, r_b0, c.tangent, delta);
    }
}

/// The restitution pass does not move a static body.
proof fn lemma_apply_restitution_static(
    c: ContactConstraint,
    bodies: Seq<RigidBody>,
    dp: Seq<Vec2>,
    da: Seq<i64>,
    dt: int,
    restitution: int,
    threshold: int,
    k: int,
)
    requires
        0 <= k < bodies.len(),
        static_in_range_spec(bodies[k]),
    ensures
        apply_restitution_spec(c, bodies, dp, da, dt, restitution, threshold).1.len() == bodies.len(),
        apply_restitution_spec(c, bodies, dp, da, dt, restitution, threshold).1[k] == bodies[k],
{
    if !(restitution == 0 || c.base_separation >= 0 || c.relative_velocity as int
        > fx_neg_spec(threshold) || c.jn == 0 || !pair_ok_spec(c, bodies, dp, da)) {
        let ia = c.index_a as int;
        let ib = c.index_b as int;
        let a = bodies[ia];
        let b = bodies[ib];
        let r_a0 = world_anchor_spec(c.local_anchor_a, a.angle as int);
        let r_b0 = world_anchor_spec(c.local_anchor_b, b.angle as int);
        let vn = vdot_spec(vsub_spec(velocity_at_spec(r_b0, b), velocity_at_spec(r_a0, a)), c.normal);
        let impulse = fx_neg_spec(fx_mul_spec(
            c.normal_mass as int,
            fx_add_spec(vn, fx_mul_spec(restitution, c.relative_velocity as int)),
        ));
        let jn_new = fx_max_spec(fx_add_spec(c.jn as int, impulse), 0);
        let delta = fx_sub_spec(jn_new, c.jn as int);
        lemma_apply_impulse_static(a, b, r_a0, r_b0, c.normal, delta);
    }
}

/// The warm start does not move a static body.
proof fn lemma_warm_start_one_static(c: ContactConstraint, bodies: Seq<RigidBody>, k: int)
    requires
        0 <= k < bodies.len(),
        static_in_range_spec(bodies[k]),
    ensures
        apply_warm_start_spec(c, bodies).len() == bodies.len(),
        apply_warm_start_spec(c, bodies)[k] == bodies[k],
{
    if !((c.jn == 0 && c.jt == 0) || c.index_a == c.index_b || (c.index_a as int) >= bodies.len()
        || (c.index_b as int) >= bodies.len()) {
        let ia = c.index_a as int;
        let ib = c.index_b as int;
        let a = bodies[ia];
        let b = bodies[ib];
        let r_a0 = world_anchor_spec(c.local_anchor_a, a.angle as int);
        let r_b0 = world_anchor_spec(c.local_anchor_b, b.angle as int);
        lemma_apply_impulse_static(a, b, r_a0, r_b0, c.normal, c.jn as int);
        let ab1 = apply_impulse_pair_spec(a, b, r_a0, r_b0, c.normal, c.jn as int);
        lemma_apply_impulse_static(ab1.0, ab1.1, r_a0, r_b0, c.tangent, c.jt as int);
    }
}

/// The full solve leaves every static body untouched: warm start, every
/// normal, tangent, and restitution pass weight their changes by the body's
/// zero inverse mass and inertia.
pub proof fn lemma_solve_static_body_unchanged(s: SolverView, bodies: Seq<RigidBody>, k: int)
    requires
        0 <= k < bodies.len(),
        static_in_range_spec(bodies[k]),
    ensures
        solve_spec(s, bodies).1.len() == bodies.len(),
        solve_spec(s, bodies).1[k] == bodies[k],
{
    let bodies1 = warm_start_all_spec(s.constraints, bodies, s.constraints.len() as int);
    lemma_warm_start_all_static(s.constraints, bodies, s.constraints.len() as int, k);
    let deltas = init_deltas_spec(bodies1, s.dt as int);
    let rounds = iteration_rounds_spec(
        s.constraints, bodies1, deltas.0, deltas.1, s.iterations as nat, s.dt as int, s.params,
    );
    lemma_rounds_static(
        s.constraints, bodies1, deltas.0, deltas.1, s.iterations as nat, s.dt as int, s.params, k,
    );
    lemma_restitution_sweep_static(
        rounds.0, rounds.1, rounds.2, rounds.3, rounds.0.len() as int, s.dt as int,
        s.params.restitution as int, s.params.restitution_threshold as int, k,
    );
}

proof fn lemma_warm_start_all_static(cs: Seq<ContactConstraint>, bodies: Seq<RigidBody>, n: int, k: int)
    requires
        0 <= k < bodies.len(),
        static_in_range_spec(bodies[k]),
    ensures
        warm_start_all_spec(cs, bodies, n).len() == bodies.len(),
        warm_start_all_spec(cs, bodies, n)[k] == bodies[k],
    decreases n,
{
    if n > 0 {
        lemma_warm_start_all_static(cs, bodies, n - 1, k);
        let prev = warm_start_all_spec(cs, bodies, n - 1);
        lemma_warm_start_one_static(cs[n - 1], prev, k);
    }
}

proof fn lemma_normal_sweep_static(
    cs: Seq<ContactConstraint>,
    bodies: Seq<RigidBody>,
    dp: Seq<Vec2>,
    da: Seq<i64>,
    n: int,
    dt: int,
    params: SolverParams,
    k: int,
)
    requires
        0 <= k < bodies.len(),
        static_in_range_spec(bodies[k]),
    ensures
        normal_sweep_spec(cs, bodies, dp, da, n, dt, params, true).1.len() == bodies.len(),
        normal_sweep_spec(cs, bodies, dp, da, n, dt, params, true).1[k] == bodies[k],
    decreases n,
{
    if n > 0 {
        lemma_normal_sweep_static(cs, bodies, dp, da, n - 1, dt, params, k);
        let prev = normal_sweep_spec(cs, bodies, dp, da, n - 1, dt, params, true);
        lemma_solve_normal_static(prev.0[n - 1], prev.1, prev.2, prev.3, dt, params, true, k);
    }
}

proof fn lemma_tangent_sweep_static(
    cs: Seq<ContactConstraint>,
    bodies: Seq<RigidBody>,
    dp: Seq<Vec2>,
    da: Seq<i64>,
    n: int,
    dt: int,
    params: SolverParams,
    k: int,
)
    requires
        0 <= k < bodies.len(),
        static_in_range_spec(bodies[k]),
    ensures
        tangent_sweep_spec(cs, bodies, dp, da, n, dt, params.friction as int).1.len() == bodies.len(),
        tangent_sweep_spec(cs, bodies, dp, da, n, dt, params.friction as int).1[k] == bodies[k],
    decreases n,
{
    if n > 0 {
        lemma_tangent_sweep_static(cs, bodies, dp, da, n - 1, dt, params, k);
        let prev = tangent_sweep_spec(cs, bodies, dp, da, n - 1, dt, params.friction as int);
        lemma_solve_tangent_static(prev.0[n - 1], prev.1, prev.2, prev.3, dt, params.friction as int, k);
    }
}

proof fn lemma_restitution_sweep_static(
    cs: Seq<ContactConstraint>,
    bodies: Seq<RigidBody>,
    dp: Seq<Vec2>,
    da: Seq<i64>,
    n: int,
    dt: int,
    restitution: int,
    threshold: int,
    k: int,
)
    requires
        0 <= k < bodies.len(),
        static_in_range_spec(bodies[k]),
    ensures
        restitution_sweep_spec(cs, bodies, dp, da, n, dt, restitution, threshold).1.len() == bodies.len(),
        restitution_sweep_spec(cs, bodies, dp, da, n, dt, restitution, threshold).1[k] == bodies[k],
    decreases n,
{
    if n > 0 {
        lemma_restitution_sweep_static(cs, bodies, dp, da, n - 1, dt, restitution, threshold, k);
        let prev = restitution_sweep_spec(cs, bodies, dp, da, n - 1, dt, restitution, threshold);
        lemma_apply_restitution_static(prev.0[n - 1], prev.1, prev.2, prev.3, dt, restitution, threshold, k);
    }
}

proof fn lemma_rounds_static(
    cs: Seq<ContactConstraint>,
    bodies: Seq<RigidBody>,
    dp: Seq<Vec2>,
    da: Seq<i64>,
    rounds: nat,
    dt: int,
    params: SolverParams,
    k: int,
)
    requires
        0 <= k < bodies.len(),
        static_in_range_spec(bodies[k]),
    ensures
        iteration_rounds_spec(cs, bodies, dp, da, rounds, dt, params).1.len() == bodies.len(),
        iteration_rounds_spec(cs, bodies, dp, da, rounds, dt, params).1[k] == bodies[k],
    decreases rounds,
{
    if rounds > 0 {
        lemma_rounds_static(cs, bodies, dp, da, (rounds - 1) as nat, dt, params, k);
        let prev = iteration_rounds_spec(cs, bodies, dp, da, (rounds - 1) as nat, dt, params);
        lemma_normal_sweep_static(prev.0, prev.1, prev.2, prev.3, prev.0.len() as int, dt, params, k);
        let n = normal_sweep_spec(prev.0, prev.1, prev.2, prev.3, prev.0.len() as int, dt, params, true);
        lemma_tangent_sweep_static(n.0, n.1, n.2, n.3, n.0.len() as int, dt, params, k);
    }
}

/// Momentum conservation at the mechanism: for two bodies of equal inverse
/// mass, one impulse application changes their velocities by exactly equal
/// and opposite amounts, so the velocity sum is preserved whenever neither
/// update saturates. Every velocity change the contact solver makes goes
/// through this operation.
pub proof fn lemma_impulse_pair_conserves_momentum(
    a: RigidBody,
    b: RigidBody,
    r_a: Vec2,
    r_b: Vec2,
    dir: Vec2,
    magnitude: int,
)
    requires
        a.inv_mass == b.inv_mass,
        ({
            let d = vscale_spec(vscale_spec(dir, magnitude), a.inv_mass as int);
            &&& -(FX_MAX as int) <= a.vel.x - d.x <= FX_MAX as int
            &&& -(FX_MAX as int) <= a.vel.y - d.y <= FX_MAX as int
            &&& -(FX_MAX as int) <= b.vel.x + d.x <= FX_MAX as int
            &&& -(FX_MAX as int) <= b.vel.y + d.y <= FX_MAX as int
        }),
    ensures
        ({
            let r = apply_impulse_pair_spec(a, b, r_a, r_b, dir, magnitude);
            &&& r.0.vel.x + r.1.vel.x == a.vel.x + b.vel.x
            &&& r.0.vel.y + r.1.vel.y == a.vel.y + b.vel.y
        }),
{
}

/// Warm-starting with the previous step's own `dt` reuses the cached
/// impulses exactly: the step-size ratio is one, and scaling by one is the
/// identity on every representable impulse.
pub proof fn lemma_warm_start_exact_at_same_dt(jn: int, jt: int, dt: int)
    requires
        0 < dt <= FX_MAX as int,
        -(FX_MAX as int) <= jn <= FX_MAX as int,
        -(FX_MAX as int) <= jt <= FX_MAX as int,
    ensures
        dt_ratio_spec(dt, dt) == FX_ONE as int,
        fx_mul_spec(jn, dt_ratio_spec(dt, dt)) == jn,
        fx_mul_spec(jt, dt_ratio_spec(dt, dt)) == jt,
{
    vstd::arithmetic::div_mod::lemma_div_multiples_vanish(FX_ONE as int, dt);
    assert(dt * (FX_ONE as int) == (FX_ONE as int) * dt) by (nonlinear_arith);
    assert(fx_div_spec(dt, dt) == FX_ONE as int);
    vstd::arithmetic::div_mod::lemma_div_multiples_vanish(jn, FX_ONE as int);
    vstd::arithmetic::div_mod::lemma_div_multiples_vanish(jt, FX_ONE as int);
    assert(jn * (FX_ONE as int) == (FX_ONE as int) * jn) by (nonlinear_arith);
    assert(jt * (FX_ONE as int) == (FX_ONE as int) * jt) by (nonlinear_arith);
    if jn >= 0 {
        assert(crate::fx::tdiv(jn * (FX_ONE as int), FX_ONE as int) == jn);
    } else {
        assert(-(jn * (FX_ONE as int)) == (-jn) * (FX_ONE as int)) by (nonlinear_arith);
        vstd::arithmetic::div_mod::lemma_div_multiples_vanish(-jn, FX_ONE as int);
        assert((-jn) * (FX_ONE as int) == (FX_ONE as int) * (-jn)) by (nonlinear_arith);
        assert(crate::fx::tdiv(jn * (FX_ONE as int), FX_ONE as int) == jn);
    }
    if jt >= 0 {
        assert(crate::fx::tdiv(jt * (FX_ONE as int), FX_ONE as int) == jt);
    } else {
        assert(-(jt * (FX_ONE as int)) == (-jt) * (FX_ONE as int)) by (nonlinear_arith);
        vstd::arithmetic::div_mod::lemma_div_multiples_vanish(-jt, FX_ONE as int);
        assert((-jt) * (FX_ONE as int) == (FX_ONE as int) * (-jt)) by (nonlinear_arith);
        assert(crate::fx::tdiv(jt * (FX_ONE as int), FX_ONE as int) == jt);
    }
}


/// Warm-starting on an unchanged step size hands a rebuilt constraint the
/// cached impulses unchanged: with `dt` equal to the previous step's, the
/// rescaling ratio is exactly one.
pub proof fn lemma_build_reuses_impulses_at_same_dt(
    index_a: int,
    index_b: int,
    normal: Vec2,
    cp: ContactPoint,
    bodies: Seq<RigidBody>,
    cache: Seq<(CacheKey, (i64, i64))>,
    dt: int,
    hit: (i64, i64),
)
    requires
        0 < dt <= FX_MAX as int,
        hit.0 != i64::MIN,
        hit.1 != i64::MIN,
        cache_lookup_spec(
            cache,
            cache_key_spec(constraint_new_spec(index_a, index_b, normal, cp, bodies[index_a], bodies[index_b])),
        ) == Some(hit),
    ensures
        constraint_for_point_spec(index_a, index_b, normal, cp, bodies, cache, dt_ratio_spec(dt, dt)).jn
            == hit.0,
        constraint_for_point_spec(index_a, index_b, normal, cp, bodies, cache, dt_ratio_spec(dt, dt)).jt
            == hit.1,
{
    lemma_warm_start_exact_at_same_dt(hit.0 as int, hit.1 as int, dt);
}


/// The accumulated normal impulse never goes negative: both the biased
/// normal pass and the restitution pass clamp it at zero, which is what
/// keeps contact one-sided.
pub proof fn lemma_normal_impulse_nonnegative(
    c: ContactConstraint,
    bodies: Seq<RigidBody>,
    dp: Seq<Vec2>,
    da: Seq<i64>,
    dt: int,
    params: SolverParams,
    use_bias: bool,
)
    requires
        c.jn >= 0,
    ensures
        solve_normal_spec(c, bodies, dp, da, dt, params, use_bias).0.jn >= 0,
        apply_restitution_spec(
            c, bodies, dp, da, dt, params.restitution as int, params.restitution_threshold as int,
        ).0.jn >= 0,
        solve_tangent_spec(c, bodies, dp, da, dt, params.friction as int).0.jn == c.jn,
{
}

/// The Coulomb clamp: after a tangent pass with a non-negative friction
/// coefficient and normal impulse, the accumulated tangent impulse sits
/// inside the friction cone around the current normal impulse.
pub proof fn lemma_tangent_impulse_in_cone(
    c: ContactConstraint,
    bodies: Seq<RigidBody>,
    dp: Seq<Vec2>,
    da: Seq<i64>,
    dt: int,
    friction: int,
)
    requires
        friction >= 0,
        c.jn >= 0,
        pair_ok_spec(c, bodies, dp, da),
    ensures
        ({
            let jt = solve_tangent_spec(c, bodies, dp, da, dt, friction).0.jt as int;
            let cone = fx_mul_spec(friction, c.jn as int);
            -cone <= jt <= cone
        }),
{
    crate::fx::lemma_mul_lower(friction, c.jn as int, 0, 0);
    let cone = fx_mul_spec(friction, c.jn as int);
    assert(cone >= 0) by {
        assert(friction * (c.jn as int) >= 0);
    }
}

} // verus!
