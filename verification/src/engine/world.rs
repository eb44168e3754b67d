//! The world: bodies, force generators, the solver, and one `step` that
//! advances everything by a fixed time step.

use vstd::prelude::*;

use crate::engine::body::rigid_body::RigidBody;
use crate::engine::collision::broad_phase::{detect_sap, pair_in_range_spec, pair_reported, pairs_wf};
use crate::engine::collision::manifold::{Manifold, ManifoldView};
use crate::engine::collision::narrow_phase::{self, manifold_views, manifolds_spec};
use crate::engine::integrator::{integrate_velocity, integrate_velocity_spec, Integrator};
use crate::engine::params::SimParams;
use crate::engine::solver::constraint::{
    build_constraints_spec, solve_spec, ConstraintSolver, SolverView,
};
use crate::forces::{force_apply_spec, ForceGen};
use crate::fx::{fx_add, fx_add_spec, fx_div, fx_div_spec, fx_mul, fx_mul_spec, FX_ONE};
use crate::math::vec::{vadd_spec, vscale_spec, Vec2};

verus! {

/// The simulation world.
pub struct World {
    pub gravity: Vec2,
    pub integrator: Integrator,
    pub params: SimParams,
    pub entities: Vec<RigidBody>,
    pub forces: Vec<ForceGen>,
    pub solver: ConstraintSolver,
    pub manifolds: Vec<Manifold>,
}

/// The mathematical shadow of a world.
pub ghost struct WorldView {
    pub gravity: Vec2,
    pub integrator: Integrator,
    pub params: SimParams,
    pub entities: Seq<RigidBody>,
    pub forces: Seq<ForceGen>,
    pub solver: SolverView,
    pub manifolds: Seq<ManifoldView>,
}

impl View for World {
    type V = WorldView;

    open spec fn view(&self) -> WorldView {
        WorldView {
            gravity: self.gravity,
            integrator: self.integrator,
            params: self.params,
            entities: self.entities@,
            forces: self.forces@,
            solver: self.solver@,
            manifolds: manifold_views(self.manifolds@),
        }
    }
}

/// Every body with its force and torque accumulators cleared.
pub open spec fn clear_forces_all_spec(bodies: Seq<RigidBody>) -> Seq<RigidBody> {
    Seq::new(
        bodies.len(),
        |i: int| RigidBody { force: Vec2 { x: 0i64, y: 0i64 }, torque: 0i64, ..bodies[i] },
    )
}

/// One body under gravity: dynamic bodies accumulate `mass * g`.
pub open spec fn apply_gravity_spec(b: RigidBody, gravity: Vec2) -> RigidBody {
    if b.inv_mass > 0 {
        let mass = fx_div_spec(FX_ONE as int, b.inv_mass as int);
        RigidBody { force: vadd_spec(b.force, vscale_spec(gravity, mass)), ..b }
    } else {
        b
    }
}

/// Every body under gravity.
pub open spec fn apply_gravity_all_spec(bodies: Seq<RigidBody>, gravity: Vec2) -> Seq<RigidBody> {
    Seq::new(bodies.len(), |i: int| apply_gravity_spec(bodies[i], gravity))
}

/// The first `k` force generators applied in insertion order.
pub open spec fn apply_force_gens_spec(fs: Seq<ForceGen>, bodies: Seq<RigidBody>, k: int) -> Seq<RigidBody>
    decreases k,
{
    if k <= 0 {
        bodies
    } else {
        force_apply_spec(fs[k - 1], apply_force_gens_spec(fs, bodies, k - 1))
    }
}

/// Every body's velocity integrated from its accumulated force and torque.
pub open spec fn integrate_velocities_all_spec(bodies: Seq<RigidBody>, dt: int) -> Seq<RigidBody> {
    Seq::new(bodies.len(), |i: int| integrate_velocity_spec(bodies[i], dt))
}

/// One body's position and orientation advanced by its velocity.
pub open spec fn position_step_spec(b: RigidBody, dt: int) -> RigidBody {
    RigidBody {
        pos: vadd_spec(b.pos, vscale_spec(b.vel, dt)),
        angle: fx_add_spec(b.angle as int, fx_mul_spec(b.omega as int, dt)) as i64,
        ..b
    }
}

/// Every body's position advanced by its velocity.
pub open spec fn integrate_positions_all_spec(bodies: Seq<RigidBody>, dt: int) -> Seq<RigidBody> {
    Seq::new(bodies.len(), |i: int| position_step_spec(bodies[i], dt))
}

/// The bodies as collision detection sees them: accumulators cleared,
/// gravity and generators applied, velocities integrated.
pub open spec fn pre_collision_bodies_spec(w: WorldView, dt: i64) -> Seq<RigidBody> {
    integrate_velocities_all_spec(
        apply_force_gens_spec(
            w.forces,
            apply_gravity_all_spec(clear_forces_all_spec(w.entities), w.gravity),
            w.forces.len() as int,
        ),
        dt as int,
    )
}

/// The world one step later, given the candidate pairs the broad phase
/// found: manifolds from the narrow phase, constraints rebuilt and solved,
/// then positions integrated.
pub open spec fn step_with_pairs_spec(w: WorldView, dt: i64, pairs: Seq<(usize, usize)>) -> WorldView {
    let bodies4 = pre_collision_bodies_spec(w, dt);
    let ms = manifolds_spec(bodies4, pairs, w.params);
    let solver1 = build_constraints_spec(w.solver, ms, bodies4, dt);
    let sr = solve_spec(solver1, bodies4);
    WorldView {
        entities: integrate_positions_all_spec(sr.1, dt as int),
        manifolds: ms,
        solver: sr.0,
        ..w
    }
}

/// That `w2` is the world `w` stepped by `dt` through a pair list that
/// matches the broad phase's exact contract on the pre-collision bodies.
pub open spec fn step_witnessed_by(w: WorldView, dt: i64, w2: WorldView, pairs: Seq<(usize, usize)>) -> bool {
    let bodies4 = pre_collision_bodies_spec(w, dt);
    &&& pairs_wf(pairs, bodies4.len() as int)
    &&& forall|i: int, j: int| 0 <= i < j < bodies4.len() ==> (#[trigger] pair_reported(pairs, i, j)
        <==> pair_in_range_spec(bodies4, w.params, i, j))
    &&& w2 == step_with_pairs_spec(w, dt, pairs)
}

impl World {
    /// An empty world under the given gravity and integration scheme, with a
    /// ten-iteration solver.
    pub fn new(gravity: Vec2, integrator: Integrator) -> (r: Self)
        ensures
            r@.gravity == gravity,
            r@.integrator == integrator,
            r@.params == (SimParams { speculative_distance: 50_000i64 }),
            r@.entities.len() == 0,
            r@.forces.len() == 0,
            r@.manifolds.len() == 0,
            r@.solver.constraints.len() == 0,
            r@.solver.iterations == 10,
            r@.solver.dt == 0 && r@.solver.last_dt == 0,
            r@.solver.cache.len() == 0,
    {
        let r = World {
            gravity,
            integrator,
            params: SimParams::default(),
            entities: Vec::new(),
            forces: Vec::new(),
            solver: ConstraintSolver::new(10),
            manifolds: Vec::new(),
        };
        proof {
            assert(manifold_views(r.manifolds@) =~= Seq::<ManifoldView>::empty());
        }
        r
    }

    /// Insert a body; its index is the insertion position, stable for the
    /// world's life.
    pub fn add(&mut self, entity: RigidBody)
        ensures
            final(self)@ == (WorldView { entities: old(self)@.entities.push(entity), ..old(self)@ }),
    {
        self.entities.push(entity);
    }

    /// Insert a force generator; generators run in insertion order.
    pub fn add_force(&mut self, force: ForceGen)
        ensures
            final(self)@ == (WorldView { forces: old(self)@.forces.push(force), ..old(self)@ }),
    {
        self.forces.push(force);
    }

    /// Advance the simulation one fixed step: clear accumulators, apply
    /// gravity and force generators, integrate velocities, detect collisions
    /// (broad then narrow phase), rebuild and solve the contact constraints,
    /// and integrate positions. A non-positive step changes nothing.
    #[verifier::rlimit(100)]
    pub fn step(&mut self, dt: i64)
        ensures
            dt <= 0 ==> final(self)@ == old(self)@,
            dt > 0 ==> exists|pairs: Seq<(usize, usize)>| #[trigger] step_witnessed_by(
                old(self)@, dt, final(self)@, pairs,
            ),
    {
        if dt <= 0 {
            return;
        }
        let ghost w0 = self@;
        let n = self.entities.len();

        // Clear accumulators.
        let ghost bodies0 = self.entities@;
        let mut i: usize = 0;
        while i < n
            invariant
                i <= n,
                n == bodies0.len(),
                self.entities@.len() == n as int,
                forall|j: int| 0 <= j < i as int ==> self.entities@[j] == clear_forces_all_spec(bodies0)[j],
                forall|j: int| i as int <= j < n as int ==> self.entities@[j] == bodies0[j],
                self@.gravity == w0.gravity,
                self@.integrator == w0.integrator,
                self@.params == w0.params,
                self@.forces == w0.forces,
                self@.solver == w0.solver,
                self@.manifolds == w0.manifolds,
            decreases n - i,
        {
            let e = self.entities[i];
            self.entities.set(i, RigidBody { force: Vec2 { x: 0, y: 0 }, torque: 0, ..e });
            i += 1;
        }
        proof {
            assert(self.entities@ =~= clear_forces_all_spec(bodies0));
        }

        // Apply gravity as a force on every dynamic body.
        let ghost bodies1 = self.entities@;
        let gravity = self.gravity;
        let mut i1: usize = 0;
        while i1 < n
            invariant
                i1 <= n,
                n == bodies1.len(),
                self.entities@.len() == n as int,
                forall|j: int| 0 <= j < i1 as int ==> self.entities@[j] == apply_gravity_all_spec(bodies1, gravity)[j],
                forall|j: int| i1 as int <= j < n as int ==> self.entities@[j] == bodies1[j],
                self@.gravity == w0.gravity,
                self@.integrator == w0.integrator,
                self@.params == w0.params,
                self@.forces == w0.forces,
                self@.solver == w0.solver,
                self@.manifolds == w0.manifolds,
            decreases n - i1,
        {
            let e = self.entities[i1];
            if e.inv_mass > 0 {
                let mass = fx_div(FX_ONE, e.inv_mass);
                self.entities.set(i1, RigidBody { force: e.force.add(gravity.scale(mass)), ..e });
            }
            i1 += 1;
        }
        proof {
            assert(self.entities@ =~= apply_gravity_all_spec(bodies1, gravity));
        }

        // Run the force generators in insertion order.
        let ghost bodies2 = self.entities@;
        let ghost forces0 = self.forces@;
        let mut fi: usize = 0;
        while fi < self.forces.len()
            invariant
                fi <= forces0.len(),
                self.forces@ == forces0,
                self.entities@ == apply_force_gens_spec(forces0, bodies2, fi as int),
                self@.gravity == w0.gravity,
                self@.integrator == w0.integrator,
                self@.params == w0.params,
                self@.forces == w0.forces,
                self@.solver == w0.solver,
                self@.manifolds == w0.manifolds,
            decreases forces0.len() - fi as int,
        {
            let f = self.forces[fi];
            f.apply(&mut self.entities);
            fi += 1;
        }

        // Integrate velocities from the accumulated forces.
        let ghost bodies3 = self.entities@;
        let integrator = self.integrator;
        let mut i2: usize = 0;
        while i2 < self.entities.len()
            invariant
                i2 <= bodies3.len(),
                self.entities@.len() == bodies3.len(),
                forall|j: int| 0 <= j < i2 as int ==> self.entities@[j] == integrate_velocities_all_spec(
                    bodies3, dt as int,
                )[j],
                forall|j: int| i2 as int <= j < bodies3.len() ==> self.entities@[j] == bodies3[j],
                self@.gravity == w0.gravity,
                self@.integrator == w0.integrator,
                self@.params == w0.params,
                self@.forces == w0.forces,
                self@.solver == w0.solver,
                self@.manifolds == w0.manifolds,
            decreases bodies3.len() - i2 as int,
        {
            let mut e = self.entities[i2];
            integrate_velocity(&mut e, dt, integrator);
            self.entities.set(i2, e);
            i2 += 1;
        }
        proof {
            assert(self.entities@ =~= integrate_velocities_all_spec(bodies3, dt as int));
            assert(self.entities@ == pre_collision_bodies_spec(w0, dt));
        }

        // Detect collisions at the current configuration.
        let pairs = detect_sap(&self.entities, self.params);
        self.manifolds = narrow_phase::detect(&self.entities, &pairs, self.params);

        // Build constraints and solve.
        self.solver.build_constraints(&self.manifolds, &self.entities, dt);
        self.solver.solve(&mut self.entities);

        // Integrate positions.
        let ghost solver2 = self@.solver;
        let ghost ms2 = self@.manifolds;
        let ghost bodies5 = self.entities@;
        let mut i3: usize = 0;
        while i3 < self.entities.len()
            invariant
                i3 <= bodies5.len(),
                self.entities@.len() == bodies5.len(),
                forall|j: int| 0 <= j < i3 as int ==> self.entities@[j] == integrate_positions_all_spec(
                    bodies5, dt as int,
                )[j],
                forall|j: int| i3 as int <= j < bodies5.len() ==> self.entities@[j] == bodies5[j],
                self@.gravity == w0.gravity,
                self@.integrator == w0.integrator,
                self@.params == w0.params,
                self@.forces == w0.forces,
                self@.solver == solver2,
                self@.manifolds == ms2,
            decreases bodies5.len() - i3 as int,
        {
            let e = self.entities[i3];
            self.entities.set(
                i3,
                RigidBody {
                    pos: e.pos.add(e.vel.scale(dt)),
                    angle: fx_add(e.angle, fx_mul(e.omega, dt)),
                    ..e
                },
            );
            i3 += 1;
        }
        proof {
            assert(self.entities@ =~= integrate_positions_all_spec(bodies5, dt as int));
            let bodies4 = pre_collision_bodies_spec(w0, dt);
            let ms = manifolds_spec(bodies4, pairs@, w0.params);
            let solver1 = build_constraints_spec(w0.solver, ms, bodies4, dt);
            let sr = solve_spec(solver1, bodies4);
            assert(ms2 == ms);
            assert(solver2 == sr.0);
            assert(bodies5 == sr.1);
            assert(self@ == step_with_pairs_spec(w0, dt, pairs@));
            assert(step_witnessed_by(w0, dt, self@, pairs@));
        }
    }
}


/// The force-generator fold leaves a static body untouched.
proof fn lemma_force_gens_static(fs: Seq<ForceGen>, bodies: Seq<RigidBody>, n: int, k: int)
    requires
        0 <= k < bodies.len(),
        bodies[k].inv_mass == 0,
    ensures
        apply_force_gens_spec(fs, bodies, n).len() == bodies.len(),
        apply_force_gens_spec(fs, bodies, n)[k] == bodies[k],
    decreases n,
{
    if n > 0 {
        lemma_force_gens_static(fs, bodies, n - 1, k);
        crate::forces::lemma_force_apply_static(fs[n - 1], apply_force_gens_spec(fs, bodies, n - 1), k);
    }
}

/// The pre-collision stages leave a resting static body with only its
/// accumulators cleared.
proof fn lemma_pre_collision_static(w: WorldView, dt: i64, k: int)
    requires
        0 <= k < w.entities.len(),
        w.entities[k].inv_mass == 0,
        w.entities[k].inv_inertia == 0,
        w.entities[k].vel == (Vec2 { x: 0i64, y: 0i64 }),
        w.entities[k].omega == 0,
        dt > 0,
    ensures
        pre_collision_bodies_spec(w, dt).len() == w.entities.len(),
        pre_collision_bodies_spec(w, dt)[k] == (RigidBody {
            force: Vec2 { x: 0i64, y: 0i64 },
            torque: 0i64,
            ..w.entities[k]
        }),
{
    let b = w.entities[k];
    let b1 = RigidBody { force: Vec2 { x: 0i64, y: 0i64 }, torque: 0i64, ..b };
    let cleared = clear_forces_all_spec(w.entities);
    assert(cleared[k] == b1);
    let after_gravity = apply_gravity_all_spec(cleared, w.gravity);
    assert(after_gravity[k] == b1);
    lemma_force_gens_static(w.forces, after_gravity, w.forces.len() as int, k);
    let after_gens = apply_force_gens_spec(w.forces, after_gravity, w.forces.len() as int);
    assert(after_gens[k] == b1);
    assert(integrate_velocity_spec(b1, dt as int) == b1) by {
        assert(vscale_spec(vscale_spec(b1.force, b1.inv_mass as int), dt as int) == (Vec2 {
            x: 0i64,
            y: 0i64,
        }));
        assert(vadd_spec(b1.vel, Vec2 { x: 0i64, y: 0i64 }) == b1.vel);
    }
}

/// A static body at rest is unchanged by a whole step, except that its force
/// and torque accumulators are cleared: gravity skips it, no generator
/// touches it, every impulse on it is weighted by its zero inverse mass and
/// inertia, and its zero velocity moves it nowhere.
#[verifier::rlimit(100)]
pub proof fn lemma_step_static_body_at_rest(w: WorldView, dt: i64, pairs: Seq<(usize, usize)>, k: int)
    requires
        0 <= k < w.entities.len(),
        w.entities[k].inv_mass == 0,
        w.entities[k].inv_inertia == 0,
        w.entities[k].vel == (Vec2 { x: 0i64, y: 0i64 }),
        w.entities[k].omega == 0,
        w.entities[k].pos.x != i64::MIN,
        w.entities[k].pos.y != i64::MIN,
        w.entities[k].angle != i64::MIN,
        dt > 0,
    ensures
        step_with_pairs_spec(w, dt, pairs).entities.len() == w.entities.len(),
        step_with_pairs_spec(w, dt, pairs).entities[k] == (RigidBody {
            force: Vec2 { x: 0i64, y: 0i64 },
            torque: 0i64,
            ..w.entities[k]
        }),
{
    let b = w.entities[k];
    let b1 = RigidBody { force: Vec2 { x: 0i64, y: 0i64 }, torque: 0i64, ..b };
    lemma_pre_collision_static(w, dt, k);
    let bodies4 = pre_collision_bodies_spec(w, dt);
    let ms = manifolds_spec(bodies4, pairs, w.params);
    let solver1 = build_constraints_spec(w.solver, ms, bodies4, dt);
    crate::engine::solver::constraint::lemma_solve_static_body_unchanged(solver1, bodies4, k);
    let sr = solve_spec(solver1, bodies4);
    assert(sr.1[k] == b1);
    assert(position_step_spec(b1, dt as int) == b1) by {
        assert(vscale_spec(b1.vel, dt as int) == (Vec2 { x: 0i64, y: 0i64 }));
        assert(vadd_spec(b1.pos, Vec2 { x: 0i64, y: 0i64 }) == b1.pos);
    }
    assert(integrate_positions_all_spec(sr.1, dt as int)[k] == b1);
}

} // verus!