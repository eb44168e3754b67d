//! Integration, force generators, and whole-world simulation scenarios.

use rigid2d::engine::body::particle::Particle;
use rigid2d::engine::body::rigid_body::RigidBody;
use rigid2d::engine::integrator::{integrate, Integrator};
use rigid2d::engine::world::World;
use rigid2d::forces::drag::LinearDrag;
use rigid2d::forces::spring::Spring;
use rigid2d::forces::ForceGen;
use rigid2d::math::vec::Vec2;

const DT_240HZ: i64 = 4_167;

fn gravity() -> Vec2 {
    Vec2::new(0, -9_810_000)
}

fn kinetic_measure(w: &World) -> i128 {
    // Proportional to kinetic energy for unit masses: sum of squared
    // velocities plus squared spins, in raw fixed-point units.
    let mut total: i128 = 0;
    for e in w.entities.iter() {
        total += (e.vel.x as i128) * (e.vel.x as i128);
        total += (e.vel.y as i128) * (e.vel.y as i128);
        total += (e.omega as i128) * (e.omega as i128);
    }
    total
}

#[test]
fn semi_implicit_euler_updates_velocity_first() {
    let mut b = RigidBody::new(Vec2::zero(), 0, 1_000_000, 0);
    b.force = Vec2::new(1_000_000, 0);
    integrate(&mut b, 500_000, Integrator::SemiImplicitEuler);
    // a = 1 m/s^2, dt = 0.5 s: vel = 0.5, pos = vel * dt = 0.25.
    assert_eq!(b.vel, Vec2::new(500_000, 0));
    assert_eq!(b.pos, Vec2::new(250_000, 0));
}

#[test]
fn explicit_euler_moves_with_old_velocity() {
    let mut b = RigidBody::new(Vec2::zero(), 0, 1_000_000, 0);
    b.force = Vec2::new(1_000_000, 0);
    integrate(&mut b, 500_000, Integrator::ExplicitEuler);
    assert_eq!(b.vel, Vec2::new(500_000, 0));
    assert_eq!(b.pos, Vec2::zero());
}

#[test]
fn non_positive_step_is_a_no_op() {
    let mut world = World::new(gravity(), Integrator::SemiImplicitEuler);
    world.add(RigidBody::circle(Vec2::new(0, 2_000_000), 0, 1_000_000, 450_000));
    let before = world.entities.clone();
    world.step(0);
    world.step(-4_167);
    assert_eq!(world.entities, before);
}

#[test]
fn gravity_accelerates_a_falling_body() {
    let mut world = World::new(gravity(), Integrator::SemiImplicitEuler);
    world.add(RigidBody::circle(Vec2::new(0, 5_000_000), 0, 1_000_000, 450_000));
    world.step(DT_240HZ);
    // One step: vel.y = g * dt.
    let expect = -(9_810_000i64 * 4_167 / 1_000_000);
    let got = world.entities[0].vel.y;
    assert!((got - expect).abs() <= 2, "vel.y = {got}, expected about {expect}");
}

#[test]
fn linear_drag_slows_a_particle() {
    let mut world = World::new(Vec2::zero(), Integrator::SemiImplicitEuler);
    world.add(Particle::new(Vec2::zero(), Vec2::new(1_000_000, 0), 1_000_000).to_rigid_body());
    world.add_force(ForceGen::Drag(LinearDrag { k: 1_000_000 }));
    world.step(DT_240HZ);
    // F = -v k = -1 N, a = -1 m/s^2: vel falls by dt.
    assert_eq!(world.entities[0].vel.x, 1_000_000 - 4_167);
}

#[test]
fn anchored_spring_pulls_toward_rest_length() {
    let mut world = World::new(Vec2::zero(), Integrator::SemiImplicitEuler);
    world.add(Particle::new(Vec2::new(2_000_000, 0), Vec2::zero(), 1_000_000).to_rigid_body());
    world.add_force(ForceGen::Spring(Spring::to_anchor(
        0,
        Vec2::zero(),
        1_000_000,
        0,
        1_000_000,
    )));
    world.step(DT_240HZ);
    // Stretched 1 m past rest with k = 1: force -1 N along +x.
    assert_eq!(world.entities[0].vel.x, -4_167);
}

#[test]
fn spring_between_bodies_acts_equal_and_opposite() {
    let mut world = World::new(Vec2::zero(), Integrator::SemiImplicitEuler);
    world.add(Particle::new(Vec2::new(-1_500_000, 0), Vec2::zero(), 1_000_000).to_rigid_body());
    world.add(Particle::new(Vec2::new(1_500_000, 0), Vec2::zero(), 1_000_000).to_rigid_body());
    world.add_force(ForceGen::Spring(Spring::between(0, 1, 2_000_000, 0, 1_000_000)));
    world.step(DT_240HZ);
    let va = world.entities[0].vel.x;
    let vb = world.entities[1].vel.x;
    assert!(va > 0 && vb < 0, "spring must pull the ends together: {va}, {vb}");
    assert_eq!(va + vb, 0, "forces must be equal and opposite");
}

#[test]
fn static_pair_stays_put() {
    // Two overlapping static boxes: no impulse is applied, no state changes.
    let mut world = World::new(gravity(), Integrator::SemiImplicitEuler);
    world.add(RigidBody::box_xy(Vec2::new(0, 0), 0, 0, 2_000_000, 1_000_000));
    world.add(RigidBody::box_xy(Vec2::new(500_000, 200_000), 0, 0, 2_000_000, 1_000_000));
    let before = world.entities.clone();
    for _ in 0..10 {
        world.step(DT_240HZ);
    }
    assert_eq!(world.entities, before);
}

#[test]
fn head_on_elastic_circles_conserve_momentum_exactly() {
    // At 120 Hz the closing pair jumps from a 0.06 gap straight into a 0.04
    // overlap, so the restitution pass sees the full approach speed.
    let dt: i64 = 8_333;
    let mut world = World::new(Vec2::zero(), Integrator::SemiImplicitEuler);
    world.solver.params.restitution = 1_000_000;
    world.solver.params.friction = 0;
    let mut a = RigidBody::circle(Vec2::new(-2_980_000, 0), 0, 1_000_000, 450_000);
    a.vel = Vec2::new(6_000_000, 0);
    let mut b = RigidBody::circle(Vec2::new(2_980_000, 0), 0, 1_000_000, 450_000);
    b.vel = Vec2::new(-6_000_000, 0);
    world.add(a);
    world.add(b);

    for _ in 0..240 {
        world.step(dt);
        // Equal masses, purely internal impulses: the velocity sum is
        // preserved exactly at every step.
        assert_eq!(world.entities[0].vel.x + world.entities[1].vel.x, 0);
        assert_eq!(world.entities[0].vel.y + world.entities[1].vel.y, 0);
    }

    let va = world.entities[0].vel.x;
    let vb = world.entities[1].vel.x;
    assert!(va < -5_000_000 && vb > 5_000_000, "circles must rebound elastically: {va}, {vb}");
    assert!(va.abs() <= 6_120_000, "no energy may be gained: {va}");
    assert!(vb.abs() <= 6_120_000, "no energy may be gained: {vb}");
    // They separate again.
    assert!(world.entities[0].pos.x < -1_000_000);
    assert!(world.entities[1].pos.x > 1_000_000);
}

#[test]
fn speculative_contact_stops_approach_without_overlap() {
    // At 240 Hz the same pair enters the speculative band before touching:
    // the solver acts early and the circles stop instead of sinking in.
    let mut world = World::new(Vec2::zero(), Integrator::SemiImplicitEuler);
    world.solver.params.restitution = 0;
    world.solver.params.friction = 0;
    let mut a = RigidBody::circle(Vec2::new(-3_000_000, 0), 0, 1_000_000, 450_000);
    a.vel = Vec2::new(6_000_000, 0);
    let mut b = RigidBody::circle(Vec2::new(3_000_000, 0), 0, 1_000_000, 450_000);
    b.vel = Vec2::new(-6_000_000, 0);
    world.add(a);
    world.add(b);

    for _ in 0..480 {
        world.step(DT_240HZ);
        assert_eq!(world.entities[0].vel.x + world.entities[1].vel.x, 0);
    }
    // Approach is fully absorbed and the surfaces never interpenetrate
    // beyond the speculative margin.
    let gap = (world.entities[1].pos.x - world.entities[0].pos.x) - 900_000;
    assert!(world.entities[0].vel.x.abs() < 500_000);
    assert!(gap > -60_000, "circles must not sink into each other: gap = {gap}");
}

#[test]
fn dropped_box_comes_to_rest_on_static_ground() {
    let mut world = World::new(gravity(), Integrator::SemiImplicitEuler);
    world.solver.params.restitution = 0;
    world.solver.params.friction = 800_000;
    // Static ground 20 x 0.5 with its top face at y = 0.
    world.add(RigidBody::box_xy(Vec2::new(0, -250_000), 0, 0, 20_000_000, 500_000));
    // Dynamic 1 x 0.5 box dropped from y = 2.
    world.add(RigidBody::box_xy(Vec2::new(0, 2_000_000), 0, 1_000_000, 1_000_000, 500_000));

    for _ in 0..720 {
        world.step(DT_240HZ);
    }

    let b = &world.entities[1];
    assert!(b.vel.y.abs() < 100_000, "box must be nearly at rest: vy = {}", b.vel.y);
    assert!(b.vel.x.abs() < 100_000, "box must not drift: vx = {}", b.vel.x);
    // Steady height is the half extent above the ground top, within the
    // slop plus bias allowance.
    assert!(
        (b.pos.y - 250_000).abs() < 60_000,
        "box must rest on the surface: y = {}",
        b.pos.y
    );
    // The ground never moves.
    assert_eq!(world.entities[0].pos, Vec2::new(0, -250_000));
    assert_eq!(world.entities[0].vel, Vec2::zero());
}

#[test]
fn settled_scene_dissipates_energy() {
    // Once a dropped box has settled on static ground with no restitution,
    // its kinetic energy keeps trending down, step over step.
    let mut world = World::new(gravity(), Integrator::SemiImplicitEuler);
    world.solver.params.restitution = 0;
    world.solver.params.friction = 800_000;
    world.add(RigidBody::box_xy(Vec2::new(0, -250_000), 0, 0, 20_000_000, 500_000));
    world.add(RigidBody::box_xy(Vec2::new(0, 1_000_000), 0, 1_000_000, 1_000_000, 500_000));

    for _ in 0..600 {
        world.step(DT_240HZ);
    }
    let mut prev = kinetic_measure(&world);
    for _ in 0..60 {
        world.step(DT_240HZ);
        let now = kinetic_measure(&world);
        // Monotone non-increasing modulo a small solver residual.
        assert!(
            now <= prev + 2_000_000_000,
            "kinetic energy may not grow at rest: {prev} -> {now}"
        );
        prev = now;
    }
}

#[test]
fn settled_contacts_respect_penetration_bound() {
    // After settling, no contact reports penetration beyond
    // slop + 2 dt max_bias_velocity.
    let mut world = World::new(gravity(), Integrator::SemiImplicitEuler);
    world.solver.params.restitution = 0;
    world.solver.params.friction = 800_000;
    world.add(RigidBody::box_xy(Vec2::new(0, -250_000), 0, 0, 20_000_000, 500_000));
    world.add(RigidBody::box_xy(Vec2::new(0, 1_000_000), 0, 1_000_000, 1_000_000, 500_000));

    for _ in 0..720 {
        world.step(DT_240HZ);
    }
    let bound = 10_000 + 2 * (4_167 * 4_000_000 / 1_000_000);
    for m in world.manifolds.iter() {
        for cp in m.points.iter() {
            assert!(
                cp.penetration <= bound,
                "penetration {} exceeds steady-state bound {bound}",
                cp.penetration
            );
        }
    }
}

#[test]
fn mirrored_circles_fall_symmetrically() {
    // A mirror-symmetric scene stays mirror-symmetric within 1e-4.
    let mut world = World::new(gravity(), Integrator::SemiImplicitEuler);
    world.solver.params.restitution = 0;
    world.add(RigidBody::box_xy(Vec2::new(0, -250_000), 0, 0, 20_000_000, 500_000));
    world.add(RigidBody::circle(Vec2::new(-1_500_000, 2_000_000), 0, 1_000_000, 450_000));
    world.add(RigidBody::circle(Vec2::new(1_500_000, 2_000_000), 0, 1_000_000, 450_000));

    for _ in 0..480 {
        world.step(DT_240HZ);
    }
    let a = &world.entities[1];
    let b = &world.entities[2];
    assert!((a.pos.x + b.pos.x).abs() <= 100, "x positions must mirror: {} {}", a.pos.x, b.pos.x);
    assert!((a.pos.y - b.pos.y).abs() <= 100, "heights must match: {} {}", a.pos.y, b.pos.y);
}

#[test]
fn stationary_scene_keeps_velocities_across_steps() {
    // Warm-starting with the same dt on a settled scene: post-solve
    // velocities of consecutive steps agree closely.
    let mut world = World::new(gravity(), Integrator::SemiImplicitEuler);
    world.solver.params.restitution = 0;
    world.solver.params.friction = 800_000;
    world.add(RigidBody::box_xy(Vec2::new(0, -250_000), 0, 0, 20_000_000, 500_000));
    world.add(RigidBody::box_xy(Vec2::new(0, 240_000), 0, 1_000_000, 1_000_000, 500_000));

    for _ in 0..480 {
        world.step(DT_240HZ);
    }
    world.step(DT_240HZ);
    let v1 = world.entities[1].vel;
    let o1 = world.entities[1].omega;
    world.step(DT_240HZ);
    let v2 = world.entities[1].vel;
    let o2 = world.entities[1].omega;
    assert!((v1.x - v2.x).abs() <= 10_000, "vx {} vs {}", v1.x, v2.x);
    assert!((v1.y - v2.y).abs() <= 10_000, "vy {} vs {}", v1.y, v2.y);
    assert!((o1 - o2).abs() <= 10_000, "omega {o1} vs {o2}");
}

#[test]
fn box_rests_on_a_steep_slope_with_high_friction() {
    // Friction 0.9 exceeds tan(0.35) = 0.365: the box must not slide far.
    let mut world = World::new(gravity(), Integrator::SemiImplicitEuler);
    world.solver.params.restitution = 0;
    world.solver.params.friction = 900_000;
    world.solver.iterations = 20;
    world.add(RigidBody::box_xy(Vec2::new(0, 0), 350_000, 0, 10_000_000, 500_000));
    // Start the box just above the slope surface near the centre.
    let start = Vec2::new(0, 600_000);
    world.add(RigidBody::box_xy(start, 350_000, 1_000_000, 1_000_000, 600_000));

    for _ in 0..1200 {
        world.step(DT_240HZ);
    }
    let b = &world.entities[1];
    let dx = b.pos.x - start.x;
    let dy = b.pos.y - start.y;
    // It settles onto the surface but must not creep along it.
    assert!(dx.abs() < 150_000, "box slid along the slope: dx = {dx}");
    assert!(dy.abs() < 300_000, "box fell through or flew off: dy = {dy}");
}
