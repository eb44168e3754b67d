//! Vectors, matrices, transforms, shapes, and bounding boxes.

use rigid2d::engine::collision::shape::{Aabb, Collider2D};
use rigid2d::fx::FX_ONE;
use rigid2d::math::mat::Mat2;
use rigid2d::math::transform::Transform2D;
use rigid2d::math::vec::Vec2;

#[test]
fn vector_ops() {
    let a = Vec2::new(3_000_000, 4_000_000);
    let b = Vec2::new(1_000_000, -2_000_000);
    assert_eq!(a.add(b), Vec2::new(4_000_000, 2_000_000));
    assert_eq!(a.sub(b), Vec2::new(2_000_000, 6_000_000));
    assert_eq!(a.neg(), Vec2::new(-3_000_000, -4_000_000));
    assert_eq!(a.scale(500_000), Vec2::new(1_500_000, 2_000_000));
    assert_eq!(a.dot(b), 3_000_000 - 8_000_000);
    assert_eq!(a.cross(b), -6_000_000 - 4_000_000);
    assert_eq!(a.perp(), Vec2::new(-4_000_000, 3_000_000));
}

#[test]
fn vector_length_and_normalization() {
    let a = Vec2::new(3_000_000, 4_000_000);
    assert_eq!(a.length_squared(), 25_000_000);
    assert_eq!(a.length(), 5_000_000);
    assert_eq!(a.normalized(), Vec2::new(600_000, 800_000));
    assert_eq!(a.try_normalize(), Some(Vec2::new(600_000, 800_000)));
    assert_eq!(Vec2::zero().try_normalize(), None);
}

#[test]
fn rotation_matrix_quarter_turn() {
    let r = Mat2::rotation(rigid2d::fx::FX_HALF_PI);
    let v = r.mul_vec2(Vec2::new(FX_ONE, 0));
    assert_eq!(v, Vec2::new(0, FX_ONE));
    let back = r.transpose().mul_vec2(v);
    assert_eq!(back, Vec2::new(FX_ONE, 0));
}

#[test]
fn matrix_product_with_identity() {
    let r = Mat2::rotation(300_000);
    let p = r.mul_mat2(&Mat2::identity());
    assert_eq!(p, r);
}

#[test]
fn transform_round_trip_translation() {
    let t = Transform2D::from_translation(Vec2::new(2_000_000, -1_000_000));
    let p = Vec2::new(500_000, 500_000);
    let q = t.apply_to_point(p);
    assert_eq!(q, Vec2::new(2_500_000, -500_000));
    assert_eq!(t.inverse().apply_to_point(q), p);
    assert_eq!(t.apply_to_vector(p), p);
}

#[test]
fn transform_chain_applies_in_order() {
    let t1 = Transform2D::from_translation(Vec2::new(1_000_000, 0));
    let t2 = Transform2D::from_translation(Vec2::new(0, 2_000_000));
    let t = t1.chain(&t2);
    assert_eq!(t.apply_to_point(Vec2::zero()), Vec2::new(1_000_000, 2_000_000));
}

#[test]
fn aabb_overlap_is_inclusive() {
    let a = Aabb::new(Vec2::new(0, 0), Vec2::new(1_000_000, 1_000_000));
    let b = Aabb::new(Vec2::new(1_000_000, 0), Vec2::new(2_000_000, 1_000_000));
    let c = Aabb::new(Vec2::new(1_000_001, 0), Vec2::new(2_000_000, 1_000_000));
    assert!(a.overlaps(&b));
    assert!(b.overlaps(&a));
    assert!(!a.overlaps(&c));
}

#[test]
fn circle_inertia_is_half_m_r_squared() {
    let c = Collider2D::Circle { radius: FX_ONE };
    assert_eq!(c.inertia_about_center(2_000_000), 1_000_000);
    assert_eq!(c.inertia_about_center(0), 0);
    assert_eq!(c.inertia_about_center(-5), 0);
}

#[test]
fn box_inertia_matches_formula() {
    // Full extents 1 x 0.6: m (w^2 + h^2) / 12 = (1 + 0.36) / 12.
    let c = Collider2D::Box { half_extents: Vec2::new(500_000, 300_000) };
    assert_eq!(c.inertia_about_center(1_000_000), 113_333);
}

#[test]
fn box_aabb_upright_and_rotated() {
    let c = Collider2D::Box { half_extents: Vec2::new(500_000, 300_000) };
    let up = c.aabb(&Vec2::zero(), 0);
    assert_eq!(up.min, Vec2::new(-500_000, -300_000));
    assert_eq!(up.max, Vec2::new(500_000, 300_000));
    // A quarter turn swaps the extents.
    let quarter = c.aabb(&Vec2::zero(), rigid2d::fx::FX_HALF_PI);
    assert_eq!(quarter.min, Vec2::new(-300_000, -500_000));
    assert_eq!(quarter.max, Vec2::new(300_000, 500_000));
}

#[test]
fn circle_aabb_is_radius_box() {
    let c = Collider2D::Circle { radius: 450_000 };
    let bb = c.aabb(&Vec2::new(1_000_000, 2_000_000), 123_456);
    assert_eq!(bb.min, Vec2::new(550_000, 1_550_000));
    assert_eq!(bb.max, Vec2::new(1_450_000, 2_450_000));
}
