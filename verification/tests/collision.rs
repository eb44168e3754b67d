//! Broad-phase pair pruning and narrow-phase manifold generation.

use rigid2d::engine::body::rigid_body::RigidBody;
use rigid2d::engine::collision::{box_box, box_circle, circle_circle};
use rigid2d::engine::collision::broad_phase::detect_sap;
use rigid2d::engine::collision::narrow_phase;
use rigid2d::engine::params::SimParams;
use rigid2d::fx::FX_ONE;
use rigid2d::math::vec::Vec2;

fn circle_at(x: i64, y: i64, r: i64) -> RigidBody {
    RigidBody::circle(Vec2::new(x, y), 0, 1_000_000, r)
}

#[test]
fn broad_phase_reports_touching_neighbours_only() {
    let entities = vec![
        circle_at(0, 0, 450_000),
        circle_at(1_000_000, 0, 450_000),
        circle_at(5_000_000, 0, 450_000),
    ];
    let pairs = detect_sap(&entities, SimParams::default());
    assert_eq!(pairs, vec![(0, 1)]);
}

#[test]
fn broad_phase_pair_set_survives_permutation() {
    let a = circle_at(0, 0, 450_000);
    let b = circle_at(1_000_000, 0, 450_000);
    let c = circle_at(1_800_000, 300_000, 450_000);
    let params = SimParams::default();

    let original = vec![a, b, c];
    let permuted = vec![c, a, b];
    let perm = [2usize, 0, 1]; // permuted[k] == original[perm[k]]

    let pairs_orig = detect_sap(&original, params);
    let pairs_perm = detect_sap(&permuted, params);

    // Map each permuted pair back to original indices and compare as sets.
    let mut mapped: Vec<(usize, usize)> = pairs_perm
        .iter()
        .map(|&(i, j)| {
            let (x, y) = (perm[i], perm[j]);
            if x < y { (x, y) } else { (y, x) }
        })
        .collect();
    mapped.sort();
    let mut orig_sorted = pairs_orig.clone();
    orig_sorted.sort();
    assert_eq!(mapped, orig_sorted);
    assert_eq!(orig_sorted, vec![(0, 1), (1, 2)]);
}

#[test]
fn circle_circle_head_on_overlap() {
    let r = circle_circle::detect(
        Vec2::new(0, 0),
        450_000,
        Vec2::new(800_000, 0),
        450_000,
        50_000,
    );
    let (normal, cp) = r.expect("overlapping circles must contact");
    assert_eq!(normal, Vec2::new(FX_ONE, 0));
    assert_eq!(cp.penetration, 100_000);
    assert_eq!(cp.point, Vec2::new(450_000, 0));
}

#[test]
fn circle_circle_speculative_and_out_of_range() {
    // Separated by 0.03 beyond touching: inside the 0.05 speculative band.
    let near = circle_circle::detect(
        Vec2::new(0, 0),
        450_000,
        Vec2::new(930_000, 0),
        450_000,
        50_000,
    );
    let (_, cp) = near.expect("speculative contact expected");
    assert_eq!(cp.penetration, -30_000);

    let far = circle_circle::detect(
        Vec2::new(0, 0),
        450_000,
        Vec2::new(1_000_000, 0),
        450_000,
        50_000,
    );
    assert!(far.is_none());
}

#[test]
fn circle_circle_swap_negates_normal() {
    let ca = Vec2::new(100_000, 250_000);
    let cb = Vec2::new(800_000, -90_000);
    let ab = circle_circle::detect(ca, 450_000, cb, 400_000, 50_000).unwrap();
    let ba = circle_circle::detect(cb, 400_000, ca, 450_000, 50_000).unwrap();
    assert_eq!(ba.0, ab.0.neg());
    assert_eq!(ba.1.penetration, ab.1.penetration);
}

#[test]
fn box_circle_face_contact() {
    let r = box_circle::detect(
        Vec2::new(0, 0),
        0,
        Vec2::new(500_000, 500_000),
        Vec2::new(800_000, 0),
        400_000,
        50_000,
    );
    let (normal, cp) = r.expect("circle against box face must contact");
    assert_eq!(normal, Vec2::new(FX_ONE, 0));
    assert_eq!(cp.penetration, 100_000);
    assert_eq!(cp.point, Vec2::new(500_000, 0));
}

#[test]
fn box_circle_centre_inside_picks_nearest_face() {
    let r = box_circle::detect(
        Vec2::new(0, 0),
        0,
        Vec2::new(500_000, 300_000),
        Vec2::new(100_000, 200_000),
        250_000,
        50_000,
    );
    let (normal, cp) = r.expect("embedded circle must contact");
    // Nearer face is +y (depth 0.1 versus 0.4 in x).
    assert_eq!(normal, Vec2::new(0, FX_ONE));
    assert_eq!(cp.penetration, 250_000 + 100_000);
    assert_eq!(cp.point, Vec2::new(100_000, 300_000));
}

#[test]
fn box_box_axis_aligned_overlap_gives_two_points() {
    let r = box_box::detect(
        Vec2::new(0, 0),
        0,
        Vec2::new(500_000, 500_000),
        Vec2::new(900_000, 0),
        0,
        Vec2::new(500_000, 500_000),
        50_000,
    );
    let (normal, pts) = r.expect("overlapping boxes must contact");
    assert_eq!(normal, Vec2::new(FX_ONE, 0));
    assert_eq!(pts.len(), 2);
    assert_eq!(pts[0].penetration, 100_000);
    assert_eq!(pts[1].penetration, 100_000);
    assert_eq!(pts[0].point, Vec2::new(400_000, 500_000));
    assert_eq!(pts[1].point, Vec2::new(400_000, -500_000));
}

#[test]
fn box_box_separated_beyond_speculation() {
    let r = box_box::detect(
        Vec2::new(0, 0),
        0,
        Vec2::new(500_000, 500_000),
        Vec2::new(1_100_000, 0),
        0,
        Vec2::new(500_000, 500_000),
        50_000,
    );
    assert!(r.is_none());
}

#[test]
fn narrow_phase_mixed_pair_flips_normal_exactly() {
    let box_body = RigidBody::box_xy(Vec2::new(0, 0), 0, 1_000_000, 1_000_000, 1_000_000);
    let ball = circle_at(800_000, 0, 400_000);
    let params = SimParams::default();

    let entities_ab = vec![box_body, ball];
    let ms_ab = narrow_phase::detect(&entities_ab, &vec![(0, 1)], params);
    assert_eq!(ms_ab.len(), 1);

    let entities_ba = vec![ball, box_body];
    let ms_ba = narrow_phase::detect(&entities_ba, &vec![(0, 1)], params);
    assert_eq!(ms_ba.len(), 1);

    assert_eq!(ms_ba[0].normal, ms_ab[0].normal.neg());
    assert_eq!(ms_ba[0].points, ms_ab[0].points);
}

#[test]
fn narrow_phase_skips_shapeless_and_out_of_range() {
    let plain = RigidBody::new(Vec2::zero(), 0, 1_000_000, 0);
    let ball = circle_at(100_000, 0, 400_000);
    let ms = narrow_phase::detect(&vec![plain, ball], &vec![(0, 1), (0, 7)], SimParams::default());
    assert_eq!(ms.len(), 0);
}
