//! Narrow phase for a pair of circles.

use vstd::prelude::*;

use crate::engine::collision::manifold::ContactPoint;
use crate::fx::{fx_add, fx_add_spec, fx_mul, fx_mul_spec, fx_sub, fx_sub_spec, FX_ONE};
use crate::math::vec::{
    lemma_vlen_neg, lemma_vnormalized_neg, lemma_vsub_antisym, vadd_spec, vlen_spec, vlen_sq_spec,
    vneg_spec, vnormalized_spec, vscale_spec, vsub_spec, Vec2,
};

verus! {

/// The circle/circle contact. With `d` the centre difference `b - a`,
/// `L = |d|` and `S = r_a + r_b`: no contact when the centres are farther
/// apart than `S` plus the speculative distance; otherwise the normal is
/// `d / L` (or `(1, 0)` when the centres coincide), the penetration `S - L`
/// (positive when overlapping), and the contact point sits on the first
/// circle's surface along the normal.
pub open spec fn detect_circle_circle_spec(
    center_a: Vec2,
    radius_a: int,
    center_b: Vec2,
    radius_b: int,
    speculative_distance: int,
) -> Option<(Vec2, ContactPoint)> {
    let delta = vsub_spec(center_b, center_a);
    let dist_sq = vlen_sq_spec(delta);
    let radius_sum = fx_add_spec(radius_a, radius_b);
    let max_dist = fx_add_spec(radius_sum, speculative_distance);
    if dist_sq > fx_mul_spec(max_dist, max_dist) {
        None
    } else {
        let len = vlen_spec(delta);
        if len > 0 {
            let normal = vnormalized_spec(delta);
            Some((normal, ContactPoint {
                point: vadd_spec(center_a, vscale_spec(normal, radius_a)),
                penetration: fx_sub_spec(radius_sum, len) as i64,
            }))
        } else {
            let normal = Vec2 { x: FX_ONE, y: 0i64 };
            Some((normal, ContactPoint {
                point: vadd_spec(center_a, vscale_spec(normal, radius_a)),
                penetration: fx_add_spec(radius_a, radius_b) as i64,
            }))
        }
    }
}

/// Detect contact between two circles; the normal points from the first
/// toward the second.
pub fn detect(
    center_a: Vec2,
    radius_a: i64,
    center_b: Vec2,
    radius_b: i64,
    speculative_distance: i64,
) -> (r: Option<(Vec2, ContactPoint)>)
    ensures
        r == detect_circle_circle_spec(
            center_a,
            radius_a as int,
            center_b,
            radius_b as int,
            speculative_distance as int,
        ),
{
    let delta = center_b.sub(center_a);
    let dist_sq = delta.length_squared();
    let radius_sum = fx_add(radius_a, radius_b);

    let max_dist = fx_add(radius_sum, speculative_distance);
    if dist_sq > fx_mul(max_dist, max_dist) {
        return None;
    }

    match delta.try_normalize() {
        Some(normal) => {
            let len = delta.length();
            let contact_point = center_a.add(normal.scale(radius_a));
            Some((normal, ContactPoint { point: contact_point, penetration: fx_sub(radius_sum, len) }))
        },
        None => {
            let normal = Vec2 { x: FX_ONE, y: 0 };
            let contact_point = center_a.add(normal.scale(radius_a));
            Some((normal, ContactPoint { point: contact_point, penetration: radius_sum }))
        },
    }
}

/// The narrow phase is symmetric under pair swap for circles: with the two
/// circles given in either order it finds the same gap decision, the same
/// penetration, and exactly negated normals. The coincident-centre fallback
/// is excluded: there both orders answer with the fixed normal `(1, 0)`.
pub proof fn lemma_detect_circle_circle_swap(
    center_a: Vec2,
    radius_a: int,
    center_b: Vec2,
    radius_b: int,
    speculative_distance: int,
)
    requires
        vlen_spec(vsub_spec(center_b, center_a)) > 0,
    ensures
        detect_circle_circle_spec(center_a, radius_a, center_b, radius_b, speculative_distance) is Some
            <==> detect_circle_circle_spec(center_b, radius_b, center_a, radius_a, speculative_distance) is Some,
        detect_circle_circle_spec(center_a, radius_a, center_b, radius_b, speculative_distance) matches Some(
            (n_ab, cp_ab),
        ) ==> detect_circle_circle_spec(center_b, radius_b, center_a, radius_a, speculative_distance) matches Some(
            (n_ba, cp_ba),
        ) && n_ba == vneg_spec(n_ab) && cp_ba.penetration == cp_ab.penetration,
{
    let delta = vsub_spec(center_b, center_a);
    let delta_rev = vsub_spec(center_a, center_b);
    lemma_vsub_antisym(center_a, center_b);
    assert(delta_rev == vneg_spec(delta));
    assert(delta.x != i64::MIN && delta.y != i64::MIN);
    lemma_vlen_neg(delta);
    lemma_vnormalized_neg(delta);
    assert(fx_add_spec(radius_a, radius_b) == fx_add_spec(radius_b, radius_a));
    assert(vneg_spec(vneg_spec(vnormalized_spec(delta))) == vnormalized_spec(delta));
}

} // verus!
