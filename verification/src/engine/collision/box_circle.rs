//! Narrow phase for a box against a circle.

use vstd::prelude::*;

use crate::engine::collision::manifold::ContactPoint;
use crate::fx::{
    fx_abs, fx_abs_spec, fx_add, fx_add_spec, fx_clamp, fx_clamp_spec, fx_mul, fx_mul_spec, fx_neg,
    fx_neg_spec, fx_sqrt, fx_sqrt_spec, fx_sub, fx_sub_spec, FX_ONE,
};
use crate::math::mat::{mmul_vec_spec, mrotation_spec, mtranspose_spec, Mat2};
use crate::math::vec::{vadd_spec, vlen_sq_spec, vsub_spec, Vec2};

verus! {

/// The sign the fallback face normal takes along one axis: unit length,
/// positive when the coordinate is non-negative.
pub open spec fn axis_sign_spec(v: int) -> int {
    if v >= 0 {
        FX_ONE as int
    } else {
        -(FX_ONE as int)
    }
}

/// The box/circle contact. The circle's centre moves into the box's local
/// frame and clamps to the extents, giving the closest box point. Farther
/// than radius plus speculative distance: no contact. A centre outside the
/// box gives the normal along the separation; a centre inside picks the
/// nearer face, with penetration `radius + face depth`. Normal and contact
/// rotate back to world space.
pub open spec fn detect_box_circle_spec(
    box_center: Vec2,
    box_angle: int,
    half_extents: Vec2,
    circle_center: Vec2,
    radius: int,
    speculative_distance: int,
) -> Option<(Vec2, ContactPoint)> {
    let rot = mrotation_spec(box_angle);
    let inv_rot = mtranspose_spec(rot);
    let delta_world = vsub_spec(circle_center, box_center);
    let delta_local = mmul_vec_spec(inv_rot, delta_world);
    let closest_local = Vec2 {
        x: fx_clamp_spec(
            delta_local.x as int,
            fx_neg_spec(half_extents.x as int),
            half_extents.x as int,
        ) as i64,
        y: fx_clamp_spec(
            delta_local.y as int,
            fx_neg_spec(half_extents.y as int),
            half_extents.y as int,
        ) as i64,
    };
    let diff = vsub_spec(delta_local, closest_local);
    let dist_sq = vlen_sq_spec(diff);
    let max_r = fx_add_spec(radius, speculative_distance);
    if dist_sq > fx_mul_spec(max_r, max_r) {
        None
    } else {
        if dist_sq > 0 {
            let dist = fx_sqrt_spec(dist_sq);
            let normal_local = Vec2 {
                x: crate::fx::fx_div_spec(diff.x as int, dist) as i64,
                y: crate::fx::fx_div_spec(diff.y as int, dist) as i64,
            };
            Some((
                mmul_vec_spec(rot, normal_local),
                ContactPoint {
                    point: vadd_spec(mmul_vec_spec(rot, closest_local), box_center),
                    penetration: fx_sub_spec(radius, dist) as i64,
                },
            ))
        } else {
            let dx = fx_sub_spec(half_extents.x as int, fx_abs_spec(delta_local.x as int));
            let dy = fx_sub_spec(half_extents.y as int, fx_abs_spec(delta_local.y as int));
            if dx < dy {
                let sign_x = axis_sign_spec(delta_local.x as int);
                let normal_local = Vec2 { x: sign_x as i64, y: 0i64 };
                let contact_local = Vec2 {
                    x: fx_mul_spec(sign_x, half_extents.x as int) as i64,
                    y: delta_local.y,
                };
                Some((
                    mmul_vec_spec(rot, normal_local),
                    ContactPoint {
                        point: vadd_spec(mmul_vec_spec(rot, contact_local), box_center),
                        penetration: fx_add_spec(radius, dx) as i64,
                    },
                ))
            } else {
                let sign_y = axis_sign_spec(delta_local.y as int);
                let normal_local = Vec2 { x: 0i64, y: sign_y as i64 };
                let contact_local = Vec2 {
                    x: delta_local.x,
                    y: fx_mul_spec(sign_y, half_extents.y as int) as i64,
                };
                Some((
                    mmul_vec_spec(rot, normal_local),
                    ContactPoint {
                        point: vadd_spec(mmul_vec_spec(rot, contact_local), box_center),
                        penetration: fx_add_spec(radius, dy) as i64,
                    },
                ))
            }
        }
    }
}

fn axis_sign(v: i64) -> (r: i64)
    ensures
        r as int == axis_sign_spec(v as int),
{
    if v >= 0 {
        FX_ONE
    } else {
        fx_neg(FX_ONE)
    }
}

/// Detect contact between a box and a circle; the normal points from the box
/// toward the circle.
pub fn detect(
    box_center: Vec2,
    box_angle: i64,
    half_extents: Vec2,
    circle_center: Vec2,
    radius: i64,
    speculative_distance: i64,
) -> (r: Option<(Vec2, ContactPoint)>)
    ensures
        r == detect_box_circle_spec(
            box_center,
            box_angle as int,
            half_extents,
            circle_center,
            radius as int,
            speculative_distance as int,
        ),
{
    let rot = Mat2::rotation(box_angle);
    let inv_rot = rot.transpose();
    let delta_world = circle_center.sub(box_center);
    let delta_local = inv_rot.mul_vec2(delta_world);

    let closest_local = Vec2 {
        x: fx_clamp(delta_local.x, fx_neg(half_extents.x), half_extents.x),
        y: fx_clamp(delta_local.y, fx_neg(half_extents.y), half_extents.y),
    };

    let diff = delta_local.sub(closest_local);
    let dist_sq = diff.length_squared();

    let max_r = fx_add(radius, speculative_distance);
    if dist_sq > fx_mul(max_r, max_r) {
        return None;
    }

    let (normal_local, contact_local, penetration) = if dist_sq > 0 {
        let dist = fx_sqrt(dist_sq);
        let normal_local = Vec2 { x: crate::fx::fx_div(diff.x, dist), y: crate::fx::fx_div(diff.y, dist) };
        (normal_local, closest_local, fx_sub(radius, dist))
    } else {
        let dx = fx_sub(half_extents.x, fx_abs(delta_local.x));
        let dy = fx_sub(half_extents.y, fx_abs(delta_local.y));

        if dx < dy {
            let sign_x = axis_sign(delta_local.x);
            (
                Vec2 { x: sign_x, y: 0 },
                Vec2 { x: fx_mul(sign_x, half_extents.x), y: delta_local.y },
                fx_add(radius, dx),
            )
        } else {
            let sign_y = axis_sign(delta_local.y);
            (
                Vec2 { x: 0, y: sign_y },
                Vec2 { x: delta_local.x, y: fx_mul(sign_y, half_extents.y) },
                fx_add(radius, dy),
            )
        }
    };

    let normal_world = rot.mul_vec2(normal_local);
    let contact_world = rot.mul_vec2(contact_local).add(box_center);

    Some((normal_world, ContactPoint { point: contact_world, penetration }))
}

} // verus!
