//! Narrow phase for a pair of boxes: separating axes, then clipping the
//! incident edge against the reference face's side planes.

use vstd::prelude::*;

use crate::engine::collision::manifold::ContactPoint;
use crate::fx::{
    fx_abs, fx_abs_spec, fx_add, fx_add_spec, fx_div, fx_div_spec, fx_mul, fx_mul_spec, fx_neg,
    fx_neg_spec, fx_sub, fx_sub_spec, FX_ONE,
};
use crate::math::mat::{mmul_mat_spec, mmul_vec_spec, mrotation_spec, mtranspose_spec, Mat2};
use crate::math::vec::{vadd_spec, vdot_spec, vneg_spec, vscale_spec, vsub_spec, Vec2};

verus! {

/// One SAT gap: the centre distance projected on a face axis, less the two
/// boxes' projected half-extents.
pub open spec fn face_gap_spec(dp_comp: int, h_ref: int, c0: int, h0: int, c1: int, h1: int) -> int {
    fx_sub_spec(
        fx_abs_spec(dp_comp),
        fx_add_spec(h_ref, fx_add_spec(fx_mul_spec(c0, h0), fx_mul_spec(c1, h1))),
    )
}

/// Index of the largest of the four face gaps, earlier axes winning ties.
pub open spec fn best_axis_spec(fax: int, fay: int, fbx: int, fby: int) -> int {
    let a1 = if fay > fax { 1int } else { 0int };
    let s1 = if fay > fax { fay } else { fax };
    let a2 = if fbx > s1 { 2int } else { a1 };
    let s2 = if fbx > s1 { fbx } else { s1 };
    if fby > s2 { 3int } else { a2 }
}

/// A segment clipped to the half-plane `normal . v <= offset`: both points
/// when both are inside, nothing when both are outside, else the inside
/// point and the crossing point.
pub open spec fn clip_segment_spec(v0: Vec2, v1: Vec2, normal: Vec2, offset: int) -> Seq<Vec2> {
    let d0 = fx_sub_spec(vdot_spec(normal, v0), offset);
    let d1 = fx_sub_spec(vdot_spec(normal, v1), offset);
    if d0 <= 0 && d1 <= 0 {
        seq![v0, v1]
    } else if d0 > 0 && d1 > 0 {
        Seq::empty()
    } else {
        let t = fx_div_spec(d0, fx_sub_spec(d0, d1));
        let intersect = vadd_spec(v0, vscale_spec(vsub_spec(v1, v0), t));
        if d0 <= 0 {
            seq![v0, intersect]
        } else {
            seq![intersect, v1]
        }
    }
}

/// The incident box's edge most anti-parallel to the reference normal, in
/// world space.
pub open spec fn incident_edge_spec(center: Vec2, rot: Mat2, half: Vec2, ref_normal: Vec2) -> (Vec2, Vec2) {
    let local_n = mmul_vec_spec(mtranspose_spec(rot), ref_normal);
    let hx = half.x;
    let hy = half.y;
    let nhx = fx_neg_spec(hx as int) as i64;
    let nhy = fx_neg_spec(hy as int) as i64;
    let ends = if fx_abs_spec(local_n.x as int) > fx_abs_spec(local_n.y as int) {
        if local_n.x > 0 {
            (Vec2 { x: nhx, y: hy }, Vec2 { x: nhx, y: nhy })
        } else {
            (Vec2 { x: hx, y: nhy }, Vec2 { x: hx, y: hy })
        }
    } else {
        if local_n.y > 0 {
            (Vec2 { x: hx, y: nhy }, Vec2 { x: nhx, y: nhy })
        } else {
            (Vec2 { x: nhx, y: hy }, Vec2 { x: hx, y: hy })
        }
    };
    (
        vadd_spec(mmul_vec_spec(rot, ends.0), center),
        vadd_spec(mmul_vec_spec(rot, ends.1), center),
    )
}

/// The contact points kept from the two clipped endpoints: those within the
/// speculative distance of the reference face, penetration the negated
/// signed distance.
pub open spec fn kept_contacts_spec(
    c0: Vec2,
    c1: Vec2,
    ref_normal_local: Vec2,
    front_offset: int,
    speculative_distance: int,
    ref_rot: Mat2,
    ref_center: Vec2,
) -> Seq<ContactPoint> {
    let sep0 = fx_sub_spec(vdot_spec(ref_normal_local, c0), front_offset);
    let sep1 = fx_sub_spec(vdot_spec(ref_normal_local, c1), front_offset);
    let cp0 = ContactPoint {
        point: vadd_spec(mmul_vec_spec(ref_rot, c0), ref_center),
        penetration: fx_neg_spec(sep0) as i64,
    };
    let cp1 = ContactPoint {
        point: vadd_spec(mmul_vec_spec(ref_rot, c1), ref_center),
        penetration: fx_neg_spec(sep1) as i64,
    };
    if sep0 <= speculative_distance && sep1 <= speculative_distance {
        seq![cp0, cp1]
    } else if sep0 <= speculative_distance {
        seq![cp0]
    } else if sep1 <= speculative_distance {
        seq![cp1]
    } else {
        Seq::empty()
    }
}

/// The box/box contact: four separating-axis gaps gate the pair, the axis of
/// maximum gap picks the reference face, the incident edge clips against the
/// reference face's side planes, and the survivors within the speculative
/// distance become contact points. The normal points from the first box to
/// the second.
pub open spec fn detect_box_box_spec(
    center_a: Vec2,
    angle_a: int,
    half_a: Vec2,
    center_b: Vec2,
    angle_b: int,
    half_b: Vec2,
    speculative_distance: int,
) -> Option<(Vec2, Seq<ContactPoint>)> {
    let rot_a = mrotation_spec(angle_a);
    let rot_b = mrotation_spec(angle_b);
    let rot_a_t = mtranspose_spec(rot_a);
    let rot_b_t = mtranspose_spec(rot_b);
    let dp = vsub_spec(center_b, center_a);
    let dp_a = mmul_vec_spec(rot_a_t, dp);
    let dp_b = mmul_vec_spec(rot_b_t, dp);
    let c_ab = mmul_mat_spec(rot_a_t, rot_b);
    let abs_c = Mat2 {
        m00: fx_abs_spec(c_ab.m00 as int) as i64,
        m01: fx_abs_spec(c_ab.m01 as int) as i64,
        m10: fx_abs_spec(c_ab.m10 as int) as i64,
        m11: fx_abs_spec(c_ab.m11 as int) as i64,
    };
    let face_a_x = face_gap_spec(dp_a.x as int, half_a.x as int, abs_c.m00 as int, half_b.x as int, abs_c.m01 as int, half_b.y as int);
    let face_a_y = face_gap_spec(dp_a.y as int, half_a.y as int, abs_c.m10 as int, half_b.x as int, abs_c.m11 as int, half_b.y as int);
    let face_b_x = face_gap_spec(dp_b.x as int, half_b.x as int, abs_c.m00 as int, half_a.x as int, abs_c.m10 as int, half_a.y as int);
    let face_b_y = face_gap_spec(dp_b.y as int, half_b.y as int, abs_c.m01 as int, half_a.x as int, abs_c.m11 as int, half_a.y as int);
    if face_a_x > speculative_distance || face_a_y > speculative_distance
        || face_b_x > speculative_distance || face_b_y > speculative_distance {
        None
    } else {
        let best_axis = best_axis_spec(face_a_x, face_a_y, face_b_x, face_b_y);
        box_box_core_spec(
            center_a, half_a, center_b, half_b, rot_a, rot_b, dp_a, dp_b, best_axis,
            speculative_distance,
        )
    }
}

/// The reference-face stage of the box/box contact, once the gaps have been
/// passed: pick the reference face from the best axis, clip the incident
/// edge, and keep the surviving points.
pub open spec fn box_box_core_spec(
    center_a: Vec2,
    half_a: Vec2,
    center_b: Vec2,
    half_b: Vec2,
    rot_a: Mat2,
    rot_b: Mat2,
    dp_a: Vec2,
    dp_b: Vec2,
    best_axis: int,
    speculative_distance: int,
) -> Option<(Vec2, Seq<ContactPoint>)> {
    {
        let ref_is_a = best_axis < 2;
        let ref_normal = if best_axis == 0 {
            if dp_a.x > 0 {
                Vec2 { x: rot_a.m00, y: rot_a.m10 }
            } else {
                Vec2 { x: fx_neg_spec(rot_a.m00 as int) as i64, y: fx_neg_spec(rot_a.m10 as int) as i64 }
            }
        } else if best_axis == 1 {
            if dp_a.y > 0 {
                Vec2 { x: rot_a.m01, y: rot_a.m11 }
            } else {
                Vec2 { x: fx_neg_spec(rot_a.m01 as int) as i64, y: fx_neg_spec(rot_a.m11 as int) as i64 }
            }
        } else if best_axis == 2 {
            if dp_b.x > 0 {
                Vec2 { x: fx_neg_spec(rot_b.m00 as int) as i64, y: fx_neg_spec(rot_b.m10 as int) as i64 }
            } else {
                Vec2 { x: rot_b.m00, y: rot_b.m10 }
            }
        } else {
            if dp_b.y > 0 {
                Vec2 { x: fx_neg_spec(rot_b.m01 as int) as i64, y: fx_neg_spec(rot_b.m11 as int) as i64 }
            } else {
                Vec2 { x: rot_b.m01, y: rot_b.m11 }
            }
        };
        let inc_half = if ref_is_a { half_b } else { half_a };
        let inc_center = if ref_is_a { center_b } else { center_a };
        let inc_rot = if ref_is_a { rot_b } else { rot_a };
        let edge = incident_edge_spec(inc_center, inc_rot, inc_half, ref_normal);
        let ref_center = if ref_is_a { center_a } else { center_b };
        let ref_rot = if ref_is_a { rot_a } else { rot_b };
        let ref_h = if ref_is_a { half_a } else { half_b };
        let ref_rot_t = mtranspose_spec(ref_rot);
        let inc0 = mmul_vec_spec(ref_rot_t, vsub_spec(edge.0, ref_center));
        let inc1 = mmul_vec_spec(ref_rot_t, vsub_spec(edge.1, ref_center));
        let ref_normal_local = mmul_vec_spec(ref_rot_t, ref_normal);
        let x_major = fx_abs_spec(ref_normal_local.x as int) > fx_abs_spec(ref_normal_local.y as int);
        let side_n1 = if x_major { Vec2 { x: 0i64, y: FX_ONE } } else { Vec2 { x: FX_ONE, y: 0i64 } };
        let side_n2 = if x_major {
            Vec2 { x: 0i64, y: fx_neg_spec(FX_ONE as int) as i64 }
        } else {
            Vec2 { x: fx_neg_spec(FX_ONE as int) as i64, y: 0i64 }
        };
        let side_off = if x_major { ref_h.y as int } else { ref_h.x as int };
        let front_off = if x_major { ref_h.x as int } else { ref_h.y as int };
        let clip1 = clip_segment_spec(inc0, inc1, side_n1, side_off);
        if clip1.len() < 2 {
            None
        } else {
            let clip2 = clip_segment_spec(clip1[0], clip1[1], side_n2, side_off);
            if clip2.len() < 2 {
                None
            } else {
                let contacts = kept_contacts_spec(
                    clip2[0],
                    clip2[1],
                    ref_normal_local,
                    front_off,
                    speculative_distance,
                    ref_rot,
                    ref_center,
                );
                if contacts.len() == 0 {
                    None
                } else {
                    let final_normal = if ref_is_a { ref_normal } else { vneg_spec(ref_normal) };
                    Some((final_normal, contacts))
                }
            }
        }
    }
}

fn clip_segment_to_line(v0: Vec2, v1: Vec2, normal: Vec2, offset: i64) -> (r: Vec<Vec2>)
    ensures
        r@ == clip_segment_spec(v0, v1, normal, offset as int),
{
    let mut out: Vec<Vec2> = Vec::new();
    let d0 = fx_sub(normal.dot(v0), offset);
    let d1 = fx_sub(normal.dot(v1), offset);

    if d0 <= 0 && d1 <= 0 {
        out.push(v0);
        out.push(v1);
        proof {
            assert(out@ =~= clip_segment_spec(v0, v1, normal, offset as int));
        }
    } else if d0 > 0 && d1 > 0 {
        proof {
            assert(out@ =~= clip_segment_spec(v0, v1, normal, offset as int));
        }
    } else {
        let t = fx_div(d0, fx_sub(d0, d1));
        let intersect = v0.add(v1.sub(v0).scale(t));
        if d0 <= 0 {
            out.push(v0);
            out.push(intersect);
        } else {
            out.push(intersect);
            out.push(v1);
        }
        proof {
            assert(out@ =~= clip_segment_spec(v0, v1, normal, offset as int));
        }
    }
    out
}

fn compute_incident_edge(center: Vec2, rot: &Mat2, half: Vec2, ref_normal: Vec2) -> (r: (Vec2, Vec2))
    ensures
        r == incident_edge_spec(center, *rot, half, ref_normal),
{
    let inv_rot = rot.transpose();
    let local_n = inv_rot.mul_vec2(ref_normal);
    let nhx = fx_neg(half.x);
    let nhy = fx_neg(half.y);

    let (v1_local, v2_local) = if fx_abs(local_n.x) > fx_abs(local_n.y) {
        if local_n.x > 0 {
            (Vec2 { x: nhx, y: half.y }, Vec2 { x: nhx, y: nhy })
        } else {
            (Vec2 { x: half.x, y: nhy }, Vec2 { x: half.x, y: half.y })
        }
    } else {
        if local_n.y > 0 {
            (Vec2 { x: half.x, y: nhy }, Vec2 { x: nhx, y: nhy })
        } else {
            (Vec2 { x: nhx, y: half.y }, Vec2 { x: half.x, y: half.y })
        }
    };

    (rot.mul_vec2(v1_local).add(center), rot.mul_vec2(v2_local).add(center))
}

/// Detect contact between two boxes; the normal points from the first box
/// toward the second, and one or two contact points survive the clipping.
#[verifier::rlimit(100)]
pub fn detect(
    center_a: Vec2,
    angle_a: i64,
    half_a: Vec2,
    center_b: Vec2,
    angle_b: i64,
    half_b: Vec2,
    speculative_distance: i64,
) -> (r: Option<(Vec2, Vec<ContactPoint>)>)
    ensures
        r is Some <==> detect_box_box_spec(
            center_a, angle_a as int, half_a, center_b, angle_b as int, half_b,
            speculative_distance as int,
        ) is Some,
        r matches Some((n, pts)) ==> detect_box_box_spec(
            center_a, angle_a as int, half_a, center_b, angle_b as int, half_b,
            speculative_distance as int,
        ) matches Some((ns, ps)) && n == ns && pts@ == ps && 1 <= pts@.len() <= 2,
{
    let rot_a = Mat2::rotation(angle_a);
    let rot_b = Mat2::rotation(angle_b);
    let rot_a_t = rot_a.transpose();
    let rot_b_t = rot_b.transpose();

    let dp = center_b.sub(center_a);
    let dp_a = rot_a_t.mul_vec2(dp);
    let dp_b = rot_b_t.mul_vec2(dp);

    let c_ab = rot_a_t.mul_mat2(&rot_b);
    let abs_c = Mat2 {
        m00: fx_abs(c_ab.m00),
        m01: fx_abs(c_ab.m01),
        m10: fx_abs(c_ab.m10),
        m11: fx_abs(c_ab.m11),
    };

    let face_a_x = fx_sub(
        fx_abs(dp_a.x),
        fx_add(half_a.x, fx_add(fx_mul(abs_c.m00, half_b.x), fx_mul(abs_c.m01, half_b.y))),
    );
    if face_a_x > speculative_distance {
        return None;
    }
    let face_a_y = fx_sub(
        fx_abs(dp_a.y),
        fx_add(half_a.y, fx_add(fx_mul(abs_c.m10, half_b.x), fx_mul(abs_c.m11, half_b.y))),
    );
    if face_a_y > speculative_distance {
        return None;
    }
    let face_b_x = fx_sub(
        fx_abs(dp_b.x),
        fx_add(half_b.x, fx_add(fx_mul(abs_c.m00, half_a.x), fx_mul(abs_c.m10, half_a.y))),
    );
    if face_b_x > speculative_distance {
        return None;
    }
    let face_b_y = fx_sub(
        fx_abs(dp_b.y),
        fx_add(half_b.y, fx_add(fx_mul(abs_c.m01, half_a.x), fx_mul(abs_c.m11, half_a.y))),
    );
    if face_b_y > speculative_distance {
        return None;
    }

    let mut best_axis: usize = 0;
    let mut best_sep: i64 = face_a_x;
    if face_a_y > best_sep {
        best_axis = 1;
        best_sep = face_a_y;
    }
    if face_b_x > best_sep {
        best_axis = 2;
        best_sep = face_b_x;
    }
    if face_b_y > best_sep {
        best_axis = 3;
    }
    proof {
        assert(best_axis as int == best_axis_spec(face_a_x as int, face_a_y as int, face_b_x as int, face_b_y as int));
    }

    box_box_core(center_a, half_a, center_b, half_b, rot_a, rot_b, dp_a, dp_b, best_axis, speculative_distance)
}

#[verifier::rlimit(100)]
fn box_box_core(
    center_a: Vec2,
    half_a: Vec2,
    center_b: Vec2,
    half_b: Vec2,
    rot_a: Mat2,
    rot_b: Mat2,
    dp_a: Vec2,
    dp_b: Vec2,
    best_axis: usize,
    speculative_distance: i64,
) -> (r: Option<(Vec2, Vec<ContactPoint>)>)
    ensures
        r is Some <==> box_box_core_spec(
            center_a, half_a, center_b, half_b, rot_a, rot_b, dp_a, dp_b, best_axis as int,
            speculative_distance as int,
        ) is Some,
        r matches Some((n, pts)) ==> box_box_core_spec(
            center_a, half_a, center_b, half_b, rot_a, rot_b, dp_a, dp_b, best_axis as int,
            speculative_distance as int,
        ) matches Some((ns, ps)) && n == ns && pts@ == ps && 1 <= pts@.len() <= 2,
{
    let ref_is_a = best_axis < 2;
    let ref_normal = if best_axis == 0 {
        if dp_a.x > 0 {
            Vec2 { x: rot_a.m00, y: rot_a.m10 }
        } else {
            Vec2 { x: fx_neg(rot_a.m00), y: fx_neg(rot_a.m10) }
        }
    } else if best_axis == 1 {
        if dp_a.y > 0 {
            Vec2 { x: rot_a.m01, y: rot_a.m11 }
        } else {
            Vec2 { x: fx_neg(rot_a.m01), y: fx_neg(rot_a.m11) }
        }
    } else if best_axis == 2 {
        if dp_b.x > 0 {
            Vec2 { x: fx_neg(rot_b.m00), y: fx_neg(rot_b.m10) }
        } else {
            Vec2 { x: rot_b.m00, y: rot_b.m10 }
        }
    } else {
        if dp_b.y > 0 {
            Vec2 { x: fx_neg(rot_b.m01), y: fx_neg(rot_b.m11) }
        } else {
            Vec2 { x: rot_b.m01, y: rot_b.m11 }
        }
    };
    let inc_half = if ref_is_a { half_b } else { half_a };
    let inc_center = if ref_is_a { center_b } else { center_a };
    let inc_rot = if ref_is_a { &rot_b } else { &rot_a };

    let edge = compute_incident_edge(inc_center, inc_rot, inc_half, ref_normal);

    let ref_center = if ref_is_a { center_a } else { center_b };
    let ref_rot = if ref_is_a { rot_a } else { rot_b };
    let ref_h = if ref_is_a { half_a } else { half_b };
    let ref_rot_t = ref_rot.transpose();

    let inc0 = ref_rot_t.mul_vec2(edge.0.sub(ref_center));
    let inc1 = ref_rot_t.mul_vec2(edge.1.sub(ref_center));
    let ref_normal_local = ref_rot_t.mul_vec2(ref_normal);

    let x_major = fx_abs(ref_normal_local.x) > fx_abs(ref_normal_local.y);
    let side_n1 = if x_major { Vec2 { x: 0, y: FX_ONE } } else { Vec2 { x: FX_ONE, y: 0 } };
    let side_n2 = if x_major {
        Vec2 { x: 0, y: fx_neg(FX_ONE) }
    } else {
        Vec2 { x: fx_neg(FX_ONE), y: 0 }
    };
    let side_off = if x_major { ref_h.y } else { ref_h.x };
    let front_off = if x_major { ref_h.x } else { ref_h.y };

    let clip1 = clip_segment_to_line(inc0, inc1, side_n1, side_off);
    if clip1.len() < 2 {
        return None;
    }
    let clip2 = clip_segment_to_line(clip1[0], clip1[1], side_n2, side_off);
    if clip2.len() < 2 {
        return None;
    }

    let mut contacts: Vec<ContactPoint> = Vec::new();
    let c0 = clip2[0];
    let c1 = clip2[1];
    let sep0 = fx_sub(ref_normal_local.dot(c0), front_off);
    if sep0 <= speculative_distance {
        contacts.push(ContactPoint {
            point: ref_rot.mul_vec2(c0).add(ref_center),
            penetration: fx_neg(sep0),
        });
    }
    let sep1 = fx_sub(ref_normal_local.dot(c1), front_off);
    if sep1 <= speculative_distance {
        contacts.push(ContactPoint {
            point: ref_rot.mul_vec2(c1).add(ref_center),
            penetration: fx_neg(sep1),
        });
    }
    proof {
        assert(contacts@ =~= kept_contacts_spec(
            c0, c1, ref_normal_local, front_off as int, speculative_distance as int, ref_rot,
            ref_center,
        ));
    }

    if contacts.len() == 0 {
        return None;
    }

    let final_normal = if ref_is_a { ref_normal } else { ref_normal.neg() };
    Some((final_normal, contacts))
}

} // verus!
