//! Narrow phase: dispatch each candidate pair on its shape pairing and build
//! contact manifolds.

use vstd::prelude::*;

use crate::engine::body::rigid_body::RigidBody;
use crate::engine::collision::box_box;
use crate::engine::collision::box_circle;
use crate::engine::collision::circle_circle;
use crate::engine::collision::manifold::{manifold_new_spec, ContactPoint, Manifold, ManifoldView};
use crate::engine::collision::shape::Collider2D;
use crate::engine::params::SimParams;
use crate::math::vec::{vlen_spec, vneg_spec, vsub_spec};

verus! {

/// The manifold one candidate pair yields: circles meet circles, boxes meet
/// circles (flipping the normal when the circle comes first so it still
/// points from `a` to `b`), and boxes meet boxes through clipping. A body
/// without a shape yields nothing.
pub open spec fn manifold_for_pair_spec(
    bodies: Seq<RigidBody>,
    index_a: int,
    index_b: int,
    params: SimParams,
) -> Option<ManifoldView> {
    let ea = bodies[index_a];
    let eb = bodies[index_b];
    match ea.collider {
        None => None,
        Some(col_a) => match eb.collider {
            None => None,
            Some(col_b) => match col_a {
                Collider2D::Circle { radius: ra } => match col_b {
                    Collider2D::Circle { radius: rb } => {
                        match circle_circle::detect_circle_circle_spec(
                            ea.pos, ra as int, eb.pos, rb as int, params.speculative_distance as int,
                        ) {
                            Some((n, cp)) => Some(manifold_new_spec(index_a, index_b, n, seq![cp])),
                            None => None,
                        }
                    },
                    Collider2D::Box { half_extents: heb } => {
                        match box_circle::detect_box_circle_spec(
                            eb.pos, eb.angle as int, heb, ea.pos, ra as int,
                            params.speculative_distance as int,
                        ) {
                            Some((n, cp)) => Some(manifold_new_spec(index_a, index_b, vneg_spec(n), seq![cp])),
                            None => None,
                        }
                    },
                },
                Collider2D::Box { half_extents: hea } => match col_b {
                    Collider2D::Circle { radius: rb } => {
                        match box_circle::detect_box_circle_spec(
                            ea.pos, ea.angle as int, hea, eb.pos, rb as int,
                            params.speculative_distance as int,
                        ) {
                            Some((n, cp)) => Some(manifold_new_spec(index_a, index_b, n, seq![cp])),
                            None => None,
                        }
                    },
                    Collider2D::Box { half_extents: heb } => {
                        match box_box::detect_box_box_spec(
                            ea.pos, ea.angle as int, hea, eb.pos, eb.angle as int, heb,
                            params.speculative_distance as int,
                        ) {
                            Some((n, cps)) => Some(manifold_new_spec(index_a, index_b, n, cps)),
                            None => None,
                        }
                    },
                },
            },
        },
    }
}

/// The manifold list for a pair list: pairs in order, out-of-range indices
/// and contact-free pairs skipped.
pub open spec fn manifolds_spec(
    bodies: Seq<RigidBody>,
    pairs: Seq<(usize, usize)>,
    params: SimParams,
) -> Seq<ManifoldView>
    decreases pairs.len(),
{
    if pairs.len() == 0 {
        Seq::empty()
    } else {
        let rest = manifolds_spec(bodies, pairs.drop_last(), params);
        let p = pairs.last();
        if (p.0 as int) < bodies.len() && (p.1 as int) < bodies.len() {
            match manifold_for_pair_spec(bodies, p.0 as int, p.1 as int, params) {
                Some(m) => rest.push(m),
                None => rest,
            }
        } else {
            rest
        }
    }
}

/// The views of a manifold list.
pub open spec fn manifold_views(ms: Seq<Manifold>) -> Seq<ManifoldView> {
    ms.map_values(|m: Manifold| m@)
}

fn build_manifold_for_pair(
    entities: &Vec<RigidBody>,
    index_a: usize,
    index_b: usize,
    params: SimParams,
) -> (r: Option<Manifold>)
    requires
        (index_a as int) < entities@.len(),
        (index_b as int) < entities@.len(),
    ensures
        r is Some <==> manifold_for_pair_spec(entities@, index_a as int, index_b as int, params) is Some,
        r matches Some(m) ==> manifold_for_pair_spec(entities@, index_a as int, index_b as int, params)
            matches Some(mv) && m@ == mv,
{
    let ea = &entities[index_a];
    let eb = &entities[index_b];
    let (col_a, col_b) = match (&ea.collider, &eb.collider) {
        (Some(ca), Some(cb)) => (ca, cb),
        _ => {
            return None;
        },
    };

    match (col_a, col_b) {
        (Collider2D::Circle { radius: ra }, Collider2D::Circle { radius: rb }) => {
            match circle_circle::detect(ea.pos, *ra, eb.pos, *rb, params.speculative_distance) {
                Some((n, cp)) => {
                    let mut points: Vec<ContactPoint> = Vec::new();
                    points.push(cp);
                    proof {
                        assert(points@ =~= seq![cp]);
                    }
                    Some(Manifold::new(index_a, index_b, n, points))
                },
                None => None,
            }
        },
        (Collider2D::Circle { radius: ra }, Collider2D::Box { half_extents: heb }) => {
            match box_circle::detect(eb.pos, eb.angle, *heb, ea.pos, *ra, params.speculative_distance) {
                Some((n, cp)) => {
                    let mut points: Vec<ContactPoint> = Vec::new();
                    points.push(cp);
                    proof {
                        assert(points@ =~= seq![cp]);
                    }
                    Some(Manifold::new(index_a, index_b, n.neg(), points))
                },
                None => None,
            }
        },
        (Collider2D::Box { half_extents: hea }, Collider2D::Circle { radius: rb }) => {
            match box_circle::detect(ea.pos, ea.angle, *hea, eb.pos, *rb, params.speculative_distance) {
                Some((n, cp)) => {
                    let mut points: Vec<ContactPoint> = Vec::new();
                    points.push(cp);
                    proof {
                        assert(points@ =~= seq![cp]);
                    }
                    Some(Manifold::new(index_a, index_b, n, points))
                },
                None => None,
            }
        },
        (Collider2D::Box { half_extents: hea }, Collider2D::Box { half_extents: heb }) => {
            match box_box::detect(
                ea.pos, ea.angle, *hea, eb.pos, eb.angle, *heb, params.speculative_distance,
            ) {
                Some((n, cps)) => Some(Manifold::new(index_a, index_b, n, cps)),
                None => None,
            }
        },
    }
}

/// Build manifolds for every candidate pair; pairs with out-of-range indices
/// are skipped, as are pairs the shape tests reject.
#[verifier::rlimit(100)]
pub fn detect(entities: &Vec<RigidBody>, pairs: &Vec<(usize, usize)>, params: SimParams) -> (r: Vec<
    Manifold,
>)
    ensures
        manifold_views(r@) == manifolds_spec(entities@, pairs@, params),
{
    let mut out: Vec<Manifold> = Vec::new();
    let mut k: usize = 0;
    proof {
        assert(pairs@.subrange(0, 0) =~= Seq::<(usize, usize)>::empty());
        assert(manifold_views(out@) =~= manifolds_spec(entities@, pairs@.subrange(0, 0), params));
    }
    while k < pairs.len()
        invariant
            k <= pairs@.len(),
            manifold_views(out@) == manifolds_spec(entities@, pairs@.subrange(0, k as int), params),
        decreases pairs@.len() - k as int,
    {
        let ghost pre = out@;
        let (idx_a, idx_b) = pairs[k];
        if idx_a < entities.len() && idx_b < entities.len() {
            match build_manifold_for_pair(entities, idx_a, idx_b, params) {
                Some(m) => {
                    out.push(m);
                },
                None => {},
            }
        }
        proof {
            let sub1 = pairs@.subrange(0, k as int + 1);
            assert(sub1.drop_last() =~= pairs@.subrange(0, k as int));
            assert(sub1.last() == pairs@[k as int]);
            assert(manifold_views(out@) =~= manifolds_spec(entities@, sub1, params));
        }
        k += 1;
    }
    proof {
        assert(pairs@.subrange(0, pairs@.len() as int) =~= pairs@);
    }
    out
}

/// The narrow phase is symmetric under pair swap for two circles away from
/// the coincident-centre fallback: swapping the indices negates the normal
/// and keeps the penetration.
pub proof fn lemma_manifold_pair_swap_circles(
    bodies: Seq<RigidBody>,
    index_a: int,
    index_b: int,
    params: SimParams,
)
    requires
        0 <= index_a < bodies.len(),
        0 <= index_b < bodies.len(),
        bodies[index_a].collider matches Some(Collider2D::Circle { .. }),
        bodies[index_b].collider matches Some(Collider2D::Circle { .. }),
        vlen_spec(vsub_spec(bodies[index_b].pos, bodies[index_a].pos)) > 0,
    ensures
        manifold_for_pair_spec(bodies, index_a, index_b, params) is Some <==> manifold_for_pair_spec(
            bodies, index_b, index_a, params,
        ) is Some,
        manifold_for_pair_spec(bodies, index_a, index_b, params) matches Some(m_ab)
            ==> manifold_for_pair_spec(bodies, index_b, index_a, params) matches Some(m_ba)
            && m_ba.normal == vneg_spec(m_ab.normal)
            && m_ba.points[0].penetration == m_ab.points[0].penetration
            && m_ba.a == index_b && m_ba.b == index_a,
{
    let ea = bodies[index_a];
    let eb = bodies[index_b];
    let ra = match ea.collider {
        Some(Collider2D::Circle { radius }) => radius,
        _ => 0i64,
    };
    let rb = match eb.collider {
        Some(Collider2D::Circle { radius }) => radius,
        _ => 0i64,
    };
    circle_circle::lemma_detect_circle_circle_swap(
        ea.pos, ra as int, eb.pos, rb as int, params.speculative_distance as int,
    );
}

/// The narrow phase is symmetric under pair swap for a box against a circle:
/// both orders run the same box/circle test, so swapping the indices negates
/// the normal and keeps the contact point and penetration exactly.
pub proof fn lemma_manifold_pair_swap_mixed(
    bodies: Seq<RigidBody>,
    index_a: int,
    index_b: int,
    params: SimParams,
)
    requires
        0 <= index_a < bodies.len(),
        0 <= index_b < bodies.len(),
        bodies[index_a].collider matches Some(Collider2D::Box { .. }),
        bodies[index_b].collider matches Some(Collider2D::Circle { .. }),
    ensures
        manifold_for_pair_spec(bodies, index_a, index_b, params) is Some <==> manifold_for_pair_spec(
            bodies, index_b, index_a, params,
        ) is Some,
        manifold_for_pair_spec(bodies, index_a, index_b, params) matches Some(m_ab)
            ==> manifold_for_pair_spec(bodies, index_b, index_a, params) matches Some(m_ba)
            && m_ba.normal == vneg_spec(m_ab.normal)
            && m_ba.points == m_ab.points
            && m_ba.a == index_b && m_ba.b == index_a,
{
    let ea = bodies[index_a];
    let eb = bodies[index_b];
}

} // verus!
