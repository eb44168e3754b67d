//! Shape descriptors and world-space bounding boxes.

use vstd::prelude::*;

use crate::fx::{fx_abs, fx_abs_spec, fx_add, fx_add_spec, fx_cos, fx_cos_spec, fx_mul, fx_mul_spec, fx_sin, fx_sin_spec, tdiv};
use crate::math::vec::{vadd_spec, vsub_spec, Vec2};

verus! {

/// A collision shape: a circle of some radius, or a box of some half-extents,
/// both centred on the owning body.
#[derive(Debug, Clone, Copy, PartialEq, Eq, Structural)]
pub enum Collider2D {
    Circle { radius: i64 },
    Box { half_extents: Vec2 },
}

/// An axis-aligned bounding box.
#[derive(Debug, Clone, Copy, PartialEq, Eq, Structural)]
pub struct Aabb {
    pub min: Vec2,
    pub max: Vec2,
}

/// Whether two boxes intersect, intervals closed on both ends.
pub open spec fn aabb_overlaps_spec(a: Aabb, b: Aabb) -> bool {
    !(a.max.x < b.min.x || a.min.x > b.max.x || a.max.y < b.min.y || a.min.y > b.max.y)
}

/// Moment of inertia of the shape about its centroid for the given mass:
/// `m r^2 / 2` for a circle, `m (w^2 + h^2) / 12` for a box of full extents
/// `w, h`; zero when the mass is not positive.
pub open spec fn inertia_spec(c: Collider2D, mass: int) -> int {
    if mass <= 0 {
        0
    } else {
        match c {
            Collider2D::Circle { radius } => tdiv(
                fx_mul_spec(mass, fx_mul_spec(radius as int, radius as int)),
                2,
            ),
            Collider2D::Box { half_extents } => {
                let w = fx_add_spec(half_extents.x as int, half_extents.x as int);
                let h = fx_add_spec(half_extents.y as int, half_extents.y as int);
                tdiv(
                    fx_mul_spec(mass, fx_add_spec(fx_mul_spec(w, w), fx_mul_spec(h, h))),
                    12,
                )
            },
        }
    }
}

/// World-space bounding box of the shape at a position and orientation: for a
/// circle the radius on each side; for a box, extents `|cos| hx + |sin| hy`
/// and `|sin| hx + |cos| hy`.
pub open spec fn collider_aabb_spec(c: Collider2D, pos: Vec2, angle: int) -> Aabb {
    match c {
        Collider2D::Circle { radius } => {
            let ext = Vec2 { x: radius, y: radius };
            Aabb { min: vsub_spec(pos, ext), max: vadd_spec(pos, ext) }
        },
        Collider2D::Box { half_extents } => {
            let cz = fx_abs_spec(fx_cos_spec(angle));
            let sz = fx_abs_spec(fx_sin_spec(angle));
            let ex = fx_add_spec(
                fx_mul_spec(cz, half_extents.x as int),
                fx_mul_spec(sz, half_extents.y as int),
            );
            let ey = fx_add_spec(
                fx_mul_spec(sz, half_extents.x as int),
                fx_mul_spec(cz, half_extents.y as int),
            );
            let ext = Vec2 { x: ex as i64, y: ey as i64 };
            Aabb { min: vsub_spec(pos, ext), max: vadd_spec(pos, ext) }
        },
    }
}

impl Aabb {
    pub fn new(min: Vec2, max: Vec2) -> (r: Self)
        ensures
            r == (Aabb { min, max }),
    {
        Aabb { min, max }
    }

    pub fn overlaps(&self, other: &Aabb) -> (r: bool)
        ensures
            r == aabb_overlaps_spec(*self, *other),
    {
        !(self.max.x < other.min.x || self.min.x > other.max.x || self.max.y < other.min.y
            || self.min.y > other.max.y)
    }
}

impl Collider2D {
    pub fn inertia_about_center(&self, mass: i64) -> (r: i64)
        ensures
            r as int == inertia_spec(*self, mass as int),
    {
        if mass <= 0 {
            return 0;
        }
        match self {
            Collider2D::Circle { radius } => {
                let rr = fx_mul(*radius, *radius);
                let m = fx_mul(mass, rr);
                m / 2
            },
            Collider2D::Box { half_extents } => {
                let w = fx_add(half_extents.x, half_extents.x);
                let h = fx_add(half_extents.y, half_extents.y);
                let sq = fx_add(fx_mul(w, w), fx_mul(h, h));
                let m = fx_mul(mass, sq);
                m / 12
            },
        }
    }

    pub fn aabb(&self, pos: &Vec2, angle: i64) -> (r: Aabb)
        ensures
            r == collider_aabb_spec(*self, *pos, angle as int),
    {
        match self {
            Collider2D::Circle { radius } => {
                let ext = Vec2 { x: *radius, y: *radius };
                Aabb { min: pos.sub(ext), max: pos.add(ext) }
            },
            Collider2D::Box { half_extents } => {
                let cz = fx_abs(fx_cos(angle));
                let sz = fx_abs(fx_sin(angle));
                let ex = fx_add(fx_mul(cz, half_extents.x), fx_mul(sz, half_extents.y));
                let ey = fx_add(fx_mul(sz, half_extents.x), fx_mul(cz, half_extents.y));
                let ext = Vec2 { x: ex, y: ey };
                Aabb { min: pos.sub(ext), max: pos.add(ext) }
            },
        }
    }
}

} // verus!
