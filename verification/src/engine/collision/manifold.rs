//! Contact points and manifolds.

use vstd::prelude::*;

use crate::math::vec::{vperp_spec, Vec2};

verus! {

/// A single contact point in a collision manifold.
///
/// The penetration is signed: positive means the shapes overlap, negative
/// means they are separated but within the speculative-contact distance.
#[derive(Debug, Clone, Copy, PartialEq, Eq, Structural)]
pub struct ContactPoint {
    /// World-space position of the contact point.
    pub point: Vec2,
    /// Signed penetration depth.
    pub penetration: i64,
}

/// Contact information between two bodies for one step: a unit normal
/// pointing from body `a` toward body `b`, its perpendicular tangent, and one
/// or two contact points.
#[derive(Debug, Clone, PartialEq, Eq)]
pub struct Manifold {
    /// Index of the first body.
    pub a: usize,
    /// Index of the second body.
    pub b: usize,
    /// Collision normal pointing from `a` to `b`.
    pub normal: Vec2,
    /// Tangent vector, the normal turned a quarter turn.
    pub tangent: Vec2,
    /// Contact points.
    pub points: Vec<ContactPoint>,
}

/// The mathematical shadow of a manifold.
pub ghost struct ManifoldView {
    pub a: int,
    pub b: int,
    pub normal: Vec2,
    pub tangent: Vec2,
    pub points: Seq<ContactPoint>,
}

impl View for Manifold {
    type V = ManifoldView;

    open spec fn view(&self) -> ManifoldView {
        ManifoldView {
            a: self.a as int,
            b: self.b as int,
            normal: self.normal,
            tangent: self.tangent,
            points: self.points@,
        }
    }
}

/// The manifold built from indices, a normal, and points: the tangent is the
/// normal turned a quarter turn.
pub open spec fn manifold_new_spec(a: int, b: int, normal: Vec2, points: Seq<ContactPoint>) -> ManifoldView {
    ManifoldView { a, b, normal, tangent: vperp_spec(normal), points }
}

impl Manifold {
    pub fn new(a: usize, b: usize, normal: Vec2, points: Vec<ContactPoint>) -> (r: Self)
        ensures
            r@ == manifold_new_spec(a as int, b as int, normal, points@),
    {
        let tangent = normal.perp();
        Manifold { a, b, normal, tangent, points }
    }
}

} // verus!
