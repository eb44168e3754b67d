//! Two-component fixed-point vectors.

use vstd::prelude::*;

use crate::fx::{
    fx_add, fx_add_spec, fx_div, fx_div_spec, fx_mul, fx_mul_spec, fx_neg, fx_neg_spec, fx_sqrt,
    fx_sqrt_spec, fx_sub, fx_sub_spec, FX_ONE,
};

verus! {

/// A two-component vector of fixed-point scalars.
#[derive(Debug, Clone, Copy, PartialEq, Eq, Structural)]
pub struct Vec2 {
    pub x: i64,
    pub y: i64,
}

/// The sum of two vectors, componentwise.
pub open spec fn vadd_spec(a: Vec2, b: Vec2) -> Vec2 {
    Vec2 { x: fx_add_spec(a.x as int, b.x as int) as i64, y: fx_add_spec(a.y as int, b.y as int) as i64 }
}

/// The difference of two vectors, componentwise.
pub open spec fn vsub_spec(a: Vec2, b: Vec2) -> Vec2 {
    Vec2 { x: fx_sub_spec(a.x as int, b.x as int) as i64, y: fx_sub_spec(a.y as int, b.y as int) as i64 }
}

/// The negation of a vector.
pub open spec fn vneg_spec(a: Vec2) -> Vec2 {
    Vec2 { x: fx_neg_spec(a.x as int) as i64, y: fx_neg_spec(a.y as int) as i64 }
}

/// The vector scaled by a scalar.
pub open spec fn vscale_spec(a: Vec2, s: int) -> Vec2 {
    Vec2 { x: fx_mul_spec(a.x as int, s) as i64, y: fx_mul_spec(a.y as int, s) as i64 }
}

/// The dot product of two vectors.
pub open spec fn vdot_spec(a: Vec2, b: Vec2) -> int {
    fx_add_spec(fx_mul_spec(a.x as int, b.x as int), fx_mul_spec(a.y as int, b.y as int))
}

/// The scalar 2D cross product of two vectors.
pub open spec fn vcross_spec(a: Vec2, b: Vec2) -> int {
    fx_sub_spec(fx_mul_spec(a.x as int, b.y as int), fx_mul_spec(a.y as int, b.x as int))
}

/// The vector rotated a quarter turn counter-clockwise.
pub open spec fn vperp_spec(a: Vec2) -> Vec2 {
    Vec2 { x: fx_neg_spec(a.y as int) as i64, y: a.x }
}

/// The squared length of a vector.
pub open spec fn vlen_sq_spec(a: Vec2) -> int {
    fx_add_spec(fx_mul_spec(a.x as int, a.x as int), fx_mul_spec(a.y as int, a.y as int))
}

/// The length of a vector.
pub open spec fn vlen_spec(a: Vec2) -> int {
    fx_sqrt_spec(vlen_sq_spec(a))
}

/// The vector divided by its own length; the zero vector when the length
/// rounds to zero.
pub open spec fn vnormalized_spec(a: Vec2) -> Vec2 {
    let len = vlen_spec(a);
    Vec2 { x: fx_div_spec(a.x as int, len) as i64, y: fx_div_spec(a.y as int, len) as i64 }
}

impl Vec2 {
    pub fn new(x: i64, y: i64) -> (r: Self)
        ensures
            r == (Vec2 { x, y }),
    {
        Vec2 { x, y }
    }

    pub fn zero() -> (r: Self)
        ensures
            r == (Vec2 { x: 0i64, y: 0i64 }),
    {
        Vec2 { x: 0, y: 0 }
    }

    pub fn one() -> (r: Self)
        ensures
            r == (Vec2 { x: FX_ONE, y: FX_ONE }),
    {
        Vec2 { x: FX_ONE, y: FX_ONE }
    }

    pub fn add(self, rhs: Self) -> (r: Self)
        ensures
            r == vadd_spec(self, rhs),
    {
        Vec2 { x: fx_add(self.x, rhs.x), y: fx_add(self.y, rhs.y) }
    }

    pub fn sub(self, rhs: Self) -> (r: Self)
        ensures
            r == vsub_spec(self, rhs),
    {
        Vec2 { x: fx_sub(self.x, rhs.x), y: fx_sub(self.y, rhs.y) }
    }

    pub fn neg(self) -> (r: Self)
        ensures
            r == vneg_spec(self),
    {
        Vec2 { x: fx_neg(self.x), y: fx_neg(self.y) }
    }

    pub fn scale(self, s: i64) -> (r: Self)
        ensures
            r == vscale_spec(self, s as int),
    {
        Vec2 { x: fx_mul(self.x, s), y: fx_mul(self.y, s) }
    }

    pub fn dot(self, other: Self) -> (r: i64)
        ensures
            r as int == vdot_spec(self, other),
    {
        fx_add(fx_mul(self.x, other.x), fx_mul(self.y, other.y))
    }

    pub fn cross(self, other: Self) -> (r: i64)
        ensures
            r as int == vcross_spec(self, other),
    {
        fx_sub(fx_mul(self.x, other.y), fx_mul(self.y, other.x))
    }

    pub fn perp(self) -> (r: Self)
        ensures
            r == vperp_spec(self),
    {
        Vec2 { x: fx_neg(self.y), y: self.x }
    }

    pub fn length_squared(self) -> (r: i64)
        ensures
            r as int == vlen_sq_spec(self),
    {
        fx_add(fx_mul(self.x, self.x), fx_mul(self.y, self.y))
    }

    pub fn length(self) -> (r: i64)
        ensures
            r as int == vlen_spec(self),
    {
        fx_sqrt(self.length_squared())
    }

    pub fn normalized(self) -> (r: Self)
        ensures
            r == vnormalized_spec(self),
    {
        let len = self.length();
        Vec2 { x: fx_div(self.x, len), y: fx_div(self.y, len) }
    }

    pub fn try_normalize(self) -> (r: Option<Self>)
        ensures
            r == if vlen_spec(self) > 0 {
                Some(vnormalized_spec(self))
            } else {
                None::<Vec2>
            },
    {
        let len = self.length();
        if len > 0 {
            Some(Vec2 { x: fx_div(self.x, len), y: fx_div(self.y, len) })
        } else {
            None
        }
    }
}


/// Subtraction in the other order is the exact negation.
pub proof fn lemma_vsub_antisym(a: Vec2, b: Vec2)
    ensures
        vsub_spec(a, b) == vneg_spec(vsub_spec(b, a)),
{
}

/// Negating a vector keeps its squared length and length.
pub proof fn lemma_vlen_neg(v: Vec2)
    requires
        v.x != i64::MIN,
        v.y != i64::MIN,
    ensures
        vlen_sq_spec(vneg_spec(v)) == vlen_sq_spec(v),
        vlen_spec(vneg_spec(v)) == vlen_spec(v),
{
    let w = vneg_spec(v);
    crate::fx::lemma_fx_mul_odd(v.x as int, v.x as int);
    crate::fx::lemma_fx_mul_odd(v.y as int, v.y as int);
    assert(w.x as int == -(v.x as int) && w.y as int == -(v.y as int));
}

/// Normalizing a negated vector negates the unit vector.
pub proof fn lemma_vnormalized_neg(v: Vec2)
    requires
        v.x != i64::MIN,
        v.y != i64::MIN,
    ensures
        vnormalized_spec(vneg_spec(v)) == vneg_spec(vnormalized_spec(v)),
{
    lemma_vlen_neg(v);
    let w = vneg_spec(v);
    let len = vlen_spec(v);
    crate::fx::lemma_fx_div_odd(v.x as int, len);
    crate::fx::lemma_fx_div_odd(v.y as int, len);
    assert(w.x as int == -(v.x as int) && w.y as int == -(v.y as int));
}

} // verus!
