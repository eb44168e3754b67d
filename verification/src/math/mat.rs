//! 2x2 fixed-point matrices, chiefly rotations.

use vstd::prelude::*;

use crate::fx::{fx_add, fx_add_spec, fx_cos, fx_cos_spec, fx_mul, fx_mul_spec, fx_neg, fx_neg_spec, fx_sin, fx_sin_spec, FX_ONE};
use crate::math::vec::Vec2;

verus! {

/// A 2x2 matrix of fixed-point scalars, row major.
#[derive(Debug, Clone, Copy, PartialEq, Eq, Structural)]
pub struct Mat2 {
    pub m00: i64,
    pub m01: i64,
    pub m10: i64,
    pub m11: i64,
}

/// The rotation matrix of an angle: cosine on the diagonal, sine off it.
pub open spec fn mrotation_spec(radians: int) -> Mat2 {
    let c = fx_cos_spec(radians);
    let s = fx_sin_spec(radians);
    Mat2 { m00: c as i64, m01: fx_neg_spec(s) as i64, m10: s as i64, m11: c as i64 }
}

/// The transpose of a matrix; for a rotation, its inverse.
pub open spec fn mtranspose_spec(m: Mat2) -> Mat2 {
    Mat2 { m00: m.m00, m01: m.m10, m10: m.m01, m11: m.m11 }
}

/// The matrix applied to a vector.
pub open spec fn mmul_vec_spec(m: Mat2, v: Vec2) -> Vec2 {
    Vec2 {
        x: fx_add_spec(fx_mul_spec(m.m00 as int, v.x as int), fx_mul_spec(m.m01 as int, v.y as int)) as i64,
        y: fx_add_spec(fx_mul_spec(m.m10 as int, v.x as int), fx_mul_spec(m.m11 as int, v.y as int)) as i64,
    }
}

/// The product of two matrices.
pub open spec fn mmul_mat_spec(a: Mat2, b: Mat2) -> Mat2 {
    Mat2 {
        m00: fx_add_spec(fx_mul_spec(a.m00 as int, b.m00 as int), fx_mul_spec(a.m01 as int, b.m10 as int)) as i64,
        m01: fx_add_spec(fx_mul_spec(a.m00 as int, b.m01 as int), fx_mul_spec(a.m01 as int, b.m11 as int)) as i64,
        m10: fx_add_spec(fx_mul_spec(a.m10 as int, b.m00 as int), fx_mul_spec(a.m11 as int, b.m10 as int)) as i64,
        m11: fx_add_spec(fx_mul_spec(a.m10 as int, b.m01 as int), fx_mul_spec(a.m11 as int, b.m11 as int)) as i64,
    }
}

impl Mat2 {
    pub fn new(m00: i64, m01: i64, m10: i64, m11: i64) -> (r: Self)
        ensures
            r == (Mat2 { m00, m01, m10, m11 }),
    {
        Mat2 { m00, m01, m10, m11 }
    }

    pub fn identity() -> (r: Self)
        ensures
            r == (Mat2 { m00: FX_ONE, m01: 0i64, m10: 0i64, m11: FX_ONE }),
    {
        Mat2 { m00: FX_ONE, m01: 0, m10: 0, m11: FX_ONE }
    }

    pub fn rotation(radians: i64) -> (r: Self)
        ensures
            r == mrotation_spec(radians as int),
    {
        let c = fx_cos(radians);
        let s = fx_sin(radians);
        Mat2 { m00: c, m01: fx_neg(s), m10: s, m11: c }
    }

    pub fn transpose(self) -> (r: Self)
        ensures
            r == mtranspose_spec(self),
    {
        Mat2 { m00: self.m00, m01: self.m10, m10: self.m01, m11: self.m11 }
    }

    pub fn mul_vec2(self, v: Vec2) -> (r: Vec2)
        ensures
            r == mmul_vec_spec(self, v),
    {
        Vec2 {
            x: fx_add(fx_mul(self.m00, v.x), fx_mul(self.m01, v.y)),
            y: fx_add(fx_mul(self.m10, v.x), fx_mul(self.m11, v.y)),
        }
    }

    pub fn mul_mat2(self, rhs: &Mat2) -> (r: Mat2)
        ensures
            r == mmul_mat_spec(self, *rhs),
    {
        Mat2 {
            m00: fx_add(fx_mul(self.m00, rhs.m00), fx_mul(self.m01, rhs.m10)),
            m01: fx_add(fx_mul(self.m00, rhs.m01), fx_mul(self.m01, rhs.m11)),
            m10: fx_add(fx_mul(self.m10, rhs.m00), fx_mul(self.m11, rhs.m10)),
            m11: fx_add(fx_mul(self.m10, rhs.m01), fx_mul(self.m11, rhs.m11)),
        }
    }
}

} // verus!
