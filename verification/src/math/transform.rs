//! Rigid transforms: a rotation followed by a translation.

use vstd::prelude::*;

use crate::math::mat::{mmul_mat_spec, mmul_vec_spec, mrotation_spec, mtranspose_spec, Mat2};
use crate::math::vec::{vadd_spec, vneg_spec, Vec2};

verus! {

/// A rotation followed by a translation.
#[derive(Debug, Clone, Copy, PartialEq, Eq, Structural)]
pub struct Transform2D {
    pub rotation: Mat2,
    pub translation: Vec2,
}

/// A point carried through the transform: rotated, then translated.
pub open spec fn apply_point_spec(t: Transform2D, p: Vec2) -> Vec2 {
    vadd_spec(mmul_vec_spec(t.rotation, p), t.translation)
}

/// A direction carried through the transform: rotated only.
pub open spec fn apply_vector_spec(t: Transform2D, v: Vec2) -> Vec2 {
    mmul_vec_spec(t.rotation, v)
}

/// The composite that applies `first`, and after it `second`.
pub open spec fn chain_spec(first: Transform2D, second: Transform2D) -> Transform2D {
    Transform2D {
        rotation: mmul_mat_spec(second.rotation, first.rotation),
        translation: vadd_spec(mmul_vec_spec(second.rotation, first.translation), second.translation),
    }
}

/// The transform undoing this one, for an orthonormal rotation part.
pub open spec fn inverse_spec(t: Transform2D) -> Transform2D {
    let r_inv = mtranspose_spec(t.rotation);
    Transform2D { rotation: r_inv, translation: vneg_spec(mmul_vec_spec(r_inv, t.translation)) }
}

impl Transform2D {
    pub fn new(rotation: Mat2, translation: Vec2) -> (r: Self)
        ensures
            r == (Transform2D { rotation, translation }),
    {
        Transform2D { rotation, translation }
    }

    pub fn identity() -> (r: Self)
        ensures
            r == (Transform2D {
                rotation: Mat2 { m00: crate::fx::FX_ONE, m01: 0i64, m10: 0i64, m11: crate::fx::FX_ONE },
                translation: Vec2 { x: 0i64, y: 0i64 },
            }),
    {
        Transform2D { rotation: Mat2::identity(), translation: Vec2::zero() }
    }

    pub fn from_translation(translation: Vec2) -> (r: Self)
        ensures
            r == (Transform2D {
                rotation: Mat2 { m00: crate::fx::FX_ONE, m01: 0i64, m10: 0i64, m11: crate::fx::FX_ONE },
                translation,
            }),
    {
        Transform2D { rotation: Mat2::identity(), translation }
    }

    pub fn from_rotation(radians: i64) -> (r: Self)
        ensures
            r == (Transform2D { rotation: mrotation_spec(radians as int), translation: Vec2 { x: 0i64, y: 0i64 } }),
    {
        Transform2D { rotation: Mat2::rotation(radians), translation: Vec2::zero() }
    }

    pub fn apply_to_point(&self, p: Vec2) -> (r: Vec2)
        ensures
            r == apply_point_spec(*self, p),
    {
        self.rotation.mul_vec2(p).add(self.translation)
    }

    pub fn apply_to_vector(&self, v: Vec2) -> (r: Vec2)
        ensures
            r == apply_vector_spec(*self, v),
    {
        self.rotation.mul_vec2(v)
    }

    /// The composite that applies `self`, and after it `other`.
    pub fn chain(&self, other: &Self) -> (r: Self)
        ensures
            r == chain_spec(*self, *other),
    {
        let rotation = other.rotation.mul_mat2(&self.rotation);
        let translation = other.rotation.mul_vec2(self.translation).add(other.translation);
        Transform2D { rotation, translation }
    }

    pub fn inverse(&self) -> (r: Self)
        ensures
            r == inverse_spec(*self),
    {
        let r_inv = self.rotation.transpose();
        let t_inv = r_inv.mul_vec2(self.translation).neg();
        Transform2D { rotation: r_inv, translation: t_inv }
    }
}

} // verus!
