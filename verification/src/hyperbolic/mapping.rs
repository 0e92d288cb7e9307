//! Moebius transformations as the motions of the half-space model.

use vstd::prelude::*;
use num_traits::{Float, FloatConst};
use crate::mapping::Mapping;
use crate::moebius::{
    is_moebius_chain, is_moebius_deriv, is_moebius_identity, is_moebius_image, is_moebius_inverse,
    Moebius,
};
use crate::quaternion::{is_quaternion_normalized, Quaternion};

verus! {

/// `r` is the unit direction at the image of `pos` that the direction `dir`
/// at `pos` is carried to by `m`: the derivative of `m` at `pos` along `dir`,
/// divided by its norm.
pub open spec fn is_moebius_dir<T: Float>(
    m: Moebius<T>,
    pos: Quaternion<T>,
    dir: Quaternion<T>,
    r: Quaternion<T>,
) -> bool {
    exists|v: Quaternion<T>| is_moebius_deriv(m, pos, dir, v) && is_quaternion_normalized(v, r)
}

impl<T> Mapping<T, Quaternion<T>> for Moebius<T> {
    open spec fn is_identity(m: Self) -> bool where T: Float + FloatConst {
        is_moebius_identity(m)
    }

    open spec fn is_image(&self, pos: Quaternion<T>, r: Quaternion<T>) -> bool where
        T: Float + FloatConst,
     {
        is_moebius_image(*self, pos, r)
    }

    open spec fn is_dir_image(&self, pos: Quaternion<T>, dir: Quaternion<T>, r: Quaternion<T>) -> bool where
        T: Float + FloatConst,
     {
        is_moebius_dir(*self, pos, dir, r)
    }

    /// A Moebius transformation keeps angles, so a normal is carried as a
    /// direction is.
    open spec fn is_normal_image(
        &self,
        pos: Quaternion<T>,
        normal: Quaternion<T>,
        r: Quaternion<T>,
    ) -> bool where T: Float + FloatConst {
        is_moebius_dir(*self, pos, normal, r)
    }

    open spec fn is_chain(self, other: Self, r: Self) -> bool where T: Float + FloatConst {
        is_moebius_chain(self, other, r)
    }

    open spec fn is_inverse(self, r: Self) -> bool where T: Float + FloatConst {
        is_moebius_inverse(self, r)
    }

    fn identity() -> (r: Self) where T: Float + FloatConst
        ensures
            is_moebius_identity(r),
    {
        Moebius::identity()
    }

    fn apply_pos(&self, pos: Quaternion<T>) -> (r: Quaternion<T>) where T: Float + FloatConst
        ensures
            is_moebius_image(*self, pos, r),
    {
        self.apply(pos)
    }

    fn apply_dir(&self, pos: Quaternion<T>, dir: Quaternion<T>) -> (r: Quaternion<T>) where
        T: Float + FloatConst,

        ensures
            is_moebius_dir(*self, pos, dir, r),
    {
        self.deriv_dir(pos, dir).normalize()
    }

    fn apply_normal(&self, pos: Quaternion<T>, normal: Quaternion<T>) -> (r: Quaternion<T>) where
        T: Float + FloatConst,

        ensures
            is_moebius_dir(*self, pos, normal, r),
    {
        self.deriv_dir(pos, normal).normalize()
    }

    fn chain(self, other: Self) -> (r: Self) where T: Float + FloatConst
        ensures
            is_moebius_chain(self, other, r),
    {
        Moebius::chain(self, other)
    }

    fn inv(self) -> (r: Self) where T: Float + FloatConst
        ensures
            is_moebius_inverse(self, r),
    {
        Moebius::inv(self)
    }
}

} // verus!
