//! The transformation group of a geometry.

use vstd::prelude::*;
use num_traits::{Float, FloatConst};

verus! {

/// An invertible, composable transformation of the positions `P` and the
/// directions `D` of a geometry over the scalar type `T`.
///
/// `a.chain(b)` applies `b` first and `a` to what comes out.
///
/// The predicates say which results the operations of an implementation can
/// give; each implementation says what they are for it.
pub trait Mapping<T, P, D = P>: Sized {
    /// `m` is a value that the identity is given as.
    spec fn is_identity(m: Self) -> bool where T: Float + FloatConst;

    /// `r` is a value that the image of `pos` is computed as.
    spec fn is_image(&self, pos: P, r: P) -> bool where T: Float + FloatConst;

    /// `r` is a value that the image of the direction `dir` at `pos` is
    /// computed as.
    spec fn is_dir_image(&self, pos: P, dir: D, r: D) -> bool where T: Float + FloatConst;

    /// `r` is a value that the image of the normal `normal` at `pos` is
    /// computed as.
    spec fn is_normal_image(&self, pos: P, normal: D, r: D) -> bool where T: Float + FloatConst;

    /// `r` is a value that the composition of `self` after `other` is
    /// computed as.
    spec fn is_chain(self, other: Self, r: Self) -> bool where T: Float + FloatConst;

    /// `r` is a value that the inverse of `self` is computed as.
    spec fn is_inverse(self, r: Self) -> bool where T: Float + FloatConst;

    /// The transformation that moves nothing.
    fn identity() -> (r: Self) where T: Float + FloatConst
        ensures
            Self::is_identity(r),
    ;

    /// The image of the position `pos`.
    fn apply_pos(&self, pos: P) -> (r: P) where T: Float + FloatConst
        ensures
            self.is_image(pos, r),
    ;

    /// The image of the direction `dir` anchored at `pos`.
    fn apply_dir(&self, pos: P, dir: D) -> (r: D) where T: Float + FloatConst
        ensures
            self.is_dir_image(pos, dir, r),
    ;

    /// The image of the normal `normal` anchored at `pos`.
    fn apply_normal(&self, pos: P, normal: D) -> (r: D) where T: Float + FloatConst
        ensures
            self.is_normal_image(pos, normal, r),
    ;

    /// The composition of `self` after `other`.
    fn chain(self, other: Self) -> (r: Self) where T: Float + FloatConst
        ensures
            self.is_chain(other, r),
    ;

    /// The inverse transformation.
    fn inv(self) -> (r: Self) where T: Float + FloatConst
        ensures
            self.is_inverse(r),
    ;
}

} // verus!
