//! Quaternions over an opaque scalar type.
//!
//! A value is four scalars `w + x i + y j + z k` that the verifier can read.
//! Arithmetic on it is done by `vecmat`.

use vstd::prelude::*;
use num_traits::Float;
use vecmat::Quaternion as VmQuaternion;
use crate::scalar::{is_one, is_zero, one, zero};

verus! {

/// A quaternion `w + x i + y j + z k`.
#[derive(Clone, Copy, Debug, PartialEq)]
pub struct Quaternion<T> {
    pub w: T,
    pub x: T,
    pub y: T,
    pub z: T,
}

/// Calls `Sub::sub` of `vecmat::Quaternion`. Nothing is claimed of the value.
#[verifier::external_body]
fn vm_quaternion_sub<T: Float>(a: Quaternion<T>, b: Quaternion<T>) -> Quaternion<T>
{
    let r = VmQuaternion::new(a.w, a.x, a.y, a.z) - VmQuaternion::new(b.w, b.x, b.y, b.z);
    let (w, x, y, z) = r.into_tuple();
    Quaternion { w, x, y, z }
}

/// Calls `vecmat::Quaternion::norm_sqr`. Nothing is claimed of the value.
#[verifier::external_body]
fn vm_quaternion_norm_sqr<T: Float>(q: Quaternion<T>) -> T
{
    VmQuaternion::new(q.w, q.x, q.y, q.z).norm_sqr()
}

/// Calls `vecmat::Quaternion::normalize`. Nothing is claimed of the value.
#[verifier::external_body]
fn vm_quaternion_normalize<T: Float>(q: Quaternion<T>) -> Quaternion<T>
{
    let (w, x, y, z) = VmQuaternion::new(q.w, q.x, q.y, q.z).normalize().into_tuple();
    Quaternion { w, x, y, z }
}

/// `r` is a value that quaternion subtraction yields for `a - b`.
pub closed spec fn is_quaternion_diff<T: Float>(
    a: Quaternion<T>,
    b: Quaternion<T>,
    r: Quaternion<T>,
) -> bool {
    call_ensures(vm_quaternion_sub::<T>, (a, b), r)
}

/// `r` is a value that the squared norm `|q|^2` is computed as.
pub closed spec fn is_quaternion_norm_sqr<T: Float>(q: Quaternion<T>, r: T) -> bool {
    call_ensures(vm_quaternion_norm_sqr::<T>, (q,), r)
}

/// `r` is a value that `q / |q|` is computed as.
pub closed spec fn is_quaternion_normalized<T: Float>(q: Quaternion<T>, r: Quaternion<T>) -> bool {
    call_ensures(vm_quaternion_normalize::<T>, (q,), r)
}

/// `q` is the unit `j`: a scalar one in the third place, scalar zeros elsewhere.
pub open spec fn is_quaternion_j<T: Float>(q: Quaternion<T>) -> bool {
    is_zero(q.w) && is_zero(q.x) && is_one(q.y) && is_zero(q.z)
}

impl<T: Float> Quaternion<T> {
    /// The quaternion `w + x i + y j + z k`.
    pub fn new(w: T, x: T, y: T, z: T) -> (q: Self)
        ensures
            q == (Quaternion { w, x, y, z }),
    {
        Quaternion { w, x, y, z }
    }

    /// The unit `j`.
    pub fn j() -> (q: Self)
        ensures
            is_quaternion_j(q),
    {
        Quaternion { w: zero(), x: zero(), y: one(), z: zero() }
    }

    /// The quaternion `self - other`.
    pub fn sub(self, other: Self) -> (r: Self)
        ensures
            is_quaternion_diff(self, other, r),
    {
        let f = vm_quaternion_sub::<T>;
        f(self, other)
    }

    /// The squared norm `|self|^2`.
    pub fn norm_sqr(self) -> (r: T)
        ensures
            is_quaternion_norm_sqr(self, r),
    {
        let f = vm_quaternion_norm_sqr::<T>;
        f(self)
    }

    /// The quaternion `self / |self|`. Its parts are NaN where `self` is zero.
    pub fn normalize(self) -> (r: Self)
        ensures
            is_quaternion_normalized(self, r),
    {
        let f = vm_quaternion_normalize::<T>;
        f(self)
    }
}

} // verus!
