//! Vectors of a fixed number of scalars.
//!
//! A value is an array of scalars that the verifier can read. Arithmetic on
//! it is done by `vecmat`.

use vstd::prelude::*;
use num_traits::{Float, Zero};
use vecmat::Vector as VmVector;
use crate::scalar::{is_zero, zero};

verus! {

/// A vector of `N` scalars.
#[derive(Clone, Copy, Debug, PartialEq)]
pub struct Vector<T, const N: usize> {
    pub data: [T; N],
}

/// Calls `Neg::neg` of `vecmat::Vector`. Nothing is claimed of the value.
#[verifier::external_body]
fn vm_vector_neg<T: Float, const N: usize>(v: Vector<T, N>) -> Vector<T, N>
{
    Vector { data: (-VmVector::from(v.data)).into_array() }
}

/// Calls `Add::add` of `vecmat::Vector`. Nothing is claimed of the value.
#[verifier::external_body]
fn vm_vector_add<T: Float, const N: usize>(a: Vector<T, N>, b: Vector<T, N>) -> Vector<T, N>
{
    Vector { data: (VmVector::from(a.data) + VmVector::from(b.data)).into_array() }
}

/// Calls `num_traits::Zero::is_zero` of `vecmat::Vector`. Nothing is claimed
/// of the answer.
#[verifier::external_body]
fn vm_vector_is_zero<T: Float, const N: usize>(v: Vector<T, N>) -> bool
{
    Zero::is_zero(&VmVector::from(v.data))
}

/// Calls `Sub::sub` of `vecmat::Vector`. Nothing is claimed of the value.
#[verifier::external_body]
fn vm_vector_sub<T: Float, const N: usize>(a: Vector<T, N>, b: Vector<T, N>) -> Vector<T, N>
{
    Vector { data: (VmVector::from(a.data) - VmVector::from(b.data)).into_array() }
}

/// Calls `Mul::mul` of `vecmat::Vector` by a scalar. Nothing is claimed of
/// the value.
#[verifier::external_body]
fn vm_vector_scale<T: Float, const N: usize>(v: Vector<T, N>, k: T) -> Vector<T, N>
{
    Vector { data: (VmVector::from(v.data) * k).into_array() }
}

/// Calls `vecmat::Vector::length`. Nothing is claimed of the value. The
/// vector has a component: `vecmat` sums the squares starting from the first
/// one, which it unwraps.
#[verifier::external_body]
fn vm_vector_length<T: Float, const N: usize>(v: Vector<T, N>) -> T
    requires
        N > 0,
{
    VmVector::from(v.data).length()
}

/// Calls `vecmat::Vector::normalize`. Nothing is claimed of the value. The
/// vector has a component: `vecmat` divides by the length, for which it
/// unwraps the first one.
#[verifier::external_body]
fn vm_vector_normalize<T: Float, const N: usize>(v: Vector<T, N>) -> Vector<T, N>
    requires
        N > 0,
{
    Vector { data: VmVector::from(v.data).normalize().into_array() }
}

/// `r` is a value that vector negation yields for `v`.
pub closed spec fn is_vector_neg<T: Float, const N: usize>(v: Vector<T, N>, r: Vector<T, N>) -> bool {
    call_ensures(vm_vector_neg::<T, N>, (v,), r)
}

/// `r` is a value that vector addition yields for `a + b`.
pub closed spec fn is_vector_sum<T: Float, const N: usize>(
    a: Vector<T, N>,
    b: Vector<T, N>,
    r: Vector<T, N>,
) -> bool {
    call_ensures(vm_vector_add::<T, N>, (a, b), r)
}

/// `b` is an answer that the question "is every component of `v` zero?"
/// gets.
pub closed spec fn is_vector_null<T: Float, const N: usize>(v: Vector<T, N>, b: bool) -> bool {
    call_ensures(vm_vector_is_zero::<T, N>, (v,), b)
}

/// `r` is a value that vector subtraction yields for `a - b`.
pub closed spec fn is_vector_diff<T: Float, const N: usize>(
    a: Vector<T, N>,
    b: Vector<T, N>,
    r: Vector<T, N>,
) -> bool {
    call_ensures(vm_vector_sub::<T, N>, (a, b), r)
}

/// `r` is a value that the product `v * k` is computed as.
pub closed spec fn is_vector_scaled<T: Float, const N: usize>(
    v: Vector<T, N>,
    k: T,
    r: Vector<T, N>,
) -> bool {
    call_ensures(vm_vector_scale::<T, N>, (v, k), r)
}

/// `r` is a value that the Euclidean norm `|v|` is computed as.
pub closed spec fn is_vector_length<T: Float, const N: usize>(v: Vector<T, N>, r: T) -> bool {
    call_ensures(vm_vector_length::<T, N>, (v,), r)
}

/// `r` is a value that `v / |v|` is computed as.
pub closed spec fn is_vector_normalized<T: Float, const N: usize>(
    v: Vector<T, N>,
    r: Vector<T, N>,
) -> bool {
    call_ensures(vm_vector_normalize::<T, N>, (v,), r)
}

impl<T: Float, const N: usize> Vector<T, N> {
    /// The vector with the components `data`.
    pub fn new(data: [T; N]) -> (v: Self)
        ensures
            v == (Vector { data }),
    {
        Vector { data }
    }

    /// The vector `-self`.
    pub fn neg(self) -> (r: Self)
        ensures
            is_vector_neg(self, r),
    {
        let f = vm_vector_neg::<T, N>;
        f(self)
    }

    /// The vector `self + other`.
    pub fn add(self, other: Self) -> (r: Self)
        ensures
            is_vector_sum(self, other, r),
    {
        let f = vm_vector_add::<T, N>;
        f(self, other)
    }

    /// Whether every component is zero.
    pub fn is_null(self) -> (b: bool)
        ensures
            is_vector_null(self, b),
    {
        let f = vm_vector_is_zero::<T, N>;
        f(self)
    }

    /// The vector `self - other`.
    pub fn sub(self, other: Self) -> (r: Self)
        ensures
            is_vector_diff(self, other, r),
    {
        let f = vm_vector_sub::<T, N>;
        f(self, other)
    }

    /// The vector `self * k`.
    pub fn scale(self, k: T) -> (r: Self)
        ensures
            is_vector_scaled(self, k, r),
    {
        let f = vm_vector_scale::<T, N>;
        f(self, k)
    }

    /// The Euclidean norm `|self|`. The vector with no component has the
    /// norm zero.
    pub fn length(self) -> (r: T)
        ensures
            N > 0 ==> is_vector_length(self, r),
            N == 0 ==> is_zero(r),
    {
        if N == 0 {
            zero()
        } else {
            let f = vm_vector_length::<T, N>;
            f(self)
        }
    }

    /// The vector `self / |self|`. Its components are NaN where `self` is
    /// zero. The vector with no component is returned as it is.
    pub fn normalize(self) -> (r: Self)
        ensures
            N > 0 ==> is_vector_normalized(self, r),
            N == 0 ==> r == self,
    {
        if N == 0 {
            self
        } else {
            let f = vm_vector_normalize::<T, N>;
            f(self)
        }
    }
}

} // verus!
