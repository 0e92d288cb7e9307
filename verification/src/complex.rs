//! Complex numbers over an opaque scalar type.
//!
//! A value is a pair of scalars that the verifier can read. Arithmetic on it
//! is done by `vecmat`; what comes back is described by a relation between
//! the operands and the result, as for the scalar operations.

use vstd::prelude::*;
use num_traits::Float;
use vecmat::Complex as VmComplex;
use crate::scalar::{is_one, is_zero, one, zero};

verus! {

/// A complex number `re + i * im`.
#[derive(Clone, Copy, Debug, PartialEq)]
pub struct Complex<T> {
    pub re: T,
    pub im: T,
}

/// Calls `Neg::neg` of `vecmat::Complex`. Nothing is claimed of the value.
#[verifier::external_body]
fn vm_complex_neg<T: Float>(c: Complex<T>) -> Complex<T>
{
    let r = -VmComplex::new(c.re, c.im);
    Complex { re: r.re(), im: r.im() }
}

/// Calls `Sub::sub` of `vecmat::Complex`. Nothing is claimed of the value.
#[verifier::external_body]
fn vm_complex_sub<T: Float>(a: Complex<T>, b: Complex<T>) -> Complex<T>
{
    let r = VmComplex::new(a.re, a.im) - VmComplex::new(b.re, b.im);
    Complex { re: r.re(), im: r.im() }
}

/// Calls `vecmat::Complex::norm`. Nothing is claimed of the value.
#[verifier::external_body]
fn vm_complex_norm<T: Float>(c: Complex<T>) -> T
{
    VmComplex::new(c.re, c.im).norm()
}

/// `r` is a value that complex negation yields for `c`.
pub closed spec fn is_complex_neg<T: Float>(c: Complex<T>, r: Complex<T>) -> bool {
    call_ensures(vm_complex_neg::<T>, (c,), r)
}

/// `r` is a value that complex subtraction yields for `a - b`.
pub closed spec fn is_complex_diff<T: Float>(a: Complex<T>, b: Complex<T>, r: Complex<T>) -> bool {
    call_ensures(vm_complex_sub::<T>, (a, b), r)
}

/// `r` is a value that the modulus `|c|` is computed as.
pub closed spec fn is_complex_norm<T: Float>(c: Complex<T>, r: T) -> bool {
    call_ensures(vm_complex_norm::<T>, (c,), r)
}

/// `c` is the complex zero: both parts are scalar zeros.
pub open spec fn is_complex_zero<T: Float>(c: Complex<T>) -> bool {
    is_zero(c.re) && is_zero(c.im)
}

/// `c` is the complex one: a scalar one beside a scalar zero.
pub open spec fn is_complex_one<T: Float>(c: Complex<T>) -> bool {
    is_one(c.re) && is_zero(c.im)
}

impl<T: Float> Complex<T> {
    /// The number `re + i * im`.
    pub fn new(re: T, im: T) -> (c: Self)
        ensures
            c == (Complex { re, im }),
    {
        Complex { re, im }
    }

    /// The number `0 + i * 0`.
    pub fn zero() -> (c: Self)
        ensures
            is_complex_zero(c),
    {
        Complex { re: zero(), im: zero() }
    }

    /// The number `1 + i * 0`.
    pub fn one() -> (c: Self)
        ensures
            is_complex_one(c),
    {
        Complex { re: one(), im: zero() }
    }

    /// The number `-self`.
    pub fn neg(self) -> (r: Self)
        ensures
            is_complex_neg(self, r),
    {
        let f = vm_complex_neg::<T>;
        f(self)
    }

    /// The number `self - other`.
    pub fn sub(self, other: Self) -> (r: Self)
        ensures
            is_complex_diff(self, other, r),
    {
        let f = vm_complex_sub::<T>;
        f(self, other)
    }

    /// The modulus `|self|`.
    pub fn norm(self) -> (r: T)
        ensures
            is_complex_norm(self, r),
    {
        let f = vm_complex_norm::<T>;
        f(self)
    }
}

} // verus!
