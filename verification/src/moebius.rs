//! Moebius transformations: two-by-two complex matrices acting on
//! quaternions by `q -> (a q + b) / (c q + d)`.
//!
//! The matrix is four complex numbers that the verifier can read. The group
//! operations and the action are done by `vecmat`.

use vstd::prelude::*;
use num_traits::Float;
use vecmat::Complex as VmComplex;
use vecmat::Quaternion as VmQuaternion;
use vecmat::complex::Moebius as VmMoebius;
use crate::complex::{is_complex_one, is_complex_zero, Complex};
use crate::quaternion::Quaternion;

verus! {

/// The matrix `[[a, b], [c, d]]`.
#[derive(Clone, Copy, Debug, PartialEq)]
pub struct Moebius<T> {
    pub a: Complex<T>,
    pub b: Complex<T>,
    pub c: Complex<T>,
    pub d: Complex<T>,
}

/// Calls `vecmat::complex::Moebius::apply` on a quaternion. Nothing is
/// claimed of the value.
#[verifier::external_body]
fn vm_moebius_apply<T: Float>(m: Moebius<T>, p: Quaternion<T>) -> Quaternion<T>
{
    let [a, b, c, d] = [m.a, m.b, m.c, m.d].map(|c| VmComplex::new(c.re, c.im));
    let r = VmMoebius::new(a, b, c, d).apply(VmQuaternion::new(p.w, p.x, p.y, p.z));
    let (w, x, y, z) = r.into_tuple();
    Quaternion { w, x, y, z }
}

/// Calls `vecmat::complex::Moebius::deriv_dir`. Nothing is claimed of the
/// value. `vecmat` makes the number two there by a cast into `T` that it
/// unwraps: a cast that the float types of `num_traits` do not refuse.
#[verifier::external_body]
fn vm_moebius_deriv_dir<T: Float>(m: Moebius<T>, p: Quaternion<T>, v: Quaternion<T>) -> Quaternion<T>
{
    let [a, b, c, d] = [m.a, m.b, m.c, m.d].map(|c| VmComplex::new(c.re, c.im));
    let p = VmQuaternion::new(p.w, p.x, p.y, p.z);
    let v = VmQuaternion::new(v.w, v.x, v.y, v.z);
    let (w, x, y, z) = VmMoebius::new(a, b, c, d).deriv_dir(p, v).into_tuple();
    Quaternion { w, x, y, z }
}

/// Calls `vecmat::complex::Moebius::chain`. Nothing is claimed of the value.
#[verifier::external_body]
fn vm_moebius_chain<T: Float>(m: Moebius<T>, n: Moebius<T>) -> Moebius<T>
{
    let [m, n] = [m, n].map(|m| [m.a, m.b, m.c, m.d].map(|c| VmComplex::new(c.re, c.im)));
    let [[a, b, c, d], [e, f, g, h]] = [m, n];
    let r = VmMoebius::new(a, b, c, d).chain(VmMoebius::new(e, f, g, h));
    let (a, b, c, d) = r.into_tuple();
    let [a, b, c, d] = [a, b, c, d].map(|c| Complex { re: c.re(), im: c.im() });
    Moebius { a, b, c, d }
}

/// Calls `vecmat::complex::Moebius::inv`. Nothing is claimed of the value.
#[verifier::external_body]
fn vm_moebius_inv<T: Float>(m: Moebius<T>) -> Moebius<T>
{
    let [a, b, c, d] = [m.a, m.b, m.c, m.d].map(|c| VmComplex::new(c.re, c.im));
    let (a, b, c, d) = VmMoebius::new(a, b, c, d).inv().into_tuple();
    let [a, b, c, d] = [a, b, c, d].map(|c| Complex { re: c.re(), im: c.im() });
    Moebius { a, b, c, d }
}

/// `m` is the identity matrix: complex ones on the diagonal, complex zeros
/// off it.
pub open spec fn is_moebius_identity<T: Float>(m: Moebius<T>) -> bool {
    is_complex_one(m.a) && is_complex_zero(m.b) && is_complex_zero(m.c) && is_complex_one(m.d)
}

/// `r` is a value that `(a p + b) / (c p + d)` is computed as, for the
/// entries of `m`.
pub closed spec fn is_moebius_image<T: Float>(m: Moebius<T>, p: Quaternion<T>, r: Quaternion<T>) -> bool {
    call_ensures(vm_moebius_apply::<T>, (m, p), r)
}

/// `r` is a value that the derivative of `m` at `p` along `v` is computed as.
pub closed spec fn is_moebius_deriv<T: Float>(
    m: Moebius<T>,
    p: Quaternion<T>,
    v: Quaternion<T>,
    r: Quaternion<T>,
) -> bool {
    call_ensures(vm_moebius_deriv_dir::<T>, (m, p, v), r)
}

/// `r` is a value that the matrix product `m n` is computed as: the
/// transformation that applies `n` first and `m` to what comes out.
pub closed spec fn is_moebius_chain<T: Float>(m: Moebius<T>, n: Moebius<T>, r: Moebius<T>) -> bool {
    call_ensures(vm_moebius_chain::<T>, (m, n), r)
}

/// `r` is a value that the inverse matrix of `m` is computed as.
pub closed spec fn is_moebius_inverse<T: Float>(m: Moebius<T>, r: Moebius<T>) -> bool {
    call_ensures(vm_moebius_inv::<T>, (m,), r)
}

impl<T: Float> Moebius<T> {
    /// The matrix `[[a, b], [c, d]]`.
    pub fn new(a: Complex<T>, b: Complex<T>, c: Complex<T>, d: Complex<T>) -> (m: Self)
        ensures
            m == (Moebius { a, b, c, d }),
    {
        Moebius { a, b, c, d }
    }

    /// The identity transformation.
    pub fn identity() -> (r: Self)
        ensures
            is_moebius_identity(r),
    {
        Moebius { a: Complex::one(), b: Complex::zero(), c: Complex::zero(), d: Complex::one() }
    }

    /// The image `(a p + b) / (c p + d)` of the point `p`.
    pub fn apply(&self, p: Quaternion<T>) -> (r: Quaternion<T>)
        ensures
            is_moebius_image(*self, p, r),
    {
        let f = vm_moebius_apply::<T>;
        f(*self, p)
    }

    /// The derivative of the transformation at `p` along `v`.
    pub fn deriv_dir(&self, p: Quaternion<T>, v: Quaternion<T>) -> (r: Quaternion<T>)
        ensures
            is_moebius_deriv(*self, p, v, r),
    {
        let f = vm_moebius_deriv_dir::<T>;
        f(*self, p, v)
    }

    /// The composition that applies `other` first and `self` to what comes
    /// out.
    pub fn chain(self, other: Self) -> (r: Self)
        ensures
            is_moebius_chain(self, other, r),
    {
        let f = vm_moebius_chain::<T>;
        f(self, other)
    }

    /// The inverse transformation.
    pub fn inv(self) -> (r: Self)
        ensures
            is_moebius_inverse(self, r),
    {
        let f = vm_moebius_inv::<T>;
        f(self)
    }
}

} // verus!
