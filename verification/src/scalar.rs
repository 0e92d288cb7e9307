//! Scalar arithmetic.
//!
//! The scalar type `T` is opaque to the verifier: a floating-point number of
//! whatever width the caller picks. Each operation of `T` that the
//! geometries use is made here, and what it yields is described by a
//! relation between its arguments and its result: `is_sum(a, b, r)` says
//! that `r` is a value that the addition of `T` can yield for `a` and `b`.
//! A relation says nothing of the value itself (rounding, NaN and
//! infinities are the scalar type's business) and does not say that the
//! same arguments give the same value twice.
//!
//! Each operation has three parts: a function that makes the call and of
//! which nothing is known; the relation, which is the set of the pairs of
//! arguments and results of that function; and the public function, which
//! calls the first through a function value, which is how the verifier
//! comes to know that what came back stands in the relation.

use vstd::prelude::*;
use num_traits::{Float, FloatConst};

verus! {

/// Calls `num_traits::Zero::zero` of the scalar type. Nothing is claimed of the value.
#[verifier::external_body]
fn float_zero<T: Float>() -> T
{
    T::zero()
}

/// `r` is a value that the scalar type gives as the additive identity.
pub closed spec fn is_zero<T: Float>(r: T) -> bool {
    call_ensures(float_zero::<T>, (), r)
}

/// Returns the additive identity of the scalar type.
pub fn zero<T: Float>() -> (r: T)
    ensures
        is_zero(r),
{
    let f = float_zero::<T>;
    f()
}

/// Calls `num_traits::One::one` of the scalar type. Nothing is claimed of the value.
#[verifier::external_body]
fn float_one<T: Float>() -> T
{
    T::one()
}

/// `r` is a value that the scalar type gives as the multiplicative identity.
pub closed spec fn is_one<T: Float>(r: T) -> bool {
    call_ensures(float_one::<T>, (), r)
}

/// Returns the multiplicative identity of the scalar type.
pub fn one<T: Float>() -> (r: T)
    ensures
        is_one(r),
{
    let f = float_one::<T>;
    f()
}

/// Calls `core::ops::Neg::neg` of the scalar type. Nothing is claimed of the value.
#[verifier::external_body]
fn float_neg<T: Float>(x: T) -> T
{
    -x
}

/// `r` is a value that the scalar type gives as the negation of `x`.
pub closed spec fn is_neg<T: Float>(x: T, r: T) -> bool {
    call_ensures(float_neg::<T>, (x,), r)
}

/// Returns the negation of `x`.
pub fn neg<T: Float>(x: T) -> (r: T)
    ensures
        is_neg(x, r),
{
    let f = float_neg::<T>;
    f(x)
}

/// Calls `num_traits::Float::sqrt` of the scalar type. Nothing is claimed of the value.
#[verifier::external_body]
fn float_sqrt<T: Float>(x: T) -> T
{
    x.sqrt()
}

/// `r` is a value that the scalar type gives as the square root of `x`.
pub closed spec fn is_sqrt<T: Float>(x: T, r: T) -> bool {
    call_ensures(float_sqrt::<T>, (x,), r)
}

/// Returns the square root of `x`.
pub fn sqrt<T: Float>(x: T) -> (r: T)
    ensures
        is_sqrt(x, r),
{
    let f = float_sqrt::<T>;
    f(x)
}

/// Calls `num_traits::Float::ln` of the scalar type. Nothing is claimed of the value.
#[verifier::external_body]
fn float_ln<T: Float>(x: T) -> T
{
    x.ln()
}

/// `r` is a value that the scalar type gives as the natural logarithm of `x`.
pub closed spec fn is_ln<T: Float>(x: T, r: T) -> bool {
    call_ensures(float_ln::<T>, (x,), r)
}

/// Returns the natural logarithm of `x`.
pub fn ln<T: Float>(x: T) -> (r: T)
    ensures
        is_ln(x, r),
{
    let f = float_ln::<T>;
    f(x)
}

/// Calls `num_traits::Float::exp` of the scalar type. Nothing is claimed of the value.
#[verifier::external_body]
fn float_exp<T: Float>(x: T) -> T
{
    x.exp()
}

/// `r` is a value that the scalar type gives as the exponential of `x`.
pub closed spec fn is_exp<T: Float>(x: T, r: T) -> bool {
    call_ensures(float_exp::<T>, (x,), r)
}

/// Returns the exponential of `x`.
pub fn exp<T: Float>(x: T) -> (r: T)
    ensures
        is_exp(x, r),
{
    let f = float_exp::<T>;
    f(x)
}

/// Calls `num_traits::Float::sin` of the scalar type. Nothing is claimed of the value.
#[verifier::external_body]
fn float_sin<T: Float>(x: T) -> T
{
    x.sin()
}

/// `r` is a value that the scalar type gives as the sine of `x`.
pub closed spec fn is_sin<T: Float>(x: T, r: T) -> bool {
    call_ensures(float_sin::<T>, (x,), r)
}

/// Returns the sine of `x`.
pub fn sin<T: Float>(x: T) -> (r: T)
    ensures
        is_sin(x, r),
{
    let f = float_sin::<T>;
    f(x)
}

/// Calls `num_traits::Float::cos` of the scalar type. Nothing is claimed of the value.
#[verifier::external_body]
fn float_cos<T: Float>(x: T) -> T
{
    x.cos()
}

/// `r` is a value that the scalar type gives as the cosine of `x`.
pub closed spec fn is_cos<T: Float>(x: T, r: T) -> bool {
    call_ensures(float_cos::<T>, (x,), r)
}

/// Returns the cosine of `x`.
pub fn cos<T: Float>(x: T) -> (r: T)
    ensures
        is_cos(x, r),
{
    let f = float_cos::<T>;
    f(x)
}

/// Calls `num_traits::Float::sinh` of the scalar type. Nothing is claimed of the value.
#[verifier::external_body]
fn float_sinh<T: Float>(x: T) -> T
{
    x.sinh()
}

/// `r` is a value that the scalar type gives as the hyperbolic sine of `x`.
pub closed spec fn is_sinh<T: Float>(x: T, r: T) -> bool {
    call_ensures(float_sinh::<T>, (x,), r)
}

/// Returns the hyperbolic sine of `x`.
pub fn sinh<T: Float>(x: T) -> (r: T)
    ensures
        is_sinh(x, r),
{
    let f = float_sinh::<T>;
    f(x)
}

/// Calls `num_traits::Float::cosh` of the scalar type. Nothing is claimed of the value.
#[verifier::external_body]
fn float_cosh<T: Float>(x: T) -> T
{
    x.cosh()
}

/// `r` is a value that the scalar type gives as the hyperbolic cosine of `x`.
pub closed spec fn is_cosh<T: Float>(x: T, r: T) -> bool {
    call_ensures(float_cosh::<T>, (x,), r)
}

/// Returns the hyperbolic cosine of `x`.
pub fn cosh<T: Float>(x: T) -> (r: T)
    ensures
        is_cosh(x, r),
{
    let f = float_cosh::<T>;
    f(x)
}

/// Calls `core::ops::Add::add` of the scalar type. Nothing is claimed of the value.
#[verifier::external_body]
fn float_sum<T: Float>(a: T, b: T) -> T
{
    a + b
}

/// `r` is a value that the scalar type gives as the sum `a + b`.
pub closed spec fn is_sum<T: Float>(a: T, b: T, r: T) -> bool {
    call_ensures(float_sum::<T>, (a, b), r)
}

/// Returns the sum `a + b`.
pub fn sum<T: Float>(a: T, b: T) -> (r: T)
    ensures
        is_sum(a, b, r),
{
    let f = float_sum::<T>;
    f(a, b)
}

/// Calls `core::ops::Sub::sub` of the scalar type. Nothing is claimed of the value.
#[verifier::external_body]
fn float_diff<T: Float>(a: T, b: T) -> T
{
    a - b
}

/// `r` is a value that the scalar type gives as the difference `a - b`.
pub closed spec fn is_diff<T: Float>(a: T, b: T, r: T) -> bool {
    call_ensures(float_diff::<T>, (a, b), r)
}

/// Returns the difference `a - b`.
pub fn diff<T: Float>(a: T, b: T) -> (r: T)
    ensures
        is_diff(a, b, r),
{
    let f = float_diff::<T>;
    f(a, b)
}

/// Calls `core::ops::Mul::mul` of the scalar type. Nothing is claimed of the value.
#[verifier::external_body]
fn float_product<T: Float>(a: T, b: T) -> T
{
    a * b
}

/// `r` is a value that the scalar type gives as the product `a * b`.
pub closed spec fn is_product<T: Float>(a: T, b: T, r: T) -> bool {
    call_ensures(float_product::<T>, (a, b), r)
}

/// Returns the product `a * b`.
pub fn product<T: Float>(a: T, b: T) -> (r: T)
    ensures
        is_product(a, b, r),
{
    let f = float_product::<T>;
    f(a, b)
}

/// Calls `core::ops::Div::div` of the scalar type. Nothing is claimed of the value.
#[verifier::external_body]
fn float_quotient<T: Float>(a: T, b: T) -> T
{
    a / b
}

/// `r` is a value that the scalar type gives as the quotient `a / b`.
pub closed spec fn is_quotient<T: Float>(a: T, b: T, r: T) -> bool {
    call_ensures(float_quotient::<T>, (a, b), r)
}

/// Returns the quotient `a / b`.
pub fn quotient<T: Float>(a: T, b: T) -> (r: T)
    ensures
        is_quotient(a, b, r),
{
    let f = float_quotient::<T>;
    f(a, b)
}

/// Calls `num_traits::Float::atan2` of the scalar type. Nothing is claimed of the value.
#[verifier::external_body]
fn float_atan2<T: Float>(y: T, x: T) -> T
{
    y.atan2(x)
}

/// `r` is a value that the scalar type gives as the four-quadrant arctangent of `y / x`.
pub closed spec fn is_atan2<T: Float>(y: T, x: T, r: T) -> bool {
    call_ensures(float_atan2::<T>, (y, x), r)
}

/// Returns the four-quadrant arctangent of `y / x`.
pub fn atan2<T: Float>(y: T, x: T) -> (r: T)
    ensures
        is_atan2(y, x, r),
{
    let f = float_atan2::<T>;
    f(y, x)
}

/// Calls `num_traits::FloatConst::PI` of the scalar type. Nothing is claimed of the value.
#[verifier::external_body]
fn float_pi<T: Float + FloatConst>() -> T
{
    T::PI()
}

/// `r` is a value that the scalar type gives as the number pi.
pub closed spec fn is_pi<T: Float + FloatConst>(r: T) -> bool {
    call_ensures(float_pi::<T>, (), r)
}

/// Returns the number pi of the scalar type.
pub fn pi<T: Float + FloatConst>() -> (r: T)
    ensures
        is_pi(r),
{
    let f = float_pi::<T>;
    f()
}

/// `r` is a value that the scalar type gives as the number two: the sum of
/// two of its ones.
pub open spec fn is_two<T: Float>(r: T) -> bool {
    exists|a: T, b: T| is_one(a) && is_one(b) && is_sum(a, b, r)
}

/// Returns two, as `1 + 1`.
pub fn two<T: Float>() -> (r: T)
    ensures
        is_two(r),
{
    let a = one::<T>();
    let b = one::<T>();
    sum(a, b)
}

/// `r` is a value that the scalar type gives as `x / 2`.
pub open spec fn is_half<T: Float>(x: T, r: T) -> bool {
    exists|t: T| is_two(t) && is_quotient(x, t, r)
}

/// Returns half of `x`.
pub fn half<T: Float>(x: T) -> (r: T)
    ensures
        is_half(x, r),
{
    let t = two::<T>();
    quotient(x, t)
}

} // verus!
