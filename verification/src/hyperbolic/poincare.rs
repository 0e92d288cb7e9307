//! The Poincare half-space model: a point of hyperbolic space is a point
//! `(hx, hy, hz)` of the upper half-space, with the height `hz` above the
//! boundary plane.

use vstd::prelude::*;
use num_traits::Float;
use rand::Rng;
use rand::distributions::Distribution;
use vecmat::distr::Normal;
use crate::complex::Complex;
use crate::quaternion::Quaternion;
use crate::scalar::{exp, is_exp, is_zero, zero};

verus! {

/// The coordinates of a point in the half-space model.
pub trait Poincare3<T> {
    /// The first horizontal coordinate.
    spec fn spec_hx(&self) -> T;

    /// The second horizontal coordinate.
    spec fn spec_hy(&self) -> T;

    /// The height above the boundary plane.
    spec fn spec_hz(&self) -> T;

    /// The two horizontal coordinates as one complex number.
    open spec fn spec_hxy(&self) -> Complex<T> {
        Complex { re: self.spec_hx(), im: self.spec_hy() }
    }

    /// The first horizontal coordinate.
    fn hx(&self) -> (r: T) where T: Copy
        ensures
            r == self.spec_hx(),
    ;

    /// The second horizontal coordinate.
    fn hy(&self) -> (r: T) where T: Copy
        ensures
            r == self.spec_hy(),
    ;

    /// The height above the boundary plane.
    fn hz(&self) -> (r: T) where T: Copy
        ensures
            r == self.spec_hz(),
    ;

    /// The two horizontal coordinates as one complex number.
    fn hxy(&self) -> (r: Complex<T>) where T: Copy
        ensures
            r == self.spec_hxy(),
    ;
}

/// A quaternion `w + x i + y j + z k` stands for the point `(w, x, y)`; its
/// fourth part is not used and is kept at zero.
impl<T> Poincare3<T> for Quaternion<T> {
    open spec fn spec_hx(&self) -> T {
        self.w
    }

    open spec fn spec_hy(&self) -> T {
        self.x
    }

    open spec fn spec_hz(&self) -> T {
        self.y
    }

    fn hx(&self) -> (r: T) where T: Copy {
        self.w
    }

    fn hy(&self) -> (r: T) where T: Copy {
        self.x
    }

    fn hz(&self) -> (r: T) where T: Copy {
        self.y
    }

    fn hxy(&self) -> (r: Complex<T>) where T: Copy {
        Complex { re: self.w, im: self.x }
    }
}

/// The distribution of points of the half-space whose horizontal
/// coordinates and whose logarithm of the height are standard normal.
pub struct Poincare3Normal;

/// Draws one number from `vecmat::distr::Normal` with `rand::Rng::sample`.
/// Nothing is claimed of the number, and `rng` moves on. The random source
/// is the caller's: what its own code does when it is asked for bits is not
/// in this library's hands.
#[verifier::external_body]
fn normal_sample<T, R: Rng + ?Sized>(rng: &mut R) -> T where Normal: Distribution<T>
{
    rng.sample(&Normal)
}

/// `r` is a number that a draw from the standard normal distribution can
/// give, with a random source of the type `R` in some state.
pub closed spec fn is_normal_draw<T, R: Rng + ?Sized>(r: T) -> bool where Normal: Distribution<T> {
    exists|m: &mut R| call_ensures(normal_sample::<T, R>, (m,), r)
}

/// Draws one number from the standard normal distribution.
fn normal_draw<T, R: Rng + ?Sized>(rng: &mut R) -> (r: T) where Normal: Distribution<T>
    ensures
        is_normal_draw::<T, R>(r),
{
    let f = normal_sample::<T, R>;
    f(rng)
}

impl Poincare3Normal {
    /// `q` is the point with the horizontal coordinates `a` and `b` and a
    /// height that is an exponential of `c`.
    pub open spec fn is_point_of<T: Float>(a: T, b: T, c: T, q: Quaternion<T>) -> bool {
        q.spec_hx() == a && q.spec_hy() == b && is_exp(c, q.spec_hz()) && is_zero(q.z)
    }

    /// The point `(a, b, e^c)`.
    pub fn point_of<T: Float>(a: T, b: T, c: T) -> (q: Quaternion<T>)
        ensures
            Self::is_point_of(a, b, c, q),
    {
        Quaternion::new(a, b, exp(c), zero())
    }

    /// Draws a point: three numbers from the standard normal distribution,
    /// in the order `hx`, `hy`, logarithm of `hz`, made into a point by
    /// `point_of`.
    pub fn sample<T: Float, R: Rng + ?Sized>(&self, rng: &mut R) -> (q: Quaternion<T>) where
        Normal: Distribution<T>,

        ensures
            exists|a: T, b: T, c: T|
                is_normal_draw::<T, R>(a) && is_normal_draw::<T, R>(b) && is_normal_draw::<T, R>(c)
                    && Self::is_point_of(a, b, c, q),
    {
        let a: T = normal_draw(rng);
        let b: T = normal_draw(rng);
        let c: T = normal_draw(rng);
        Self::point_of(a, b, c)
    }
}

} // verus!
