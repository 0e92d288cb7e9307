//! Hyperbolic three-space in the Poincare half-space model.
//!
//! A point is a quaternion whose first three parts are the coordinates
//! `(hx, hy, hz)` with `hz > 0`; a motion is a Moebius transformation. The
//! origin is the point `(0, 0, 1)` and the default direction points up.
//!
//! Every formula below is stated as a relation: the result is what the
//! scalar type and `vecmat` yield for the named operations, applied in the
//! named order. Outside the half-space (`hz <= 0`) the formulas are still
//! evaluated and what they mean is not defined.

use vstd::prelude::*;
use num_traits::{Float, FloatConst};
use std::marker::PhantomData;
use crate::complex::{is_complex_diff, is_complex_neg, is_complex_norm, is_complex_one, is_complex_zero, Complex};
use crate::geometry::{Geometry, Geometry3};
use crate::hyperbolic::poincare::Poincare3;
use crate::moebius::{is_moebius_chain, is_moebius_inverse, Moebius};
use crate::quaternion::{is_quaternion_diff, is_quaternion_j, is_quaternion_norm_sqr, Quaternion};
use crate::scalar::{
    atan2, cos, cosh, diff, exp, half, is_atan2, is_cos, is_cosh, is_diff, is_exp, is_half, is_ln,
    is_neg, is_one, is_product, is_quotient, is_sin, is_sinh, is_sqrt, is_sum, is_two, is_zero,
    ln, neg, one, product, quotient, sin, sinh, sqrt, sum, two, zero,
};
use crate::vector::Vector;

verus! {

/// Hyperbolic three-space over the scalar type `T`. No value of the type can
/// be made: it is a name for the geometry.
pub struct Hyperbolic3<T> {
    phantom: PhantomData<T>,
}

impl<T: Float + FloatConst + 'static> Hyperbolic3<T> {
    /// `m` is the matrix `[[1, pos], [0, 1]]`.
    pub open spec fn is_horosphere(pos: Complex<T>, m: Moebius<T>) -> bool {
        is_complex_one(m.a) && m.b == pos && is_complex_zero(m.c) && is_complex_one(m.d)
    }

    /// `x` is `1 + |a - b|^2 / (2 hz(a) hz(b))`, the hyperbolic cosine of
    /// the distance between `a` and `b`.
    pub open spec fn is_cosh_distance(a: Quaternion<T>, b: Quaternion<T>, x: T) -> bool {
        exists|d: Quaternion<T>, n: T, t: T, p: T, q: T, f: T, o: T|
            is_quaternion_diff(a, b, d) && is_quaternion_norm_sqr(d, n) && is_two(t) && is_product(
                t,
                a.spec_hz(),
                p,
            ) && is_product(p, b.spec_hz(), q) && is_quotient(n, q, f) && is_one(o) && is_sum(
                o,
                f,
                x,
            )
    }

    /// `r` is `ln(x + sqrt(x^2 - 1))`, the inverse hyperbolic cosine of `x`.
    pub open spec fn is_acosh(x: T, r: T) -> bool {
        exists|xx: T, o: T, m: T, s: T, t: T|
            is_product(x, x, xx) && is_one(o) && is_diff(xx, o, m) && is_sqrt(m, s) && is_sum(
                x,
                s,
                t,
            ) && is_ln(t, r)
    }

    /// `r` is `hz(h) / hz(p) * v`.
    pub open spec fn is_height_scaled(h: Quaternion<T>, p: Quaternion<T>, v: T, r: T) -> bool {
        exists|q: T| is_quotient(h.spec_hz(), p.spec_hz(), q) && is_product(q, v, r)
    }

    /// `r` is `hz(d) - |hxy(p) - hxy(h)| / hz(p) * |hxy(d)|`.
    pub open spec fn is_height_moved(
        p: Quaternion<T>,
        d: Quaternion<T>,
        h: Quaternion<T>,
        r: T,
    ) -> bool {
        exists|c: Complex<T>, n: T, q: T, m: T, t: T|
            is_complex_diff(p.spec_hxy(), h.spec_hxy(), c) && is_complex_norm(c, n) && is_quotient(
                n,
                p.spec_hz(),
                q,
            ) && is_complex_norm(d.spec_hxy(), m) && is_product(q, m, t) && is_diff(
                d.spec_hz(),
                t,
                r,
            )
    }

    /// `phi` is `-atan2(hy(q), hx(q))`: the angle about the vertical axis
    /// that turns `q` into the half-plane `hy = 0`, `hx >= 0`.
    pub open spec fn is_azimuth(q: Quaternion<T>, phi: T) -> bool {
        exists|a: T| is_atan2(q.spec_hy(), q.spec_hx(), a) && is_neg(a, phi)
    }

    /// `theta` is `-atan2(2 |hxy(q)|, |q|^2 - 1)`: the polar angle of the
    /// point `q`, as it is seen from the origin.
    pub open spec fn is_polar_of_pos(q: Quaternion<T>, theta: T) -> bool {
        exists|t: T, n: T, p: T, s: T, o: T, d: T, a: T|
            is_two(t) && is_complex_norm(q.spec_hxy(), n) && is_product(t, n, p)
                && is_quaternion_norm_sqr(q, s) && is_one(o) && is_diff(s, o, d) && is_atan2(
                p,
                d,
                a,
            ) && is_neg(a, theta)
    }

    /// `theta` is `-atan2(|hxy(q)|, hz(q))`: the polar angle of the
    /// direction `q`.
    pub open spec fn is_polar_of_dir(q: Quaternion<T>, theta: T) -> bool {
        exists|n: T, a: T|
            is_complex_norm(q.spec_hxy(), n) && is_atan2(n, q.spec_hz(), a) && is_neg(a, theta)
    }

    /// `m` is the rotation about the second axis by `theta` after the
    /// rotation about the third axis by `phi`.
    pub open spec fn is_look_at(theta: T, phi: T, m: Moebius<T>) -> bool {
        exists|ry: Moebius<T>, rz: Moebius<T>|
            Self::is_rotate_y(theta, ry) && Self::is_rotate_z(phi, rz) && is_moebius_chain(
                ry,
                rz,
                m,
            )
    }

    /// `m` is the vertical translation by `-dist`, conjugated by the
    /// rotation `a`: `a^-1`, after the translation, after `a`.
    pub open spec fn is_move_along(a: Moebius<T>, dist: T, m: Moebius<T>) -> bool {
        exists|n: T, b: Moebius<T>, i: Moebius<T>, c: Moebius<T>|
            is_neg(dist, n) && Self::is_shift_z(n, b) && is_moebius_inverse(a, i)
                && is_moebius_chain(i, b, c) && is_moebius_chain(c, a, m)
    }

    /// A direction of the half-space that is taken into the flat frame and
    /// back has the coordinates it had.
    pub proof fn lemma_to_local_from_local(
        pos: Quaternion<T>,
        dir: Quaternion<T>,
        flat: Vector<T, 3>,
        back: Quaternion<T>,
    )
        requires
            Self::is_dir_to_local(pos, dir, flat),
            Self::is_dir_from_local(pos, flat, back),
        ensures
            back.spec_hx() == dir.spec_hx(),
            back.spec_hy() == dir.spec_hy(),
            back.spec_hz() == dir.spec_hz(),
    {
    }

    /// The motion along the horosphere through the origin that moves the
    /// origin by `pos` horizontally.
    pub fn horosphere(pos: Complex<T>) -> (m: Moebius<T>)
        ensures
            Self::is_horosphere(pos, m),
    {
        Moebius::new(Complex::one(), pos, Complex::zero(), Complex::one())
    }

    /// The inverse hyperbolic cosine `ln(x + sqrt(x^2 - 1))`.
    fn acosh(x: T) -> (r: T)
        ensures
            Self::is_acosh(x, r),
    {
        let xx = product(x, x);
        let o = one::<T>();
        let m = diff(xx, o);
        let s = sqrt(m);
        let t = sum(x, s);
        ln(t)
    }

    /// The rotation `rotate_y(theta)` after `rotate_z(phi)`.
    fn look_at(theta: T, phi: T) -> (m: Moebius<T>)
        ensures
            Self::is_look_at(theta, phi, m),
    {
        let ry = Self::rotate_y(theta);
        let rz = Self::rotate_z(phi);
        ry.chain(rz)
    }

    /// The translation `shift_z(-dist)` conjugated by `a`.
    fn move_along(a: Moebius<T>, dist: T) -> (m: Moebius<T>)
        ensures
            Self::is_move_along(a, dist, m),
    {
        let n = neg(dist);
        let b = Self::shift_z(n);
        let i = a.inv();
        let c = i.chain(b);
        c.chain(a)
    }
}

impl<T: 'static> Geometry<T> for Hyperbolic3<T> {
    type Pos = Quaternion<T>;

    type Dir = Quaternion<T>;

    type Map = Moebius<T>;

    /// `o` is the point `(0, 0, 1)`.
    open spec fn is_origin(o: Quaternion<T>) -> bool where T: Float + FloatConst {
        is_quaternion_j(o)
    }

    /// `d` is the vertical direction `(0, 0, 1)`.
    open spec fn is_default_dir(d: Quaternion<T>) -> bool where T: Float + FloatConst {
        is_quaternion_j(d)
    }

    /// `r` is the distance between `a` and the origin.
    open spec fn is_length(a: Quaternion<T>, r: T) -> bool where T: Float + FloatConst {
        exists|o: Quaternion<T>| Self::is_origin(o) && Self::is_distance(a, o, r)
    }

    /// `r` is the distance between `a` and `b`:
    /// `arccosh(1 + |a - b|^2 / (2 hz(a) hz(b)))`.
    open spec fn is_distance(a: Quaternion<T>, b: Quaternion<T>, r: T) -> bool where
        T: Float + FloatConst,
     {
        exists|x: T|
            Hyperbolic3::<T>::is_cosh_distance(a, b, x) && Hyperbolic3::<T>::is_acosh(x, r)
    }

    fn origin() -> (o: Quaternion<T>) where T: Float + FloatConst
        ensures
            is_quaternion_j(o),
    {
        Quaternion::j()
    }

    fn default_dir() -> (d: Quaternion<T>) where T: Float + FloatConst
        ensures
            is_quaternion_j(d),
    {
        Quaternion::j()
    }

    fn length(a: Quaternion<T>) -> (r: T) where T: Float + FloatConst
        ensures
            Self::is_length(a, r),
    {
        let o = Self::origin();
        Self::distance(a, o)
    }

    fn distance(a: Quaternion<T>, b: Quaternion<T>) -> (r: T) where T: Float + FloatConst
        ensures
            Self::is_distance(a, b, r),
    {
        let d = a.sub(b);
        let n = d.norm_sqr();
        let t = two::<T>();
        let p = product(t, a.hz());
        let q = product(p, b.hz());
        let f = quotient(n, q);
        let o = one::<T>();
        let x = sum(o, f);
        Hyperbolic3::<T>::acosh(x)
    }
}

impl<T: 'static> Geometry3<T> for Hyperbolic3<T> {
    /// `r` holds the three coordinates of the direction `dir`.
    open spec fn is_dir_to_local(pos: Quaternion<T>, dir: Quaternion<T>, r: Vector<T, 3>) -> bool where
        T: Float + FloatConst,
     {
        r.data@ == seq![dir.spec_hx(), dir.spec_hy(), dir.spec_hz()]
    }

    /// `r` is the direction with the three coordinates `dir` and a zero in
    /// the fourth place.
    open spec fn is_dir_from_local(pos: Quaternion<T>, dir: Vector<T, 3>, r: Quaternion<T>) -> bool where
        T: Float + FloatConst,
     {
        r.spec_hx() == dir.data@[0] && r.spec_hy() == dir.data@[1] && r.spec_hz() == dir.data@[2]
            && is_zero(r.z)
    }

    /// `r` is the direction at `h` of the line that has the direction `d`
    /// at `p`: the horizontal parts of `d` scaled by `hz(h) / hz(p)`, and its
    /// vertical part less `|hxy(p) - hxy(h)| / hz(p) * |hxy(d)|`.
    open spec fn is_dir_when_moved_at_pos(
        p: Quaternion<T>,
        d: Quaternion<T>,
        h: Quaternion<T>,
        r: Quaternion<T>,
    ) -> bool where T: Float + FloatConst {
        Hyperbolic3::<T>::is_height_scaled(h, p, d.spec_hx(), r.spec_hx())
            && Hyperbolic3::<T>::is_height_scaled(h, p, d.spec_hy(), r.spec_hy())
            && Hyperbolic3::<T>::is_height_moved(p, d, h, r.spec_hz()) && is_zero(r.z)
    }

    /// `m` is `[[c, s], [s, c]]` with `c = cosh(dist / 2)` and
    /// `s = sinh(dist / 2)`.
    open spec fn is_shift_x(dist: T, m: Moebius<T>) -> bool where T: Float + FloatConst {
        exists|l: T, c: T, s: T, z: T|
            is_half(dist, l) && is_cosh(l, c) && is_sinh(l, s) && is_zero(z) && m == (Moebius {
                a: Complex { re: c, im: z },
                b: Complex { re: s, im: z },
                c: Complex { re: s, im: z },
                d: Complex { re: c, im: z },
            })
    }

    /// `m` is `[[c, i s], [-i s, c]]` with `c = cosh(dist / 2)` and
    /// `s = sinh(dist / 2)`.
    open spec fn is_shift_y(dist: T, m: Moebius<T>) -> bool where T: Float + FloatConst {
        exists|l: T, c: T, s: T, z: T, n: Complex<T>|
            is_half(dist, l) && is_cosh(l, c) && is_sinh(l, s) && is_zero(z) && is_complex_neg(
                Complex { re: z, im: s },
                n,
            ) && m == (Moebius {
                a: Complex { re: c, im: z },
                b: Complex { re: z, im: s },
                c: n,
                d: Complex { re: c, im: z },
            })
    }

    /// `m` is `[[e, 0], [0, 1 / e]]` with `e = exp(dist / 2)`.
    open spec fn is_shift_z(dist: T, m: Moebius<T>) -> bool where T: Float + FloatConst {
        exists|l: T, e: T, o: T, i: T, z: T|
            is_half(dist, l) && is_exp(l, e) && is_one(o) && is_quotient(o, e, i) && is_zero(z)
                && m == (Moebius {
                a: Complex { re: e, im: z },
                b: Complex { re: z, im: z },
                c: Complex { re: z, im: z },
                d: Complex { re: i, im: z },
            })
    }

    /// `m` is `[[c, i s], [i s, c]]` with `c = cos(angle / 2)` and
    /// `s = sin(angle / 2)`.
    open spec fn is_rotate_x(angle: T, m: Moebius<T>) -> bool where T: Float + FloatConst {
        exists|h: T, c: T, s: T, z: T|
            is_half(angle, h) && is_cos(h, c) && is_sin(h, s) && is_zero(z) && m == (Moebius {
                a: Complex { re: c, im: z },
                b: Complex { re: z, im: s },
                c: Complex { re: z, im: s },
                d: Complex { re: c, im: z },
            })
    }

    /// `m` is `[[c, -s], [s, c]]` with `c = cos(angle / 2)` and
    /// `s = sin(angle / 2)`.
    open spec fn is_rotate_y(angle: T, m: Moebius<T>) -> bool where T: Float + FloatConst {
        exists|h: T, c: T, s: T, z: T, n: Complex<T>|
            is_half(angle, h) && is_cos(h, c) && is_sin(h, s) && is_zero(z) && is_complex_neg(
                Complex { re: s, im: z },
                n,
            ) && m == (Moebius {
                a: Complex { re: c, im: z },
                b: n,
                c: Complex { re: s, im: z },
                d: Complex { re: c, im: z },
            })
    }

    /// `m` is `[[c + i s, 0], [0, c - i s]]` with `c = cos(angle / 2)` and
    /// `s = sin(angle / 2)`.
    open spec fn is_rotate_z(angle: T, m: Moebius<T>) -> bool where T: Float + FloatConst {
        exists|h: T, c: T, s: T, n: T, z: T|
            is_half(angle, h) && is_cos(h, c) && is_sin(h, s) && is_neg(s, n) && is_zero(z) && m
                == (Moebius {
                a: Complex { re: c, im: s },
                b: Complex { re: z, im: z },
                c: Complex { re: z, im: z },
                d: Complex { re: c, im: n },
            })
    }

    /// `m` is the rotation about the second axis after the rotation about
    /// the third axis, by the polar angle and the azimuth of the point
    /// `pos`.
    open spec fn is_look_at_pos(pos: Quaternion<T>, m: Moebius<T>) -> bool where
        T: Float + FloatConst,
     {
        exists|phi: T, theta: T|
            Hyperbolic3::<T>::is_azimuth(pos, phi) && Hyperbolic3::<T>::is_polar_of_pos(pos, theta)
                && Hyperbolic3::<T>::is_look_at(theta, phi, m)
    }

    /// `m` is the rotation about the second axis after the rotation about
    /// the third axis, by the polar angle and the azimuth of the direction
    /// `dir`.
    open spec fn is_look_at_dir(dir: Quaternion<T>, m: Moebius<T>) -> bool where
        T: Float + FloatConst,
     {
        exists|phi: T, theta: T|
            Hyperbolic3::<T>::is_azimuth(dir, phi) && Hyperbolic3::<T>::is_polar_of_dir(dir, theta)
                && Hyperbolic3::<T>::is_look_at(theta, phi, m)
    }

    /// `m` is the vertical translation by minus the distance of `pos`,
    /// conjugated by the rotation that looks at `pos`.
    open spec fn is_move_at_pos(pos: Quaternion<T>, m: Moebius<T>) -> bool where
        T: Float + FloatConst,
     {
        exists|a: Moebius<T>, l: T|
            Self::is_look_at_pos(pos, a) && Self::is_length(pos, l)
                && Hyperbolic3::<T>::is_move_along(a, l, m)
    }

    /// `m` is the vertical translation by `-dist`, conjugated by the
    /// rotation that looks along `dir`.
    open spec fn is_move_at_dir(dir: Quaternion<T>, dist: T, m: Moebius<T>) -> bool where
        T: Float + FloatConst,
     {
        exists|a: Moebius<T>|
            Self::is_look_at_dir(dir, a) && Hyperbolic3::<T>::is_move_along(a, dist, m)
    }

    proof fn lemma_from_local_to_local(
        pos: Quaternion<T>,
        flat: Vector<T, 3>,
        dir: Quaternion<T>,
        back: Vector<T, 3>,
    ) where T: Float + FloatConst {
        assert(back.data@ =~= flat.data@);
    }

    /// The three coordinates of `dir`, as they stand.
    fn dir_to_local(pos: Quaternion<T>, dir: Quaternion<T>) -> (r: Vector<T, 3>) where
        T: Float + FloatConst,

        ensures
            Self::is_dir_to_local(pos, dir, r),
    {
        Vector::new([dir.hx(), dir.hy(), dir.hz()])
    }

    /// The direction with the three coordinates `dir`, as they stand.
    fn dir_from_local(pos: Quaternion<T>, dir: Vector<T, 3>) -> (r: Quaternion<T>) where
        T: Float + FloatConst,

        ensures
            Self::is_dir_from_local(pos, dir, r),
    {
        Quaternion::new(dir.data[0], dir.data[1], dir.data[2], zero())
    }

    fn dir_when_moved_at_pos(
        src_pos: Quaternion<T>,
        src_dir: Quaternion<T>,
        dst_pos: Quaternion<T>,
    ) -> (r: Quaternion<T>) where T: Float + FloatConst
        ensures
            Self::is_dir_when_moved_at_pos(src_pos, src_dir, dst_pos, r),
    {
        let x = product(quotient(dst_pos.hz(), src_pos.hz()), src_dir.hx());
        let y = product(quotient(dst_pos.hz(), src_pos.hz()), src_dir.hy());
        let c = src_pos.hxy().sub(dst_pos.hxy());
        let n = c.norm();
        let q = quotient(n, src_pos.hz());
        let m = src_dir.hxy().norm();
        let t = product(q, m);
        let z = diff(src_dir.hz(), t);
        Quaternion::new(x, y, z, zero())
    }

    fn shift_x(dist: T) -> (m: Moebius<T>) where T: Float + FloatConst
        ensures
            Self::is_shift_x(dist, m),
    {
        let l = half(dist);
        let c = cosh(l);
        let s = sinh(l);
        let z = zero::<T>();
        let c1 = Complex::new(c, z);
        let s1 = Complex::new(s, z);
        Moebius::new(c1, s1, s1, c1)
    }

    fn shift_y(dist: T) -> (m: Moebius<T>) where T: Float + FloatConst
        ensures
            Self::is_shift_y(dist, m),
    {
        let l = half(dist);
        let c = cosh(l);
        let s = sinh(l);
        let z = zero::<T>();
        let c1 = Complex::new(c, z);
        let si = Complex::new(z, s);
        Moebius::new(c1, si, si.neg(), c1)
    }

    fn shift_z(dist: T) -> (m: Moebius<T>) where T: Float + FloatConst
        ensures
            Self::is_shift_z(dist, m),
    {
        let l = half(dist);
        let e = exp(l);
        let o = one::<T>();
        let i = quotient(o, e);
        let z = zero::<T>();
        Moebius::new(Complex::new(e, z), Complex::new(z, z), Complex::new(z, z), Complex::new(i, z))
    }

    fn rotate_x(angle: T) -> (m: Moebius<T>) where T: Float + FloatConst
        ensures
            Self::is_rotate_x(angle, m),
    {
        let h = half(angle);
        let c = cos(h);
        let s = sin(h);
        let z = zero::<T>();
        let c1 = Complex::new(c, z);
        let si = Complex::new(z, s);
        Moebius::new(c1, si, si, c1)
    }

    fn rotate_y(angle: T) -> (m: Moebius<T>) where T: Float + FloatConst
        ensures
            Self::is_rotate_y(angle, m),
    {
        let h = half(angle);
        let c = cos(h);
        let s = sin(h);
        let z = zero::<T>();
        let c1 = Complex::new(c, z);
        let s1 = Complex::new(s, z);
        Moebius::new(c1, s1.neg(), s1, c1)
    }

    fn rotate_z(angle: T) -> (m: Moebius<T>) where T: Float + FloatConst
        ensures
            Self::is_rotate_z(angle, m),
    {
        let h = half(angle);
        let c = cos(h);
        let s = sin(h);
        let n = neg(s);
        let z = zero::<T>();
        Moebius::new(Complex::new(c, s), Complex::new(z, z), Complex::new(z, z), Complex::new(c, n))
    }

    /// The rotation about the origin that lays the point `pos` on the
    /// vertical axis.
    fn look_at_pos(pos: Quaternion<T>) -> (m: Moebius<T>) where T: Float + FloatConst
        ensures
            Self::is_look_at_pos(pos, m),
    {
        let phi = neg(atan2(pos.hy(), pos.hx()));
        let p = product(two::<T>(), pos.hxy().norm());
        let d = diff(pos.norm_sqr(), one::<T>());
        let theta = neg(atan2(p, d));
        Hyperbolic3::<T>::look_at(theta, phi)
    }

    /// The rotation about the origin that turns the direction `dir` upright.
    fn look_at_dir(dir: Quaternion<T>) -> (m: Moebius<T>) where T: Float + FloatConst
        ensures
            Self::is_look_at_dir(dir, m),
    {
        let phi = neg(atan2(dir.hy(), dir.hx()));
        let theta = neg(atan2(dir.hxy().norm(), dir.hz()));
        Hyperbolic3::<T>::look_at(theta, phi)
    }

    /// The translation that takes `pos` to the origin: the vertical shift
    /// by the distance of `pos`, between the rotation that lays `pos` on the
    /// vertical axis and its inverse.
    fn move_at_pos(pos: Quaternion<T>) -> (m: Moebius<T>) where T: Float + FloatConst
        ensures
            Self::is_move_at_pos(pos, m),
    {
        let a = Self::look_at_pos(pos);
        let l = Self::length(pos);
        Hyperbolic3::<T>::move_along(a, l)
    }

    /// The translation that takes the point at the distance `dist` in the
    /// direction `dir` to the origin.
    fn move_at_dir(dir: Quaternion<T>, dist: T) -> (m: Moebius<T>) where T: Float + FloatConst
        ensures
            Self::is_move_at_dir(dir, dist, m),
    {
        let a = Self::look_at_dir(dir);
        Hyperbolic3::<T>::move_along(a, dist)
    }
}

} // verus!
