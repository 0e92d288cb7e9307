//! Euclidean three-space.
//!
//! A point and a direction are vectors of three scalars; a motion is a
//! rotation about the origin followed by a translation. The origin is the
//! zero vector and the default direction is `(0, 0, -1)`.

use vstd::prelude::*;
use num_traits::{Float, FloatConst};
use std::marker::PhantomData;
use crate::euclidean::mapping::{
    is_no_rotation, is_rotation, is_zero_vector, no_rotation, rotation, zero_vector, Homogenous3,
};
use crate::geometry::{Geometry, Geometry3};
use crate::scalar::{is_neg, is_one, is_pi, is_zero, neg, one, pi, zero};
use crate::vector::{
    is_vector_diff, is_vector_length, is_vector_neg, is_vector_normalized, is_vector_null,
    is_vector_scaled, is_vector_sum, Vector,
};

verus! {

/// Euclidean three-space over the scalar type `T`. No value of the type can
/// be made: it is a name for the geometry.
pub struct Euclidean3<T> {
    phantom: PhantomData<T>,
}

impl<T: Float + FloatConst + 'static> Euclidean3<T> {
    /// `m` is the translation by `pos`.
    pub open spec fn is_shift(pos: Vector<T, 3>, m: Homogenous3<T>) -> bool {
        m.shift == pos && is_no_rotation(m.rotation)
    }

    /// `m` is the rotation by `angle` radians about `axis`.
    pub open spec fn is_rotate(axis: Vector<T, 3>, angle: T, m: Homogenous3<T>) -> bool {
        is_zero_vector(m.shift) && is_rotation(axis, angle, m.rotation)
    }

    /// `v` has `a` in the place `k` and scalar zeros in the other two.
    pub open spec fn is_along_axis(k: int, a: T, v: Vector<T, 3>) -> bool {
        v.data@[k] == a && forall|i: int| 0 <= i < 3 && i != k ==> is_zero(#[trigger] v.data@[i])
    }

    /// `v` is the unit vector of the axis `k`.
    pub open spec fn is_axis(k: int, v: Vector<T, 3>) -> bool {
        exists|o: T| is_one(o) && Self::is_along_axis(k, o, v)
    }

    /// `m` is the translation by `dist` along the axis `k`.
    pub open spec fn is_shift_along(k: int, dist: T, m: Homogenous3<T>) -> bool {
        exists|v: Vector<T, 3>| Self::is_along_axis(k, dist, v) && Self::is_shift(v, m)
    }

    /// `m` is the rotation by `angle` radians about the axis `k`.
    pub open spec fn is_rotate_about(k: int, angle: T, m: Homogenous3<T>) -> bool {
        exists|axis: Vector<T, 3>| Self::is_axis(k, axis) && Self::is_rotate(axis, angle, m)
    }

    /// `axis` is the unit vector halfway between the default direction and
    /// `dir`: their sum, divided by its norm. Where the sum is the zero
    /// vector, because `dir` is opposite to the default direction, `axis` is
    /// the unit vector of the first axis.
    pub open spec fn is_bisector(dir: Vector<T, 3>, axis: Vector<T, 3>) -> bool {
        exists|d: Vector<T, 3>, s: Vector<T, 3>, b: bool|
            Self::is_default_dir(d) && is_vector_sum(d, dir, s) && is_vector_null(s, b) && (b
                ==> Self::is_axis(0, axis)) && (!b ==> is_vector_normalized(s, axis))
    }

    /// `m` is the rotation by pi radians about `axis`.
    pub open spec fn is_half_turn(axis: Vector<T, 3>, m: Homogenous3<T>) -> bool {
        exists|p: T| is_pi(p) && Self::is_rotate(axis, p, m)
    }

    /// The translation by `pos`.
    fn shift(pos: Vector<T, 3>) -> (m: Homogenous3<T>)
        ensures
            Self::is_shift(pos, m),
    {
        Homogenous3::new(pos, no_rotation())
    }

    /// The rotation by `angle` radians about `axis`.
    fn rotate(axis: Vector<T, 3>, angle: T) -> (m: Homogenous3<T>)
        ensures
            Self::is_rotate(axis, angle, m),
    {
        Homogenous3::new(zero_vector(), rotation(axis, angle))
    }

    /// The vector with `a` in the place `k` and zeros in the other two.
    fn along_axis(k: usize, a: T) -> (v: Vector<T, 3>)
        requires
            k < 3,
        ensures
            Self::is_along_axis(k as int, a, v),
    {
        let z = zero::<T>();
        if k == 0 {
            Vector::new([a, z, z])
        } else if k == 1 {
            Vector::new([z, a, z])
        } else {
            Vector::new([z, z, a])
        }
    }

    /// The unit vector halfway between the default direction and `dir`, or
    /// the first axis where there is none.
    fn bisector(dir: Vector<T, 3>) -> (axis: Vector<T, 3>)
        ensures
            Self::is_bisector(dir, axis),
    {
        let d = Self::default_dir();
        let s = d.add(dir);
        if s.is_null() {
            let axis = Self::along_axis(0, one());
            assert(Self::is_axis(0, axis));
            axis
        } else {
            s.normalize()
        }
    }

    /// The rotation by pi radians about `axis`.
    fn half_turn(axis: Vector<T, 3>) -> (m: Homogenous3<T>)
        ensures
            Self::is_half_turn(axis, m),
    {
        Self::rotate(axis, pi())
    }
}

impl<T: 'static> Geometry<T> for Euclidean3<T> {
    type Pos = Vector<T, 3>;

    type Dir = Vector<T, 3>;

    type Map = Homogenous3<T>;

    /// `o` is the zero vector.
    open spec fn is_origin(o: Vector<T, 3>) -> bool where T: Float + FloatConst {
        is_zero_vector(o)
    }

    /// `d` is `(0, 0, -1)`.
    open spec fn is_default_dir(d: Vector<T, 3>) -> bool where T: Float + FloatConst {
        exists|o: T| is_one(o) && is_neg(o, d.data@[2]) && is_zero(d.data@[0]) && is_zero(d.data@[1])
    }

    /// `r` is the norm `|a|`.
    open spec fn is_length(a: Vector<T, 3>, r: T) -> bool where T: Float + FloatConst {
        is_vector_length(a, r)
    }

    /// `r` is the norm `|a - b|`.
    open spec fn is_distance(a: Vector<T, 3>, b: Vector<T, 3>, r: T) -> bool where
        T: Float + FloatConst,
     {
        exists|d: Vector<T, 3>| is_vector_diff(a, b, d) && is_vector_length(d, r)
    }

    fn origin() -> (o: Vector<T, 3>) where T: Float + FloatConst
        ensures
            is_zero_vector(o),
    {
        zero_vector()
    }

    fn default_dir() -> (d: Vector<T, 3>) where T: Float + FloatConst
        ensures
            Self::is_default_dir(d),
    {
        let o = one::<T>();
        Vector::new([zero(), zero(), neg(o)])
    }

    fn length(a: Vector<T, 3>) -> (r: T) where T: Float + FloatConst
        ensures
            is_vector_length(a, r),
    {
        a.length()
    }

    fn distance(a: Vector<T, 3>, b: Vector<T, 3>) -> (r: T) where T: Float + FloatConst
        ensures
            Self::is_distance(a, b, r),
    {
        a.sub(b).length()
    }
}

impl<T: 'static> Geometry3<T> for Euclidean3<T> {
    /// `r` is `dir`: the tangent frame is the space itself.
    open spec fn is_dir_to_local(pos: Vector<T, 3>, dir: Vector<T, 3>, r: Vector<T, 3>) -> bool where
        T: Float + FloatConst,
     {
        r == dir
    }

    /// `r` is `dir`: the tangent frame is the space itself.
    open spec fn is_dir_from_local(pos: Vector<T, 3>, dir: Vector<T, 3>, r: Vector<T, 3>) -> bool where
        T: Float + FloatConst,
     {
        r == dir
    }

    /// `r` is `src_dir`: a line has one direction everywhere.
    open spec fn is_dir_when_moved_at_pos(
        src_pos: Vector<T, 3>,
        src_dir: Vector<T, 3>,
        dst_pos: Vector<T, 3>,
        r: Vector<T, 3>,
    ) -> bool where T: Float + FloatConst {
        r == src_dir
    }

    /// `m` is the translation by `(dist, 0, 0)`.
    open spec fn is_shift_x(dist: T, m: Homogenous3<T>) -> bool where T: Float + FloatConst {
        Euclidean3::<T>::is_shift_along(0, dist, m)
    }

    /// `m` is the translation by `(0, dist, 0)`.
    open spec fn is_shift_y(dist: T, m: Homogenous3<T>) -> bool where T: Float + FloatConst {
        Euclidean3::<T>::is_shift_along(1, dist, m)
    }

    /// `m` is the translation by `(0, 0, dist)`.
    open spec fn is_shift_z(dist: T, m: Homogenous3<T>) -> bool where T: Float + FloatConst {
        Euclidean3::<T>::is_shift_along(2, dist, m)
    }

    /// `m` is the rotation by `angle` radians about `(1, 0, 0)`.
    open spec fn is_rotate_x(angle: T, m: Homogenous3<T>) -> bool where T: Float + FloatConst {
        Euclidean3::<T>::is_rotate_about(0, angle, m)
    }

    /// `m` is the rotation by `angle` radians about `(0, 1, 0)`.
    open spec fn is_rotate_y(angle: T, m: Homogenous3<T>) -> bool where T: Float + FloatConst {
        Euclidean3::<T>::is_rotate_about(1, angle, m)
    }

    /// `m` is the rotation by `angle` radians about `(0, 0, 1)`.
    open spec fn is_rotate_z(angle: T, m: Homogenous3<T>) -> bool where T: Float + FloatConst {
        Euclidean3::<T>::is_rotate_about(2, angle, m)
    }

    /// `m` is the half turn that swaps the default direction and
    /// `pos / |pos|`.
    open spec fn is_look_at_pos(pos: Vector<T, 3>, m: Homogenous3<T>) -> bool where
        T: Float + FloatConst,
     {
        exists|n: Vector<T, 3>| is_vector_normalized(pos, n) && Self::is_look_at_dir(n, m)
    }

    /// `m` is the half turn about the direction halfway between the default
    /// direction and `dir`: the rotation that swaps the two.
    open spec fn is_look_at_dir(dir: Vector<T, 3>, m: Homogenous3<T>) -> bool where
        T: Float + FloatConst,
     {
        exists|axis: Vector<T, 3>|
            Euclidean3::<T>::is_bisector(dir, axis) && Euclidean3::<T>::is_half_turn(axis, m)
    }

    /// `m` is the translation by `-pos`, which takes `pos` to the origin.
    open spec fn is_move_at_pos(pos: Vector<T, 3>, m: Homogenous3<T>) -> bool where
        T: Float + FloatConst,
     {
        exists|n: Vector<T, 3>| is_vector_neg(pos, n) && Euclidean3::<T>::is_shift(n, m)
    }

    /// `m` is the translation by `-(dir * dist)`.
    open spec fn is_move_at_dir(dir: Vector<T, 3>, dist: T, m: Homogenous3<T>) -> bool where
        T: Float + FloatConst,
     {
        exists|p: Vector<T, 3>| is_vector_scaled(dir, dist, p) && Self::is_move_at_pos(p, m)
    }

    proof fn lemma_from_local_to_local(
        pos: Vector<T, 3>,
        flat: Vector<T, 3>,
        dir: Vector<T, 3>,
        back: Vector<T, 3>,
    ) where T: Float + FloatConst {
    }

    fn dir_to_local(pos: Vector<T, 3>, dir: Vector<T, 3>) -> (r: Vector<T, 3>) where
        T: Float + FloatConst,

        ensures
            r == dir,
    {
        dir
    }

    fn dir_from_local(pos: Vector<T, 3>, dir: Vector<T, 3>) -> (r: Vector<T, 3>) where
        T: Float + FloatConst,

        ensures
            r == dir,
    {
        dir
    }

    fn dir_when_moved_at_pos(src_pos: Vector<T, 3>, src_dir: Vector<T, 3>, dst_pos: Vector<T, 3>) -> (r:
        Vector<T, 3>) where T: Float + FloatConst
        ensures
            r == src_dir,
    {
        src_dir
    }

    fn shift_x(dist: T) -> (m: Homogenous3<T>) where T: Float + FloatConst
        ensures
            Euclidean3::<T>::is_shift_along(0, dist, m),
    {
        Euclidean3::<T>::shift(Euclidean3::<T>::along_axis(0, dist))
    }

    fn shift_y(dist: T) -> (m: Homogenous3<T>) where T: Float + FloatConst
        ensures
            Euclidean3::<T>::is_shift_along(1, dist, m),
    {
        Euclidean3::<T>::shift(Euclidean3::<T>::along_axis(1, dist))
    }

    fn shift_z(dist: T) -> (m: Homogenous3<T>) where T: Float + FloatConst
        ensures
            Euclidean3::<T>::is_shift_along(2, dist, m),
    {
        Euclidean3::<T>::shift(Euclidean3::<T>::along_axis(2, dist))
    }

    fn rotate_x(angle: T) -> (m: Homogenous3<T>) where T: Float + FloatConst
        ensures
            Euclidean3::<T>::is_rotate_about(0, angle, m),
    {
        let axis = Euclidean3::<T>::along_axis(0, one());
        assert(Euclidean3::<T>::is_axis(0, axis));
        Euclidean3::<T>::rotate(axis, angle)
    }

    fn rotate_y(angle: T) -> (m: Homogenous3<T>) where T: Float + FloatConst
        ensures
            Euclidean3::<T>::is_rotate_about(1, angle, m),
    {
        let axis = Euclidean3::<T>::along_axis(1, one());
        assert(Euclidean3::<T>::is_axis(1, axis));
        Euclidean3::<T>::rotate(axis, angle)
    }

    fn rotate_z(angle: T) -> (m: Homogenous3<T>) where T: Float + FloatConst
        ensures
            Euclidean3::<T>::is_rotate_about(2, angle, m),
    {
        let axis = Euclidean3::<T>::along_axis(2, one());
        assert(Euclidean3::<T>::is_axis(2, axis));
        Euclidean3::<T>::rotate(axis, angle)
    }

    /// The rotation about the origin that lays `pos` on the ray of the
    /// default direction, with its length kept, and the default direction on
    /// the ray of `pos`.
    fn look_at_pos(pos: Vector<T, 3>) -> (m: Homogenous3<T>) where T: Float + FloatConst
        ensures
            Self::is_look_at_pos(pos, m),
    {
        Self::look_at_dir(pos.normalize())
    }

    /// The rotation about the origin that turns `dir` into the default
    /// direction, and the default direction into `dir`: the half turn about
    /// the direction halfway between the two. Where `dir` is opposite to the
    /// default direction, it is the half turn about the first axis.
    fn look_at_dir(dir: Vector<T, 3>) -> (m: Homogenous3<T>) where T: Float + FloatConst
        ensures
            Self::is_look_at_dir(dir, m),
    {
        let axis = Euclidean3::<T>::bisector(dir);
        Euclidean3::<T>::half_turn(axis)
    }

    /// The translation by `-pos`, which takes `pos` to the origin.
    fn move_at_pos(pos: Vector<T, 3>) -> (m: Homogenous3<T>) where T: Float + FloatConst
        ensures
            Self::is_move_at_pos(pos, m),
    {
        Euclidean3::<T>::shift(pos.neg())
    }

    /// The translation by `-(dir * dist)`.
    fn move_at_dir(dir: Vector<T, 3>, dist: T) -> (m: Homogenous3<T>) where T: Float + FloatConst
        ensures
            Self::is_move_at_dir(dir, dist, m),
    {
        Self::move_at_pos(dir.scale(dist))
    }
}

} // verus!
