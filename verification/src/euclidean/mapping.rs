//! Rigid motions of Euclidean three-space: a rotation about the origin
//! followed by a translation.
//!
//! The motion is a translation vector and a rotation quaternion that the
//! verifier can read. The group operations and the action are done by
//! `vecmat`, on its chain of a `Shift` after a `Rotation3`.

use vstd::prelude::*;
use num_traits::{Float, FloatConst};
use vecmat::Quaternion as VmQuaternion;
use vecmat::Transform;
use vecmat::Vector as VmVector;
use vecmat::transform::Chain;
use vecmat::transform::Directional;
use vecmat::transform::Rotation3;
use vecmat::transform::Shift;
use crate::mapping::Mapping;
use crate::quaternion::Quaternion;
use crate::scalar::{is_one, is_zero, one, zero};
use crate::vector::Vector;

verus! {

/// The motion `p -> rotation(p) + shift`.
#[derive(Clone, Copy, Debug, PartialEq)]
pub struct Homogenous3<T> {
    pub shift: Vector<T, 3>,
    pub rotation: Quaternion<T>,
}

/// Calls `vecmat::transform::Rotation3::new`. Nothing is claimed of the
/// value. `vecmat` makes the number two there by a cast into `T` that it
/// unwraps: a cast that the float types of `num_traits` do not refuse.
#[verifier::external_body]
fn vm_rotation_new<T: Float>(axis: Vector<T, 3>, angle: T) -> Quaternion<T>
{
    let (w, x, y, z) = Rotation3::new(VmVector::from(axis.data), angle).into_quaternion().into_tuple();
    Quaternion { w, x, y, z }
}

/// Calls `Transform::apply` of `vecmat::transform::Chain`. Nothing is
/// claimed of the value.
#[verifier::external_body]
fn vm_chain_apply<T: Float>(m: Homogenous3<T>, pos: Vector<T, 3>) -> Vector<T, 3>
{
    let r = m.rotation;
    let r = Rotation3::from_quaternion(VmQuaternion::new(r.w, r.x, r.y, r.z));
    let c = Chain::new(Shift::from_vector(VmVector::from(m.shift.data)), r);
    Vector { data: Transform::apply(&c, VmVector::from(pos.data)).into_array() }
}

/// Calls `Directional::apply_dir` of `vecmat::transform::Chain`. Nothing is
/// claimed of the value.
#[verifier::external_body]
fn vm_chain_apply_dir<T: Float>(m: Homogenous3<T>, pos: Vector<T, 3>, dir: Vector<T, 3>) -> Vector<T, 3>
{
    let r = m.rotation;
    let r = Rotation3::from_quaternion(VmQuaternion::new(r.w, r.x, r.y, r.z));
    let c = Chain::new(Shift::from_vector(VmVector::from(m.shift.data)), r);
    let d = Directional::apply_dir(&c, VmVector::from(pos.data), VmVector::from(dir.data));
    Vector { data: d.into_array() }
}

/// Calls `Directional::apply_normal` of `vecmat::transform::Chain`. Nothing
/// is claimed of the value.
#[verifier::external_body]
fn vm_chain_apply_normal<T: Float>(m: Homogenous3<T>, pos: Vector<T, 3>, normal: Vector<T, 3>) -> Vector<T, 3>
{
    let r = m.rotation;
    let r = Rotation3::from_quaternion(VmQuaternion::new(r.w, r.x, r.y, r.z));
    let c = Chain::new(Shift::from_vector(VmVector::from(m.shift.data)), r);
    let d = Directional::apply_normal(&c, VmVector::from(pos.data), VmVector::from(normal.data));
    Vector { data: d.into_array() }
}

/// Calls `Transform::chain` of `vecmat::transform::Chain`. Nothing is
/// claimed of the value.
#[verifier::external_body]
fn vm_chain_chain<T: Float>(m: Homogenous3<T>, n: Homogenous3<T>) -> Homogenous3<T>
{
    let [r, q] = [m.rotation, n.rotation].map(|r| Rotation3::from_quaternion(VmQuaternion::new(r.w, r.x, r.y, r.z)));
    let [s, t] = [m.shift, n.shift].map(|s| Shift::from_vector(VmVector::from(s.data)));
    let (s, r) = Transform::<VmVector<T, 3>>::chain(Chain::new(s, r), Chain::new(t, q)).split();
    let (w, x, y, z) = r.into_quaternion().into_tuple();
    Homogenous3 { shift: Vector { data: s.into_vector().into_array() }, rotation: Quaternion { w, x, y, z } }
}

/// Calls `Transform::inv` of `vecmat::transform::Chain`. Nothing is claimed
/// of the value.
#[verifier::external_body]
fn vm_chain_inv<T: Float>(m: Homogenous3<T>) -> Homogenous3<T>
{
    let r = m.rotation;
    let r = Rotation3::from_quaternion(VmQuaternion::new(r.w, r.x, r.y, r.z));
    let c = Chain::new(Shift::from_vector(VmVector::from(m.shift.data)), r);
    let (s, r) = Transform::<VmVector<T, 3>>::inv(c).split();
    let (w, x, y, z) = r.into_quaternion().into_tuple();
    Homogenous3 { shift: Vector { data: s.into_vector().into_array() }, rotation: Quaternion { w, x, y, z } }
}

/// `q` is a value that the rotation by `angle` radians about `axis` is
/// given as.
pub closed spec fn is_rotation<T: Float>(axis: Vector<T, 3>, angle: T, q: Quaternion<T>) -> bool {
    call_ensures(vm_rotation_new::<T>, (axis, angle), q)
}

/// `r` is a value that the image of `pos` under `m` is computed as.
pub closed spec fn is_homogenous_image<T: Float>(m: Homogenous3<T>, pos: Vector<T, 3>, r: Vector<T, 3>) -> bool {
    call_ensures(vm_chain_apply::<T>, (m, pos), r)
}

/// `r` is a value that the image under `m` of the direction `dir` at `pos`
/// is computed as.
pub closed spec fn is_homogenous_dir<T: Float>(
    m: Homogenous3<T>,
    pos: Vector<T, 3>,
    dir: Vector<T, 3>,
    r: Vector<T, 3>,
) -> bool {
    call_ensures(vm_chain_apply_dir::<T>, (m, pos, dir), r)
}

/// `r` is a value that the image under `m` of the normal `normal` at `pos`
/// is computed as.
pub closed spec fn is_homogenous_normal<T: Float>(
    m: Homogenous3<T>,
    pos: Vector<T, 3>,
    normal: Vector<T, 3>,
    r: Vector<T, 3>,
) -> bool {
    call_ensures(vm_chain_apply_normal::<T>, (m, pos, normal), r)
}

/// `r` is a value that the composition of `m` after `n` is computed as.
pub closed spec fn is_homogenous_chain<T: Float>(m: Homogenous3<T>, n: Homogenous3<T>, r: Homogenous3<T>) -> bool {
    call_ensures(vm_chain_chain::<T>, (m, n), r)
}

/// `r` is a value that the inverse of `m` is computed as.
pub closed spec fn is_homogenous_inverse<T: Float>(m: Homogenous3<T>, r: Homogenous3<T>) -> bool {
    call_ensures(vm_chain_inv::<T>, (m,), r)
}

/// `v` is the zero vector: three scalar zeros.
pub open spec fn is_zero_vector<T: Float>(v: Vector<T, 3>) -> bool {
    is_zero(v.data@[0]) && is_zero(v.data@[1]) && is_zero(v.data@[2])
}

/// `q` is the rotation that turns nothing: the quaternion one.
pub open spec fn is_no_rotation<T: Float>(q: Quaternion<T>) -> bool {
    is_one(q.w) && is_zero(q.x) && is_zero(q.y) && is_zero(q.z)
}

/// `m` is the identity: no rotation, and a translation by the zero vector.
pub open spec fn is_homogenous_identity<T: Float>(m: Homogenous3<T>) -> bool {
    is_zero_vector(m.shift) && is_no_rotation(m.rotation)
}

/// The zero vector.
pub fn zero_vector<T: Float>() -> (v: Vector<T, 3>)
    ensures
        is_zero_vector(v),
{
    Vector::new([zero(), zero(), zero()])
}

/// The rotation that turns nothing.
pub fn no_rotation<T: Float>() -> (q: Quaternion<T>)
    ensures
        is_no_rotation(q),
{
    Quaternion::new(one(), zero(), zero(), zero())
}

/// The rotation by `angle` radians about `axis`.
pub fn rotation<T: Float>(axis: Vector<T, 3>, angle: T) -> (q: Quaternion<T>)
    ensures
        is_rotation(axis, angle, q),
{
    let f = vm_rotation_new::<T>;
    f(axis, angle)
}

impl<T: Float> Homogenous3<T> {
    /// The rotation `rotation` followed by the translation by `shift`.
    pub fn new(shift: Vector<T, 3>, rotation: Quaternion<T>) -> (m: Self)
        ensures
            m == (Homogenous3 { shift, rotation }),
    {
        Homogenous3 { shift, rotation }
    }
}

impl<T> Mapping<T, Vector<T, 3>> for Homogenous3<T> {
    open spec fn is_identity(m: Self) -> bool where T: Float + FloatConst {
        is_homogenous_identity(m)
    }

    open spec fn is_image(&self, pos: Vector<T, 3>, r: Vector<T, 3>) -> bool where
        T: Float + FloatConst,
     {
        is_homogenous_image(*self, pos, r)
    }

    open spec fn is_dir_image(&self, pos: Vector<T, 3>, dir: Vector<T, 3>, r: Vector<T, 3>) -> bool where
        T: Float + FloatConst,
     {
        is_homogenous_dir(*self, pos, dir, r)
    }

    open spec fn is_normal_image(&self, pos: Vector<T, 3>, normal: Vector<T, 3>, r: Vector<T, 3>) -> bool where
        T: Float + FloatConst,
     {
        is_homogenous_normal(*self, pos, normal, r)
    }

    open spec fn is_chain(self, other: Self, r: Self) -> bool where T: Float + FloatConst {
        is_homogenous_chain(self, other, r)
    }

    open spec fn is_inverse(self, r: Self) -> bool where T: Float + FloatConst {
        is_homogenous_inverse(self, r)
    }

    fn identity() -> (r: Self) where T: Float + FloatConst
        ensures
            is_homogenous_identity(r),
    {
        Homogenous3 { shift: zero_vector(), rotation: no_rotation() }
    }

    fn apply_pos(&self, pos: Vector<T, 3>) -> (r: Vector<T, 3>) where T: Float + FloatConst
        ensures
            is_homogenous_image(*self, pos, r),
    {
        let f = vm_chain_apply::<T>;
        f(*self, pos)
    }

    fn apply_dir(&self, pos: Vector<T, 3>, dir: Vector<T, 3>) -> (r: Vector<T, 3>) where
        T: Float + FloatConst,

        ensures
            is_homogenous_dir(*self, pos, dir, r),
    {
        let f = vm_chain_apply_dir::<T>;
        f(*self, pos, dir)
    }

    fn apply_normal(&self, pos: Vector<T, 3>, normal: Vector<T, 3>) -> (r: Vector<T, 3>) where
        T: Float + FloatConst,

        ensures
            is_homogenous_normal(*self, pos, normal, r),
    {
        let f = vm_chain_apply_normal::<T>;
        f(*self, pos, normal)
    }

    fn chain(self, other: Self) -> (r: Self) where T: Float + FloatConst
        ensures
            is_homogenous_chain(self, other, r),
    {
        let f = vm_chain_chain::<T>;
        f(self, other)
    }

    fn inv(self) -> (r: Self) where T: Float + FloatConst
        ensures
            is_homogenous_inverse(self, r),
    {
        let f = vm_chain_inv::<T>;
        f(self)
    }
}

} // verus!
