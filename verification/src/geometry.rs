//! The description of a space: its points, its directions, its metric and
//! the motions that generate its transformation group.
//!
//! Each operation comes with a predicate that says which results it can
//! give, and each geometry says what the predicate is for it: the formula,
//! as a chain of scalar and vector operations.

use vstd::prelude::*;
use num_traits::{Float, FloatConst};
use crate::mapping::Mapping;
use crate::vector::Vector;

verus! {

/// A geometry of any dimension over the scalar type `T`.
pub trait Geometry<T>: 'static {
    /// A point of the space.
    type Pos;

    /// A direction at a point of the space.
    type Dir;

    /// A motion of the space.
    type Map: Mapping<T, Self::Pos, Self::Dir>;

    /// `o` is a value that the point of origin is given as.
    spec fn is_origin(o: Self::Pos) -> bool where T: Float + FloatConst;

    /// `d` is a value that the default direction is given as.
    spec fn is_default_dir(d: Self::Dir) -> bool where T: Float + FloatConst;

    /// `r` is a value that the distance from the origin to `a` is computed
    /// as.
    spec fn is_length(a: Self::Pos, r: T) -> bool where T: Float + FloatConst;

    /// `r` is a value that the distance between `a` and `b` is computed as.
    spec fn is_distance(a: Self::Pos, b: Self::Pos, r: T) -> bool where T: Float + FloatConst;

    /// The point of origin.
    fn origin() -> (o: Self::Pos) where T: Float + FloatConst
        ensures
            Self::is_origin(o),
    ;

    /// The default direction at the point of origin.
    fn default_dir() -> (d: Self::Dir) where T: Float + FloatConst
        ensures
            Self::is_default_dir(d),
    ;

    /// The distance from the origin to `a`.
    fn length(a: Self::Pos) -> (r: T) where T: Float + FloatConst
        ensures
            Self::is_length(a, r),
    ;

    /// The distance between `a` and `b`.
    fn distance(a: Self::Pos, b: Self::Pos) -> (r: T) where T: Float + FloatConst
        ensures
            Self::is_distance(a, b, r),
    ;
}

/// A three-dimensional geometry over the scalar type `T`.
pub trait Geometry3<T>: Geometry<T> {
    /// `r` is the direction `dir` at `pos`, in the flat tangent frame.
    spec fn is_dir_to_local(pos: Self::Pos, dir: Self::Dir, r: Vector<T, 3>) -> bool where
        T: Float + FloatConst,
    ;

    /// `r` is the direction at `pos` that `dir` stands for in the flat
    /// tangent frame.
    spec fn is_dir_from_local(pos: Self::Pos, dir: Vector<T, 3>, r: Self::Dir) -> bool where
        T: Float + FloatConst,
    ;

    /// `r` is a value that the direction at `dst_pos` of the line with the
    /// direction `src_dir` at `src_pos` is computed as.
    spec fn is_dir_when_moved_at_pos(
        src_pos: Self::Pos,
        src_dir: Self::Dir,
        dst_pos: Self::Pos,
        r: Self::Dir,
    ) -> bool where T: Float + FloatConst;

    /// `m` is a value that the translation by `dist` along the first axis is
    /// given as.
    spec fn is_shift_x(dist: T, m: Self::Map) -> bool where T: Float + FloatConst;

    /// `m` is a value that the translation by `dist` along the second axis
    /// is given as.
    spec fn is_shift_y(dist: T, m: Self::Map) -> bool where T: Float + FloatConst;

    /// `m` is a value that the translation by `dist` along the third axis is
    /// given as.
    spec fn is_shift_z(dist: T, m: Self::Map) -> bool where T: Float + FloatConst;

    /// `m` is a value that the rotation by `angle` about the first axis is
    /// given as.
    spec fn is_rotate_x(angle: T, m: Self::Map) -> bool where T: Float + FloatConst;

    /// `m` is a value that the rotation by `angle` about the second axis is
    /// given as.
    spec fn is_rotate_y(angle: T, m: Self::Map) -> bool where T: Float + FloatConst;

    /// `m` is a value that the rotation by `angle` about the third axis is
    /// given as.
    spec fn is_rotate_z(angle: T, m: Self::Map) -> bool where T: Float + FloatConst;

    /// `m` is a value that the rotation that lays `pos` on the line of the
    /// default direction is given as.
    spec fn is_look_at_pos(pos: Self::Pos, m: Self::Map) -> bool where T: Float + FloatConst;

    /// `m` is a value that the rotation that turns `dir` into the default
    /// direction is given as.
    spec fn is_look_at_dir(dir: Self::Dir, m: Self::Map) -> bool where T: Float + FloatConst;

    /// `m` is a value that the translation of `pos` to the origin is given
    /// as.
    spec fn is_move_at_pos(pos: Self::Pos, m: Self::Map) -> bool where T: Float + FloatConst;

    /// `m` is a value that the translation to the origin of the point at the
    /// distance `dist` in the direction `dir` is given as.
    spec fn is_move_at_dir(dir: Self::Dir, dist: T, m: Self::Map) -> bool where
        T: Float + FloatConst,
    ;

    /// A flat direction that is taken into the space and back has the
    /// components it had.
    proof fn lemma_from_local_to_local(
        pos: Self::Pos,
        flat: Vector<T, 3>,
        dir: Self::Dir,
        back: Vector<T, 3>,
    ) where T: Float + FloatConst
        requires
            Self::is_dir_from_local(pos, flat, dir),
            Self::is_dir_to_local(pos, dir, back),
        ensures
            back.data@ == flat.data@,
    ;

    /// The direction `dir` at `pos`, in the flat tangent frame.
    fn dir_to_local(pos: Self::Pos, dir: Self::Dir) -> (r: Vector<T, 3>) where T: Float + FloatConst
        ensures
            Self::is_dir_to_local(pos, dir, r),
    ;

    /// The direction at `pos` that `dir` stands for in the flat tangent frame.
    fn dir_from_local(pos: Self::Pos, dir: Vector<T, 3>) -> (r: Self::Dir) where T: Float + FloatConst
        ensures
            Self::is_dir_from_local(pos, dir, r),
    ;

    /// The direction at `dst_pos` of the line that has the direction
    /// `src_dir` at `src_pos`.
    fn dir_when_moved_at_pos(src_pos: Self::Pos, src_dir: Self::Dir, dst_pos: Self::Pos) -> (r:
        Self::Dir) where T: Float + FloatConst
        ensures
            Self::is_dir_when_moved_at_pos(src_pos, src_dir, dst_pos, r),
    ;

    /// The translation by `dist` along the first axis at the origin.
    fn shift_x(dist: T) -> (m: Self::Map) where T: Float + FloatConst
        ensures
            Self::is_shift_x(dist, m),
    ;

    /// The translation by `dist` along the second axis at the origin.
    fn shift_y(dist: T) -> (m: Self::Map) where T: Float + FloatConst
        ensures
            Self::is_shift_y(dist, m),
    ;

    /// The translation by `dist` along the third axis at the origin.
    fn shift_z(dist: T) -> (m: Self::Map) where T: Float + FloatConst
        ensures
            Self::is_shift_z(dist, m),
    ;

    /// The rotation by `angle` radians about the first axis at the origin.
    fn rotate_x(angle: T) -> (m: Self::Map) where T: Float + FloatConst
        ensures
            Self::is_rotate_x(angle, m),
    ;

    /// The rotation by `angle` radians about the second axis at the origin.
    fn rotate_y(angle: T) -> (m: Self::Map) where T: Float + FloatConst
        ensures
            Self::is_rotate_y(angle, m),
    ;

    /// The rotation by `angle` radians about the third axis at the origin.
    fn rotate_z(angle: T) -> (m: Self::Map) where T: Float + FloatConst
        ensures
            Self::is_rotate_z(angle, m),
    ;

    /// A rotation about the origin that lays `pos` on the line from the
    /// origin along the default direction.
    fn look_at_pos(pos: Self::Pos) -> (m: Self::Map) where T: Float + FloatConst
        ensures
            Self::is_look_at_pos(pos, m),
    ;

    /// A rotation about the origin that turns `dir` into the default
    /// direction.
    fn look_at_dir(dir: Self::Dir) -> (m: Self::Map) where T: Float + FloatConst
        ensures
            Self::is_look_at_dir(dir, m),
    ;

    /// The translation along the line through the origin and `pos` that
    /// takes `pos` to the origin. A rotation about that line is not kept.
    fn move_at_pos(pos: Self::Pos) -> (m: Self::Map) where T: Float + FloatConst
        ensures
            Self::is_move_at_pos(pos, m),
    ;

    /// The same translation, for the point at the distance `dist` from the
    /// origin in the direction `dir`.
    fn move_at_dir(dir: Self::Dir, dist: T) -> (m: Self::Map) where T: Float + FloatConst
        ensures
            Self::is_move_at_dir(dir, dist, m),
    ;
}

} // verus!
