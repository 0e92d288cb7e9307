//! Directions of unit length.

use vstd::prelude::*;
use num_traits::Float;
use crate::vector::{is_vector_normalized, Vector};

verus! {

/// A vector that is meant to have the norm one.
///
/// `from_vec` divides by the norm, so what it holds has the norm one up to
/// rounding; `from_vec_unchecked` takes the caller's word for it.
pub struct UnitVector<T, const N: usize> {
    vec: Vector<T, N>,
}

impl<T, const N: usize> UnitVector<T, N> {
    /// The vector that is held.
    pub closed spec fn view(&self) -> Vector<T, N> {
        self.vec
    }

    /// Holds `vec` as it is. The caller sees to it that its norm is one:
    /// nothing here looks at it.
    pub fn from_vec_unchecked(vec: Vector<T, N>) -> (u: Self)
        ensures
            u@ == vec,
    {
        UnitVector { vec }
    }

    /// The vector that is held.
    pub fn into_vec(self) -> (v: Vector<T, N>)
        ensures
            v == self@,
    {
        self.vec
    }

    /// The vector that is held.
    pub fn as_vec(&self) -> (v: &Vector<T, N>)
        ensures
            *v == self@,
    {
        &self.vec
    }
}

impl<T: Float, const N: usize> UnitVector<T, N> {
    /// Holds `vec / |vec|`. For the zero vector that is a vector of NaN; the
    /// vector with no component is held as it is.
    pub fn from_vec(vec: Vector<T, N>) -> (u: Self)
        ensures
            N > 0 ==> is_vector_normalized(vec, u@),
            N == 0 ==> u@ == vec,
    {
        UnitVector { vec: vec.normalize() }
    }
}

impl<T, const N: usize> From<UnitVector<T, N>> for Vector<T, N> {
    fn from(uvec: UnitVector<T, N>) -> (v: Self) {
        uvec.into_vec()
    }
}

impl<T, const N: usize> vstd::std_specs::convert::FromSpecImpl<UnitVector<T, N>> for Vector<T, N> {
    open spec fn obeys_from_spec() -> bool {
        true
    }

    open spec fn from_spec(uvec: UnitVector<T, N>) -> Self {
        uvec@
    }
}

impl<'a, T, const N: usize> From<&'a UnitVector<T, N>> for &'a Vector<T, N> {
    fn from(uvec: &'a UnitVector<T, N>) -> (v: Self) {
        uvec.as_vec()
    }
}

impl<'a, T, const N: usize> vstd::std_specs::convert::FromSpecImpl<&'a UnitVector<T, N>> for &'a Vector<T, N> {
    open spec fn obeys_from_spec() -> bool {
        true
    }

    open spec fn from_spec(uvec: &'a UnitVector<T, N>) -> Self {
        &uvec@
    }
}

} // verus!
