//! Points, directions and rigid motions of three-dimensional spaces of
//! constant curvature behind one interface: Euclidean space, and hyperbolic
//! space in the Poincare half-space model.
//!
//! A caller picks a geometry (`Euclidean3`, `Hyperbolic3`), builds motions
//! from its generators (shifts and rotations about the axes, look-at,
//! move-at), applies them to positions and directions and composes and
//! inverts them. Both geometries implement `Geometry` and `Geometry3`, and
//! their motions implement `Mapping`, so code can be written once against
//! the traits.
//!
//! # Scalars
//!
//! Every item is generic in the scalar type `T`, a floating-point type of
//! `num_traits`. The verifier knows nothing of such a type: to it a scalar
//! is a value that can be copied and compared for identity, no more. The
//! arithmetic is done by `num_traits` and `vecmat`. What the library itself
//! decides is which operation is applied to which operand in which order,
//! and where each result is put, and that is what its contracts state.
//!
//! They state it with relations. For each operation there is a predicate,
//! such as `scalar::is_exp(x, r)`: "`r` is a value that the exponential
//! yields for `x`". A formula is a chain of them, tied together by the
//! intermediate values, which are quantified: `Hyperbolic3::is_shift_z`
//! says that the matrix has `e` and `1 / e` on its diagonal where `e` is an
//! exponential of a half of the distance. Nothing is said of the numbers
//! themselves: rounding, NaN and infinities are outside these contracts,
//! and so is everything that rests on them, such as the inverse of a motion
//! undoing it.
//!
//! # Composition
//!
//! `a.chain(b)` is the motion that applies `b` first and `a` to what comes
//! out.

pub mod complex;
pub mod euclidean;
pub mod geometry;
pub mod hyperbolic;
pub mod mapping;
pub mod moebius;
pub mod quaternion;
pub mod scalar;
pub mod vector;

pub use complex::Complex;
pub use euclidean::geometry::Euclidean3;
pub use euclidean::mapping::Homogenous3;
pub use euclidean::unit_vector::UnitVector;
pub use geometry::{Geometry, Geometry3};
pub use hyperbolic::geometry::Hyperbolic3;
pub use hyperbolic::poincare::{Poincare3, Poincare3Normal};
pub use mapping::Mapping;
pub use moebius::Moebius;
pub use quaternion::Quaternion;
pub use vector::Vector;
