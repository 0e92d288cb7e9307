pub mod geometry;
pub mod mapping;
pub mod poincare;
