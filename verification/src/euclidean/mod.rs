pub mod geometry;
pub mod mapping;
pub mod unit_vector;
