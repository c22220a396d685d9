//! A three-component vector over any scalar type, with the arithmetic and
//! geometric operations of 3D rendering and physics code.
//!
//! Each operation is stated component by component over the scalar type's own
//! specification of `+`, `-`, `*` and unary `-`. Where that specification is
//! exact (the integer types), the contracts give the result exactly.

pub mod laws;
pub mod vector;

pub use vector::Vec3;
