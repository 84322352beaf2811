//! Geometry for a renderer: vectors, points, normals, boxes, 4×4 matrices and
//! affine transforms over a scalar of the caller's choice.
//!
//! The scalar is any type with the capability `value::Value`. The library
//! itself provides it for `i32`; a floating-point scalar is provided by the
//! program that uses the library. Every function states what it returns in
//! terms of the scalar's own operations, so that the statement holds for
//! integers and floats alike, and states as a precondition which of those
//! operations must be defined: for `i32`, that nothing leaves the range and
//! nothing is divided by zero.
//!
//! The modules `exact`, `exact_inverse` and `exact_bounds` hold what is true
//! of the integer instance beyond that: that the identity matrix is neutral,
//! that the inverse found by elimination is an inverse where the elimination
//! divides without remainder, that a matrix with a row of zeros is reported as
//! singular, and that a box carried through an affine transform holds every
//! point of the box carried through the same transform.
pub mod bounds2;
pub mod bounds3;
pub mod elimination;
pub mod exact;
pub mod exact_bounds;
pub mod exact_inverse;
pub mod grid;
pub mod matrix44;
pub mod medium;
pub mod normal3;
pub mod point2;
pub mod point3;
pub mod ray;
pub mod ray_differential;
pub mod transform;
pub mod transformable;
pub mod utils;
pub mod value;
pub mod vector2;
pub mod vector3;

use vstd::prelude::*;

verus! {

pub type Bounds2i = bounds2::Bounds2<i32>;

pub type Bounds3i = bounds3::Bounds3<i32>;

pub type Point2i = point2::Point2<i32>;

pub type Point3i = point3::Point3<i32>;

pub type Vector2i = vector2::Vector2<i32>;

pub type Vector3i = vector3::Vector3<i32>;

} // verus!
