//! 4 by 4 matrices for 3d transformations, with integer entries, and the
//! points, 2d matrices and scale factors that they work with.

pub mod laws;
pub mod matrix2d;
pub mod matrix4d;
pub mod model;
pub mod point;
pub mod scale_factor;

pub use matrix2d::{Matrix2D, TypedMatrix2D};
pub use matrix4d::{Matrix4D, TypedMatrix4D};
pub use point::{Point2D, Point3D, Point4D, TypedPoint2D, TypedPoint3D, TypedPoint4D};
pub use scale_factor::ScaleFactor;

use vstd::prelude::*;

verus! {

/// The unit of a matrix or point whose unit of measure is not known.
#[derive(Clone, Copy, PartialEq, Eq, Debug)]
pub struct UnknownUnit;

} // verus!
