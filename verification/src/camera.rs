//! Projection configuration of the camera that views a three-dimensional
//! scene. The settings here are plain fixed-point scalars; the projection
//! matrices themselves are computed by the floating-point rendering backend
//! from these values.

use vstd::prelude::*;

verus! {

/// A perspective projection: near and far clipping planes, vertical field
/// of view and aspect ratio, all in fixed point (angles in fixed-point
/// radians).
#[derive(Debug, Clone, Copy, PartialEq, Eq, Structural)]
pub struct PerspectiveSetting {
    pub near: i64,
    pub far: i64,
    pub fovy: i64,
    pub aspect: i64,
}

/// An orthographic projection: the six bounding planes of the viewing box,
/// in fixed-point scene units.
#[derive(Debug, Clone, Copy, PartialEq, Eq, Structural)]
pub struct OrthographicSetting {
    pub left: i64,
    pub right: i64,
    pub bottom: i64,
    pub top: i64,
    pub near: i64,
    pub far: i64,
}

impl OrthographicSetting {
    /// The viewing box with the given bounding planes.
    pub fn new(left: i64, right: i64, bottom: i64, top: i64, near: i64, far: i64) -> (s: Self)
        ensures
            s == (OrthographicSetting { left, right, bottom, top, near, far }),
    {
        Self { left, right, bottom, top, near, far }
    }

    /// The six bounding planes, in declaration order.
    pub fn planes(&self) -> (r: (i64, i64, i64, i64, i64, i64))
        ensures
            *self == (OrthographicSetting {
                left: r.0,
                right: r.1,
                bottom: r.2,
                top: r.3,
                near: r.4,
                far: r.5,
            }),
    {
        (self.left, self.right, self.bottom, self.top, self.near, self.far)
    }
}

/// Which projection the camera applies.
#[derive(Debug, Clone, Copy, PartialEq, Eq, Structural)]
pub enum Projection {
    Perspective(PerspectiveSetting),
    Orthographic(OrthographicSetting),
}

} // verus!
