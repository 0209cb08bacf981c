//! The components an entity may carry, at most one of each.

use vstd::prelude::*;
use crate::scalar::{Quat, Scalar, Vec3};

verus! {

/// Marks an entity whose transform is drawn as the unit cube.
#[derive(Clone, Copy, Debug, PartialEq, Eq, Structural)]
pub struct CubeMeshTag;

/// Spin about the vertical axis, in radians per second.
#[derive(Clone, Copy, Debug, PartialEq, Eq, Structural)]
pub struct SpinY {
    pub speed: Scalar,
}

/// A pose in world space: scale, then rotation, then translation.
#[derive(Clone, Copy, Debug, PartialEq, Eq, Structural)]
pub struct Transform3D {
    pub translation: Vec3,
    pub rotation: Quat,
    pub scale: Vec3,
}

} // verus!
