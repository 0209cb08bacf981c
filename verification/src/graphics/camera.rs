//! The camera the renderer looks through.

use vstd::prelude::*;
use crate::scalar::{Scalar, Vec3, ONE_BITS, ZERO_BITS};

verus! {

/// Where the camera stands, what it looks at, which way is up, and how
/// wide it sees.
#[derive(Clone, Copy, Debug, PartialEq, Eq, Structural)]
pub struct CameraParams {
    pub eye: Vec3,
    pub target: Vec3,
    pub up: Vec3,
    pub fov_y_radians: Scalar,
}

/// Bit pattern of `4.0`.
pub const EYE_HEIGHT_BITS: u32 = 0x4080_0000;

/// Bit pattern of `-4.5`.
pub const EYE_DEPTH_BITS: u32 = 0xC090_0000;

/// Bit pattern of 45 degrees in radians.
pub const FOV_Y_BITS: u32 = 0x3F49_0FDB;

/// Bit pattern of `0.1`, the distance of the near clipping plane.
pub const NEAR_PLANE_BITS: u32 = 0x3DCC_CCCD;

/// Bit pattern of `100.0`, the distance of the far clipping plane.
pub const FAR_PLANE_BITS: u32 = 0x42C8_0000;

impl CameraParams {
    /// The renderer's camera: above and behind the scene at
    /// `(0, 4, -4.5)`, looking at the origin, the y axis up, with a
    /// vertical field of view of 45 degrees.
    pub open spec fn spec_fixed() -> CameraParams {
        CameraParams {
            eye: Vec3 {
                x: Scalar { bits: ZERO_BITS },
                y: Scalar { bits: EYE_HEIGHT_BITS },
                z: Scalar { bits: EYE_DEPTH_BITS },
            },
            target: Vec3 {
                x: Scalar { bits: ZERO_BITS },
                y: Scalar { bits: ZERO_BITS },
                z: Scalar { bits: ZERO_BITS },
            },
            up: Vec3 {
                x: Scalar { bits: ZERO_BITS },
                y: Scalar { bits: ONE_BITS },
                z: Scalar { bits: ZERO_BITS },
            },
            fov_y_radians: Scalar { bits: FOV_Y_BITS },
        }
    }

    /// The renderer's camera. It is set when the renderer is made and
    /// never changes.
    #[verifier::when_used_as_spec(spec_fixed)]
    pub fn fixed() -> (camera: CameraParams)
        ensures
            camera == CameraParams::spec_fixed(),
    {
        let zero = Scalar { bits: ZERO_BITS };
        CameraParams {
            eye: Vec3 {
                x: zero,
                y: Scalar { bits: EYE_HEIGHT_BITS },
                z: Scalar { bits: EYE_DEPTH_BITS },
            },
            target: Vec3 { x: zero, y: zero, z: zero },
            up: Vec3 { x: zero, y: Scalar { bits: ONE_BITS }, z: zero },
            fov_y_radians: Scalar { bits: FOV_Y_BITS },
        }
    }
}

} // verus!
