//! The arithmetic of seeing: from a transform, a camera and a surface to
//! the matrix that the vertex stage multiplies positions by.

use vstd::prelude::*;
use crate::ecs::components::Transform3D;
use crate::graphics::camera::{CameraParams, FAR_PLANE_BITS, NEAR_PLANE_BITS};
use crate::scalar::{Mat4, Quat, Scalar, Vec3};

verus! {

/// The arithmetic of a view: five operations on numbers, which the host
/// supplies. The renderer decides what they are applied to and in which
/// order.
pub struct ViewMath<R, P, L, M, X> {
    /// The quotient of two pixel counts, the first over the second.
    pub ratio: R,
    /// The right-handed perspective projection for a vertical field of
    /// view in radians, an aspect ratio, and the distances of the near and
    /// the far plane, in that order, with depth from -1 to 1.
    pub perspective: P,
    /// The right-handed view matrix of a camera at its first argument that
    /// looks at its second, with its third pointing up.
    pub look_at: L,
    /// The matrix that scales by its first argument, then rotates by its
    /// second, then translates by its third.
    pub placement: M,
    /// The product of two matrices: the one that applies the second
    /// argument first and the first argument after it.
    pub product: X,
}

impl<R, P, L, M, X> ViewMath<R, P, L, M, X> where
    R: Fn(u32, u32) -> Scalar,
    P: Fn(Scalar, Scalar, Scalar, Scalar) -> Mat4,
    L: Fn(Vec3, Vec3, Vec3) -> Mat4,
    M: Fn(Vec3, Quat, Vec3) -> Mat4,
    X: Fn(Mat4, Mat4) -> Mat4,
 {
    /// Each operation accepts every argument.
    pub open spec fn total(&self) -> bool {
        &&& forall|width: u32, height: u32| self.ratio.requires((width, height))
        &&& forall|fov: Scalar, aspect: Scalar, near: Scalar, far: Scalar|
            self.perspective.requires((fov, aspect, near, far))
        &&& forall|eye: Vec3, target: Vec3, up: Vec3| self.look_at.requires((eye, target, up))
        &&& forall|scale: Vec3, rotation: Quat, translation: Vec3|
            self.placement.requires((scale, rotation, translation))
        &&& forall|a: Mat4, b: Mat4| self.product.requires((a, b))
    }

    /// `proj` is the projection of `camera` onto a surface of `width` by
    /// `height` pixels: a perspective with the camera's field of view, the
    /// aspect ratio `width / height`, and the near and far planes at 0.1
    /// and 100.
    pub open spec fn is_projection(
        &self,
        camera: CameraParams,
        width: u32,
        height: u32,
        proj: Mat4,
    ) -> bool {
        exists|aspect: Scalar|
            #![trigger self.ratio.ensures((width, height), aspect)]
            self.ratio.ensures((width, height), aspect) && self.perspective.ensures(
                (
                    camera.fov_y_radians,
                    aspect,
                    Scalar { bits: NEAR_PLANE_BITS },
                    Scalar { bits: FAR_PLANE_BITS },
                ),
                proj,
            )
    }

    /// `view` is the view matrix of `camera`.
    pub open spec fn is_view(&self, camera: CameraParams, view: Mat4) -> bool {
        self.look_at.ensures((camera.eye, camera.target, camera.up), view)
    }

    /// `model` places an object by `transform`: scale, then rotation, then
    /// translation.
    pub open spec fn is_model(&self, transform: Transform3D, model: Mat4) -> bool {
        self.placement.ensures((transform.scale, transform.rotation, transform.translation), model)
    }

    /// `mvp` is projection times view times model, for `camera`, a surface
    /// of `width` by `height` pixels, and `transform`.
    pub open spec fn shows(
        &self,
        camera: CameraParams,
        width: u32,
        height: u32,
        transform: Transform3D,
        mvp: Mat4,
    ) -> bool {
        exists|proj: Mat4, view: Mat4, model: Mat4, proj_view: Mat4|
            #![trigger self.product.ensures((proj, view), proj_view), self.product.ensures((proj_view, model), mvp)]
            self.is_projection(camera, width, height, proj) && self.is_view(camera, view)
                && self.is_model(transform, model) && self.product.ensures(
                (proj, view),
                proj_view,
            ) && self.product.ensures((proj_view, model), mvp)
    }

    /// `shows` as a relation of its own.
    pub open spec fn showing(&self) -> spec_fn(CameraParams, u32, u32, Transform3D, Mat4) -> bool {
        |camera: CameraParams, width: u32, height: u32, transform: Transform3D, mvp: Mat4|
            self.shows(camera, width, height, transform, mvp)
    }
}

} // verus!
