//! The free-look camera: position, rotation, field of view, aspect ratio and
//! clip planes, all carried as binary32 bit patterns, with the view and
//! projection matrices derived through the trusted `glam` wrappers.

use vstd::prelude::*;

use crate::linalg::{
    aspect_of, aspect_ratio, axis_angle_quat, f32_mul, f32_prod, mat_from_quat, mat_from_translation, mat_mul,
    mat_perspective, mat_prod, negated_vec3, perspective_mat, quat_mul, quat_from_axis_angle,
    quat_prod, rotation_mat, translation_mat, vec3_neg, Mat4Bits, QuatBits, Vec3Bits, F32_ONE_BITS,
};

verus! {

/// binary32 bit pattern of 5.0, the default distance on the +Z axis.
pub const DEFAULT_POSITION_Z_BITS: u32 = 0x40A0_0000;

/// binary32 bit pattern of 45 degrees in radians, the default field of view.
pub const DEFAULT_FOV_BITS: u32 = 0x3F49_0FDB;

/// binary32 bit pattern of 1.0, the default aspect ratio.
pub const DEFAULT_ASPECT_BITS: u32 = 0x3F80_0000;

/// binary32 bit pattern of 0.1, the near clip distance.
pub const DEFAULT_NEAR_BITS: u32 = 0x3DCC_CCCD;

/// binary32 bit pattern of 100.0, the far clip distance.
pub const DEFAULT_FAR_BITS: u32 = 0x42C8_0000;

/// The identity rotation (x = y = z = 0, w = 1).
pub open spec fn identity_quat() -> QuatBits {
    QuatBits { x: 0, y: 0, z: 0, w: F32_ONE_BITS }
}

/// The world up axis (+Y), which yaw rotates about.
pub open spec fn world_up() -> Vec3Bits {
    Vec3Bits { x: 0, y: F32_ONE_BITS, z: 0 }
}

/// The world right axis (+X), which pitch rotates about.
pub open spec fn world_right() -> Vec3Bits {
    Vec3Bits { x: F32_ONE_BITS, y: 0, z: 0 }
}

/// The free-look camera. Invariantly mutated only by pointer-motion events
/// (rotation) and resize events (aspect); everything else is fixed at the
/// defaults for the life of the process.
#[derive(Clone, Copy, PartialEq, Eq, Structural, Debug)]
pub struct Camera {
    pub position: Vec3Bits,
    pub rotation: QuatBits,
    pub fov: u32,
    pub aspect: u32,
    pub near: u32,
    pub far: u32,
}

impl Camera {
    /// The startup state: at (0, 0, 5) looking with the identity rotation,
    /// 45-degree field of view, square aspect, clip planes 0.1 and 100.
    pub open spec fn spec_default() -> Camera {
        Camera {
            position: Vec3Bits { x: 0, y: 0, z: DEFAULT_POSITION_Z_BITS },
            rotation: identity_quat(),
            fov: DEFAULT_FOV_BITS,
            aspect: DEFAULT_ASPECT_BITS,
            near: DEFAULT_NEAR_BITS,
            far: DEFAULT_FAR_BITS,
        }
    }

    /// The view matrix: translate by the negated position, then rotate.
    pub open spec fn spec_view(self) -> Mat4Bits {
        mat_prod(translation_mat(negated_vec3(self.position)), rotation_mat(self.rotation))
    }

    /// The projection matrix: right-handed perspective from the camera's
    /// field of view, aspect ratio and clip planes.
    pub open spec fn spec_projection(self) -> Mat4Bits {
        perspective_mat(self.fov, self.aspect, self.near, self.far)
    }

    /// The combined matrix uploaded once per frame.
    pub open spec fn spec_view_proj(self) -> Mat4Bits {
        mat_prod(self.spec_projection(), self.spec_view())
    }

    /// The rotation after one pointer-motion event: yaw about world up by
    /// `dx * sensitivity` and pitch about world right by `dy * sensitivity`,
    /// their product left-multiplied onto the current rotation.
    pub open spec fn spec_rotated(self, dx_bits: u32, dy_bits: u32, sensitivity_bits: u32) -> QuatBits {
        quat_prod(
            quat_prod(
                axis_angle_quat(world_up(), f32_prod(dx_bits, sensitivity_bits)),
                axis_angle_quat(world_right(), f32_prod(dy_bits, sensitivity_bits)),
            ),
            self.rotation,
        )
    }

    /// The camera after a resize event: a zero-area size is a no-op, any
    /// other size replaces the aspect ratio with `width / height`.
    pub open spec fn spec_resized(self, width: u32, height: u32) -> Camera {
        if width > 0 && height > 0 {
            Camera { aspect: aspect_of(width, height), ..self }
        } else {
            self
        }
    }

    /// Compose one pointer-motion event onto the rotation. Pitch is not
    /// clamped: repeated input can invert the view, by design.
    pub fn apply_pointer_delta(&mut self, dx_bits: u32, dy_bits: u32, sensitivity_bits: u32)
        ensures
            *final(self) == (Camera {
                rotation: old(self).spec_rotated(dx_bits, dy_bits, sensitivity_bits),
                ..*old(self)
            }),
    {
        let up = Vec3Bits { x: 0, y: F32_ONE_BITS, z: 0 };
        let right = Vec3Bits { x: F32_ONE_BITS, y: 0, z: 0 };
        let yaw = quat_from_axis_angle(&up, f32_mul(dx_bits, sensitivity_bits));
        let pitch = quat_from_axis_angle(&right, f32_mul(dy_bits, sensitivity_bits));
        let turn = quat_mul(&yaw, &pitch);
        self.rotation = quat_mul(&turn, &self.rotation);
    }

    /// React to a resize event: update the aspect ratio, unless the new size
    /// has zero area, which must be a no-op (never a division by zero).
    pub fn apply_resize(&mut self, width: u32, height: u32)
        ensures
            *final(self) == old(self).spec_resized(width, height),
            width == 0 || height == 0 ==> *final(self) == *old(self),
    {
        if width > 0 && height > 0 {
            self.aspect = aspect_ratio(width, height);
        }
    }

    /// The view matrix of the current state; pure, callable any number of
    /// times per frame.
    pub fn view_matrix(&self) -> (m: Mat4Bits)
        ensures
            m == self.spec_view(),
    {
        mat_mul(&mat_from_translation(&vec3_neg(&self.position)), &mat_from_quat(&self.rotation))
    }

    /// The projection matrix of the current state; pure.
    pub fn projection_matrix(&self) -> (m: Mat4Bits)
        ensures
            m == self.spec_projection(),
    {
        mat_perspective(self.fov, self.aspect, self.near, self.far)
    }

    /// The combined `projection * view` matrix uploaded each frame.
    pub fn view_proj_matrix(&self) -> (m: Mat4Bits)
        ensures
            m == self.spec_view_proj(),
    {
        mat_mul(&self.projection_matrix(), &self.view_matrix())
    }
}

impl Default for Camera {
    /// The startup camera, exactly `Camera::spec_default`.
    fn default() -> (c: Camera)
        ensures
            c == Camera::spec_default(),
    {
        Camera {
            position: Vec3Bits { x: 0, y: 0, z: DEFAULT_POSITION_Z_BITS },
            rotation: QuatBits { x: 0, y: 0, z: 0, w: F32_ONE_BITS },
            fov: DEFAULT_FOV_BITS,
            aspect: DEFAULT_ASPECT_BITS,
            near: DEFAULT_NEAR_BITS,
            far: DEFAULT_FAR_BITS,
        }
    }
}

} // verus!
