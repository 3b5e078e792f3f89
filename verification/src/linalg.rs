//! Quaternions, vectors and matrices carried as binary32 bit patterns.
//!
//! The library never computes with floating point itself: every
//! floating-point operation it needs is one `glam` call behind a trusted
//! wrapper, and the wrapper's result is named by an uninterpreted spec
//! function of the operands' bit patterns, so that the callers' contracts
//! pin down exactly which composition of operations produced a value.

use vstd::prelude::*;

verus! {

/// binary32 bit pattern of 1.0.
pub const F32_ONE_BITS: u32 = 0x3F80_0000;

/// The sign bit of a binary32 value: negation flips this bit and nothing
/// else.
pub const F32_SIGN_BIT: u32 = 0x8000_0000;

/// A quaternion as four binary32 bit patterns (x, y, z, w).
#[derive(Clone, Copy, PartialEq, Eq, Structural, Debug)]
pub struct QuatBits {
    pub x: u32,
    pub y: u32,
    pub z: u32,
    pub w: u32,
}

/// A 3-vector as three binary32 bit patterns.
#[derive(Clone, Copy, PartialEq, Eq, Structural, Debug)]
pub struct Vec3Bits {
    pub x: u32,
    pub y: u32,
    pub z: u32,
}

/// A 4x4 matrix as sixteen binary32 bit patterns in column-major order.
#[derive(Clone, Copy, Debug)]
pub struct Mat4Bits {
    pub entries: [u32; 16],
}

/// What glam's quaternion product returns for the two operands.
pub uninterp spec fn quat_prod(a: QuatBits, b: QuatBits) -> QuatBits;

/// What glam's axis-angle quaternion constructor returns for the axis and
/// the angle (in radians).
pub uninterp spec fn axis_angle_quat(axis: Vec3Bits, angle_bits: u32) -> QuatBits;

/// What glam's quaternion-to-matrix conversion returns for the quaternion.
pub uninterp spec fn rotation_mat(q: QuatBits) -> Mat4Bits;

/// What glam's translation-matrix constructor returns for the offset.
pub uninterp spec fn translation_mat(t: Vec3Bits) -> Mat4Bits;

/// What glam's matrix product returns for the two operands.
pub uninterp spec fn mat_prod(a: Mat4Bits, b: Mat4Bits) -> Mat4Bits;

/// What glam's right-handed perspective projection returns for the vertical
/// field of view (radians), aspect ratio, and near/far clip distances.
pub uninterp spec fn perspective_mat(
    fov_y_bits: u32,
    aspect_bits: u32,
    near_bits: u32,
    far_bits: u32,
) -> Mat4Bits;

/// What binary32 multiplication returns for the two operands.
pub uninterp spec fn f32_prod(a_bits: u32, b_bits: u32) -> u32;

/// The binary32 quotient `width / height` of the two integer extents.
pub uninterp spec fn aspect_of(width: u32, height: u32) -> u32;

/// The bit pattern of the negated binary32 value: IEEE 754 negation flips
/// the sign bit alone.
pub open spec fn negated_bits(b: u32) -> u32 {
    b ^ F32_SIGN_BIT
}

/// Componentwise binary32 negation of a 3-vector.
pub open spec fn negated_vec3(v: Vec3Bits) -> Vec3Bits {
    Vec3Bits { x: negated_bits(v.x), y: negated_bits(v.y), z: negated_bits(v.z) }
}

/// Componentwise negation; binary32 negation is exactly a sign-bit flip,
/// so this needs no floating point at all.
pub fn vec3_neg(v: &Vec3Bits) -> (r: Vec3Bits)
    ensures
        r == negated_vec3(*v),
{
    Vec3Bits { x: v.x ^ F32_SIGN_BIT, y: v.y ^ F32_SIGN_BIT, z: v.z ^ F32_SIGN_BIT }
}

/// Relies on glam's quaternion product (`Quat * Quat`), a pure function of
/// the operands' bit patterns; `bytemuck::cast` converts bits to floats and
/// back unchanged.
#[verifier::external_body]
pub(crate) fn quat_mul(a: &QuatBits, b: &QuatBits) -> (r: QuatBits)
    ensures
        r == quat_prod(*a, *b),
{
    let qa = glam::Quat::from_array(bytemuck::cast([a.x, a.y, a.z, a.w]));
    let qb = glam::Quat::from_array(bytemuck::cast([b.x, b.y, b.z, b.w]));
    let out: [u32; 4] = bytemuck::cast((qa * qb).to_array());
    QuatBits { x: out[0], y: out[1], z: out[2], w: out[3] }
}

/// Relies on glam::Quat::from_axis_angle, a pure function of the axis and
/// angle bit patterns.
#[verifier::external_body]
pub(crate) fn quat_from_axis_angle(axis: &Vec3Bits, angle_bits: u32) -> (r: QuatBits)
    ensures
        r == axis_angle_quat(*axis, angle_bits),
{
    let ax = glam::Vec3::from_array(bytemuck::cast([axis.x, axis.y, axis.z]));
    let q = glam::Quat::from_axis_angle(ax, bytemuck::cast(angle_bits));
    let out: [u32; 4] = bytemuck::cast(q.to_array());
    QuatBits { x: out[0], y: out[1], z: out[2], w: out[3] }
}

/// Relies on glam::Mat4::from_quat, a pure function of the quaternion's bit
/// patterns.
#[verifier::external_body]
pub(crate) fn mat_from_quat(q: &QuatBits) -> (r: Mat4Bits)
    ensures
        r == rotation_mat(*q),
{
    let quat = glam::Quat::from_array(bytemuck::cast([q.x, q.y, q.z, q.w]));
    Mat4Bits { entries: bytemuck::cast(glam::Mat4::from_quat(quat).to_cols_array()) }
}

/// Relies on glam::Mat4::from_translation, a pure function of the offset's
/// bit patterns.
#[verifier::external_body]
pub(crate) fn mat_from_translation(t: &Vec3Bits) -> (r: Mat4Bits)
    ensures
        r == translation_mat(*t),
{
    let v = glam::Vec3::from_array(bytemuck::cast([t.x, t.y, t.z]));
    Mat4Bits { entries: bytemuck::cast(glam::Mat4::from_translation(v).to_cols_array()) }
}

/// Relies on glam's matrix product (`Mat4 * Mat4`), a pure function of the
/// operands' bit patterns.
#[verifier::external_body]
pub(crate) fn mat_mul(a: &Mat4Bits, b: &Mat4Bits) -> (r: Mat4Bits)
    ensures
        r == mat_prod(*a, *b),
{
    let ma = glam::Mat4::from_cols_array(&bytemuck::cast(a.entries));
    let mb = glam::Mat4::from_cols_array(&bytemuck::cast(b.entries));
    Mat4Bits { entries: bytemuck::cast((ma * mb).to_cols_array()) }
}

/// Relies on glam::Mat4::perspective_rh, a pure function of the four scalar
/// bit patterns.
#[verifier::external_body]
pub(crate) fn mat_perspective(
    fov_y_bits: u32,
    aspect_bits: u32,
    near_bits: u32,
    far_bits: u32,
) -> (r: Mat4Bits)
    ensures
        r == perspective_mat(fov_y_bits, aspect_bits, near_bits, far_bits),
{
    let m = glam::Mat4::perspective_rh(
        bytemuck::cast(fov_y_bits),
        bytemuck::cast(aspect_bits),
        bytemuck::cast(near_bits),
        bytemuck::cast(far_bits),
    );
    Mat4Bits { entries: bytemuck::cast(m.to_cols_array()) }
}

/// Relies on binary32 multiplication (performed as a glam::Vec2 component
/// product), a pure function of the operands' bit patterns.
#[verifier::external_body]
pub(crate) fn f32_mul(a_bits: u32, b_bits: u32) -> (r: u32)
    ensures
        r == f32_prod(a_bits, b_bits),
{
    let v = glam::Vec2::from_array(bytemuck::cast([a_bits, b_bits]));
    bytemuck::cast(v.x * v.y)
}

/// Relies on glam::UVec2::as_vec2 (exact for window extents, which are far
/// below 2^24) and binary32 division, a pure function of the two extents.
#[verifier::external_body]
pub(crate) fn aspect_ratio(width: u32, height: u32) -> (r: u32)
    requires
        height > 0,
    ensures
        r == aspect_of(width, height),
{
    let wh = glam::UVec2::new(width, height).as_vec2();
    bytemuck::cast(wh.x / wh.y)
}

} // verus!
