//! Arithmetic on IEEE-754 single-precision bit patterns, done by glam.
//!
//! The verifier has no theory of floating-point values, so each
//! operation's result is given a name: an uninterpreted function of the
//! operand bit patterns alone. IEEE-754 arithmetic is deterministic, so
//! the same operands always yield the same bits, on every machine. The
//! executable wrappers convert bit patterns to glam values with
//! `bytemuck::cast`, apply one glam operation, and convert back.

use vstd::prelude::*;

use crate::geom::Quat;
use crate::geom::Vec3;

verus! {

/// The bit pattern of the IEEE-754 sum of two single-precision values.
pub uninterp spec fn sum_bits(a: u32, b: u32) -> u32;

/// The bit pattern of the IEEE-754 difference of two single-precision values.
pub uninterp spec fn diff_bits(a: u32, b: u32) -> u32;

/// The bit pattern of the IEEE-754 quotient of two single-precision values.
pub uninterp spec fn quot_bits(a: u32, b: u32) -> u32;

/// Componentwise IEEE-754 sum of two vectors, as bit patterns.
pub uninterp spec fn vsum_bits(a: (u32, u32, u32), b: (u32, u32, u32)) -> (u32, u32, u32);

/// Componentwise IEEE-754 difference of two vectors, as bit patterns.
pub uninterp spec fn vdiff_bits(a: (u32, u32, u32), b: (u32, u32, u32)) -> (u32, u32, u32);

/// A vector scaled by a single-precision factor, as bit patterns.
pub uninterp spec fn vscale_bits(a: (u32, u32, u32), k: u32) -> (u32, u32, u32);

/// A vector negated componentwise, as bit patterns.
pub uninterp spec fn vneg_bits(a: (u32, u32, u32)) -> (u32, u32, u32);

/// The cross product of two vectors, as bit patterns.
pub uninterp spec fn vcross_bits(a: (u32, u32, u32), b: (u32, u32, u32)) -> (u32, u32, u32);

/// A vector scaled to unit length, as bit patterns. On a zero or
/// otherwise degenerate vector the result holds non-finite components;
/// it is still a function of the operand alone.
pub uninterp spec fn vunit_bits(a: (u32, u32, u32)) -> (u32, u32, u32);

/// A vector rotated by a quaternion, as bit patterns.
pub uninterp spec fn qrot_bits(q: (u32, u32, u32, u32), a: (u32, u32, u32)) -> (u32, u32, u32);

impl Vec3 {
    /// The three component bit patterns of this vector.
    pub open spec fn bits(self) -> (u32, u32, u32) {
        (self.x, self.y, self.z)
    }
}

impl Quat {
    /// The four component bit patterns of this quaternion.
    pub open spec fn bits(self) -> (u32, u32, u32, u32) {
        (self.x, self.y, self.z, self.w)
    }
}

/// The vector with the given component bit patterns.
pub open spec fn v3(t: (u32, u32, u32)) -> Vec3 {
    Vec3 { x: t.0, y: t.1, z: t.2 }
}

/// The sum of two vectors.
pub open spec fn vadd3(a: Vec3, b: Vec3) -> Vec3 {
    v3(vsum_bits(a.bits(), b.bits()))
}

/// The difference of two vectors.
pub open spec fn vsub3(a: Vec3, b: Vec3) -> Vec3 {
    v3(vdiff_bits(a.bits(), b.bits()))
}

/// A vector scaled by a factor.
pub open spec fn vscale3(a: Vec3, k: u32) -> Vec3 {
    v3(vscale_bits(a.bits(), k))
}

/// A vector negated.
pub open spec fn vneg3(a: Vec3) -> Vec3 {
    v3(vneg_bits(a.bits()))
}

/// The cross product of two vectors.
pub open spec fn vcross3(a: Vec3, b: Vec3) -> Vec3 {
    v3(vcross_bits(a.bits(), b.bits()))
}

/// A vector scaled to unit length.
pub open spec fn vunit3(a: Vec3) -> Vec3 {
    v3(vunit_bits(a.bits()))
}

/// A vector rotated by a quaternion.
pub open spec fn qrot3(q: Quat, a: Vec3) -> Vec3 {
    v3(qrot_bits(q.bits(), a.bits()))
}

/// Relies on glam's `Add<Vec2> for Vec2`: the lane-wise IEEE-754 sum,
/// a function of the operands alone.
#[verifier::external_body]
pub(crate) fn fadd(a: u32, b: u32) -> (r: u32)
    ensures
        r == sum_bits(a, b),
{
    let va: glam::Vec2 = bytemuck::cast([a, a]);
    let vb: glam::Vec2 = bytemuck::cast([b, b]);
    let out: [u32; 2] = bytemuck::cast(va + vb);
    out[0]
}

/// Relies on glam's `Sub<Vec2> for Vec2`: the lane-wise IEEE-754
/// difference, a function of the operands alone.
#[verifier::external_body]
pub(crate) fn fsub(a: u32, b: u32) -> (r: u32)
    ensures
        r == diff_bits(a, b),
{
    let va: glam::Vec2 = bytemuck::cast([a, a]);
    let vb: glam::Vec2 = bytemuck::cast([b, b]);
    let out: [u32; 2] = bytemuck::cast(va - vb);
    out[0]
}

/// Relies on glam's `Div<Vec2> for Vec2`: the lane-wise IEEE-754
/// quotient, a function of the operands alone.
#[verifier::external_body]
pub(crate) fn fdiv(a: u32, b: u32) -> (r: u32)
    ensures
        r == quot_bits(a, b),
{
    let va: glam::Vec2 = bytemuck::cast([a, a]);
    let vb: glam::Vec2 = bytemuck::cast([b, b]);
    let out: [u32; 2] = bytemuck::cast(va / vb);
    out[0]
}

/// Relies on glam's `Add<Vec3> for Vec3`: the componentwise IEEE-754
/// sum, a function of the operands alone.
#[verifier::external_body]
pub(crate) fn vadd(a: Vec3, b: Vec3) -> (r: Vec3)
    ensures
        r == v3(vsum_bits(a.bits(), b.bits())),
{
    let va: glam::Vec3 = bytemuck::cast([a.x, a.y, a.z]);
    let vb: glam::Vec3 = bytemuck::cast([b.x, b.y, b.z]);
    let out: [u32; 3] = bytemuck::cast(va + vb);
    Vec3 { x: out[0], y: out[1], z: out[2] }
}

/// Relies on glam's `Sub<Vec3> for Vec3`: the componentwise IEEE-754
/// difference, a function of the operands alone.
#[verifier::external_body]
pub(crate) fn vsub(a: Vec3, b: Vec3) -> (r: Vec3)
    ensures
        r == v3(vdiff_bits(a.bits(), b.bits())),
{
    let va: glam::Vec3 = bytemuck::cast([a.x, a.y, a.z]);
    let vb: glam::Vec3 = bytemuck::cast([b.x, b.y, b.z]);
    let out: [u32; 3] = bytemuck::cast(va - vb);
    Vec3 { x: out[0], y: out[1], z: out[2] }
}

/// Relies on glam's `Mul<f32> for Vec3`: each component multiplied by
/// the factor under IEEE-754, a function of the operands alone.
#[verifier::external_body]
pub(crate) fn vscale(a: Vec3, k: u32) -> (r: Vec3)
    ensures
        r == v3(vscale_bits(a.bits(), k)),
{
    let va: glam::Vec3 = bytemuck::cast([a.x, a.y, a.z]);
    let vk: glam::Vec2 = bytemuck::cast([k, k]);
    let out: [u32; 3] = bytemuck::cast(va * vk.x);
    Vec3 { x: out[0], y: out[1], z: out[2] }
}

/// Relies on glam's `Neg for Vec3`: each component negated, a function
/// of the operand alone.
#[verifier::external_body]
pub(crate) fn vneg(a: Vec3) -> (r: Vec3)
    ensures
        r == v3(vneg_bits(a.bits())),
{
    let va: glam::Vec3 = bytemuck::cast([a.x, a.y, a.z]);
    let out: [u32; 3] = bytemuck::cast(-va);
    Vec3 { x: out[0], y: out[1], z: out[2] }
}

/// Relies on glam's `Vec3::cross`: the cross product, a function of the
/// operands alone.
#[verifier::external_body]
pub(crate) fn vcross(a: Vec3, b: Vec3) -> (r: Vec3)
    ensures
        r == v3(vcross_bits(a.bits(), b.bits())),
{
    let va: glam::Vec3 = bytemuck::cast([a.x, a.y, a.z]);
    let vb: glam::Vec3 = bytemuck::cast([b.x, b.y, b.z]);
    let out: [u32; 3] = bytemuck::cast(va.cross(vb));
    Vec3 { x: out[0], y: out[1], z: out[2] }
}

/// Relies on glam's `Vec3::normalize`: the operand scaled by the
/// reciprocal of its length, a function of the operand alone. Without
/// glam's assertion features it never panics; a degenerate operand
/// yields non-finite components.
#[verifier::external_body]
pub(crate) fn vnormalize(a: Vec3) -> (r: Vec3)
    ensures
        r == v3(vunit_bits(a.bits())),
{
    let va: glam::Vec3 = bytemuck::cast([a.x, a.y, a.z]);
    let out: [u32; 3] = bytemuck::cast(va.normalize());
    Vec3 { x: out[0], y: out[1], z: out[2] }
}

/// Relies on glam's `Quat::mul_vec3`: the vector rotated by the
/// quaternion, a function of the operands alone. Without glam's
/// assertion features it never panics.
#[verifier::external_body]
pub(crate) fn qrotate(q: Quat, a: Vec3) -> (r: Vec3)
    ensures
        r == v3(qrot_bits(q.bits(), a.bits())),
{
    let gq: glam::Quat = bytemuck::cast([q.x, q.y, q.z, q.w]);
    let va: glam::Vec3 = bytemuck::cast([a.x, a.y, a.z]);
    let out: [u32; 3] = bytemuck::cast(gq.mul_vec3(va));
    Vec3 { x: out[0], y: out[1], z: out[2] }
}

} // verus!
