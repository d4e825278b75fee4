//! Trusted bridge to the floating-point kernels of `nalgebra_glm`.
//!
//! Scalars cross this boundary as IEEE 754 bit patterns (`u32` for single
//! precision, `u64` for double precision), vectors and matrices as
//! column-major sequences of such bit patterns; `bytemuck::cast_slice`
//! reinterprets a slice of bit patterns as a slice of numbers of the same
//! width.  Each wrapper names the exact result of one outside function; the
//! IEEE 754 operations behind these functions are deterministic functions of
//! their operands, so naming their results is sound.  The one caveat is a
//! degenerate operand (a zero scale divided out of a matrix column, say)
//! whose NaN result carries a platform-canonical payload; the transform
//! algebra documents that degenerate case as ill-defined and the contracts
//! promise nothing numeric about it.

use vstd::prelude::*;

verus! {

/// Bit patterns of the matrix product `a * b` of two 4x4 matrices.
pub uninterp spec fn spec_mat4_mul(a: Seq<u32>, b: Seq<u32>) -> Seq<u32>;

/// Bit patterns of `m * T(v)`, the matrix `m` with a translation by `v`
/// applied to its right.
pub uninterp spec fn spec_translate(m: Seq<u32>, v: Seq<u32>) -> Seq<u32>;

/// Bit patterns of `m * S(v)`, the matrix `m` with a non-uniform scaling by
/// `v` applied to its right.
pub uninterp spec fn spec_scale(m: Seq<u32>, v: Seq<u32>) -> Seq<u32>;

/// Bit patterns of the homogeneous rotation matrix of the quaternion `q`.
pub uninterp spec fn spec_quat_to_mat4(q: Seq<u32>) -> Seq<u32>;

/// Bit patterns of the quaternion of the 3x3 rotation matrix `m`.
pub uninterp spec fn spec_mat3_to_quat(m: Seq<u32>) -> Seq<u32>;

/// Bit patterns of the inverse of the 4x4 matrix `m` (the zero matrix where
/// `m` is singular).
pub uninterp spec fn spec_mat4_inverse(m: Seq<u32>) -> Seq<u32>;

/// Bit patterns of the matrix-vector product `m * v`.
pub uninterp spec fn spec_mat4_mul_vec4(m: Seq<u32>, v: Seq<u32>) -> Seq<u32>;

/// Bit pattern of the Euclidean norm of the 4-vector `v`.
pub uninterp spec fn spec_vec4_magnitude(v: Seq<u32>) -> u32;

/// Bit patterns of the 4-vector `v` divided componentwise by the scalar `s`.
pub uninterp spec fn spec_vec4_div_scalar(v: Seq<u32>, s: u32) -> Seq<u32>;

/// Bit patterns of the 3-vector `v` rotated by the unit quaternion `q`.
pub uninterp spec fn spec_quat_rotate_vec3(q: Seq<u32>, v: Seq<u32>) -> Seq<u32>;

/// Bit pattern of the single-precision difference `a - b`.
pub uninterp spec fn spec_f32_sub(a: u32, b: u32) -> u32;

/// Bit pattern of the single-precision sum `a + b`.
pub uninterp spec fn spec_f32_add(a: u32, b: u32) -> u32;

/// Bit pattern of the double-precision sum `a + b`.
pub uninterp spec fn spec_f64_add(a: u64, b: u64) -> u64;

/// Relies on `core::ops::Mul` for `nalgebra_glm::Mat4`: the matrix product,
/// a 4x4 matrix.
#[verifier::external_body]
pub(crate) fn glm_mat4_mul(a: &Vec<u32>, b: &Vec<u32>) -> (r: Vec<u32>)
    requires
        a@.len() == 16,
        b@.len() == 16,
    ensures
        r@ == spec_mat4_mul(a@, b@),
        r@.len() == 16,
{
    let ma = nalgebra_glm::Mat4::from_column_slice(bytemuck::cast_slice(a.as_slice()));
    let mb = nalgebra_glm::Mat4::from_column_slice(bytemuck::cast_slice(b.as_slice()));
    (ma * mb).iter().map(|x| x.to_bits()).collect()
}

/// Relies on `nalgebra_glm::translate`: right-multiplies `m` by the
/// translation matrix of `v`, giving a 4x4 matrix.
#[verifier::external_body]
pub(crate) fn glm_translate(m: &Vec<u32>, v: &Vec<u32>) -> (r: Vec<u32>)
    requires
        m@.len() == 16,
        v@.len() == 3,
    ensures
        r@ == spec_translate(m@, v@),
        r@.len() == 16,
{
    let gm = nalgebra_glm::Mat4::from_column_slice(bytemuck::cast_slice(m.as_slice()));
    let gv = nalgebra_glm::Vec3::from_column_slice(bytemuck::cast_slice(v.as_slice()));
    nalgebra_glm::translate(&gm, &gv).iter().map(|x| x.to_bits()).collect()
}

/// Relies on `nalgebra_glm::scale`: right-multiplies `m` by the non-uniform
/// scaling matrix of `v`, giving a 4x4 matrix.
#[verifier::external_body]
pub(crate) fn glm_scale(m: &Vec<u32>, v: &Vec<u32>) -> (r: Vec<u32>)
    requires
        m@.len() == 16,
        v@.len() == 3,
    ensures
        r@ == spec_scale(m@, v@),
        r@.len() == 16,
{
    let gm = nalgebra_glm::Mat4::from_column_slice(bytemuck::cast_slice(m.as_slice()));
    let gv = nalgebra_glm::Vec3::from_column_slice(bytemuck::cast_slice(v.as_slice()));
    nalgebra_glm::scale(&gm, &gv).iter().map(|x| x.to_bits()).collect()
}

/// Relies on `nalgebra_glm::quat_to_mat4`: the homogeneous rotation matrix
/// of a quaternion, a 4x4 matrix.
#[verifier::external_body]
pub(crate) fn glm_quat_to_mat4(q: &Vec<u32>) -> (r: Vec<u32>)
    requires
        q@.len() == 4,
    ensures
        r@ == spec_quat_to_mat4(q@),
        r@.len() == 16,
{
    let qv = nalgebra_glm::Vec4::from_column_slice(bytemuck::cast_slice(q.as_slice()));
    let gq = nalgebra_glm::Quat { coords: qv };
    nalgebra_glm::quat_to_mat4(&gq).iter().map(|x| x.to_bits()).collect()
}

/// Relies on `nalgebra_glm::mat3_to_quat`: the quaternion of a 3x3 rotation
/// matrix, four scalars `[x, y, z, w]`.
#[verifier::external_body]
pub(crate) fn glm_mat3_to_quat(m: &Vec<u32>) -> (r: Vec<u32>)
    requires
        m@.len() == 9,
    ensures
        r@ == spec_mat3_to_quat(m@),
        r@.len() == 4,
{
    let gm = nalgebra_glm::Mat3::from_column_slice(bytemuck::cast_slice(m.as_slice()));
    nalgebra_glm::mat3_to_quat(&gm).coords.iter().map(|x| x.to_bits()).collect()
}

/// Relies on `nalgebra_glm::inverse`: the inverse of a 4x4 matrix, or the
/// zero matrix where it is singular.
#[verifier::external_body]
pub(crate) fn glm_mat4_inverse(m: &Vec<u32>) -> (r: Vec<u32>)
    requires
        m@.len() == 16,
    ensures
        r@ == spec_mat4_inverse(m@),
        r@.len() == 16,
{
    let gm = nalgebra_glm::Mat4::from_column_slice(bytemuck::cast_slice(m.as_slice()));
    nalgebra_glm::inverse(&gm).iter().map(|x| x.to_bits()).collect()
}

/// Relies on `core::ops::Mul` for `nalgebra_glm::Mat4` by
/// `nalgebra_glm::Vec4`: the matrix-vector product, a 4-vector.
#[verifier::external_body]
pub(crate) fn glm_mat4_mul_vec4(m: &Vec<u32>, v: &Vec<u32>) -> (r: Vec<u32>)
    requires
        m@.len() == 16,
        v@.len() == 4,
    ensures
        r@ == spec_mat4_mul_vec4(m@, v@),
        r@.len() == 4,
{
    let gm = nalgebra_glm::Mat4::from_column_slice(bytemuck::cast_slice(m.as_slice()));
    let gv = nalgebra_glm::Vec4::from_column_slice(bytemuck::cast_slice(v.as_slice()));
    (gm * gv).iter().map(|x| x.to_bits()).collect()
}

/// Relies on `nalgebra_glm::Vec4::magnitude`: the Euclidean norm of a
/// 4-vector.
#[verifier::external_body]
pub(crate) fn glm_vec4_magnitude(v: &Vec<u32>) -> (r: u32)
    requires
        v@.len() == 4,
    ensures
        r == spec_vec4_magnitude(v@),
{
    let gv = nalgebra_glm::Vec4::from_column_slice(bytemuck::cast_slice(v.as_slice()));
    gv.magnitude().to_bits()
}

/// Relies on `core::ops::Div` for `nalgebra_glm::Vec4` by a scalar: the
/// componentwise quotient, a 4-vector.
#[verifier::external_body]
pub(crate) fn glm_vec4_div_scalar(v: &Vec<u32>, s: u32) -> (r: Vec<u32>)
    requires
        v@.len() == 4,
    ensures
        r@ == spec_vec4_div_scalar(v@, s),
        r@.len() == 4,
{
    let gv = nalgebra_glm::Vec4::from_column_slice(bytemuck::cast_slice(v.as_slice()));
    let gs = nalgebra_glm::Vec1::from_column_slice(bytemuck::cast_slice(&[s]));
    (gv / gs.x).iter().map(|x| x.to_bits()).collect()
}

/// Relies on `nalgebra_glm::quat_rotate_vec3`: a 3-vector rotated by a unit
/// quaternion.
#[verifier::external_body]
pub(crate) fn glm_quat_rotate_vec3(q: &Vec<u32>, v: &Vec<u32>) -> (r: Vec<u32>)
    requires
        q@.len() == 4,
        v@.len() == 3,
    ensures
        r@ == spec_quat_rotate_vec3(q@, v@),
        r@.len() == 3,
{
    let qv = nalgebra_glm::Vec4::from_column_slice(bytemuck::cast_slice(q.as_slice()));
    let gq = nalgebra_glm::Quat { coords: qv };
    let gv = nalgebra_glm::Vec3::from_column_slice(bytemuck::cast_slice(v.as_slice()));
    nalgebra_glm::quat_rotate_vec3(&gq, &gv).iter().map(|x| x.to_bits()).collect()
}

/// Relies on `core::ops::Sub` for `nalgebra_glm::Vec1`: the componentwise
/// (here: single-precision scalar) difference.
#[verifier::external_body]
pub(crate) fn f32_sub(a: u32, b: u32) -> (r: u32)
    ensures
        r == spec_f32_sub(a, b),
{
    let ga = nalgebra_glm::Vec1::from_column_slice(bytemuck::cast_slice(&[a]));
    let gb = nalgebra_glm::Vec1::from_column_slice(bytemuck::cast_slice(&[b]));
    (ga - gb).x.to_bits()
}

/// Relies on `core::ops::Add` for `nalgebra_glm::Vec1`: the componentwise
/// (here: single-precision scalar) sum.
#[verifier::external_body]
pub(crate) fn f32_add(a: u32, b: u32) -> (r: u32)
    ensures
        r == spec_f32_add(a, b),
{
    let ga = nalgebra_glm::Vec1::from_column_slice(bytemuck::cast_slice(&[a]));
    let gb = nalgebra_glm::Vec1::from_column_slice(bytemuck::cast_slice(&[b]));
    (ga + gb).x.to_bits()
}

/// Relies on `core::ops::Add` for `nalgebra_glm::DVec1`: the componentwise
/// (here: double-precision scalar) sum.
#[verifier::external_body]
pub(crate) fn f64_add(a: u64, b: u64) -> (r: u64)
    ensures
        r == spec_f64_add(a, b),
{
    let ga = nalgebra_glm::DVec1::from_column_slice(bytemuck::cast_slice(&[a]));
    let gb = nalgebra_glm::DVec1::from_column_slice(bytemuck::cast_slice(&[b]));
    (ga + gb).x.to_bits()
}

} // verus!
