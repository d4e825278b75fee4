//! Decomposition of a homogeneous 4x4 transform matrix into translation,
//! rotation and scale.
//!
//! Translation is the fourth column; scale is the magnitude of each of the
//! first three columns; rotation is the quaternion of the 3x3 submatrix
//! obtained by dividing each of the first three columns by its scale
//! component.  A zero or near-zero scale on an axis makes the rotation
//! contribution of that axis ill-defined; that degenerate case is documented,
//! not specially handled.

use vstd::prelude::*;

use crate::float_ops::spec_mat3_to_quat;
use crate::float_ops::spec_vec4_div_scalar;
use crate::float_ops::spec_vec4_magnitude;
use crate::float_ops::glm_mat3_to_quat;
use crate::float_ops::glm_vec4_div_scalar;
use crate::float_ops::glm_vec4_magnitude;
use crate::math::Mat4;
use crate::math::Quat;
use crate::math::Vec3;
use crate::math::Vec4;
use crate::math::ONE_BITS;

verus! {

/// The column `c` of the column-major matrix `m`, as four bit patterns.
pub open spec fn spec_mat4_col(m: Seq<u32>, c: int) -> Seq<u32> {
    m.subrange(4 * c, 4 * c + 4)
}

/// The translation part of `m`: the first three components of its fourth
/// column.
pub open spec fn spec_get_translation(m: Seq<u32>) -> Seq<u32> {
    seq![m[12], m[13], m[14]]
}

/// The scale part of `m`: the magnitude of each of its first three columns.
pub open spec fn spec_get_scale(m: Seq<u32>) -> Seq<u32> {
    seq![
        spec_vec4_magnitude(spec_mat4_col(m, 0)),
        spec_vec4_magnitude(spec_mat4_col(m, 1)),
        spec_vec4_magnitude(spec_mat4_col(m, 2)),
    ]
}

/// The rotation of `m` under the scale `s`: the quaternion of the 3x3
/// submatrix whose columns are the first three columns of `m`, each divided
/// by its scale component.
pub open spec fn spec_get_rotation_with_scale(m: Seq<u32>, s: Seq<u32>) -> Seq<u32> {
    spec_mat3_to_quat(
        spec_vec4_div_scalar(spec_mat4_col(m, 0), s[0]).subrange(0, 3)
            + spec_vec4_div_scalar(spec_mat4_col(m, 1), s[1]).subrange(0, 3)
            + spec_vec4_div_scalar(spec_mat4_col(m, 2), s[2]).subrange(0, 3),
    )
}

/// The rotation of `m` taken with unit scale.
pub open spec fn spec_get_rotation(m: Seq<u32>) -> Seq<u32> {
    spec_get_rotation_with_scale(m, seq![ONE_BITS, ONE_BITS, ONE_BITS])
}

/// A matrix split into its translation, rotation and scale parts.
pub struct DecomposedMatrix {
    pub translation: Vec3,
    pub rotation: Quat,
    pub scale: Vec3,
}

impl DecomposedMatrix {
    fn new(translation: Vec3, rotation: Quat, scale: Vec3) -> (r: DecomposedMatrix)
        ensures
            r.translation == translation,
            r.rotation == rotation,
            r.scale == scale,
    {
        DecomposedMatrix { translation, rotation, scale }
    }
}

pub struct MatrixUtils;

impl MatrixUtils {
    /// The column `column` of `matrix`.
    pub fn get_matrix_column(matrix: Mat4, column: usize) -> (r: Vec4)
        requires
            column < 4,
        ensures
            r@ == spec_mat4_col(matrix@, column as int),
    {
        let r = if column == 0 {
            matrix.c0
        } else if column == 1 {
            matrix.c1
        } else if column == 2 {
            matrix.c2
        } else {
            matrix.c3
        };
        proof {
            assert(r@ =~= spec_mat4_col(matrix@, column as int));
        }
        r
    }

    /// The translation part of `matrix`.
    pub fn get_translation(matrix: Mat4) -> (r: Vec3)
        ensures
            r@ == spec_get_translation(matrix@),
    {
        let c = MatrixUtils::get_matrix_column(matrix, 3);
        let r = c.xyz();
        proof {
            assert(r@ =~= spec_get_translation(matrix@));
        }
        r
    }

    /// The scale part of `matrix`.
    pub fn get_scale(matrix: Mat4) -> (r: Vec3)
        ensures
            r@ == spec_get_scale(matrix@),
    {
        let c0 = MatrixUtils::get_matrix_column(matrix, 0);
        let c1 = MatrixUtils::get_matrix_column(matrix, 1);
        let c2 = MatrixUtils::get_matrix_column(matrix, 2);
        let r = Vec3 {
            x: glm_vec4_magnitude(&c0.to_vec()),
            y: glm_vec4_magnitude(&c1.to_vec()),
            z: glm_vec4_magnitude(&c2.to_vec()),
        };
        proof {
            assert(r@ =~= spec_get_scale(matrix@));
        }
        r
    }

    /// The rotation part of `matrix`, its columns corrected by `scale`.
    pub fn get_rotation_with_scale(matrix: Mat4, scale: Vec3) -> (r: Quat)
        ensures
            r@ == spec_get_rotation_with_scale(matrix@, scale@),
    {
        let c0 = glm_vec4_div_scalar(&MatrixUtils::get_matrix_column(matrix, 0).to_vec(), scale.x);
        let c1 = glm_vec4_div_scalar(&MatrixUtils::get_matrix_column(matrix, 1).to_vec(), scale.y);
        let c2 = glm_vec4_div_scalar(&MatrixUtils::get_matrix_column(matrix, 2).to_vec(), scale.z);
        let mut m3: Vec<u32> = Vec::new();
        m3.push(c0[0]);
        m3.push(c0[1]);
        m3.push(c0[2]);
        m3.push(c1[0]);
        m3.push(c1[1]);
        m3.push(c1[2]);
        m3.push(c2[0]);
        m3.push(c2[1]);
        m3.push(c2[2]);
        proof {
            assert(m3@ =~= spec_vec4_div_scalar(spec_mat4_col(matrix@, 0), scale@[0]).subrange(
                0,
                3,
            ) + spec_vec4_div_scalar(spec_mat4_col(matrix@, 1), scale@[1]).subrange(0, 3)
                + spec_vec4_div_scalar(spec_mat4_col(matrix@, 2), scale@[2]).subrange(0, 3));
        }
        let q = glm_mat3_to_quat(&m3);
        Quat::from_vec(&q)
    }

    /// The rotation part of `matrix`, taken with unit scale.
    pub fn get_rotation(matrix: Mat4) -> (r: Quat)
        ensures
            r@ == spec_get_rotation(matrix@),
    {
        let r = MatrixUtils::get_rotation_with_scale(matrix, Vec3::ones());
        proof {
            assert(seq![ONE_BITS, ONE_BITS, ONE_BITS] =~= Vec3 {
                x: ONE_BITS,
                y: ONE_BITS,
                z: ONE_BITS,
            }@);
        }
        r
    }

    /// Splits `matrix` into translation, rotation and scale, the rotation
    /// corrected by the extracted scale.
    pub fn decompose_matrix(matrix: Mat4) -> (r: DecomposedMatrix)
        ensures
            r.translation@ == spec_get_translation(matrix@),
            r.rotation@ == spec_get_rotation_with_scale(matrix@, spec_get_scale(matrix@)),
            r.scale@ == spec_get_scale(matrix@),
    {
        let translation = MatrixUtils::get_translation(matrix);
        let scale = MatrixUtils::get_scale(matrix);
        let rotation = MatrixUtils::get_rotation_with_scale(matrix, scale);
        DecomposedMatrix::new(translation, rotation, scale)
    }
}

} // verus!
