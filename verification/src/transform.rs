//! Spatial state of a scene node.
//!
//! A node's local transform is a translation, a unit-quaternion rotation and
//! a componentwise (possibly non-uniform) scale.  The local model matrix is
//! `T(position) * R(rotation) * S(scale)`; the world matrix is the parent's
//! world matrix times the local model matrix, and the global position,
//! rotation and scale are always the decomposition of the world matrix,
//! recomputed whenever it changes.  The parent's world matrix is cached on
//! the node, refreshed whenever the parent recomputes or the node is
//! attached.

use vstd::prelude::*;

use crate::float_ops::glm_mat4_mul;
use crate::float_ops::glm_quat_to_mat4;
use crate::float_ops::glm_scale;
use crate::float_ops::glm_translate;
use crate::float_ops::spec_mat4_mul;
use crate::float_ops::spec_quat_to_mat4;
use crate::float_ops::spec_scale;
use crate::float_ops::spec_translate;
use crate::math::spec_mat4_identity;
use crate::math::Mat4;
use crate::math::Quat;
use crate::math::Vec3;
use crate::math::Vec4;
use crate::matrix_utils::spec_get_rotation_with_scale;
use crate::matrix_utils::spec_get_scale;
use crate::matrix_utils::spec_get_translation;
use crate::matrix_utils::MatrixUtils;

verus! {

/// The 3-vector whose components are the first three entries of `s`.
pub open spec fn spec_vec3_of(s: Seq<u32>) -> Vec3 {
    Vec3 { x: s[0], y: s[1], z: s[2] }
}

/// The quaternion whose components are the first four entries of `s`.
pub open spec fn spec_quat_of(s: Seq<u32>) -> Quat {
    Quat { x: s[0], y: s[1], z: s[2], w: s[3] }
}

/// The matrix whose column-major entries are the sixteen entries of `s`.
pub open spec fn spec_mat4_of(s: Seq<u32>) -> Mat4 {
    Mat4 {
        c0: Vec4 { x: s[0], y: s[1], z: s[2], w: s[3] },
        c1: Vec4 { x: s[4], y: s[5], z: s[6], w: s[7] },
        c2: Vec4 { x: s[8], y: s[9], z: s[10], w: s[11] },
        c3: Vec4 { x: s[12], y: s[13], z: s[14], w: s[15] },
    }
}

/// The local model matrix `T(p) * R(r) * S(s)`, built exactly as the
/// implementation builds it: a translation applied to the identity, the
/// rotation matrix multiplied on the right, the scale applied on the right.
pub open spec fn spec_local_model(p: Seq<u32>, r: Seq<u32>, s: Seq<u32>) -> Seq<u32> {
    spec_scale(spec_mat4_mul(spec_translate(spec_mat4_identity(), p), spec_quat_to_mat4(r)), s)
}

/// Spatial state of a node.  Scalars are single-precision bit patterns.
#[derive(Clone, Copy, Debug, PartialEq, Eq, Structural)]
pub struct TransformData {
    pub local_position: Vec3,
    pub local_rotation: Quat,
    pub local_scale: Vec3,

    pub global_position: Vec3,
    pub global_rotation: Quat,
    pub global_scale: Vec3,

    pub world_space_matrix: Mat4,
    /// Cache of the owning node's parent's world matrix (identity at a
    /// root), refreshed by every matrix update that reaches the node.
    pub parent_world_matrix: Mat4,
}

/// `td` recomputed under the parent world matrix `pw`: the world matrix is
/// `pw` times the local model matrix, and the global components are its
/// decomposition.  Local components are untouched.
pub open spec fn spec_transform_updated(td: TransformData, pw: Seq<u32>) -> TransformData {
    let world = spec_mat4_mul(
        pw,
        spec_local_model(td.local_position@, td.local_rotation@, td.local_scale@),
    );
    TransformData {
        local_position: td.local_position,
        local_rotation: td.local_rotation,
        local_scale: td.local_scale,
        global_position: spec_vec3_of(spec_get_translation(world)),
        global_rotation: spec_quat_of(
            spec_get_rotation_with_scale(world, spec_get_scale(world)),
        ),
        global_scale: spec_vec3_of(spec_get_scale(world)),
        world_space_matrix: spec_mat4_of(world),
        parent_world_matrix: spec_mat4_of(pw),
    }
}

impl TransformData {
    /// A transform at the origin: zero position, identity rotation, unit
    /// scale, identity matrices.
    pub fn new() -> (r: TransformData)
        ensures
            r == TransformData::spec_initial(),
    {
        let r = TransformData {
            local_position: Vec3::zeros(),
            local_rotation: Quat::identity(),
            local_scale: Vec3::ones(),
            global_position: Vec3::zeros(),
            global_rotation: Quat::identity(),
            global_scale: Vec3::ones(),
            world_space_matrix: Mat4::identity(),
            parent_world_matrix: Mat4::identity(),
        };
        r
    }

    /// The value `new` returns.
    pub open spec fn spec_initial() -> TransformData {
        TransformData {
            local_position: Vec3 { x: 0, y: 0, z: 0 },
            local_rotation: Quat { x: 0, y: 0, z: 0, w: crate::math::ONE_BITS },
            local_scale: Vec3 {
                x: crate::math::ONE_BITS,
                y: crate::math::ONE_BITS,
                z: crate::math::ONE_BITS,
            },
            global_position: Vec3 { x: 0, y: 0, z: 0 },
            global_rotation: Quat { x: 0, y: 0, z: 0, w: crate::math::ONE_BITS },
            global_scale: Vec3 {
                x: crate::math::ONE_BITS,
                y: crate::math::ONE_BITS,
                z: crate::math::ONE_BITS,
            },
            world_space_matrix: spec_mat4_of(spec_mat4_identity()),
            parent_world_matrix: spec_mat4_of(spec_mat4_identity()),
        }
    }

    /// The local model matrix `T(local_position) * R(local_rotation) *
    /// S(local_scale)`, as a column-major vector of bit patterns.
    pub fn local_model_matrix_vec(&self) -> (r: Vec<u32>)
        ensures
            r@ == spec_local_model(self.local_position@, self.local_rotation@, self.local_scale@),
            r@.len() == 16,
    {
        let ident = Mat4::identity();
        let t = glm_translate(&ident.to_vec(), &self.local_position.to_vec());
        let tr = glm_mat4_mul(&t, &glm_quat_to_mat4(&self.local_rotation.to_vec()));
        glm_scale(&tr, &self.local_scale.to_vec())
    }

    /// Recomputes the world matrix under the parent world matrix `pw` and
    /// decomposes it into the global components.
    pub fn update_from_parent(&mut self, pw: &Mat4)
        ensures
            *final(self) == spec_transform_updated(*old(self), pw@),
    {
        self.parent_world_matrix = *pw;
        let local = self.local_model_matrix_vec();
        let world_v = glm_mat4_mul(&pw.to_vec(), &local);
        let world = Mat4::from_vec(&world_v);
        self.world_space_matrix = world;
        let dec = MatrixUtils::decompose_matrix(world);
        self.global_position = dec.translation;
        self.global_rotation = dec.rotation;
        self.global_scale = dec.scale;
        proof {
            let ghost sp = spec_transform_updated(*old(self), pw@);
            assert(self.global_position =~= sp.global_position);
            assert(self.global_rotation =~= sp.global_rotation);
            assert(self.global_scale =~= sp.global_scale);
            assert(self.world_space_matrix =~= sp.world_space_matrix);
            assert(self.parent_world_matrix =~= sp.parent_world_matrix);
        }
    }
}

} // verus!
