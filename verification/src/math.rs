//! Vector, quaternion and matrix values of the transform algebra.
//!
//! Every scalar is an IEEE 754 single-precision number carried as its raw bit
//! pattern (`u32`).  A matrix is stored column-major, exactly as
//! `nalgebra_glm` lays it out, so a matrix views to a sequence of 16 scalar
//! bit patterns, column by column.

use vstd::prelude::*;

verus! {

/// Bit pattern of the single-precision number 1.0.
pub const ONE_BITS: u32 = 0x3F80_0000;

/// Bit pattern of the single-precision number 0.0.
pub const ZERO_BITS: u32 = 0x0000_0000;

/// A 3-vector of single-precision bit patterns.
#[derive(Clone, Copy, Debug, PartialEq, Eq, Structural)]
pub struct Vec3 {
    pub x: u32,
    pub y: u32,
    pub z: u32,
}

/// A 4-vector of single-precision bit patterns.
#[derive(Clone, Copy, Debug, PartialEq, Eq, Structural)]
pub struct Vec4 {
    pub x: u32,
    pub y: u32,
    pub z: u32,
    pub w: u32,
}

/// A quaternion of single-precision bit patterns, stored `[x, y, z, w]` with
/// the scalar part last, as `nalgebra_glm` stores it.
#[derive(Clone, Copy, Debug, PartialEq, Eq, Structural)]
pub struct Quat {
    pub x: u32,
    pub y: u32,
    pub z: u32,
    pub w: u32,
}

/// A 4x4 matrix of single-precision bit patterns, stored as four columns.
#[derive(Clone, Copy, Debug, PartialEq, Eq, Structural)]
pub struct Mat4 {
    pub c0: Vec4,
    pub c1: Vec4,
    pub c2: Vec4,
    pub c3: Vec4,
}

impl Vec3 {
    pub open spec fn view_spec(self) -> Seq<u32> {
        seq![self.x, self.y, self.z]
    }

    pub fn new(x: u32, y: u32, z: u32) -> (r: Vec3)
        ensures
            r@ == seq![x, y, z],
    {
        Vec3 { x, y, z }
    }

    /// The zero vector.
    pub fn zeros() -> (r: Vec3)
        ensures
            r@ == seq![ZERO_BITS, ZERO_BITS, ZERO_BITS],
    {
        Vec3 { x: ZERO_BITS, y: ZERO_BITS, z: ZERO_BITS }
    }

    /// The vector (1, 1, 1).
    pub fn ones() -> (r: Vec3)
        ensures
            r@ == seq![ONE_BITS, ONE_BITS, ONE_BITS],
    {
        Vec3 { x: ONE_BITS, y: ONE_BITS, z: ONE_BITS }
    }
}

impl View for Vec3 {
    type V = Seq<u32>;

    open spec fn view(&self) -> Seq<u32> {
        self.view_spec()
    }
}

impl Vec4 {
    pub open spec fn view_spec(self) -> Seq<u32> {
        seq![self.x, self.y, self.z, self.w]
    }

    pub fn new(x: u32, y: u32, z: u32, w: u32) -> (r: Vec4)
        ensures
            r@ == seq![x, y, z, w],
    {
        Vec4 { x, y, z, w }
    }

    /// The first three components.
    pub fn xyz(&self) -> (r: Vec3)
        ensures
            r@ == seq![self.x, self.y, self.z],
    {
        Vec3 { x: self.x, y: self.y, z: self.z }
    }
}

impl View for Vec4 {
    type V = Seq<u32>;

    open spec fn view(&self) -> Seq<u32> {
        self.view_spec()
    }
}

impl Vec4 {
    /// The components as a vector of bit patterns.
    pub fn to_vec(&self) -> (r: Vec<u32>)
        ensures
            r@ == self@,
    {
        let mut r: Vec<u32> = Vec::new();
        r.push(self.x);
        r.push(self.y);
        r.push(self.z);
        r.push(self.w);
        proof {
            assert(r@ =~= self@);
        }
        r
    }
}

impl Quat {
    pub open spec fn view_spec(self) -> Seq<u32> {
        seq![self.x, self.y, self.z, self.w]
    }

    pub fn new(x: u32, y: u32, z: u32, w: u32) -> (r: Quat)
        ensures
            r@ == seq![x, y, z, w],
    {
        Quat { x, y, z, w }
    }

    /// The identity rotation.
    pub fn identity() -> (r: Quat)
        ensures
            r@ == seq![ZERO_BITS, ZERO_BITS, ZERO_BITS, ONE_BITS],
    {
        Quat { x: ZERO_BITS, y: ZERO_BITS, z: ZERO_BITS, w: ONE_BITS }
    }
}

impl View for Quat {
    type V = Seq<u32>;

    open spec fn view(&self) -> Seq<u32> {
        self.view_spec()
    }
}

impl Mat4 {
    /// Column-major sequence of the sixteen scalar bit patterns.
    pub open spec fn view_spec(self) -> Seq<u32> {
        self.c0.view_spec() + self.c1.view_spec() + self.c2.view_spec() + self.c3.view_spec()
    }

    /// The identity matrix.
    pub fn identity() -> (r: Mat4)
        ensures
            r@ == spec_mat4_identity(),
    {
        Mat4 {
            c0: Vec4 { x: ONE_BITS, y: ZERO_BITS, z: ZERO_BITS, w: ZERO_BITS },
            c1: Vec4 { x: ZERO_BITS, y: ONE_BITS, z: ZERO_BITS, w: ZERO_BITS },
            c2: Vec4 { x: ZERO_BITS, y: ZERO_BITS, z: ONE_BITS, w: ZERO_BITS },
            c3: Vec4 { x: ZERO_BITS, y: ZERO_BITS, z: ZERO_BITS, w: ONE_BITS },
        }
    }
}

impl View for Mat4 {
    type V = Seq<u32>;

    open spec fn view(&self) -> Seq<u32> {
        self.view_spec()
    }
}

impl Vec3 {
    /// The components as a vector of bit patterns.
    pub fn to_vec(&self) -> (r: Vec<u32>)
        ensures
            r@ == self@,
    {
        let mut r: Vec<u32> = Vec::new();
        r.push(self.x);
        r.push(self.y);
        r.push(self.z);
        proof {
            assert(r@ =~= self@);
        }
        r
    }

    /// The vector whose components are the three bit patterns of `v`.
    pub fn from_vec(v: &Vec<u32>) -> (r: Vec3)
        requires
            v@.len() == 3,
        ensures
            r@ == v@,
    {
        let r = Vec3 { x: v[0], y: v[1], z: v[2] };
        proof {
            assert(r@ =~= v@);
        }
        r
    }
}

impl Quat {
    /// The components as a vector of bit patterns, `[x, y, z, w]`.
    pub fn to_vec(&self) -> (r: Vec<u32>)
        ensures
            r@ == self@,
    {
        let mut r: Vec<u32> = Vec::new();
        r.push(self.x);
        r.push(self.y);
        r.push(self.z);
        r.push(self.w);
        proof {
            assert(r@ =~= self@);
        }
        r
    }

    /// The quaternion whose components are the four bit patterns of `v`.
    pub fn from_vec(v: &Vec<u32>) -> (r: Quat)
        requires
            v@.len() == 4,
        ensures
            r@ == v@,
    {
        let r = Quat { x: v[0], y: v[1], z: v[2], w: v[3] };
        proof {
            assert(r@ =~= v@);
        }
        r
    }
}

impl Mat4 {
    /// The sixteen bit patterns as a vector, column-major.
    pub fn to_vec(&self) -> (r: Vec<u32>)
        ensures
            r@ == self@,
    {
        let mut r: Vec<u32> = Vec::new();
        r.push(self.c0.x);
        r.push(self.c0.y);
        r.push(self.c0.z);
        r.push(self.c0.w);
        r.push(self.c1.x);
        r.push(self.c1.y);
        r.push(self.c1.z);
        r.push(self.c1.w);
        r.push(self.c2.x);
        r.push(self.c2.y);
        r.push(self.c2.z);
        r.push(self.c2.w);
        r.push(self.c3.x);
        r.push(self.c3.y);
        r.push(self.c3.z);
        r.push(self.c3.w);
        proof {
            assert(r@ =~= self@);
        }
        r
    }

    /// The matrix whose columns are the sixteen bit patterns of `v`,
    /// column-major.
    pub fn from_vec(v: &Vec<u32>) -> (r: Mat4)
        requires
            v@.len() == 16,
        ensures
            r@ == v@,
    {
        let r = Mat4 {
            c0: Vec4 { x: v[0], y: v[1], z: v[2], w: v[3] },
            c1: Vec4 { x: v[4], y: v[5], z: v[6], w: v[7] },
            c2: Vec4 { x: v[8], y: v[9], z: v[10], w: v[11] },
            c3: Vec4 { x: v[12], y: v[13], z: v[14], w: v[15] },
        };
        proof {
            assert(r@ =~= v@);
        }
        r
    }
}

/// Column-major bit patterns of the identity matrix.
pub open spec fn spec_mat4_identity() -> Seq<u32> {
    seq![
        ONE_BITS, ZERO_BITS, ZERO_BITS, ZERO_BITS,
        ZERO_BITS, ONE_BITS, ZERO_BITS, ZERO_BITS,
        ZERO_BITS, ZERO_BITS, ONE_BITS, ZERO_BITS,
        ZERO_BITS, ZERO_BITS, ZERO_BITS, ONE_BITS,
    ]
}

} // verus!
