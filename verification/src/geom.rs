//! Vectors, quaternions, matrices and transforms over [`Fixed`] scalars.
//!
//! Matrices are column-major: `Mat4 { x, y, z, w }` holds the four columns,
//! matching the layout the instance records are consumed in. Every operation
//! has a spec-level mirror so callers can state results exactly.

use vstd::prelude::*;

use crate::fixed::{Fixed, FP_ONE};

verus! {

/// A 2-component vector (texture coordinates, atlas sizes).
#[derive(Clone, Copy, Debug, PartialEq, Eq, Structural)]
pub struct Vec2 {
    pub x: Fixed,
    pub y: Fixed,
}

/// A 3-component vector (positions, scales, normals).
#[derive(Clone, Copy, Debug, PartialEq, Eq, Structural)]
pub struct Vec3 {
    pub x: Fixed,
    pub y: Fixed,
    pub z: Fixed,
}

/// A 4-component vector: one column of a homogeneous matrix.
#[derive(Clone, Copy, Debug, PartialEq, Eq, Structural)]
pub struct Vec4 {
    pub x: Fixed,
    pub y: Fixed,
    pub z: Fixed,
    pub w: Fixed,
}

/// A rotation quaternion with scalar part `s` and vector part `(x, y, z)`.
#[derive(Clone, Copy, Debug, PartialEq, Eq, Structural)]
pub struct Quat {
    pub s: Fixed,
    pub x: Fixed,
    pub y: Fixed,
    pub z: Fixed,
}

/// A 3x3 matrix given by columns (a rotation / normal matrix).
#[derive(Clone, Copy, Debug, PartialEq, Eq, Structural)]
pub struct Mat3 {
    pub x: Vec3,
    pub y: Vec3,
    pub z: Vec3,
}

/// A 4x4 homogeneous matrix given by columns.
#[derive(Clone, Copy, Debug, PartialEq, Eq, Structural)]
pub struct Mat4 {
    pub x: Vec4,
    pub y: Vec4,
    pub z: Vec4,
    pub w: Vec4,
}

/// Position, rotation and component-wise scale of a bone, part or chunk.
#[derive(Clone, Copy, Debug, PartialEq, Eq, Structural)]
pub struct Transform {
    pub position: Vec3,
    pub rotation: Quat,
    pub scale: Vec3,
}

pub open spec fn fp0() -> Fixed {
    Fixed { raw: 0 }
}

pub open spec fn fp1() -> Fixed {
    Fixed { raw: FP_ONE }
}

impl Vec3 {
    /// The all-zero vector.
    pub fn zero() -> (r: Vec3)
        ensures
            r == (Vec3 { x: fp0(), y: fp0(), z: fp0() }),
    {
        Vec3 { x: Fixed::zero(), y: Fixed::zero(), z: Fixed::zero() }
    }

    /// The all-one vector (an identity scale).
    pub fn one() -> (r: Vec3)
        ensures
            r == (Vec3 { x: fp1(), y: fp1(), z: fp1() }),
    {
        Vec3 { x: Fixed::one(), y: Fixed::one(), z: Fixed::one() }
    }

    pub open spec fn spec_add(a: Vec3, b: Vec3) -> Vec3 {
        Vec3 {
            x: Fixed::spec_add(a.x, b.x),
            y: Fixed::spec_add(a.y, b.y),
            z: Fixed::spec_add(a.z, b.z),
        }
    }

    pub fn add(self, o: Vec3) -> (r: Vec3)
        ensures
            r == Self::spec_add(self, o),
    {
        Vec3 { x: self.x.add(o.x), y: self.y.add(o.y), z: self.z.add(o.z) }
    }
}

impl Quat {
    /// The identity rotation.
    pub fn identity() -> (r: Quat)
        ensures
            r == (Quat { s: fp1(), x: fp0(), y: fp0(), z: fp0() }),
    {
        Quat { s: Fixed::one(), x: Fixed::zero(), y: Fixed::zero(), z: Fixed::zero() }
    }

    /// The Hamilton product `a * b`.
    pub open spec fn spec_mul(a: Quat, b: Quat) -> Quat {
        Quat {
            s: Fixed::spec_sub(
                Fixed::spec_sub(
                    Fixed::spec_sub(Fixed::spec_mul(a.s, b.s), Fixed::spec_mul(a.x, b.x)),
                    Fixed::spec_mul(a.y, b.y),
                ),
                Fixed::spec_mul(a.z, b.z),
            ),
            x: Fixed::spec_sub(
                Fixed::spec_add(
                    Fixed::spec_add(Fixed::spec_mul(a.s, b.x), Fixed::spec_mul(a.x, b.s)),
                    Fixed::spec_mul(a.y, b.z),
                ),
                Fixed::spec_mul(a.z, b.y),
            ),
            y: Fixed::spec_sub(
                Fixed::spec_add(
                    Fixed::spec_add(Fixed::spec_mul(a.s, b.y), Fixed::spec_mul(a.y, b.s)),
                    Fixed::spec_mul(a.z, b.x),
                ),
                Fixed::spec_mul(a.x, b.z),
            ),
            z: Fixed::spec_sub(
                Fixed::spec_add(
                    Fixed::spec_add(Fixed::spec_mul(a.s, b.z), Fixed::spec_mul(a.z, b.s)),
                    Fixed::spec_mul(a.x, b.y),
                ),
                Fixed::spec_mul(a.y, b.x),
            ),
        }
    }

    pub fn mul(self, o: Quat) -> (r: Quat)
        ensures
            r == Self::spec_mul(self, o),
    {
        Quat {
            s: self.s.mul(o.s).sub(self.x.mul(o.x)).sub(self.y.mul(o.y)).sub(self.z.mul(o.z)),
            x: self.s.mul(o.x).add(self.x.mul(o.s)).add(self.y.mul(o.z)).sub(self.z.mul(o.y)),
            y: self.s.mul(o.y).add(self.y.mul(o.s)).add(self.z.mul(o.x)).sub(self.x.mul(o.z)),
            z: self.s.mul(o.z).add(self.z.mul(o.s)).add(self.x.mul(o.y)).sub(self.y.mul(o.x)),
        }
    }

    /// The rotation matrix of the quaternion (exact for unit quaternions).
    pub open spec fn spec_to_mat3(q: Quat) -> Mat3 {
        let x2 = Fixed::spec_add(q.x, q.x);
        let y2 = Fixed::spec_add(q.y, q.y);
        let z2 = Fixed::spec_add(q.z, q.z);
        let xx2 = Fixed::spec_mul(x2, q.x);
        let xy2 = Fixed::spec_mul(x2, q.y);
        let xz2 = Fixed::spec_mul(x2, q.z);
        let yy2 = Fixed::spec_mul(y2, q.y);
        let yz2 = Fixed::spec_mul(y2, q.z);
        let zz2 = Fixed::spec_mul(z2, q.z);
        let sx2 = Fixed::spec_mul(x2, q.s);
        let sy2 = Fixed::spec_mul(y2, q.s);
        let sz2 = Fixed::spec_mul(z2, q.s);
        Mat3 {
            x: Vec3 {
                x: Fixed::spec_sub(Fixed::spec_sub(fp1(), yy2), zz2),
                y: Fixed::spec_add(xy2, sz2),
                z: Fixed::spec_sub(xz2, sy2),
            },
            y: Vec3 {
                x: Fixed::spec_sub(xy2, sz2),
                y: Fixed::spec_sub(Fixed::spec_sub(fp1(), xx2), zz2),
                z: Fixed::spec_add(yz2, sx2),
            },
            z: Vec3 {
                x: Fixed::spec_add(xz2, sy2),
                y: Fixed::spec_sub(yz2, sx2),
                z: Fixed::spec_sub(Fixed::spec_sub(fp1(), xx2), yy2),
            },
        }
    }

    pub fn to_mat3(self) -> (r: Mat3)
        ensures
            r == Self::spec_to_mat3(self),
    {
        let x2 = self.x.add(self.x);
        let y2 = self.y.add(self.y);
        let z2 = self.z.add(self.z);
        let xx2 = x2.mul(self.x);
        let xy2 = x2.mul(self.y);
        let xz2 = x2.mul(self.z);
        let yy2 = y2.mul(self.y);
        let yz2 = y2.mul(self.z);
        let zz2 = z2.mul(self.z);
        let sx2 = x2.mul(self.s);
        let sy2 = y2.mul(self.s);
        let sz2 = z2.mul(self.s);
        let one = Fixed::one();
        Mat3 {
            x: Vec3 { x: one.sub(yy2).sub(zz2), y: xy2.add(sz2), z: xz2.sub(sy2) },
            y: Vec3 { x: xy2.sub(sz2), y: one.sub(xx2).sub(zz2), z: yz2.add(sx2) },
            z: Vec3 { x: xz2.add(sy2), y: yz2.sub(sx2), z: one.sub(xx2).sub(yy2) },
        }
    }
}

impl Mat4 {
    /// The identity matrix.
    pub fn identity() -> (r: Mat4)
        ensures
            r == Self::spec_identity(),
    {
        Mat4 {
            x: Vec4 { x: Fixed::one(), y: Fixed::zero(), z: Fixed::zero(), w: Fixed::zero() },
            y: Vec4 { x: Fixed::zero(), y: Fixed::one(), z: Fixed::zero(), w: Fixed::zero() },
            z: Vec4 { x: Fixed::zero(), y: Fixed::zero(), z: Fixed::one(), w: Fixed::zero() },
            w: Vec4 { x: Fixed::zero(), y: Fixed::zero(), z: Fixed::zero(), w: Fixed::one() },
        }
    }

    pub open spec fn spec_identity() -> Mat4 {
        Mat4 {
            x: Vec4 { x: fp1(), y: fp0(), z: fp0(), w: fp0() },
            y: Vec4 { x: fp0(), y: fp1(), z: fp0(), w: fp0() },
            z: Vec4 { x: fp0(), y: fp0(), z: fp1(), w: fp0() },
            w: Vec4 { x: fp0(), y: fp0(), z: fp0(), w: fp1() },
        }
    }

    /// One component of the product `m * v`: the dot product of row `r0..r3`
    /// with the column `v`.
    pub open spec fn spec_row_dot(r0: Fixed, r1: Fixed, r2: Fixed, r3: Fixed, v: Vec4) -> Fixed {
        Fixed::spec_add(
            Fixed::spec_add(
                Fixed::spec_add(Fixed::spec_mul(r0, v.x), Fixed::spec_mul(r1, v.y)),
                Fixed::spec_mul(r2, v.z),
            ),
            Fixed::spec_mul(r3, v.w),
        )
    }

    /// The matrix-vector product `m * v`.
    pub open spec fn spec_mul_vec(m: Mat4, v: Vec4) -> Vec4 {
        Vec4 {
            x: Self::spec_row_dot(m.x.x, m.y.x, m.z.x, m.w.x, v),
            y: Self::spec_row_dot(m.x.y, m.y.y, m.z.y, m.w.y, v),
            z: Self::spec_row_dot(m.x.z, m.y.z, m.z.z, m.w.z, v),
            w: Self::spec_row_dot(m.x.w, m.y.w, m.z.w, m.w.w, v),
        }
    }

    pub fn mul_vec(&self, v: Vec4) -> (r: Vec4)
        ensures
            r == Self::spec_mul_vec(*self, v),
    {
        Vec4 {
            x: self.x.x.mul(v.x).add(self.y.x.mul(v.y)).add(self.z.x.mul(v.z)).add(
                self.w.x.mul(v.w),
            ),
            y: self.x.y.mul(v.x).add(self.y.y.mul(v.y)).add(self.z.y.mul(v.z)).add(
                self.w.y.mul(v.w),
            ),
            z: self.x.z.mul(v.x).add(self.y.z.mul(v.y)).add(self.z.z.mul(v.z)).add(
                self.w.z.mul(v.w),
            ),
            w: self.x.w.mul(v.x).add(self.y.w.mul(v.y)).add(self.z.w.mul(v.z)).add(
                self.w.w.mul(v.w),
            ),
        }
    }

    /// The matrix product `a * b`, column by column.
    pub open spec fn spec_mul(a: Mat4, b: Mat4) -> Mat4 {
        Mat4 {
            x: Self::spec_mul_vec(a, b.x),
            y: Self::spec_mul_vec(a, b.y),
            z: Self::spec_mul_vec(a, b.z),
            w: Self::spec_mul_vec(a, b.w),
        }
    }

    pub fn mul(&self, o: &Mat4) -> (r: Mat4)
        ensures
            r == Self::spec_mul(*self, *o),
    {
        Mat4 {
            x: self.mul_vec(o.x),
            y: self.mul_vec(o.y),
            z: self.mul_vec(o.z),
            w: self.mul_vec(o.w),
        }
    }
}

impl Transform {
    /// The identity transform: zero position, identity rotation, unit scale.
    pub open spec fn spec_identity() -> Transform {
        Transform {
            position: Vec3 { x: fp0(), y: fp0(), z: fp0() },
            rotation: Quat { s: fp1(), x: fp0(), y: fp0(), z: fp0() },
            scale: Vec3 { x: fp1(), y: fp1(), z: fp1() },
        }
    }

    pub fn identity() -> (r: Transform)
        ensures
            r == Self::spec_identity(),
    {
        Transform { position: Vec3::zero(), rotation: Quat::identity(), scale: Vec3::one() }
    }

    /// The homogeneous matrix of the transform: translate, then rotate, then
    /// scale (columns are the rotation columns scaled component-wise, the
    /// fourth column is the position).
    pub open spec fn spec_to_mat(t: Transform) -> Mat4 {
        let r = Quat::spec_to_mat3(t.rotation);
        Mat4 {
            x: Vec4 {
                x: Fixed::spec_mul(r.x.x, t.scale.x),
                y: Fixed::spec_mul(r.x.y, t.scale.x),
                z: Fixed::spec_mul(r.x.z, t.scale.x),
                w: fp0(),
            },
            y: Vec4 {
                x: Fixed::spec_mul(r.y.x, t.scale.y),
                y: Fixed::spec_mul(r.y.y, t.scale.y),
                z: Fixed::spec_mul(r.y.z, t.scale.y),
                w: fp0(),
            },
            z: Vec4 {
                x: Fixed::spec_mul(r.z.x, t.scale.z),
                y: Fixed::spec_mul(r.z.y, t.scale.z),
                z: Fixed::spec_mul(r.z.z, t.scale.z),
                w: fp0(),
            },
            w: Vec4 { x: t.position.x, y: t.position.y, z: t.position.z, w: fp1() },
        }
    }

    pub fn to_mat(&self) -> (m: Mat4)
        ensures
            m == Self::spec_to_mat(*self),
    {
        let r = self.rotation.to_mat3();
        let zero = Fixed::zero();
        Mat4 {
            x: Vec4 {
                x: r.x.x.mul(self.scale.x),
                y: r.x.y.mul(self.scale.x),
                z: r.x.z.mul(self.scale.x),
                w: zero,
            },
            y: Vec4 {
                x: r.y.x.mul(self.scale.y),
                y: r.y.y.mul(self.scale.y),
                z: r.y.z.mul(self.scale.y),
                w: zero,
            },
            z: Vec4 {
                x: r.z.x.mul(self.scale.z),
                y: r.z.y.mul(self.scale.z),
                z: r.z.z.mul(self.scale.z),
                w: zero,
            },
            w: Vec4 { x: self.position.x, y: self.position.y, z: self.position.z, w: Fixed::one() },
        }
    }
}

} // verus!
