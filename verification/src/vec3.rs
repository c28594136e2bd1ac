//! Three-component vectors over fixed-point scalars, for positions,
//! directions and RGB colours alike.

use vstd::prelude::*;
use crate::fixed::{
    fx_add, fx_sub, fx_mul, fx_div, fx_sqrt, s_fadd, s_fsub, s_fmul, s_fdiv, s_fsqrt, FX_TWO,
};

verus! {

/// Mathematical model of a vector: unbounded integer components, each in the
/// fixed-point encoding.
pub ghost struct V3 {
    pub x: int,
    pub y: int,
    pub z: int,
}

/// The zero vector.
pub open spec fn s_vzero() -> V3 {
    V3 { x: 0, y: 0, z: 0 }
}

/// Component-wise saturating addition.
pub open spec fn s_vadd(a: V3, b: V3) -> V3 {
    V3 { x: s_fadd(a.x, b.x), y: s_fadd(a.y, b.y), z: s_fadd(a.z, b.z) }
}

/// Component-wise saturating subtraction.
pub open spec fn s_vsub(a: V3, b: V3) -> V3 {
    V3 { x: s_fsub(a.x, b.x), y: s_fsub(a.y, b.y), z: s_fsub(a.z, b.z) }
}

/// Scale every component by the scalar `k`.
pub open spec fn s_vscale(k: int, v: V3) -> V3 {
    V3 { x: s_fmul(k, v.x), y: s_fmul(k, v.y), z: s_fmul(k, v.z) }
}

/// Component-wise product, used to mix two colours.
pub open spec fn s_vcmul(a: V3, b: V3) -> V3 {
    V3 { x: s_fmul(a.x, b.x), y: s_fmul(a.y, b.y), z: s_fmul(a.z, b.z) }
}

/// Dot product, summed left to right.
pub open spec fn s_vdot(a: V3, b: V3) -> int {
    s_fadd(s_fadd(s_fmul(a.x, b.x), s_fmul(a.y, b.y)), s_fmul(a.z, b.z))
}

/// Cross product.
pub open spec fn s_vcross(a: V3, b: V3) -> V3 {
    V3 {
        x: s_fsub(s_fmul(a.y, b.z), s_fmul(a.z, b.y)),
        y: s_fsub(s_fmul(a.z, b.x), s_fmul(a.x, b.z)),
        z: s_fsub(s_fmul(a.x, b.y), s_fmul(a.y, b.x)),
    }
}

/// Euclidean length: the square root of the dot product with itself.
pub open spec fn s_vnorm(v: V3) -> int {
    s_fsqrt(s_vdot(v, v))
}

/// Divide every component by the length.  A zero-length vector normalizes to
/// the zero vector (division by zero yields zero), a deliberate policy for
/// the degenerate geometry the renderer can meet.
pub open spec fn s_vnormalize(v: V3) -> V3 {
    let n = s_vnorm(v);
    V3 { x: s_fdiv(v.x, n), y: s_fdiv(v.y, n), z: s_fdiv(v.z, n) }
}

/// Mirror `d` about the unit normal `n`: `d - 2 (d . n) n`.
pub open spec fn s_vreflect(d: V3, n: V3) -> V3 {
    s_vsub(d, s_vscale(FX_TWO as int, s_vscale(s_vdot(d, n), n)))
}

/// A vector of three fixed-point scalars.
#[derive(Clone, Copy, PartialEq, Eq, Structural, Debug)]
pub struct Vec3 {
    pub x: i64,
    pub y: i64,
    pub z: i64,
}

impl View for Vec3 {
    type V = V3;

    open spec fn view(&self) -> V3 {
        V3 { x: self.x as int, y: self.y as int, z: self.z as int }
    }
}

impl Vec3 {
    /// Build a vector from its components.
    pub fn new(x: i64, y: i64, z: i64) -> (r: Vec3)
        ensures
            r@ == (V3 { x: x as int, y: y as int, z: z as int }),
    {
        Vec3 { x, y, z }
    }

    /// The zero vector.
    pub fn zero() -> (r: Vec3)
        ensures
            r@ == s_vzero(),
    {
        Vec3 { x: 0, y: 0, z: 0 }
    }

    /// Component-wise saturating addition.
    pub fn add(self, other: Vec3) -> (r: Vec3)
        ensures
            r@ == s_vadd(self@, other@),
    {
        Vec3 { x: fx_add(self.x, other.x), y: fx_add(self.y, other.y), z: fx_add(
            self.z,
            other.z,
        ) }
    }

    /// Component-wise saturating subtraction.
    pub fn sub(self, other: Vec3) -> (r: Vec3)
        ensures
            r@ == s_vsub(self@, other@),
    {
        Vec3 { x: fx_sub(self.x, other.x), y: fx_sub(self.y, other.y), z: fx_sub(
            self.z,
            other.z,
        ) }
    }

    /// Scale every component by `k`.
    pub fn scale(self, k: i64) -> (r: Vec3)
        ensures
            r@ == s_vscale(k as int, self@),
    {
        Vec3 { x: fx_mul(k, self.x), y: fx_mul(k, self.y), z: fx_mul(k, self.z) }
    }

    /// Component-wise product, used to mix two colours.
    pub fn cmul(self, other: Vec3) -> (r: Vec3)
        ensures
            r@ == s_vcmul(self@, other@),
    {
        Vec3 { x: fx_mul(self.x, other.x), y: fx_mul(self.y, other.y), z: fx_mul(
            self.z,
            other.z,
        ) }
    }

    /// Dot product.
    pub fn dot(self, other: Vec3) -> (r: i64)
        ensures
            r == s_vdot(self@, other@),
    {
        fx_add(
            fx_add(fx_mul(self.x, other.x), fx_mul(self.y, other.y)),
            fx_mul(self.z, other.z),
        )
    }

    /// Cross product.
    pub fn cross(self, other: Vec3) -> (r: Vec3)
        ensures
            r@ == s_vcross(self@, other@),
    {
        Vec3 {
            x: fx_sub(fx_mul(self.y, other.z), fx_mul(self.z, other.y)),
            y: fx_sub(fx_mul(self.z, other.x), fx_mul(self.x, other.z)),
            z: fx_sub(fx_mul(self.x, other.y), fx_mul(self.y, other.x)),
        }
    }

    /// Euclidean length.
    pub fn norm(self) -> (r: i64)
        ensures
            r == s_vnorm(self@),
    {
        fx_sqrt(self.dot(self))
    }

    /// Normalize to unit length; the zero vector stays zero.
    pub fn normalize(self) -> (r: Vec3)
        ensures
            r@ == s_vnormalize(self@),
    {
        let n = self.norm();
        Vec3 { x: fx_div(self.x, n), y: fx_div(self.y, n), z: fx_div(self.z, n) }
    }

    /// Mirror `self` about the unit normal `n`.
    pub fn reflect(self, normal: Vec3) -> (r: Vec3)
        ensures
            r@ == s_vreflect(self@, normal@),
    {
        let proj = normal.scale(self.dot(normal));
        self.sub(proj.scale(FX_TWO))
    }
}

} // verus!
