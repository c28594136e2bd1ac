//! Rays, surface hits, and the two primitive shapes with their
//! intersection rules.

use vstd::prelude::*;
use crate::fixed::{
    fx_add, fx_div, fx_mul, fx_neg, fx_sqrt, fx_sub, s_fadd, s_fdiv, s_fmul, s_fneg, s_fsqrt,
    s_fsub, FX_FOUR, FX_TWO,
};
use crate::vec3::{s_vadd, s_vdot, s_vnormalize, s_vscale, s_vsub, V3, Vec3};

verus! {

/// Mathematical model of a ray.
pub ghost struct RayS {
    pub origin: V3,
    pub direction: V3,
}

/// A ray: origin plus direction, the direction not necessarily unit length
/// (the intersection rules account for its norm).
#[derive(Clone, Copy, PartialEq, Eq, Structural, Debug)]
pub struct Ray {
    pub origin: Vec3,
    pub direction: Vec3,
}

impl View for Ray {
    type V = RayS;

    open spec fn view(&self) -> RayS {
        RayS { origin: self.origin@, direction: self.direction@ }
    }
}

/// The point a parameter `t` along a ray: `origin + t * direction`.
pub open spec fn s_ray_extend(ray: RayS, t: int) -> V3 {
    s_vadd(ray.origin, s_vscale(t, ray.direction))
}

impl Ray {
    /// The point a parameter `t` along the ray.
    pub fn extend(&self, t: i64) -> (p: Vec3)
        ensures
            p@ == s_ray_extend(self@, t as int),
    {
        self.origin.add(self.direction.scale(t))
    }
}

/// Mathematical model of a surface hit.
pub ghost struct HitS {
    pub t: int,
    pub pos: V3,
    pub normal: V3,
}

/// A surface hit: the ray parameter, the hit point, and the unit outward
/// normal there.
#[derive(Clone, Copy, PartialEq, Eq, Structural, Debug)]
pub struct Intersection {
    pub t: i64,
    pub pos: Vec3,
    pub normal: Vec3,
}

impl View for Intersection {
    type V = HitS;

    open spec fn view(&self) -> HitS {
        HitS { t: self.t as int, pos: self.pos@, normal: self.normal@ }
    }
}

/// Mathematical model of a shape.
pub ghost enum ShapeS {
    Sphere { centre: V3, radius: int },
    Plane { point: V3, normal: V3 },
}

/// A geometric primitive: a sphere or an (infinite) plane.
#[derive(Clone, Copy, PartialEq, Eq, Structural, Debug)]
pub enum Shape {
    Sphere { centre: Vec3, radius: i64 },
    Plane { point: Vec3, normal: Vec3 },
}

impl View for Shape {
    type V = ShapeS;

    open spec fn view(&self) -> ShapeS {
        match *self {
            Shape::Sphere { centre, radius } => ShapeS::Sphere {
                centre: centre@,
                radius: radius as int,
            },
            Shape::Plane { point, normal } => ShapeS::Plane { point: point@, normal: normal@ },
        }
    }
}

/// Quadratic coefficient `a = |direction|^2` of the sphere equation.
pub open spec fn s_sphere_a(ray: RayS) -> int {
    s_vdot(ray.direction, ray.direction)
}

/// Quadratic coefficient `b = 2 direction . (origin - centre)`.
pub open spec fn s_sphere_b(ray: RayS, centre: V3) -> int {
    s_fmul(FX_TWO as int, s_vdot(ray.direction, s_vsub(ray.origin, centre)))
}

/// Quadratic coefficient `c = |origin - centre|^2 - radius^2`.
pub open spec fn s_sphere_c(ray: RayS, centre: V3, radius: int) -> int {
    let diff = s_vsub(ray.origin, centre);
    s_fsub(s_vdot(diff, diff), s_fmul(radius, radius))
}

/// Discriminant `b^2 - 4 a c` of the sphere equation.
pub open spec fn s_sphere_disc(ray: RayS, centre: V3, radius: int) -> int {
    s_fsub(
        s_fmul(s_sphere_b(ray, centre), s_sphere_b(ray, centre)),
        s_fmul(FX_FOUR as int, s_fmul(s_sphere_a(ray), s_sphere_c(ray, centre, radius))),
    )
}

/// The hit record for a sphere at ray parameter `t`: position along the ray,
/// normal pointing from the centre through the hit point.
pub open spec fn s_sphere_hit_at(ray: RayS, centre: V3, t: int) -> HitS {
    let pos = s_ray_extend(ray, t);
    HitS { t, pos, normal: s_vnormalize(s_vsub(pos, centre)) }
}

/// The smaller of the two quadratic roots that exceeds `min_d`, if any.
pub open spec fn s_sphere_best_t(ray: RayS, centre: V3, radius: int, min_d: int) -> Option<int> {
    let b = s_sphere_b(ray, centre);
    let sq = s_fsqrt(s_sphere_disc(ray, centre, radius));
    let denom = s_fmul(FX_TWO as int, s_sphere_a(ray));
    let t1 = s_fdiv(s_fadd(s_fneg(b), sq), denom);
    let t2 = s_fdiv(s_fsub(s_fneg(b), sq), denom);
    if t1 > min_d && t2 > min_d {
        if t2 <= t1 {
            Some(t2)
        } else {
            Some(t1)
        }
    } else if t2 > min_d {
        Some(t2)
    } else if t1 > min_d {
        Some(t1)
    } else {
        None
    }
}

/// Ray-sphere intersection: no hit when the discriminant is negative, else
/// the nearest root beyond `min_d`.
pub open spec fn s_sphere_hit(ray: RayS, centre: V3, radius: int, min_d: int) -> Option<HitS> {
    if s_sphere_disc(ray, centre, radius) < 0 {
        None
    } else {
        match s_sphere_best_t(ray, centre, radius, min_d) {
            None => None,
            Some(t) => Some(s_sphere_hit_at(ray, centre, t)),
        }
    }
}

/// Ray-plane intersection: no hit when the ray is parallel to the plane,
/// else `t = normal . (point - origin) / (normal . direction)`, kept only
/// beyond `min_d`.  The stored plane normal is reported unchanged.
pub open spec fn s_plane_hit(ray: RayS, point: V3, normal: V3, min_d: int) -> Option<HitS> {
    let denom = s_vdot(normal, ray.direction);
    if denom == 0 {
        None
    } else {
        let t = s_fdiv(s_vdot(normal, s_vsub(point, ray.origin)), denom);
        if t <= min_d {
            None
        } else {
            Some(HitS { t, pos: s_ray_extend(ray, t), normal })
        }
    }
}

/// Ray-shape intersection, dispatched on the shape.
pub open spec fn s_shape_hit(shape: ShapeS, ray: RayS, min_d: int) -> Option<HitS> {
    match shape {
        ShapeS::Sphere { centre, radius } => s_sphere_hit(ray, centre, radius, min_d),
        ShapeS::Plane { point, normal } => s_plane_hit(ray, point, normal, min_d),
    }
}

/// A ray whose discriminant against a sphere is negative misses it: no
/// intersection, whatever `min_d`.
pub proof fn lemma_sphere_miss(ray: RayS, centre: V3, radius: int, min_d: int)
    requires
        s_sphere_disc(ray, centre, radius) < 0,
    ensures
        s_sphere_hit(ray, centre, radius, min_d) is None,
{
}

/// A ray tangent to a sphere (zero discriminant) admits exactly one
/// candidate parameter, `-b / (2a)`: any hit carries that parameter, and a
/// hit exists exactly when it lies beyond `min_d`.
pub proof fn lemma_sphere_tangent(ray: RayS, centre: V3, radius: int, min_d: int)
    requires
        s_sphere_disc(ray, centre, radius) == 0,
    ensures
        (s_sphere_hit(ray, centre, radius, min_d) matches Some(h) ==> h.t == s_fdiv(
            s_fneg(s_sphere_b(ray, centre)),
            s_fmul(FX_TWO as int, s_sphere_a(ray)),
        )),
        s_sphere_hit(ray, centre, radius, min_d) is Some <==> s_fdiv(
            s_fneg(s_sphere_b(ray, centre)),
            s_fmul(FX_TWO as int, s_sphere_a(ray)),
        ) > min_d,
{
    assert(s_fsqrt(0) == 0);
}

/// A ray parallel to a plane yields no intersection, regardless of its
/// origin and of `min_d`.
pub proof fn lemma_plane_parallel(ray: RayS, point: V3, normal: V3, min_d: int)
    requires
        s_vdot(normal, ray.direction) == 0,
    ensures
        s_plane_hit(ray, point, normal, min_d) is None,
{
}

impl Shape {
    /// The nearest intersection of `ray` with this shape at parameter
    /// strictly beyond `min_distance`, if any.
    pub fn intersection(&self, ray: &Ray, min_distance: i64) -> (r: Option<Intersection>)
        ensures
            r is Some <==> s_shape_hit(self@, ray@, min_distance as int) is Some,
            (r matches Some(h) ==> s_shape_hit(self@, ray@, min_distance as int) == Some(h@)),
    {
        match self {
            Shape::Sphere { centre, radius } => {
                let a = ray.direction.dot(ray.direction);
                let difference = ray.origin.sub(*centre);
                let b = fx_mul(FX_TWO, ray.direction.dot(difference));
                let c = fx_sub(difference.dot(difference), fx_mul(*radius, *radius));
                let discriminant = fx_sub(fx_mul(b, b), fx_mul(FX_FOUR, fx_mul(a, c)));
                if discriminant < 0 {
                    return None;
                }
                let sq = fx_sqrt(discriminant);
                let denom = fx_mul(FX_TWO, a);
                let t1 = fx_div(fx_add(fx_neg(b), sq), denom);
                let t2 = fx_div(fx_sub(fx_neg(b), sq), denom);
                let best: Option<i64> = if t1 > min_distance && t2 > min_distance {
                    if t2 <= t1 {
                        Some(t2)
                    } else {
                        Some(t1)
                    }
                } else if t2 > min_distance {
                    Some(t2)
                } else if t1 > min_distance {
                    Some(t1)
                } else {
                    None
                };
                match best {
                    None => None,
                    Some(t) => {
                        let point = ray.extend(t);
                        let normal = point.sub(*centre).normalize();
                        Some(Intersection { t, pos: point, normal })
                    },
                }
            },
            Shape::Plane { point, normal } => {
                let n_dot_d = normal.dot(ray.direction);
                if n_dot_d == 0 {
                    return None;
                }
                let a_minus_p = point.sub(ray.origin);
                let t = fx_div(normal.dot(a_minus_p), n_dot_d);
                if t <= min_distance {
                    None
                } else {
                    Some(Intersection { t, pos: ray.extend(t), normal: *normal })
                }
            },
        }
    }
}

} // verus!
