//! Local illumination (ambient, diffuse, specular, shadows) and the
//! recursive reflection tracer.

use vstd::prelude::*;
use crate::fixed::{fx_clamp01, fx_pow, s_clamp01, s_fpow, fx_wf, s_fadd};
use crate::vec3::{s_vadd, s_vcmul, s_vdot, s_vnormalize, s_vreflect, s_vscale, s_vsub, s_vzero, V3, Vec3};
use crate::geometry::{HitS, Intersection, Ray, RayS};
use crate::scene::{s_nearest_hit, LightS, LightSource, Material, MaterialS, Scene, SceneS};

verus! {

/// Reflection rays stop spawning once this many bounces have been taken:
/// the ceiling that makes mutually reflective surfaces terminate.
pub const MAX_BOUNCES: u32 = 10;

/// Minimum ray parameter for reflection rays (about 1e-4 world units), so a
/// reflected ray does not re-hit the surface it starts on.
pub const REFLECT_MIN_DISTANCE: i64 = 7;

/// The ambient term: `k_ambient * (ambient_light (.) colour)`.
pub open spec fn s_ambient(scene: SceneS, mat: MaterialS) -> V3 {
    s_vscale(mat.k_ambient, s_vcmul(scene.ambient_light, mat.colour))
}

/// The shadow ray from a hit point toward a light: origin at the hit,
/// direction the unit vector toward the light.
pub open spec fn s_light_ray(hit: HitS, light: LightS) -> RayS {
    RayS { origin: hit.pos, direction: s_vnormalize(s_vsub(light.pos, hit.pos)) }
}

/// A hit point is occluded from a light when its shadow ray, beyond the
/// scene's shadow minimum distance, strikes any object.
pub open spec fn s_occluded(scene: SceneS, hit: HitS, light: LightS) -> bool {
    s_nearest_hit(scene.objects, s_light_ray(hit, light), scene.shadow_min_distance) is Some
}

/// The diffuse term for one light, given the shadow ray `lray`:
/// `clamp(normal . light_direction, 0, 1) * (light colour (.) material colour)`.
pub open spec fn s_diffuse_with(hit: HitS, mat: MaterialS, light: LightS, lray: RayS) -> V3 {
    s_vscale(s_clamp01(s_vdot(hit.normal, lray.direction)), s_vcmul(light.colour, mat.colour))
}

/// The specular term for one light as seen from `viewer`:
/// `clamp(half . normal, 0, 1)^shine * light colour`, with `half` the
/// normalized sum of the unit directions toward the light and the viewer.
pub open spec fn s_specular_with(hit: HitS, mat: MaterialS, light: LightS, viewer: V3) -> V3 {
    let l = s_vnormalize(s_vsub(light.pos, hit.pos));
    let v = s_vnormalize(s_vsub(viewer, hit.pos));
    let h = s_vnormalize(s_vadd(l, v));
    s_vscale(s_fpow(s_clamp01(s_vdot(h, hit.normal)), mat.shine), light.colour)
}

/// What one unoccluded light adds: `k_diffuse * diffuse + k_specular * specular`.
pub open spec fn s_light_contribution(hit: HitS, mat: MaterialS, light: LightS, viewer: V3) -> V3 {
    s_vadd(
        s_vscale(mat.k_diffuse, s_diffuse_with(hit, mat, light, s_light_ray(hit, light))),
        s_vscale(mat.k_specular, s_specular_with(hit, mat, light, viewer)),
    )
}

/// The per-light sum, accumulated in light order; an occluded light
/// contributes nothing at all.
pub open spec fn s_light_sum(
    scene: SceneS,
    hit: HitS,
    mat: MaterialS,
    viewer: V3,
    lights: Seq<LightS>,
) -> V3
    decreases lights.len(),
{
    if lights.len() == 0 {
        s_vzero()
    } else {
        let rest = s_light_sum(scene, hit, mat, viewer, lights.drop_last());
        let light = lights.last();
        if s_occluded(scene, hit, light) {
            rest
        } else {
            s_vadd(rest, s_light_contribution(hit, mat, light, viewer))
        }
    }
}

/// The local (non-reflective) colour at a hit point: the ambient term plus
/// every unoccluded light's diffuse and specular contribution.
pub open spec fn s_surface_colour(scene: SceneS, hit: HitS, mat: MaterialS, viewer: V3) -> V3 {
    s_vadd(s_ambient(scene, mat), s_light_sum(scene, hit, mat, viewer, scene.lights))
}

/// The mirror ray spawned at a hit: origin at the hit point, direction the
/// incoming direction reflected about the surface normal.
pub open spec fn s_reflected_ray(ray: RayS, hit: HitS) -> RayS {
    RayS { origin: hit.pos, direction: s_vreflect(ray.direction, hit.normal) }
}

/// The reflection term: zero past the bounce ceiling or for a
/// non-reflective material, else `k_reflect` times the colour of the
/// mirror ray traced one bounce deeper.
pub open spec fn s_reflection(
    scene: SceneS,
    hit: HitS,
    mat: MaterialS,
    ray: RayS,
    bounces: nat,
) -> V3
    decreases MAX_BOUNCES + 2 - bounces, 0int,
{
    if bounces > MAX_BOUNCES || mat.k_reflect == 0 {
        s_vzero()
    } else {
        s_vscale(
            mat.k_reflect,
            s_ray_colour(
                scene,
                s_reflected_ray(ray, hit),
                REFLECT_MIN_DISTANCE as int,
                bounces + 1,
            ),
        )
    }
}

/// The colour seen along a ray: the background colour when nothing is hit,
/// else the local colour at the nearest hit plus the reflection term.
pub open spec fn s_ray_colour(scene: SceneS, ray: RayS, min_d: int, bounces: nat) -> V3
    decreases MAX_BOUNCES + 2 - bounces, 1int,
{
    match s_nearest_hit(scene.objects, ray, min_d) {
        None => scene.default_colour,
        Some(p) => s_vadd(
            s_surface_colour(scene, p.0, p.1, ray.origin),
            s_reflection(scene, p.0, p.1, ray, bounces),
        ),
    }
}

/// Past the bounce ceiling the reflection term is exactly the zero vector:
/// the recursion's only cycle breaker, and the reason even two facing
/// mirrors yield a finite colour.
pub proof fn lemma_bounce_ceiling(scene: SceneS, hit: HitS, mat: MaterialS, ray: RayS, bounces: nat)
    requires
        bounces > MAX_BOUNCES,
    ensures
        s_reflection(scene, hit, mat, ray, bounces) == s_vzero(),
{
}

/// A hit point occluded from every light receives the ambient term only.
pub proof fn lemma_light_sum_all_occluded(
    scene: SceneS,
    hit: HitS,
    mat: MaterialS,
    viewer: V3,
    lights: Seq<LightS>,
)
    requires
        forall|i: int| 0 <= i < lights.len() ==> s_occluded(scene, hit, lights[i]),
    ensures
        s_light_sum(scene, hit, mat, viewer, lights) == s_vzero(),
    decreases lights.len(),
{
    if lights.len() > 0 {
        assert(forall|i: int|
            0 <= i < lights.drop_last().len() ==> lights.drop_last()[i] == lights[i]);
        lemma_light_sum_all_occluded(scene, hit, mat, viewer, lights.drop_last());
        assert(s_occluded(scene, hit, lights.last()));
    }
}

/// A hit point occluded from every light in the scene is lit by the ambient
/// term alone: shadows suppress both diffuse and specular entirely.
pub proof fn lemma_all_occluded_ambient_only(scene: SceneS, hit: HitS, mat: MaterialS, viewer: V3)
    requires
        forall|i: int| 0 <= i < scene.lights.len() ==> s_occluded(scene, hit, scene.lights[i]),
    ensures
        s_surface_colour(scene, hit, mat, viewer) == s_ambient(scene, mat),
{
    lemma_light_sum_all_occluded(scene, hit, mat, viewer, scene.lights);
    let amb = s_ambient(scene, mat);
    assert(fx_wf(amb.x) && fx_wf(amb.y) && fx_wf(amb.z));
    assert(s_fadd(amb.x, 0) == amb.x);
    assert(s_vadd(amb, s_vzero()) == amb);
}

impl Scene {
    /// The diffuse term for one light, given the shadow ray toward it.
    pub fn get_diffuse_lighting(
        &self,
        intersection: &Intersection,
        material: &Material,
        light: &LightSource,
        ray: &Ray,
    ) -> (r: Vec3)
        ensures
            r@ == s_diffuse_with(intersection@, material@, light@, ray@),
    {
        let coeff = fx_clamp01(intersection.normal.dot(ray.direction));
        light.colour.cmul(material.colour).scale(coeff)
    }

    /// The specular term for one light, as seen from the origin of `ray`
    /// (the viewer for primary rays, the previous hit for bounced rays).
    pub fn get_specular_lighting(
        &self,
        intersection: &Intersection,
        material: &Material,
        light: &LightSource,
        ray: &Ray,
    ) -> (r: Vec3)
        ensures
            r@ == s_specular_with(intersection@, material@, light@, ray@.origin),
    {
        let l = light.pos.sub(intersection.pos).normalize();
        let v = ray.origin.sub(intersection.pos).normalize();
        let h = l.add(v).normalize();
        let coeff = fx_pow(fx_clamp01(h.dot(intersection.normal)), material.shine);
        light.colour.scale(coeff)
    }

    /// The local colour at a hit point: ambient plus, for every light not
    /// occluded by a shadow-ray test, its diffuse and specular terms.
    pub fn get_surface_point_colour(
        &self,
        intersection: &Intersection,
        material: &Material,
        ray: &Ray,
    ) -> (r: Vec3)
        ensures
            r@ == s_surface_colour(self@, intersection@, material@, ray@.origin),
    {
        let ambient = self.ambient_light.cmul(material.colour).scale(material.k_ambient);
        let mut acc = Vec3::zero();
        let mut i: usize = 0;
        while i < self.lights.len()
            invariant
                i <= self.lights.len(),
                acc@ == s_light_sum(
                    self@,
                    intersection@,
                    material@,
                    ray@.origin,
                    self@.lights.take(i as int),
                ),
            decreases self.lights.len() - i,
        {
            let light = &self.lights[i];
            let shadow_ray = Ray {
                origin: intersection.pos,
                direction: light.pos.sub(intersection.pos).normalize(),
            };
            let occlusion = self.get_intersection(&shadow_ray, self.shadow_min_distance);
            proof {
                assert(self@.lights.take(i as int + 1).drop_last() =~= self@.lights.take(i as int));
                assert(self@.lights.take(i as int + 1).last() == self@.lights[i as int]);
                assert(shadow_ray@ == s_light_ray(intersection@, self@.lights[i as int]));
            }
            match occlusion {
                Some(_) => {},
                None => {
                    let diffuse = self.get_diffuse_lighting(
                        intersection,
                        material,
                        light,
                        &shadow_ray,
                    ).scale(material.k_diffuse);
                    let specular = self.get_specular_lighting(
                        intersection,
                        material,
                        light,
                        ray,
                    ).scale(material.k_specular);
                    acc = acc.add(diffuse.add(specular));
                },
            }
            i = i + 1;
        }
        proof {
            assert(self@.lights.take(self.lights@.len() as int) =~= self@.lights);
        }
        ambient.add(acc)
    }

    /// The reflection term at a hit: zero past the bounce ceiling or for a
    /// non-reflective material, else the mirror ray's colour attenuated by
    /// `k_reflect`.
    pub fn get_reflection(
        &self,
        intersection: &Intersection,
        material: &Material,
        ray: &Ray,
        num_bounces: u32,
    ) -> (r: Vec3)
        ensures
            r@ == s_reflection(self@, intersection@, material@, ray@, num_bounces as nat),
        decreases MAX_BOUNCES + 2 - num_bounces, 0int,
    {
        if num_bounces > MAX_BOUNCES || material.k_reflect == 0 {
            return Vec3::zero();
        }
        let reflected_ray = Ray {
            origin: intersection.pos,
            direction: ray.direction.reflect(intersection.normal),
        };
        let reflected_colour = self.get_ray_colour(
            &reflected_ray,
            REFLECT_MIN_DISTANCE,
            num_bounces + 1,
        );
        reflected_colour.scale(material.k_reflect)
    }

    /// The colour seen along a ray: background if nothing is hit beyond
    /// `min_distance`, else local colour plus reflection at the nearest hit.
    pub fn get_ray_colour(&self, ray: &Ray, min_distance: i64, num_bounces: u32) -> (r: Vec3)
        ensures
            r@ == s_ray_colour(self@, ray@, min_distance as int, num_bounces as nat),
        decreases MAX_BOUNCES + 2 - num_bounces, 1int,
    {
        match self.get_intersection(ray, min_distance) {
            None => self.default_colour,
            Some(pair) => {
                let object_colour = self.get_surface_point_colour(&pair.0, &pair.1, ray);
                let reflection = self.get_reflection(&pair.0, &pair.1, ray, num_bounces);
                object_colour.add(reflection)
            },
        }
    }
}

} // verus!
