//! The immutable scene model: materials, lights, camera, objects, and the
//! nearest-hit query over all objects.

use vstd::prelude::*;
use crate::fixed::{
    fx_div, fx_from_int, fx_mul, fx_sat, s_fdiv, s_fmul, FX_HALF, FX_ONE,
};
use crate::vec3::{s_vadd, s_vcross, s_vnormalize, s_vscale, V3, Vec3};
use crate::geometry::{s_shape_hit, HitS, Intersection, Ray, RayS, Shape, ShapeS};

verus! {

/// Mathematical model of a material.
pub ghost struct MaterialS {
    pub colour: V3,
    pub k_diffuse: int,
    pub k_ambient: int,
    pub k_specular: int,
    pub k_reflect: int,
    pub shine: nat,
}

/// Surface properties: a colour, the four reflectance coefficients, and the
/// specular exponent.
#[derive(Clone, Copy, PartialEq, Eq, Structural, Debug)]
pub struct Material {
    pub colour: Vec3,
    pub k_diffuse: i64,
    pub k_ambient: i64,
    pub k_specular: i64,
    pub k_reflect: i64,
    pub shine: u32,
}

impl View for Material {
    type V = MaterialS;

    open spec fn view(&self) -> MaterialS {
        MaterialS {
            colour: self.colour@,
            k_diffuse: self.k_diffuse as int,
            k_ambient: self.k_ambient as int,
            k_specular: self.k_specular as int,
            k_reflect: self.k_reflect as int,
            shine: self.shine as nat,
        }
    }
}

/// Mathematical model of a point light.
pub ghost struct LightS {
    pub colour: V3,
    pub pos: V3,
}

/// A point light: an intensity per channel and a position; contributions are
/// not attenuated by distance.
#[derive(Clone, Copy, PartialEq, Eq, Structural, Debug)]
pub struct LightSource {
    pub colour: Vec3,
    pub pos: Vec3,
}

impl View for LightSource {
    type V = LightS;

    open spec fn view(&self) -> LightS {
        LightS { colour: self.colour@, pos: self.pos@ }
    }
}

/// Mathematical model of a scene object.
pub ghost struct ObjectS {
    pub material: MaterialS,
    pub shape: ShapeS,
}

/// One shape paired with one material.
#[derive(Clone, Copy, PartialEq, Eq, Structural, Debug)]
pub struct SceneObject {
    pub material: Material,
    pub shape: Shape,
}

impl View for SceneObject {
    type V = ObjectS;

    open spec fn view(&self) -> ObjectS {
        ObjectS { material: self.material@, shape: self.shape@ }
    }
}

impl SceneObject {
    /// The nearest intersection of `ray` with this object's shape strictly
    /// beyond `min_distance`, if any.
    pub fn intersect(&self, ray: &Ray, min_distance: i64) -> (r: Option<Intersection>)
        ensures
            r is Some <==> s_shape_hit(self@.shape, ray@, min_distance as int) is Some,
            (r matches Some(h) ==> s_shape_hit(self@.shape, ray@, min_distance as int) == Some(
                h@,
            )),
    {
        self.shape.intersection(ray, min_distance)
    }
}

/// Mathematical model of the camera.
pub ghost struct CameraS {
    pub position: V3,
    pub direction: V3,
    pub screen_distance: int,
    pub screen_width: int,
    pub screen_height: int,
    pub screen_columns: int,
    pub screen_rows: int,
}

/// The virtual camera: a position, a view direction (normalized by the ray
/// generator), the screen's distance and world size, and the pixel grid.
#[derive(Clone, Copy, PartialEq, Eq, Structural, Debug)]
pub struct Camera {
    pub position: Vec3,
    pub direction: Vec3,
    pub screen_distance: i64,
    pub screen_width: i64,
    pub screen_height: i64,
    pub screen_columns: u32,
    pub screen_rows: u32,
}

impl View for Camera {
    type V = CameraS;

    open spec fn view(&self) -> CameraS {
        CameraS {
            position: self.position@,
            direction: self.direction@,
            screen_distance: self.screen_distance as int,
            screen_width: self.screen_width as int,
            screen_height: self.screen_height as int,
            screen_columns: self.screen_columns as int,
            screen_rows: self.screen_rows as int,
        }
    }
}

/// The fixed world "up" direction (the unit z axis) against which the
/// camera basis is built.  A camera looking straight up or down degenerates
/// the basis (the cross product is the zero vector); the renderer then
/// produces rays with degenerate screen offsets rather than failing.
pub open spec fn s_world_up() -> V3 {
    V3 { x: 0, y: 0, z: FX_ONE as int }
}

/// The camera basis: `u` along the view, `v = u x up`, `w = v x u`.
pub open spec fn s_basis(cam: CameraS) -> (V3, V3, V3) {
    let u = s_vnormalize(cam.direction);
    let v = s_vcross(u, s_world_up());
    let w = s_vcross(v, u);
    (u, v, w)
}

/// The primary ray for pixel `(x, y)`: screen offsets centred on the grid
/// middle (rows grow downward, so `y` is negated), then
/// `direction = screen_distance * u + x_screen * v + y_screen * w`.
pub open spec fn s_camera_ray(cam: CameraS, x: int, y: int) -> RayS {
    let px = x - cam.screen_columns / 2;
    let py = y - cam.screen_rows / 2;
    let xs = s_fmul(
        s_fmul(
            s_fdiv(fx_sat(px * FX_ONE), fx_sat(cam.screen_columns * FX_ONE)),
            cam.screen_width,
        ),
        FX_HALF as int,
    );
    let ys = s_fmul(
        s_fmul(
            s_fdiv(fx_sat(py * FX_ONE), fx_sat(cam.screen_rows * FX_ONE)),
            cam.screen_height,
        ),
        -FX_HALF as int,
    );
    let basis = s_basis(cam);
    RayS {
        origin: cam.position,
        direction: s_vadd(
            s_vadd(s_vscale(cam.screen_distance, basis.0), s_vscale(xs, basis.1)),
            s_vscale(ys, basis.2),
        ),
    }
}

impl Camera {
    /// The camera basis: `u` along the view, `v = u x up`, `w = v x u`.
    pub fn get_basis_vectors(&self) -> (r: (Vec3, Vec3, Vec3))
        ensures
            r.0@ == s_basis(self@).0,
            r.1@ == s_basis(self@).1,
            r.2@ == s_basis(self@).2,
    {
        let u = self.direction.normalize();
        let up = Vec3 { x: 0, y: 0, z: FX_ONE };
        let v = u.cross(up);
        let w = v.cross(u);
        (u, v, w)
    }

    /// The primary ray through pixel `(x, y)`.
    pub fn get_ray(&self, x: u32, y: u32) -> (r: Ray)
        ensures
            r@ == s_camera_ray(self@, x as int, y as int),
    {
        let half_cols: u32 = self.screen_columns / 2;
        let half_rows: u32 = self.screen_rows / 2;
        let px: i64 = x as i64 - half_cols as i64;
        let py: i64 = y as i64 - half_rows as i64;
        let x_screen = fx_mul(
            fx_mul(
                fx_div(fx_from_int(px), fx_from_int(self.screen_columns as i64)),
                self.screen_width,
            ),
            FX_HALF,
        );
        let y_screen = fx_mul(
            fx_mul(
                fx_div(fx_from_int(py), fx_from_int(self.screen_rows as i64)),
                self.screen_height,
            ),
            -FX_HALF,
        );
        let (u, v, w) = self.get_basis_vectors();
        Ray {
            origin: self.position,
            direction: u.scale(self.screen_distance).add(v.scale(x_screen)).add(
                w.scale(y_screen),
            ),
        }
    }
}

/// Mathematical model of a scene.
pub ghost struct SceneS {
    pub camera: CameraS,
    pub default_colour: V3,
    pub ambient_light: V3,
    pub lights: Seq<LightS>,
    pub objects: Seq<ObjectS>,
    pub shadow_min_distance: int,
}

/// The aggregate scene: camera, background colour, global ambient light,
/// lights, objects, and the configurable minimum distance for shadow rays
/// (the guard against self-intersection acne).
pub struct Scene {
    pub camera: Camera,
    pub default_colour: Vec3,
    pub ambient_light: Vec3,
    pub lights: Vec<LightSource>,
    pub objects: Vec<SceneObject>,
    pub shadow_min_distance: i64,
}

impl View for Scene {
    type V = SceneS;

    open spec fn view(&self) -> SceneS {
        SceneS {
            camera: self.camera@,
            default_colour: self.default_colour@,
            ambient_light: self.ambient_light@,
            lights: self.lights@.map_values(|l: LightSource| l@),
            objects: self.objects@.map_values(|o: SceneObject| o@),
            shadow_min_distance: self.shadow_min_distance as int,
        }
    }
}

/// The nearest qualifying hit over a sequence of objects, paired with the
/// material of the object hit.  A later object replaces the candidate only
/// when its hit is strictly nearer, so of two hits at the same parameter the
/// earlier object wins.
pub open spec fn s_nearest_hit(objects: Seq<ObjectS>, ray: RayS, min_d: int) -> Option<
    (HitS, MaterialS),
>
    decreases objects.len(),
{
    if objects.len() == 0 {
        None
    } else {
        let prev = s_nearest_hit(objects.drop_last(), ray, min_d);
        let last = objects.last();
        match s_shape_hit(last.shape, ray, min_d) {
            None => prev,
            Some(h) => match prev {
                None => Some((h, last.material)),
                Some(p) => if h.t < p.0.t {
                    Some((h, last.material))
                } else {
                    prev
                },
            },
        }
    }
}

impl Scene {
    /// The nearest intersection of `ray` with any object strictly beyond
    /// `min_distance`, with the material of the object hit.
    pub fn get_intersection(&self, ray: &Ray, min_distance: i64) -> (r: Option<
        (Intersection, Material),
    >)
        ensures
            r is Some <==> s_nearest_hit(self@.objects, ray@, min_distance as int) is Some,
            (r matches Some(p) ==> s_nearest_hit(self@.objects, ray@, min_distance as int) == Some(
                (p.0@, p.1@),
            )),
    {
        let mut best: Option<(Intersection, Material)> = None;
        let mut i: usize = 0;
        while i < self.objects.len()
            invariant
                i <= self.objects.len(),
                best is Some <==> s_nearest_hit(
                    self@.objects.take(i as int),
                    ray@,
                    min_distance as int,
                ) is Some,
                (best matches Some(p) ==> s_nearest_hit(
                    self@.objects.take(i as int),
                    ray@,
                    min_distance as int,
                ) == Some((p.0@, p.1@))),
            decreases self.objects.len() - i,
        {
            let obj = &self.objects[i];
            let hit = obj.intersect(ray, min_distance);
            proof {
                assert(self@.objects.take(i as int + 1).drop_last() =~= self@.objects.take(
                    i as int,
                ));
                assert(self@.objects.take(i as int + 1).last() == self@.objects[i as int]);
            }
            match hit {
                None => {},
                Some(h) => {
                    let replace: bool = match best {
                        None => true,
                        Some(p) => h.t < p.0.t,
                    };
                    if replace {
                        best = Some((h, obj.material));
                    }
                },
            }
            i = i + 1;
        }
        proof {
            assert(self@.objects.take(self.objects@.len() as int) =~= self@.objects);
        }
        best
    }
}

} // verus!
