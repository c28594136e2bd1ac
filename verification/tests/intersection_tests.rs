//! Tests for the sphere and plane intersection rules and the nearest-hit
//! query over a scene.

use raytracer::fixed::FX_ONE;
use raytracer::vec3::Vec3;
use raytracer::geometry::{Ray, Shape};
use raytracer::scene::{Camera, LightSource, Material, Scene, SceneObject};

fn plain_material(colour: Vec3) -> Material {
    Material {
        colour,
        k_diffuse: FX_ONE,
        k_ambient: FX_ONE,
        k_specular: 0,
        k_reflect: 0,
        shine: 1,
    }
}

fn unit_sphere() -> Shape {
    Shape::Sphere { centre: Vec3::zero(), radius: FX_ONE }
}

#[test]
fn sphere_outside_distance_and_normal() {
    // A ray from (0,0,4) aimed at the centre of a unit sphere at the origin
    // hits at distance 4 - 1 = 3, with the normal parallel to the ray.
    let shape = unit_sphere();
    let ray = Ray {
        origin: Vec3::new(0, 0, 4 * FX_ONE),
        direction: Vec3::new(0, 0, -FX_ONE),
    };
    let hit = shape.intersection(&ray, 0).unwrap();
    assert_eq!(hit.t, 3 * FX_ONE);
    assert_eq!(hit.pos, Vec3::new(0, 0, FX_ONE));
    assert_eq!(hit.normal, Vec3::new(0, 0, FX_ONE));
}

#[test]
fn sphere_outside_two_positive_roots_takes_nearer() {
    // Entry at t = 3, exit at t = 5: the nearer root wins.
    let shape = unit_sphere();
    let ray = Ray {
        origin: Vec3::new(0, 0, 4 * FX_ONE),
        direction: Vec3::new(0, 0, -FX_ONE),
    };
    let hit = shape.intersection(&ray, 0).unwrap();
    assert_eq!(hit.t, 3 * FX_ONE);
    assert_ne!(hit.t, 5 * FX_ONE);
}

#[test]
fn sphere_inside_takes_exit_point() {
    // From the centre, the roots are -1 and 1; only the exit qualifies.
    let shape = unit_sphere();
    let ray = Ray {
        origin: Vec3::zero(),
        direction: Vec3::new(0, 0, FX_ONE),
    };
    let hit = shape.intersection(&ray, 0).unwrap();
    assert_eq!(hit.t, FX_ONE);
    assert_eq!(hit.normal, Vec3::new(0, 0, FX_ONE));
}

#[test]
fn sphere_miss_yields_none() {
    let shape = unit_sphere();
    let ray = Ray {
        origin: Vec3::new(5 * FX_ONE, 5 * FX_ONE, -5 * FX_ONE),
        direction: Vec3::new(0, 0, FX_ONE),
    };
    assert!(shape.intersection(&ray, 0).is_none());
}

#[test]
fn sphere_tangent_single_root() {
    // A ray grazing the unit sphere at (1, 0, 0): discriminant zero, one
    // root t = -b/(2a) = 5.
    let shape = unit_sphere();
    let ray = Ray {
        origin: Vec3::new(FX_ONE, 0, -5 * FX_ONE),
        direction: Vec3::new(0, 0, FX_ONE),
    };
    let hit = shape.intersection(&ray, 0).unwrap();
    assert_eq!(hit.t, 5 * FX_ONE);
}

#[test]
fn plane_parallel_ray_yields_none() {
    let shape = Shape::Plane { point: Vec3::zero(), normal: Vec3::new(0, 0, FX_ONE) };
    let above = Ray {
        origin: Vec3::new(0, 0, 5 * FX_ONE),
        direction: Vec3::new(FX_ONE, 0, 0),
    };
    assert!(shape.intersection(&above, 0).is_none());
    // still no hit from another origin
    let elsewhere = Ray {
        origin: Vec3::new(7 * FX_ONE, -3 * FX_ONE, 2 * FX_ONE),
        direction: Vec3::new(-2 * FX_ONE, FX_ONE, 0),
    };
    assert!(shape.intersection(&elsewhere, 0).is_none());
}

#[test]
fn plane_straight_hit() {
    let shape = Shape::Plane { point: Vec3::zero(), normal: Vec3::new(0, 0, FX_ONE) };
    let ray = Ray {
        origin: Vec3::new(0, 0, 5 * FX_ONE),
        direction: Vec3::new(0, 0, -FX_ONE),
    };
    let hit = shape.intersection(&ray, 0).unwrap();
    assert_eq!(hit.t, 5 * FX_ONE);
    assert_eq!(hit.pos, Vec3::zero());
    // the stored plane normal is reported unchanged
    assert_eq!(hit.normal, Vec3::new(0, 0, FX_ONE));
}

#[test]
fn min_distance_filters_near_hits() {
    // With min_distance beyond the entry point, the exit point is returned.
    let shape = unit_sphere();
    let ray = Ray {
        origin: Vec3::new(0, 0, 4 * FX_ONE),
        direction: Vec3::new(0, 0, -FX_ONE),
    };
    let hit = shape.intersection(&ray, 4 * FX_ONE).unwrap();
    assert_eq!(hit.t, 5 * FX_ONE);
    assert!(shape.intersection(&ray, 6 * FX_ONE).is_none());
}

fn idle_camera() -> Camera {
    Camera {
        position: Vec3::zero(),
        direction: Vec3::new(0, -FX_ONE, 0),
        screen_distance: FX_ONE,
        screen_width: FX_ONE,
        screen_height: FX_ONE,
        screen_columns: 1,
        screen_rows: 1,
    }
}

#[test]
fn nearest_object_wins() {
    let red = Vec3::new(FX_ONE, 0, 0);
    let blue = Vec3::new(0, 0, FX_ONE);
    let near = SceneObject {
        material: plain_material(red),
        shape: Shape::Sphere { centre: Vec3::zero(), radius: FX_ONE },
    };
    let far = SceneObject {
        material: plain_material(blue),
        shape: Shape::Sphere { centre: Vec3::new(0, 0, -4 * FX_ONE), radius: FX_ONE },
    };
    let scene = Scene {
        camera: idle_camera(),
        default_colour: Vec3::zero(),
        ambient_light: Vec3::zero(),
        lights: vec![],
        objects: vec![far, near],
        shadow_min_distance: FX_ONE / 10,
    };
    let ray = Ray {
        origin: Vec3::new(0, 0, 4 * FX_ONE),
        direction: Vec3::new(0, 0, -FX_ONE),
    };
    let (hit, material) = scene.get_intersection(&ray, 0).unwrap();
    assert_eq!(hit.t, 3 * FX_ONE);
    assert_eq!(material.colour, red);
}

#[test]
fn no_object_yields_none() {
    let scene = Scene {
        camera: idle_camera(),
        default_colour: Vec3::zero(),
        ambient_light: Vec3::zero(),
        lights: vec![LightSource { colour: Vec3::zero(), pos: Vec3::zero() }],
        objects: vec![],
        shadow_min_distance: FX_ONE / 10,
    };
    let ray = Ray {
        origin: Vec3::zero(),
        direction: Vec3::new(0, 0, FX_ONE),
    };
    assert!(scene.get_intersection(&ray, 0).is_none());
}

#[test]
fn camera_centre_ray_follows_view_direction() {
    let camera = Camera {
        position: Vec3::new(FX_ONE, 2 * FX_ONE, 0),
        direction: Vec3::new(0, -2 * FX_ONE, 0),
        screen_distance: FX_ONE,
        screen_width: 2 * FX_ONE,
        screen_height: 2 * FX_ONE,
        screen_columns: 2,
        screen_rows: 2,
    };
    // pixel (1, 1) of a 2x2 grid maps to the exact screen centre
    let ray = camera.get_ray(1, 1);
    assert_eq!(ray.origin, Vec3::new(FX_ONE, 2 * FX_ONE, 0));
    assert_eq!(ray.direction, Vec3::new(0, -FX_ONE, 0));
}

#[test]
fn camera_offset_ray_uses_basis() {
    let camera = Camera {
        position: Vec3::zero(),
        direction: Vec3::new(0, -FX_ONE, 0),
        screen_distance: FX_ONE,
        screen_width: 2 * FX_ONE,
        screen_height: 2 * FX_ONE,
        screen_columns: 2,
        screen_rows: 2,
    };
    // pixel (0, 1): half a screen-width to the left of centre.
    // u = (0,-1,0), v = u x up = (-1,0,0), so the x offset of -0.5 adds
    // (0.5, 0, 0).
    let ray = camera.get_ray(0, 1);
    assert_eq!(ray.direction, Vec3::new(FX_ONE / 2, -FX_ONE, 0));
}
