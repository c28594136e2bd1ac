//! A small ray tracer over saturating fixed-point arithmetic.
//!
//! World coordinates, colours and material coefficients are all carried as
//! `i64` values with `FX_ONE` standing for 1.0; every arithmetic step
//! saturates at `FX_MAX`, so no operation can overflow or panic.
//!
//! The pipeline: `scene::Camera` maps a pixel to a primary ray,
//! `scene::Scene::get_intersection` finds the nearest hit over all objects,
//! the shading functions compute the local (ambient, diffuse, specular)
//! colour with per-light shadow tests, `Scene::get_ray_colour` adds the
//! recursive reflection term up to a bounce ceiling, and `Scene::render`
//! drives every pixel of the grid.

pub mod fixed;
pub mod vec3;
pub mod geometry;
pub mod scene;
pub mod shading;
pub mod render;
