//! Tests for the fixed-point scalar and vector operations.

use raytracer::fixed::{
    clamp, fx_add, fx_div, fx_mul, fx_pow, fx_sqrt, fx_sub, FX_MAX, FX_ONE,
};
use raytracer::vec3::Vec3;
use raytracer::geometry::Ray;
use raytracer::render::channel_to_byte;

#[test]
fn clamp_inside_range() {
    assert_eq!(clamp(5, 0, 10), 5);
}

#[test]
fn clamp_below_range() {
    assert_eq!(clamp(-1, 0, 10), 0);
}

#[test]
fn clamp_above_range() {
    assert_eq!(clamp(11, 0, 10), 10);
}

#[test]
fn add_exact_and_saturating() {
    assert_eq!(fx_add(3 * FX_ONE, 4 * FX_ONE), 7 * FX_ONE);
    assert_eq!(fx_add(FX_MAX, FX_MAX), FX_MAX);
    assert_eq!(fx_sub(-FX_MAX, FX_MAX), -FX_MAX);
}

#[test]
fn mul_exact_values() {
    assert_eq!(fx_mul(3 * FX_ONE, 2 * FX_ONE), 6 * FX_ONE);
    assert_eq!(fx_mul(-3 * FX_ONE, 2 * FX_ONE), -6 * FX_ONE);
    assert_eq!(fx_mul(FX_ONE / 2, FX_ONE / 2), FX_ONE / 4);
}

#[test]
fn div_exact_values_and_zero_divisor() {
    assert_eq!(fx_div(FX_ONE, 2 * FX_ONE), FX_ONE / 2);
    assert_eq!(fx_div(-6 * FX_ONE, 3 * FX_ONE), -2 * FX_ONE);
    assert_eq!(fx_div(FX_ONE, 0), 0);
}

#[test]
fn sqrt_exact_and_rounded() {
    assert_eq!(fx_sqrt(4 * FX_ONE), 2 * FX_ONE);
    assert_eq!(fx_sqrt(FX_ONE), FX_ONE);
    assert_eq!(fx_sqrt(0), 0);
    assert_eq!(fx_sqrt(-FX_ONE), 0);
    // sqrt(2) in fixed point: floor(sqrt(2) * 65536) = 92681
    assert_eq!(fx_sqrt(2 * FX_ONE), 92681);
}

#[test]
fn pow_exact_values() {
    assert_eq!(fx_pow(2 * FX_ONE, 3), 8 * FX_ONE);
    assert_eq!(fx_pow(7 * FX_ONE, 0), FX_ONE);
    assert_eq!(fx_pow(0, 0), FX_ONE);
    assert_eq!(fx_pow(FX_ONE / 2, 2), FX_ONE / 4);
}

#[test]
fn channel_display_encoding() {
    assert_eq!(channel_to_byte(0), 0);
    assert_eq!(channel_to_byte(-5 * FX_ONE), 0);
    assert_eq!(channel_to_byte(FX_ONE), 255);
    assert_eq!(channel_to_byte(2 * FX_ONE), 255);
    // 0.5 * 255 = 127.5, rounded half up
    assert_eq!(channel_to_byte(FX_ONE / 2), 128);
    // about 0.1 in fixed point; 0.1 * 255 rounds to 26
    assert_eq!(channel_to_byte(6554), 26);
}

#[test]
fn vector_dot_and_cross() {
    let a = Vec3::new(FX_ONE, 2 * FX_ONE, 3 * FX_ONE);
    let b = Vec3::new(4 * FX_ONE, -5 * FX_ONE, 6 * FX_ONE);
    assert_eq!(a.dot(b), (4 - 10 + 18) * FX_ONE);
    let x_axis = Vec3::new(FX_ONE, 0, 0);
    let y_axis = Vec3::new(0, FX_ONE, 0);
    assert_eq!(x_axis.cross(y_axis), Vec3::new(0, 0, FX_ONE));
    assert_eq!(y_axis.cross(x_axis), Vec3::new(0, 0, -FX_ONE));
}

#[test]
fn vector_normalize() {
    let v = Vec3::new(0, 0, 5 * FX_ONE);
    assert_eq!(v.normalize(), Vec3::new(0, 0, FX_ONE));
    // the zero vector stays zero rather than failing
    assert_eq!(Vec3::zero().normalize(), Vec3::zero());
}

#[test]
fn vector_reflect() {
    let d = Vec3::new(FX_ONE, -FX_ONE, 0);
    let n = Vec3::new(0, FX_ONE, 0);
    assert_eq!(d.reflect(n), Vec3::new(FX_ONE, FX_ONE, 0));
}

#[test]
fn ray_extend() {
    let ray = Ray {
        origin: Vec3::new(FX_ONE, 0, 0),
        direction: Vec3::new(0, FX_ONE, 0),
    };
    assert_eq!(ray.extend(2 * FX_ONE), Vec3::new(FX_ONE, 2 * FX_ONE, 0));
}
