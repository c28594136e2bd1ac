//! The pixel driver: one primary ray per pixel, the traced colour mapped to
//! an 8-bit display value per channel, row by row from the top.

use vstd::prelude::*;
use vstd::arithmetic::div_mod::lemma_fundamental_div_mod_converse;
use crate::fixed::FX_ONE;
use crate::scene::{s_camera_ray, Scene, SceneS};
use crate::shading::s_ray_colour;

verus! {

/// A display-encoded pixel: one byte per channel.
#[derive(Clone, Copy, PartialEq, Eq, Structural, Debug)]
pub struct PixelColour {
    pub r: u8,
    pub g: u8,
    pub b: u8,
}

/// Display encoding of one linear channel: scale by 255, round to the
/// nearest integer (half up), clamp into [0, 255].
pub open spec fn s_channel(v: int) -> int {
    if v <= 0 {
        0
    } else if (v * 255 + FX_ONE / 2) / (FX_ONE as int) > 255 {
        255
    } else {
        (v * 255 + FX_ONE / 2) / (FX_ONE as int)
    }
}

/// The display-encoded colour of pixel `(x, y)`: the primary ray's traced
/// colour, channel by channel.
pub open spec fn s_pixel(scene: SceneS, x: int, y: int) -> PixelColour {
    let c = s_ray_colour(scene, s_camera_ray(scene.camera, x, y), 0, 0);
    (PixelColour { r: s_channel(c.x) as u8, g: s_channel(c.y) as u8, b: s_channel(c.z) as u8 })
}

/// The whole image in row-major order, row 0 at the top: entry
/// `y * columns + x` is pixel `(x, y)`.
pub open spec fn s_render(scene: SceneS) -> Seq<PixelColour> {
    Seq::new(
        (scene.camera.screen_rows * scene.camera.screen_columns) as nat,
        |k: int|
            s_pixel(
                scene,
                k % scene.camera.screen_columns,
                k / scene.camera.screen_columns,
            ),
    )
}

/// Rendering is deterministic: any two images of the same scene are
/// identical, pixel for pixel, whatever order the pixels were produced in.
pub proof fn lemma_render_deterministic(scene: SceneS, a: Seq<PixelColour>, b: Seq<PixelColour>)
    requires
        a == s_render(scene),
        b == s_render(scene),
    ensures
        a == b,
{
}

/// Display encoding of one linear channel.
pub fn channel_to_byte(value: i64) -> (r: u8)
    ensures
        r as int == s_channel(value as int),
{
    if value <= 0 {
        0
    } else {
        let q: u128 = ((value as u128) * 255 + (FX_ONE / 2) as u128) / (FX_ONE as u128);
        if q > 255 {
            255
        } else {
            q as u8
        }
    }
}

impl Scene {
    /// Render every pixel of the camera's grid, row-major with row 0 at the
    /// top, mapping each traced colour to a display-encoded pixel.
    pub fn render(&self) -> (out: Vec<PixelColour>)
        requires
            (self.camera.screen_rows as int) * (self.camera.screen_columns as int)
                <= usize::MAX as int,
        ensures
            out@ == s_render(self@),
            out@.len() == (self.camera.screen_rows as int) * (self.camera.screen_columns as int),
    {
        let cols: u32 = self.camera.screen_columns;
        let rows: u32 = self.camera.screen_rows;
        let mut out: Vec<PixelColour> = Vec::new();
        let mut y: u32 = 0;
        while y < rows
            invariant
                y <= rows,
                cols == self.camera.screen_columns,
                rows == self.camera.screen_rows,
                (rows as int) * (cols as int) <= usize::MAX as int,
                out@.len() == (y as int) * (cols as int),
                forall|k: int|
                    0 <= k < out@.len() ==> out@[k] == s_pixel(
                        self@,
                        k % (cols as int),
                        k / (cols as int),
                    ),
            decreases rows - y,
        {
            let mut x: u32 = 0;
            while x < cols
                invariant
                    x <= cols,
                    y < rows,
                    cols == self.camera.screen_columns,
                    rows == self.camera.screen_rows,
                    (rows as int) * (cols as int) <= usize::MAX as int,
                    out@.len() == (y as int) * (cols as int) + x as int,
                    forall|k: int|
                        0 <= k < out@.len() ==> out@[k] == s_pixel(
                            self@,
                            k % (cols as int),
                            k / (cols as int),
                        ),
                decreases cols - x,
            {
                proof {
                    assert((y as int + 1) * (cols as int) <= (rows as int) * (cols as int))
                        by (nonlinear_arith)
                        requires
                            y as int + 1 <= rows as int,
                            cols as int >= 0,
                    ;
                    assert((y as int + 1) * (cols as int) == (y as int) * (cols as int)
                        + cols as int) by (nonlinear_arith);
                }
                let ray = self.camera.get_ray(x, y);
                let colour = self.get_ray_colour(&ray, 0, 0);
                let pixel = PixelColour {
                    r: channel_to_byte(colour.x),
                    g: channel_to_byte(colour.y),
                    b: channel_to_byte(colour.z),
                };
                proof {
                    let k = (y as int) * (cols as int) + x as int;
                    lemma_fundamental_div_mod_converse(k, cols as int, y as int, x as int);
                    assert(k % (cols as int) == x as int);
                    assert(k / (cols as int) == y as int);
                    let c = s_ray_colour(self@, s_camera_ray(self@.camera, x as int, y as int), 0, 0);
                    assert(pixel.r as int == s_channel(c.x));
                    assert(0 <= s_channel(c.x) < 256);
                    assert(pixel == s_pixel(self@, x as int, y as int));
                }
                out.push(pixel);
                x = x + 1;
            }
            proof {
                assert(((y as int) + 1) * (cols as int) == (y as int) * (cols as int)
                    + (cols as int)) by (nonlinear_arith);
            }
            y = y + 1;
        }
        proof {
            assert(out@ =~= s_render(self@));
        }
        out
    }
}

} // verus!
