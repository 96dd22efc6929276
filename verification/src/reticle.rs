use vstd::prelude::*;

use embedded_graphics::geometry::Point;
use embedded_graphics::pixelcolor::Bgr555;
use embedded_graphics::pixelcolor::RgbColor;
use embedded_graphics::primitives::Circle;
use embedded_graphics::primitives::Line;
use embedded_graphics::style::PrimitiveStyle;
use embedded_graphics::style::Styled;

verus! {

/// Palette index painted on the reticle strokes: the blue entry of the fixed
/// color table. Index 0 stays transparent.
pub const RETICLE_INDEX: u8 = 4;

/// Side length of the square overlay tile, in pixels.
pub const TILE_SIDE: usize = 8;

/// Number of pixels in the overlay tile.
pub const TILE_PIXELS: usize = 64;

/// A point of the one-pixel-wide outline of the circle of radius `r`
/// centered at (cx, cy), as the rasterizer draws it: the doubled squared
/// distance band `4*((r-1)*(r-1) + (r-1)) + 1 <= 4*d2 < 4*(r*r + r) + 1`.
pub open spec fn on_ring(cx: int, cy: int, r: int, x: int, y: int) -> bool {
    let d2 = (x - cx) * (x - cx) + (y - cy) * (y - cy);
    4 * ((r - 1) * (r - 1) + (r - 1)) + 1 <= 4 * d2 < 4 * (r * r + r) + 1
}

/// The sign of one coordinate delta.
pub open spec fn dir_sign(d: int) -> int {
    if d > 0 {
        1
    } else if d < 0 {
        -1
    } else {
        0
    }
}

/// Distance between two coordinates on one axis.
pub open spec fn axis_dist(a: int, b: int) -> int {
    if a <= b {
        b - a
    } else {
        a - b
    }
}

/// Relies on `embedded_graphics`'s styled `Circle` pixel iterator: with
/// stroke width 1 and radius at least 3, a pixel is emitted exactly when its
/// doubled squared distance from the center falls in the stroke band between
/// the inner radius `radius - 1` and `radius` (each point once).
#[verifier::external_body]
fn circle_stroke_points(cx: i32, cy: i32, radius: u32) -> (pts: Vec<(i32, i32)>)
    requires
        3 <= radius <= 1000,
        -100000 <= cx <= 100000,
        -100000 <= cy <= 100000,
    ensures
        forall|x: i32, y: i32| #[trigger]
            pts@.contains((x, y)) <==> on_ring(cx as int, cy as int, radius as int, x as int, y as int),
{
    let styled = Styled::new(
        Circle::new(Point::new(cx, cy), radius),
        PrimitiveStyle::with_stroke(Bgr555::WHITE, 1),
    );
    (&styled).into_iter().map(|pixel| (pixel.0.x, pixel.0.y)).collect()
}

/// Relies on `embedded_graphics`'s styled `Line` pixel iterator: for an
/// axis-aligned line of positive length with stroke width 1, the emitted
/// pixels are exactly the segment points from start to end inclusive, one
/// step at a time, in order. The coordinate bounds keep the line shorter
/// than 15447 pixels, under which the rasterizer's squared thickness
/// accumulator — three times the length after the central pass — stays
/// inside its 32-bit register and stops iteration at the segment.
#[verifier::external_body]
fn line_stroke_points(x0: i32, y0: i32, x1: i32, y1: i32) -> (pts: Vec<(i32, i32)>)
    requires
        x0 == x1 || y0 == y1,
        !(x0 == x1 && y0 == y1),
        -7500 <= x0 <= 7500,
        -7500 <= y0 <= 7500,
        -7500 <= x1 <= 7500,
        -7500 <= y1 <= 7500,
    ensures
        pts@.len() == axis_dist(x0 as int, x1 as int) + axis_dist(y0 as int, y1 as int) + 1,
        forall|k: int|
            0 <= k < pts@.len() ==> #[trigger] pts@[k].0 == x0 + k * dir_sign(x1 - x0)
                && pts@[k].1 == y0 + k * dir_sign(y1 - y0),
{
    let styled = Styled::new(
        Line::new(Point::new(x0, y0), Point::new(x1, y1)),
        PrimitiveStyle::with_stroke(Bgr555::WHITE, 1),
    );
    (&styled).into_iter().map(|pixel| (pixel.0.x, pixel.0.y)).collect()
}

/// Linear search for one coordinate pair in a point list.
fn points_contain(pts: &Vec<(i32, i32)>, x: i32, y: i32) -> (found: bool)
    ensures
        found == pts@.contains((x, y)),
{
    let mut i: usize = 0;
    while i < pts.len()
        invariant
            i <= pts@.len(),
            forall|j: int| 0 <= j < i ==> pts@[j] != (x, y),
        decreases pts@.len() - i,
    {
        let p = pts[i];
        if p.0 == x && p.1 == y {
            assert(pts@[i as int] == (x, y));
            return true;
        }
        i += 1;
    }
    false
}

/// True at the tile pixels that form the reticle: the circle outline of
/// radius 3 centered at (3, 3) plus a vertical and a horizontal 7-pixel arm
/// through the center.
pub open spec fn reticle_pixel(x: int, y: int) -> bool {
    on_ring(3, 3, 3, x, y) || (x == 3 && 0 <= y <= 6) || (y == 3 && 0 <= x <= 6)
}

/// Paints the overlay tile that the cursor sprite shows: the reticle strokes
/// in palette index `RETICLE_INDEX` on a transparent (index 0) ground, row
/// by row. Pixel (x, y) of the tile is entry `y * TILE_SIDE + x`.
#[verifier::loop_isolation(false)]
pub fn reticle_tile() -> (tile: Vec<u8>)
    ensures
        tile@.len() == TILE_PIXELS,
        forall|j: int|
            0 <= j < TILE_PIXELS ==> tile@[j] == (if reticle_pixel(j % 8, j / 8) {
                RETICLE_INDEX
            } else {
                0u8
            }),
{
    let circle = circle_stroke_points(3, 3, 3);
    let vert = line_stroke_points(3, 0, 3, 6);
    let horiz = line_stroke_points(0, 3, 6, 3);
    let mut tile: Vec<u8> = Vec::new();
    let mut j: usize = 0;
    while j < TILE_PIXELS
        invariant
            tile@.len() == j,
            j <= TILE_PIXELS,
            forall|m: int|
                0 <= m < j ==> tile@[m] == (if reticle_pixel(m % 8, m / 8) {
                    RETICLE_INDEX
                } else {
                    0u8
                }),
        decreases TILE_PIXELS - j,
    {
        let x: i32 = (j % 8) as i32;
        let y: i32 = (j / 8) as i32;
        let on_circle = points_contain(&circle, x, y);
        let on_vert = points_contain(&vert, x, y);
        let on_horiz = points_contain(&horiz, x, y);
        proof {
            if x == 3 && y <= 6 {
                assert(vert@[y as int].0 == 3 + (y as int) * dir_sign(3 - 3));
                assert(vert@[y as int].1 == 0 + (y as int) * dir_sign(6 - 0));
                assert(vert@[y as int] == (x, y));
                assert(vert@.contains((x, y)));
            }
            if on_vert {
                let k = choose|k: int| 0 <= k < vert@.len() && vert@[k] == ((x, y));
                assert(vert@[k].0 == 3 + k * dir_sign(3 - 3));
                assert(vert@[k].1 == 0 + k * dir_sign(6 - 0));
            }
            assert(on_vert <==> (x == 3 && 0 <= y <= 6));
            if y == 3 && x <= 6 {
                assert(horiz@[x as int].0 == 0 + (x as int) * dir_sign(6 - 0));
                assert(horiz@[x as int].1 == 3 + (x as int) * dir_sign(3 - 3));
                assert(horiz@[x as int] == (x, y));
                assert(horiz@.contains((x, y)));
            }
            if on_horiz {
                let k = choose|k: int| 0 <= k < horiz@.len() && horiz@[k] == ((x, y));
                assert(horiz@[k].0 == 0 + k * dir_sign(6 - 0));
                assert(horiz@[k].1 == 3 + k * dir_sign(3 - 3));
            }
            assert(on_horiz <==> (y == 3 && 0 <= x <= 6));
        }
        let on = on_circle || on_vert || on_horiz;
        tile.push(if on {
            RETICLE_INDEX
        } else {
            0
        });
        j += 1;
    }
    tile
}

} // verus!
