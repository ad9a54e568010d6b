//! Coordinates. Window positions and sizes are whole pixels. The cursor
//! moves in sub-pixel steps, so cursor positions are fixed-point numbers
//! with eight fractional bits, the unit a pointer position has on the wire.

use vstd::prelude::*;

verus! {

/// Fixed-point units per pixel.
pub const SUBPIXELS: i32 = 256;

/// The largest pixel coordinate that a fixed-point position can reach.
pub const MAX_PIXEL: i32 = 0x7f_ffff;

/// A position in fixed-point units.
#[derive(Clone, Copy, Debug, PartialEq, Eq, Structural)]
pub struct Point {
    pub x: i32,
    pub y: i32,
}

/// A box in whole pixels.
#[derive(Clone, Copy, Debug, PartialEq, Eq, Structural)]
pub struct Rect {
    pub x: i32,
    pub y: i32,
    pub width: i32,
    pub height: i32,
}

/// `v` brought into `lo..=hi`.
pub open spec fn clamp(v: int, lo: int, hi: int) -> int {
    if v < lo {
        lo
    } else if v > hi {
        hi
    } else {
        v
    }
}

/// `v` brought into the range of `i32`.
pub open spec fn saturate(v: int) -> int {
    clamp(v, i32::MIN as int, i32::MAX as int)
}

/// The pixel that a fixed-point coordinate lies in: rounded down.
pub open spec fn pixel_of(v: int) -> int {
    v / 256
}

/// The fixed-point coordinate of a pixel's edge.
pub open spec fn fixed_of(p: int) -> int {
    p * 256
}

/// Narrows to `i32`, stopping at its bounds.
pub fn saturate_i64(v: i64) -> (r: i32)
    ensures
        r == saturate(v as int),
{
    if v < i32::MIN as i64 {
        i32::MIN
    } else if v > i32::MAX as i64 {
        i32::MAX
    } else {
        v as i32
    }
}

/// The pixel that the fixed-point coordinate `v` lies in.
pub fn to_pixel(v: i32) -> (p: i32)
    ensures
        p == pixel_of(v as int),
{
    if v >= 0 {
        v / 256
    } else {
        let below: i32 = -(v + 1);
        -(below / 256) - 1
    }
}

/// The pixel that a fixed-point distance `v` reaches to.
pub fn floor_pixel(v: i64) -> (p: i64)
    ensures
        p == pixel_of(v as int),
{
    if v >= 0 {
        v / 256
    } else {
        let below: i64 = -(v + 1);
        -(below / 256) - 1
    }
}

/// The fixed-point coordinate of pixel `p`, stopping at the bounds of `i32`.
pub fn from_pixel(p: i32) -> (v: i32)
    ensures
        v == saturate(fixed_of(p as int)),
{
    saturate_i64(p as i64 * 256)
}

impl Point {
    /// The point at pixel `(x, y)`.
    pub fn from_pixels(x: i32, y: i32) -> (point: Point)
        ensures
            point.x == saturate(fixed_of(x as int)),
            point.y == saturate(fixed_of(y as int)),
    {
        Point { x: from_pixel(x), y: from_pixel(y) }
    }

    /// The pixel that the point lies in.
    pub fn to_pixels(&self) -> (pixel: (i32, i32))
        ensures
            pixel.0 == pixel_of(self.x as int),
            pixel.1 == pixel_of(self.y as int),
    {
        (to_pixel(self.x), to_pixel(self.y))
    }
}

} // verus!
