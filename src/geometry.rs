//! Points in fixed-point device-pixel coordinates, and whole-pixel rectangles.
use vstd::prelude::*;

verus! {

/// Number of coordinate units in one device pixel: positions carry eight
/// fractional bits, so a pointer can sit between pixel boundaries.
pub const SUBPIXELS: i64 = 256;

/// A position in device pixels, in units of `1 / SUBPIXELS` of a pixel.
#[derive(Clone, Copy, Debug, PartialEq, Eq, Structural)]
pub struct Point {
    pub x: i64,
    pub y: i64,
}

/// `v` clamped into `[lo, hi]`.
pub open spec fn clamped(v: int, lo: int, hi: int) -> int {
    if v < lo {
        lo
    } else if v > hi {
        hi
    } else {
        v
    }
}

/// Largest whole pixel index not above the coordinate `v`.
pub open spec fn pixel_floor(v: int) -> int {
    v / (SUBPIXELS as int)
}

/// Smallest whole pixel index not below the coordinate `v`.
pub open spec fn pixel_ceil(v: int) -> int {
    (v + SUBPIXELS - 1) / (SUBPIXELS as int)
}

/// The coordinate of the far edge of a screen that is `pixels` wide.
pub open spec fn edge(pixels: u32) -> int {
    pixels * SUBPIXELS
}

impl Point {
    /// The origin of the screen.
    pub fn origin() -> (r: Point)
        ensures
            r.x == 0 && r.y == 0,
    {
        Point { x: 0, y: 0 }
    }

    /// The top-left corner of the pixel at column `x`, row `y`.
    pub fn from_pixels(x: i32, y: i32) -> (r: Point)
        ensures
            r.x == x * SUBPIXELS,
            r.y == y * SUBPIXELS,
    {
        Point { x: x as i64 * SUBPIXELS, y: y as i64 * SUBPIXELS }
    }

    /// Whether the point lies on the screen of `width` × `height` pixels,
    /// far edges included.
    pub open spec fn within(self, width: u32, height: u32) -> bool {
        0 <= self.x <= edge(width) && 0 <= self.y <= edge(height)
    }

    /// The point shifted by `(dx, dy)`, each coordinate clamped to the screen.
    pub open spec fn shifted(self, dx: int, dy: int, width: u32, height: u32) -> Point {
        Point {
            x: clamped(self.x + dx, 0, edge(width)) as i64,
            y: clamped(self.y + dy, 0, edge(height)) as i64,
        }
    }

    /// Executable form of `shifted`.
    pub fn shift_clamped(self, dx: i64, dy: i64, width: u32, height: u32) -> (r: Point)
        requires
            -SUBPIXELS <= dx <= SUBPIXELS,
            -SUBPIXELS <= dy <= SUBPIXELS,
        ensures
            r == self.shifted(dx as int, dy as int, width, height),
            r.within(width, height),
    {
        Point {
            x: clamp_coordinate(self.x, dx, width as i64 * SUBPIXELS),
            y: clamp_coordinate(self.y, dy, height as i64 * SUBPIXELS),
        }
    }
}

/// `v + d` clamped into `[0, hi]`, computed without overflow.
fn clamp_coordinate(v: i64, d: i64, hi: i64) -> (r: i64)
    requires
        0 <= hi,
    ensures
        r == clamped(v + d, 0, hi as int),
{
    let sum: i128 = v as i128 + d as i128;
    if sum < 0 {
        0
    } else if sum > hi as i128 {
        hi
    } else {
        sum as i64
    }
}

/// A half-open rectangle of whole pixels, `[min_x, max_x) × [min_y, max_y)`.
/// A rectangle whose maximum does not exceed its minimum on an axis holds no
/// pixel.
#[derive(Clone, Copy, Debug, PartialEq, Eq, Structural)]
pub struct PixelRect {
    pub min_x: u32,
    pub min_y: u32,
    pub max_x: u32,
    pub max_y: u32,
}

impl PixelRect {
    /// Whether the rectangle holds no pixel.
    pub open spec fn spec_is_empty(&self) -> bool {
        self.max_x <= self.min_x || self.max_y <= self.min_y
    }

    /// Whether the rectangle holds no pixel.
    #[verifier::when_used_as_spec(spec_is_empty)]
    pub fn is_empty(&self) -> (r: bool)
        ensures
            r == self.spec_is_empty(),
    {
        self.max_x <= self.min_x || self.max_y <= self.min_y
    }
}

} // verus!
