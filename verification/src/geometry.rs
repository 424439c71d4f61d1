//! Positions on the normalized plane and their mapping to window pixels.
//!
//! The plane spans `-1.0 ..= 1.0` on both axes with y pointing up; a window has its
//! origin at the top-left corner with y pointing down. All quantities are fixed-point
//! (see [`crate::fixed`]); each function returns the exact rational value of its
//! formula rounded toward negative infinity. The product of two fixed-point numbers
//! counts units of units, so each formula ends by dividing by the unit once.
use vstd::prelude::*;
use crate::fixed::UNITS_PER_ONE;
use crate::fixed::fits_i64;
use crate::fixed::floor_div;
use crate::fixed::lemma_floor_div_bounds;

verus! {

/// The mathematical model of a [`Position`]: a pair of unbounded coordinates.
pub struct Point {
    pub x: int,
    pub y: int,
}

impl Point {
    /// Whether the point lies on the plane, walls included.
    pub open spec fn in_bounds(self) -> bool {
        &&& -UNITS_PER_ONE <= self.x <= UNITS_PER_ONE
        &&& -UNITS_PER_ONE <= self.y <= UNITS_PER_ONE
    }

    /// Whether `self` and `other` differ by less than `tolerance` on each axis.
    pub open spec fn near(self, other: Point, tolerance: int) -> bool {
        &&& -tolerance < self.x - other.x < tolerance
        &&& -tolerance < self.y - other.y < tolerance
    }
}

/// A position in normalized device coordinates.
#[derive(Clone, Copy, Debug, PartialEq, Eq, Structural)]
pub struct Position {
    pub x: i64,
    pub y: i64,
}

impl View for Position {
    type V = Point;

    open spec fn view(&self) -> Point {
        Point { x: self.x as int, y: self.y as int }
    }
}

/// The pixel column of normalized abscissa `x` in a window `win_width` wide:
/// `x * win_width / 2 + win_width / 2`.
pub open spec fn pixel_x(x: int, win_width: int) -> int {
    (x * win_width + UNITS_PER_ONE * win_width) / 2 / (UNITS_PER_ONE as int)
}

/// The pixel row of normalized ordinate `y` in a window `win_height` high:
/// `win_height - (y * win_height / 2 + win_height / 2)`, the vertical axis flipped.
pub open spec fn pixel_y(y: int, win_height: int) -> int {
    (UNITS_PER_ONE * win_height - y * win_height) / 2 / (UNITS_PER_ONE as int)
}

/// The pixel extent of a normalized length along an axis `win_length` pixels long:
/// `ndc_length / 2 * win_length`.
pub open spec fn pixel_length(ndc_length: int, win_length: int) -> int {
    (ndc_length * win_length) / 2 / (UNITS_PER_ONE as int)
}

/// The normalized extent of a pixel length along an axis `win_length` pixels long:
/// `pixels / win_length * 2`.
pub open spec fn ndc_length(pixels: int, win_length: int) -> int {
    (2 * UNITS_PER_ONE * pixels) / win_length
}

/// The factor by which an image `texture_pixel_length` pixels long must be scaled to
/// span `ndc_desired_length` of an axis `win_pixel_length` pixels long:
/// `(win_pixel_length / 2 * ndc_desired_length) / texture_pixel_length`.
pub open spec fn texture_scale(
    ndc_desired_length: int,
    win_pixel_length: int,
    texture_pixel_length: int,
) -> int {
    (win_pixel_length * ndc_desired_length) / 2 / texture_pixel_length
}

/// The product of two `i64` values, which always fits in an `i128`.
fn wide_product(a: i64, b: i64) -> (p: i128)
    ensures
        p == a * b,
        -0x4000_0000_0000_0000_0000_0000_0000_0000 <= p <= 0x4000_0000_0000_0000_0000_0000_0000_0000,
{
    assert(-0x4000_0000_0000_0000_0000_0000_0000_0000 <= a * b
        <= 0x4000_0000_0000_0000_0000_0000_0000_0000) by (nonlinear_arith)
        requires
            -0x8000_0000_0000_0000 <= a <= 0x7fff_ffff_ffff_ffff,
            -0x8000_0000_0000_0000 <= b <= 0x7fff_ffff_ffff_ffff,
    ;
    (a as i128) * (b as i128)
}

impl Position {
    /// Maps the position to window pixels, x growing rightward and y growing downward.
    ///
    /// The result must be representable; it always is for a position on the plane and
    /// a window of non-negative size (see [`lemma_pixel_within_window`]).
    pub fn to_pixel_pos(&self, win_height: i64, win_width: i64) -> (pixel: (i64, i64))
        requires
            fits_i64(pixel_x(self@.x, win_width as int)),
            fits_i64(pixel_y(self@.y, win_height as int)),
        ensures
            pixel.0 == pixel_x(self@.x, win_width as int),
            pixel.1 == pixel_y(self@.y, win_height as int),
    {
        let x_scaled: i128 = wide_product(self.x, win_width);
        let x_offset: i128 = wide_product(UNITS_PER_ONE, win_width);
        let column: i128 = floor_div(floor_div(x_scaled + x_offset, 2), UNITS_PER_ONE as i128);
        let y_scaled: i128 = wide_product(self.y, win_height);
        let y_offset: i128 = wide_product(UNITS_PER_ONE, win_height);
        let row: i128 = floor_div(floor_div(y_offset - y_scaled, 2), UNITS_PER_ONE as i128);
        (column as i64, row as i64)
    }

    /// Reads the position as a pair of pixel lengths and gives their normalized
    /// extents in a window of the given size.
    pub fn to_pixel_length(&self, win_height: i64, win_width: i64) -> (length: (i64, i64))
        requires
            win_height > 0,
            win_width > 0,
            fits_i64(ndc_length(self@.x, win_width as int)),
            fits_i64(ndc_length(self@.y, win_height as int)),
        ensures
            length.0 == ndc_length(self@.x, win_width as int),
            length.1 == ndc_length(self@.y, win_height as int),
    {
        let along_x: i128 = floor_div(wide_product(2 * UNITS_PER_ONE, self.x), win_width as i128);
        let along_y: i128 = floor_div(wide_product(2 * UNITS_PER_ONE, self.y), win_height as i128);
        (along_x as i64, along_y as i64)
    }

    /// Whether the two positions differ by less than `tolerance` on each axis.
    pub fn approx_eq(&self, other: &Position, tolerance: i64) -> (close: bool)
        ensures
            close == self@.near(other@, tolerance as int),
    {
        let dx: i128 = (self.x as i128) - (other.x as i128);
        let dy: i128 = (self.y as i128) - (other.y as i128);
        let t: i128 = tolerance as i128;
        -t < dx && dx < t && -t < dy && dy < t
    }
}

/// Converts a normalized length to pixels along an axis `win_length` pixels long.
pub fn ndc_to_pixel_length(ndc_length: &i64, win_length: &i64) -> (pixels: i64)
    requires
        fits_i64(pixel_length(*ndc_length as int, *win_length as int)),
    ensures
        pixels == pixel_length(*ndc_length as int, *win_length as int),
{
    let scaled: i128 = wide_product(*ndc_length, *win_length);
    floor_div(floor_div(scaled, 2), UNITS_PER_ONE as i128) as i64
}

/// Computes the scale factor that draws a fixed-resolution image at a size given in
/// normalized units.
pub fn calculate_texture_scale(
    ndc_desired_length: &i64,
    win_pixel_length: &i64,
    texture_pixel_length: &i64,
) -> (scale: i64)
    requires
        *texture_pixel_length > 0,
        fits_i64(
            texture_scale(
                *ndc_desired_length as int,
                *win_pixel_length as int,
                *texture_pixel_length as int,
            ),
        ),
    ensures
        scale == texture_scale(
            *ndc_desired_length as int,
            *win_pixel_length as int,
            *texture_pixel_length as int,
        ),
{
    let scaled: i128 = wide_product(*win_pixel_length, *ndc_desired_length);
    floor_div(floor_div(scaled, 2), *texture_pixel_length as i128) as i64
}

/// A point on the plane maps to a pixel inside the window.
pub proof fn lemma_pixel_within_window(p: Point, win_height: int, win_width: int)
    requires
        p.in_bounds(),
        0 <= win_height,
        0 <= win_width,
    ensures
        0 <= pixel_x(p.x, win_width) <= win_width,
        0 <= pixel_y(p.y, win_height) <= win_height,
{
    lemma_scaled_within(p.x + UNITS_PER_ONE, win_width);
    assert(p.x * win_width + UNITS_PER_ONE * win_width == (p.x + UNITS_PER_ONE) * win_width)
        by (nonlinear_arith);
    lemma_scaled_within(UNITS_PER_ONE - p.y, win_height);
    assert(UNITS_PER_ONE * win_height - p.y * win_height == (UNITS_PER_ONE - p.y) * win_height)
        by (nonlinear_arith);
}

/// A normalized length no longer than the plane is wide maps to a pixel length no
/// longer than the window.
pub proof fn lemma_pixel_length_within_window(ndc_length: int, win_length: int)
    requires
        0 <= ndc_length <= 2 * UNITS_PER_ONE,
        0 <= win_length,
    ensures
        0 <= pixel_length(ndc_length, win_length) <= win_length,
{
    lemma_scaled_within(ndc_length, win_length);
}

/// An image no shorter than half the length it is to span is scaled by a factor no
/// greater than the length of the window in pixels.
pub proof fn lemma_texture_scale_within_window(
    ndc_desired_length: int,
    win_pixel_length: int,
    texture_pixel_length: int,
)
    requires
        0 <= ndc_desired_length <= 2 * texture_pixel_length,
        0 <= win_pixel_length,
        0 < texture_pixel_length,
    ensures
        0 <= texture_scale(ndc_desired_length, win_pixel_length, texture_pixel_length)
            <= win_pixel_length,
{
    assert(0 <= win_pixel_length * ndc_desired_length <= 2 * (texture_pixel_length
        * win_pixel_length)) by (nonlinear_arith)
        requires
            0 <= ndc_desired_length <= 2 * texture_pixel_length,
            0 <= win_pixel_length,
    ;
    lemma_halved_ratio_within(
        win_pixel_length * ndc_desired_length,
        texture_pixel_length,
        win_pixel_length,
    );
}

/// Scaling a non-negative `win` by a fraction `part / 2.0` of at most one keeps it
/// between zero and `win`.
proof fn lemma_scaled_within(part: int, win: int)
    requires
        0 <= part <= 2 * UNITS_PER_ONE,
        0 <= win,
    ensures
        0 <= (part * win) / 2 / (UNITS_PER_ONE as int) <= win,
{
    assert(0 <= part * win <= 2 * (UNITS_PER_ONE * win)) by (nonlinear_arith)
        requires
            0 <= part <= 2 * UNITS_PER_ONE,
            0 <= win,
    ;
    lemma_halved_ratio_within(part * win, UNITS_PER_ONE as int, win);
}

/// Half of a number between zero and `2 * d * bound`, divided by a positive `d`, lies
/// between zero and `bound`.
proof fn lemma_halved_ratio_within(n: int, d: int, bound: int)
    requires
        0 < d,
        0 <= n <= 2 * (d * bound),
    ensures
        0 <= n / 2 / d <= bound,
{
    let half: int = n / 2;
    assert(0 <= half <= d * bound);
    lemma_floor_div_bounds(half, d);
    vstd::arithmetic::div_mod::lemma_div_is_ordered(half, d * bound, d);
    vstd::arithmetic::div_mod::lemma_div_multiples_vanish(bound, d);
    assert(d * bound == bound * d) by (nonlinear_arith);
}

} // verus!
