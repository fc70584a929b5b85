//! Rectangles and frames in pixel coordinates, and how far a rectangle lies
//! from the centre of a frame.

use vstd::prelude::*;

verus! {

/// An axis-aligned rectangle in the pixel coordinates of a frame.
///
/// `(x, y)` is the top-left corner. The extent is unsigned, so a rectangle of
/// negative width or height cannot be written down.
#[derive(Clone, Copy, Debug, PartialEq, Eq, Structural)]
pub struct Rectangle {
    pub x: i32,
    pub y: i32,
    pub width: u32,
    pub height: u32,
}

/// The dimensions of a frame, in pixels.
#[derive(Clone, Copy, Debug, PartialEq, Eq, Structural)]
pub struct FrameSize {
    pub width: u32,
    pub height: u32,
}

impl Rectangle {
    /// The centre of the rectangle: the corner moved by half the extent,
    /// rounded down.
    pub open spec fn center(self) -> (int, int) {
        (self.x + self.width / 2, self.y + self.height / 2)
    }

    /// The rectangle lies within a frame of size `frame`, edges included.
    pub open spec fn lies_within(self, frame: FrameSize) -> bool {
        &&& 0 <= self.x
        &&& 0 <= self.y
        &&& self.x + self.width <= frame.width
        &&& self.y + self.height <= frame.height
    }
}

impl FrameSize {
    /// The centre of the frame: half the extent, rounded down.
    pub open spec fn center(self) -> (int, int) {
        ((self.width / 2) as int, (self.height / 2) as int)
    }
}

/// The squared Euclidean distance from the centre of `rect` to the centre of
/// `frame`.
pub open spec fn distance_sq(frame: FrameSize, rect: Rectangle) -> int {
    let dx = rect.center().0 - frame.center().0;
    let dy = rect.center().1 - frame.center().1;
    dx * dx + dy * dy
}

/// The square of a number of at most `2^32` in magnitude is at most `2^64`.
proof fn lemma_square_bounds(d: int) by (nonlinear_arith)
    requires
        -0x1_0000_0000 <= d <= 0x1_0000_0000,
    ensures
        0 <= d * d <= 0x1_0000_0000 * 0x1_0000_0000,
{
}

/// A squared distance is never negative.
pub proof fn lemma_distance_sq_nonnegative(frame: FrameSize, rect: Rectangle)
    ensures
        distance_sq(frame, rect) >= 0,
{
    let dx = rect.center().0 - frame.center().0;
    let dy = rect.center().1 - frame.center().1;
    assert(dx * dx >= 0) by (nonlinear_arith);
    assert(dy * dy >= 0) by (nonlinear_arith);
}

/// A rectangle lies at distance zero from the centre of the frame exactly
/// when its centre is the centre of the frame.
pub proof fn lemma_distance_sq_zero_iff_centered(frame: FrameSize, rect: Rectangle)
    ensures
        distance_sq(frame, rect) == 0 <==> rect.center() == frame.center(),
{
    let dx = rect.center().0 - frame.center().0;
    let dy = rect.center().1 - frame.center().1;
    assert(dx * dx >= 0 && (dx * dx == 0 <==> dx == 0)) by (nonlinear_arith);
    assert(dy * dy >= 0 && (dy * dy == 0 <==> dy == 0)) by (nonlinear_arith);
}

/// The centre of `rect`.
///
/// The coordinates are 64 bits wide: the centre of a rectangle whose corner
/// and extent are 32 bits wide need not fit in 32 bits.
pub fn center_of(rect: &Rectangle) -> (c: (i64, i64))
    ensures
        (c.0 as int, c.1 as int) == rect.center(),
{
    let center_x: i64 = rect.x as i64 + (rect.width / 2) as i64;
    let center_y: i64 = rect.y as i64 + (rect.height / 2) as i64;
    (center_x, center_y)
}

/// The square of the distance from the centre of `rect` to the centre of
/// `frame`. No square root is taken: the value only serves to order
/// rectangles by their distance.
///
/// The result is 128 bits wide, enough for every rectangle and every frame.
pub fn distance_squared(frame: &FrameSize, rect: &Rectangle) -> (d: u128)
    ensures
        d == distance_sq(*frame, *rect),
{
    let (center_x, center_y) = center_of(rect);
    let distance_x: i128 = (center_x - (frame.width / 2) as i64) as i128;
    let distance_y: i128 = (center_y - (frame.height / 2) as i64) as i128;
    proof {
        lemma_square_bounds(distance_x as int);
        lemma_square_bounds(distance_y as int);
    }
    ((distance_x * distance_x) + (distance_y * distance_y)) as u128
}

} // verus!
