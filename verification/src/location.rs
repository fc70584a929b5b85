//! Locations on a frame as exact fractions of the frame's extent, and the
//! displacement that leads from one location to another.
//!
//! Nothing here divides or rounds: turning a fraction into a number for
//! display is left to the caller.

use vstd::prelude::*;
use crate::geometry::{center_of, FrameSize, Rectangle};

verus! {

/// An exact fraction, `numerator / denominator`.
///
/// The fraction is carried, never evaluated: whoever needs a number divides,
/// and decides what a denominator of zero means.
#[derive(Clone, Copy, Debug, PartialEq, Eq, Structural)]
pub struct Ratio {
    pub numerator: i64,
    pub denominator: u32,
}

/// The exact difference of two [`Ratio`]s, wide enough for any two of them.
#[derive(Clone, Copy, Debug, PartialEq, Eq, Structural)]
pub struct WideRatio {
    pub numerator: i128,
    pub denominator: u64,
}

/// A point of a frame, each coordinate a fraction of the frame's extent along
/// that axis.
#[derive(Clone, Copy, Debug, PartialEq, Eq, Structural)]
pub struct Location {
    pub x: Ratio,
    pub y: Ratio,
}

/// How far one location lies from another, along each axis.
#[derive(Clone, Copy, Debug, PartialEq, Eq, Structural)]
pub struct Displacement {
    pub x: WideRatio,
    pub y: WideRatio,
}

impl WideRatio {
    /// This fraction is `minuend - subtrahend`, brought to the common
    /// denominator that is the product of the two denominators.
    pub open spec fn is_difference(self, minuend: Ratio, subtrahend: Ratio) -> bool {
        &&& self.numerator == minuend.numerator * subtrahend.denominator
            - subtrahend.numerator * minuend.denominator
        &&& self.denominator == minuend.denominator * subtrahend.denominator
    }
}

impl Location {
    /// The middle of any frame: one half along both axes.
    pub open spec fn spec_middle() -> Location {
        Location {
            x: Ratio { numerator: 1, denominator: 2 },
            y: Ratio { numerator: 1, denominator: 2 },
        }
    }

    /// The middle of any frame: one half along both axes.
    #[verifier::when_used_as_spec(spec_middle)]
    pub fn middle() -> (location: Location)
        ensures
            location == Location::middle(),
    {
        Location {
            x: Ratio { numerator: 1, denominator: 2 },
            y: Ratio { numerator: 1, denominator: 2 },
        }
    }

    /// This location is the centre of `rect` taken relative to `frame`: the
    /// centre's pixel coordinates over the frame's width and height.
    pub open spec fn is_center_of(self, frame: FrameSize, rect: Rectangle) -> bool {
        &&& self.x.numerator == rect.center().0
        &&& self.x.denominator == frame.width
        &&& self.y.numerator == rect.center().1
        &&& self.y.denominator == frame.height
    }
}

impl Displacement {
    /// This displacement leads from `origin` to `target`: it is
    /// `target - origin`, axis by axis.
    pub open spec fn leads(self, origin: Location, target: Location) -> bool {
        &&& self.x.is_difference(target.x, origin.x)
        &&& self.y.is_difference(target.y, origin.y)
    }
}

/// The product of a numerator and a denominator stays below `2^95` in
/// magnitude.
proof fn lemma_cross_product_bounds(n: int, d: int) by (nonlinear_arith)
    requires
        -0x8000_0000_0000_0000 <= n <= 0x8000_0000_0000_0000,
        0 <= d <= 0x1_0000_0000,
    ensures
        -0x8000_0000_0000_0000 * 0x1_0000_0000 <= n * d <= 0x8000_0000_0000_0000 * 0x1_0000_0000,
{
}

/// The product of two denominators fits in 64 bits.
proof fn lemma_denominator_bounds(b: int, d: int) by (nonlinear_arith)
    requires
        0 <= b <= 0xffff_ffff,
        0 <= d <= 0xffff_ffff,
    ensures
        0 <= b * d <= 0xffff_ffff * 0xffff_ffff,
{
}

/// The exact difference `minuend - subtrahend`.
pub fn ratio_difference(minuend: &Ratio, subtrahend: &Ratio) -> (difference: WideRatio)
    ensures
        difference.is_difference(*minuend, *subtrahend),
{
    proof {
        lemma_cross_product_bounds(minuend.numerator as int, subtrahend.denominator as int);
        lemma_cross_product_bounds(subtrahend.numerator as int, minuend.denominator as int);
        lemma_denominator_bounds(minuend.denominator as int, subtrahend.denominator as int);
    }
    let left: i128 = minuend.numerator as i128 * subtrahend.denominator as i128;
    let right: i128 = subtrahend.numerator as i128 * minuend.denominator as i128;
    WideRatio {
        numerator: left - right,
        denominator: minuend.denominator as u64 * subtrahend.denominator as u64,
    }
}

/// The displacement that leads from `origin` to `target`.
pub fn displacement_between(origin: &Location, target: &Location) -> (displacement: Displacement)
    ensures
        displacement.leads(*origin, *target),
{
    Displacement {
        x: ratio_difference(&target.x, &origin.x),
        y: ratio_difference(&target.y, &origin.y),
    }
}

/// The centre of a rectangle that lies within the frame is a location between
/// zero and one along both axes.
pub proof fn lemma_center_within_frame(frame: FrameSize, rect: Rectangle, location: Location)
    requires
        rect.lies_within(frame),
        location.is_center_of(frame, rect),
    ensures
        0 <= location.x.numerator <= location.x.denominator,
        0 <= location.y.numerator <= location.y.denominator,
{
}

/// The centre of `rect` as a fraction of the extent of `frame`.
pub fn normalized_center(frame: &FrameSize, rect: &Rectangle) -> (location: Location)
    ensures
        location.is_center_of(*frame, *rect),
{
    let (center_x, center_y) = center_of(rect);
    Location {
        x: Ratio { numerator: center_x, denominator: frame.width },
        y: Ratio { numerator: center_y, denominator: frame.height },
    }
}

} // verus!
