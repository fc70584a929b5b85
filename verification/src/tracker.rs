//! Where the most centred rectangle was last seen, how far that is from where
//! it should be, and how its extent compares with the extent it is expected
//! to have.

use vstd::prelude::*;
use crate::geometry::{FrameSize, Rectangle};
use crate::location::{displacement_between, normalized_center, Displacement, Location};
use crate::selector::{is_most_centered, most_centered, most_centered_index};

verus! {

/// The width that a tracked rectangle is expected to have, in pixels.
pub const NOMINAL_WIDTH: u32 = 390;

/// The height that a tracked rectangle is expected to have, in pixels.
pub const NOMINAL_HEIGHT: u32 = 390;

/// By how much `rect` falls short of the nominal extent, along each axis.
/// A component is negative where the rectangle exceeds the nominal extent.
pub fn size_difference(rect: &Rectangle) -> (difference: (i64, i64))
    ensures
        difference.0 == NOMINAL_WIDTH - rect.width,
        difference.1 == NOMINAL_HEIGHT - rect.height,
{
    (NOMINAL_WIDTH as i64 - rect.width as i64, NOMINAL_HEIGHT as i64 - rect.height as i64)
}

/// Remembers where the most centred rectangle was last seen, and reports how
/// far that is from where the rectangle should be.
///
/// The tracker starts in the middle of the frame. A cycle in which rectangles
/// were detected moves it to the centre of the most centred of them; a cycle
/// in which none was detected leaves it where it is. The nominal location,
/// against which the displacement is measured, never changes.
#[derive(Clone, Copy, Debug, PartialEq, Eq, Structural)]
pub struct DisplacementTracker {
    current_location: Location,
    nominal_location: Location,
}

impl DisplacementTracker {
    /// The location that the tracker holds.
    pub closed spec fn location(self) -> Location {
        self.current_location
    }

    /// The location against which the displacement is measured.
    pub closed spec fn nominal(self) -> Location {
        self.nominal_location
    }

    /// A tracker that rests in the middle of the frame and measures the
    /// displacement from there.
    pub fn new() -> (tracker: Self)
        ensures
            tracker.location() == Location::middle(),
            tracker.nominal() == Location::middle(),
    {
        DisplacementTracker {
            current_location: Location::middle(),
            nominal_location: Location::middle(),
        }
    }

    /// A tracker that rests in the middle of the frame and measures the
    /// displacement from `nominal`.
    pub fn with_nominal(nominal: Location) -> (tracker: Self)
        ensures
            tracker.location() == Location::middle(),
            tracker.nominal() == nominal,
    {
        DisplacementTracker { current_location: Location::middle(), nominal_location: nominal }
    }

    /// The location that the tracker holds.
    pub fn current_location(&self) -> (location: Location)
        ensures
            location == self.location(),
    {
        self.current_location
    }

    /// The location against which the displacement is measured.
    pub fn nominal_location(&self) -> (location: Location)
        ensures
            location == self.nominal(),
    {
        self.nominal_location
    }

    /// The displacement that leads from the nominal location to the location
    /// that the tracker holds.
    pub fn displacement(&self) -> (displacement: Displacement)
        ensures
            displacement.leads(self.nominal(), self.location()),
    {
        displacement_between(&self.nominal_location, &self.current_location)
    }

    /// Takes in the rectangles detected in one cycle, on a frame of size
    /// `frame`, and returns the most centred of them, if there is any.
    ///
    /// With no candidates the tracker is left exactly as it was. Otherwise it
    /// moves to the centre of the most centred candidate.
    pub fn update(&mut self, frame: FrameSize, candidates: &[Rectangle]) -> (selected: Option<
        Rectangle,
    >)
        ensures
            final(self).nominal() == old(self).nominal(),
            match selected {
                Some(rect) => {
                    &&& candidates@.len() > 0
                    &&& is_most_centered(
                        frame,
                        candidates@,
                        most_centered_index(frame, candidates@),
                    )
                    &&& rect == candidates@[most_centered_index(frame, candidates@)]
                    &&& final(self).location().is_center_of(frame, rect)
                },
                None => candidates@.len() == 0 && *final(self) == *old(self),
            },
    {
        if candidates.len() == 0 {
            return None;
        }
        match most_centered(frame, candidates) {
            Ok(rect) => {
                self.current_location = normalized_center(&frame, &rect);
                Some(rect)
            },
            Err(_) => None,
        }
    }
}

impl Default for DisplacementTracker {
    /// A tracker that rests in the middle of the frame and measures the
    /// displacement from there.
    fn default() -> (tracker: Self)
        ensures
            tracker.location() == Location::middle(),
            tracker.nominal() == Location::middle(),
    {
        DisplacementTracker::new()
    }
}

} // verus!
