//! Picks, among rectangles detected in a video frame, the one that lies nearest
//! the centre of the frame, and keeps track of where that rectangle was last
//! seen.
//!
//! * [`geometry`]: rectangles, frame sizes, centres and squared distances.
//! * [`selector`]: the choice of the most centred candidate.
//! * [`location`]: locations as exact fractions of the frame, and displacements.
//! * [`tracker`]: the last known location of the chosen rectangle.

pub mod geometry;
pub mod location;
pub mod selector;
pub mod tracker;
