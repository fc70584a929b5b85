//! The choice of the candidate that lies nearest the centre of the frame.

use vstd::prelude::*;
use crate::geometry::{
    distance_sq, distance_squared, lemma_distance_sq_nonnegative,
    lemma_distance_sq_zero_iff_centered, FrameSize, Rectangle,
};

verus! {

/// The selector was handed no candidate to choose from.
#[derive(Clone, Copy, Debug, PartialEq, Eq, Structural)]
pub struct EmptyInputError;

/// Position `k` holds the most centred of `candidates`: no candidate lies
/// nearer the centre of `frame`, and every candidate before it lies strictly
/// farther. Of several candidates at the least distance this holds of the
/// earliest only.
pub open spec fn is_most_centered(frame: FrameSize, candidates: Seq<Rectangle>, k: int) -> bool {
    &&& 0 <= k < candidates.len()
    &&& forall|j: int|
        0 <= j < candidates.len()
            ==> distance_sq(frame, candidates[k]) <= distance_sq(frame, #[trigger] candidates[j])
    &&& forall|j: int|
        0 <= j < k
            ==> distance_sq(frame, candidates[k]) < distance_sq(frame, #[trigger] candidates[j])
}

/// The position of the most centred of `candidates`. It is meaningful for a
/// non-empty sequence only.
pub open spec fn most_centered_index(frame: FrameSize, candidates: Seq<Rectangle>) -> int {
    choose|k: int| is_most_centered(frame, candidates, k)
}

/// Chooses the candidate whose centre lies nearest the centre of the frame.
///
/// Distances are compared by their squares. Of several candidates at the
/// least distance the one that comes first in `candidates` is chosen. The
/// result is a copy of the chosen candidate. An empty `candidates` is the one
/// input that is refused.
pub fn most_centered(frame: FrameSize, candidates: &[Rectangle]) -> (selected: Result<
    Rectangle,
    EmptyInputError,
>)
    ensures
        match selected {
            Ok(rect) => {
                &&& candidates@.len() > 0
                &&& is_most_centered(frame, candidates@, most_centered_index(frame, candidates@))
                &&& rect == candidates@[most_centered_index(frame, candidates@)]
            },
            Err(error) => candidates@.len() == 0 && error == EmptyInputError,
        },
{
    if candidates.len() == 0 {
        return Err(EmptyInputError);
    }
    let mut best: usize = 0;
    let mut best_distance: u128 = distance_squared(&frame, &candidates[0]);
    let mut i: usize = 1;
    while i < candidates.len()
        invariant
            1 <= i <= candidates.len(),
            best < i,
            best_distance == distance_sq(frame, candidates@[best as int]),
            forall|j: int|
                0 <= j < i ==> best_distance <= distance_sq(frame, #[trigger] candidates@[j]),
            forall|j: int|
                0 <= j < best ==> best_distance < distance_sq(frame, #[trigger] candidates@[j]),
        decreases candidates.len() - i,
    {
        let distance = distance_squared(&frame, &candidates[i]);
        if distance < best_distance {
            best = i;
            best_distance = distance;
        }
        i += 1;
    }
    proof {
        lemma_most_centered_unique(
            frame,
            candidates@,
            best as int,
            most_centered_index(frame, candidates@),
        );
    }
    Ok(candidates[best])
}

/// At most one position holds the most centred candidate.
pub proof fn lemma_most_centered_unique(
    frame: FrameSize,
    candidates: Seq<Rectangle>,
    i: int,
    j: int,
)
    requires
        is_most_centered(frame, candidates, i),
        is_most_centered(frame, candidates, j),
    ensures
        i == j,
{
    if i < j {
        assert(distance_sq(frame, candidates[j]) < distance_sq(frame, candidates[i]));
    } else if j < i {
        assert(distance_sq(frame, candidates[i]) < distance_sq(frame, candidates[j]));
    }
}

/// Every non-empty sequence of candidates has a most centred one, and
/// `most_centered_index` is its position.
pub proof fn lemma_most_centered_exists(frame: FrameSize, candidates: Seq<Rectangle>)
    requires
        candidates.len() > 0,
    ensures
        is_most_centered(frame, candidates, most_centered_index(frame, candidates)),
    decreases candidates.len(),
{
    if candidates.len() == 1 {
        assert(is_most_centered(frame, candidates, 0));
    } else {
        let front = candidates.drop_last();
        let last = candidates.len() - 1;
        lemma_most_centered_exists(frame, front);
        let k = most_centered_index(frame, front);
        assert forall|j: int| 0 <= j < last implies distance_sq(frame, candidates[k])
            <= distance_sq(frame, #[trigger] candidates[j]) by {
            assert(front[j] == candidates[j]);
        }
        if distance_sq(frame, candidates[last]) < distance_sq(frame, candidates[k]) {
            assert(is_most_centered(frame, candidates, last));
        } else {
            assert forall|j: int| 0 <= j < k implies distance_sq(frame, candidates[k])
                < distance_sq(frame, #[trigger] candidates[j]) by {
                assert(front[j] == candidates[j]);
            }
            assert(is_most_centered(frame, candidates, k));
        }
    }
}

/// Where no two candidates lie at the same distance from the centre of the
/// frame, the most centred one lies strictly nearer than every other.
pub proof fn lemma_distinct_distances_strict_minimum(frame: FrameSize, candidates: Seq<Rectangle>)
    requires
        candidates.len() > 0,
        forall|i: int, j: int|
            0 <= i < j < candidates.len() ==> distance_sq(frame, #[trigger] candidates[i])
                != distance_sq(frame, #[trigger] candidates[j]),
    ensures
        forall|j: int|
            0 <= j < candidates.len() && j != most_centered_index(frame, candidates)
                ==> distance_sq(frame, candidates[most_centered_index(frame, candidates)])
                < distance_sq(frame, #[trigger] candidates[j]),
{
    lemma_most_centered_exists(frame, candidates);
}

/// Of two candidates at the same distance from the centre of the frame, the
/// later one is never the most centred, whatever else the two rectangles hold.
pub proof fn lemma_tie_prefers_earlier(
    frame: FrameSize,
    candidates: Seq<Rectangle>,
    i: int,
    j: int,
)
    requires
        0 <= i < j < candidates.len(),
        distance_sq(frame, candidates[i]) == distance_sq(frame, candidates[j]),
    ensures
        most_centered_index(frame, candidates) != j,
{
    lemma_most_centered_exists(frame, candidates);
}

/// Of exactly two candidates at the same distance from the centre of the
/// frame, the first is the most centred.
pub proof fn lemma_tie_of_two_selects_first(frame: FrameSize, first: Rectangle, second: Rectangle)
    requires
        distance_sq(frame, first) == distance_sq(frame, second),
    ensures
        most_centered_index(frame, seq![first, second]) == 0,
{
    let candidates = seq![first, second];
    lemma_most_centered_exists(frame, candidates);
    lemma_tie_prefers_earlier(frame, candidates, 0, 1);
}

/// Where some candidate is centred exactly, the most centred candidate is
/// centred exactly too, at distance zero, and it is that candidate or an
/// earlier one.
pub proof fn lemma_centered_candidate_wins(frame: FrameSize, candidates: Seq<Rectangle>, i: int)
    requires
        0 <= i < candidates.len(),
        candidates[i].center() == frame.center(),
    ensures
        0 <= most_centered_index(frame, candidates) <= i,
        distance_sq(frame, candidates[most_centered_index(frame, candidates)]) == 0,
        candidates[most_centered_index(frame, candidates)].center() == frame.center(),
{
    let k = most_centered_index(frame, candidates);
    lemma_most_centered_exists(frame, candidates);
    lemma_distance_sq_zero_iff_centered(frame, candidates[i]);
    lemma_distance_sq_nonnegative(frame, candidates[k]);
    lemma_distance_sq_zero_iff_centered(frame, candidates[k]);
}

/// A single candidate that is centred exactly is the most centred one, at
/// distance zero.
pub proof fn lemma_single_centered_candidate(frame: FrameSize, rect: Rectangle)
    requires
        rect.center() == frame.center(),
    ensures
        most_centered_index(frame, seq![rect]) == 0,
        seq![rect][most_centered_index(frame, seq![rect])] == rect,
        distance_sq(frame, rect) == 0,
{
    lemma_centered_candidate_wins(frame, seq![rect], 0);
}

} // verus!
