use vstd::prelude::*;

verus! {

/// Period of the player's wing animation, in milliseconds.
pub const FRAME_PERIOD_MS: u64 = 100;

/// The frames of a sprite-sheet animation: `first..=last`.
#[derive(Debug, Clone, Copy, PartialEq, Eq, Structural)]
pub struct AnimationIndices {
    pub first: usize,
    pub last: usize,
}

/// The frame after `index`: the next one, or back to the first after the
/// last.
pub open spec fn next_frame_spec(indices: AnimationIndices, index: int) -> int {
    if index == indices.last {
        indices.first as int
    } else {
        index + 1
    }
}

impl AnimationIndices {
    /// Steps the animation one frame.
    pub fn next_frame(&self, index: usize) -> (r: usize)
        requires
            self.first <= index <= self.last,
        ensures
            r == next_frame_spec(*self, index as int),
            self.first <= r <= self.last,
    {
        if index == self.last {
            self.first
        } else {
            index + 1
        }
    }
}

} // verus!
