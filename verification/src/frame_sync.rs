//! The frame-synchronization protocol: frame slots rotate through
//! `MAX_FRAME_COUNT` synchronization units, each frame waits on its slot's
//! fence before reusing the slot's resources, and the out-of-date and
//! suboptimal presentation outcomes raise the recreate flag instead of
//! rendering further.

use vstd::prelude::*;
use crate::constants::MAX_FRAME_COUNT;

verus! {

/// What acquire-next-image reported: an image index with a possible
/// suboptimal warning, or that the swapchain is out of date.
#[derive(Clone, Copy, Debug, PartialEq, Eq, Structural)]
pub enum AcquireResult {
    Acquired { image_index: u32, suboptimal: bool },
    OutOfDate,
}

/// What presenting the frame reported.
#[derive(Clone, Copy, Debug, PartialEq, Eq, Structural)]
pub enum PresentResult {
    Success,
    Suboptimal,
    OutOfDate,
    DeviceLost,
}

/// What one `render_frame` call amounted to.
#[derive(Clone, Copy, Debug, PartialEq, Eq, Structural)]
pub enum FrameResult {
    /// The frame was recorded, submitted and handed to presentation.
    Rendered,
    /// The frame was skipped; the swapchain must be recreated before the
    /// next frame renders.
    NeedsRetry,
    /// The device was lost; the caller must shut down in an orderly way.
    DeviceLost,
}

/// The frame-slot index that follows `i`.
pub open spec fn spec_next_frame_index(i: int) -> int {
    (i + 1) % (MAX_FRAME_COUNT as int)
}

/// The frame-slot index reached from `i` after `n` frames.
pub open spec fn spec_frame_index_after(i: int, n: nat) -> int
    decreases n,
{
    if n == 0 {
        i
    } else {
        spec_next_frame_index(spec_frame_index_after(i, (n - 1) as nat))
    }
}

/// Frame-slot rotation: after `MAX_FRAME_COUNT` consecutive frames the
/// frame-slot index returns to its starting value, so slot `k`'s fence and
/// semaphores are reused exactly every `MAX_FRAME_COUNT` frames.
pub proof fn lemma_frame_slot_rotation(i: int)
    requires
        0 <= i < MAX_FRAME_COUNT,
    ensures
        spec_frame_index_after(i, MAX_FRAME_COUNT as nat) == i,
{
    reveal_with_fuel(spec_frame_index_after, 3);
    assert(spec_frame_index_after(i, 1) == spec_next_frame_index(i));
    assert(spec_frame_index_after(i, 2) == spec_next_frame_index(spec_next_frame_index(i)));
}

/// The frame-slot index that follows the given one.
pub fn next_frame_index(i: usize) -> (r: usize)
    requires
        i < MAX_FRAME_COUNT,
    ensures
        r == spec_next_frame_index(i as int),
        r < MAX_FRAME_COUNT,
{
    (i + 1) % MAX_FRAME_COUNT
}

} // verus!
