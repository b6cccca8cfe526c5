use vstd::prelude::*;

verus! {

/// Milliseconds in a sixtieth of a second, rounded down. A frame is due once
/// more than this has passed since the last one.
pub const FRAME_INTERVAL_MS: i64 = 16;

/// Whether the next frame is due, `elapsedMs` milliseconds after the last.
pub fn frameDue(elapsedMs: i64) -> (due: bool)
    ensures
        due == (elapsedMs > FRAME_INTERVAL_MS),
{
    elapsedMs > FRAME_INTERVAL_MS
}

} // verus!
