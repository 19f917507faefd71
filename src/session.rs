use vstd::prelude::*;

verus! {

/// Whole seconds that a signal of `total_frames` frames lasts at `sample_rate`
/// frames per second, rounded down: how long the playing context waits before
/// it tears the stream down. `None` for a sample rate of zero.
pub fn play_seconds(total_frames: u32, sample_rate: u32) -> (r: Option<u32>)
    ensures
        sample_rate == 0 <==> r is None,
        sample_rate > 0 ==> r == Some((total_frames / sample_rate) as u32),
{
    if sample_rate == 0 {
        None
    } else {
        Some(total_frames / sample_rate)
    }
}

} // verus!
