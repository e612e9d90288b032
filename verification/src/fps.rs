use vstd::prelude::*;

verus! {

/// Counts frames to estimate the frame rate three times a second.
pub struct FpsCounter {
    /// Frames counted since the count last restarted.
    pub frame_count: u32,
    /// The last estimate, in frames per second.
    pub frame_rate: u32,
}

impl FpsCounter {
    pub fn new() -> (r: Self)
        ensures
            r.frame_count == 0,
            r.frame_rate == 0,
    {
        FpsCounter { frame_count: 0, frame_rate: 0 }
    }

    /// Counts one more frame. When more than a third of a second has passed
    /// since the count restarted (`third_elapsed`), the count over that
    /// third, times three, becomes the estimate and the count restarts.
    /// Returns whether it restarted, so that the caller restarts its clock.
    pub fn tick(&mut self, third_elapsed: bool) -> (restarted: bool)
        requires
            old(self).frame_count < u32::MAX,
            third_elapsed ==> (old(self).frame_count + 1) * 3 <= u32::MAX,
        ensures
            restarted == third_elapsed,
            third_elapsed ==> final(self).frame_rate == (old(self).frame_count + 1) * 3
                && final(self).frame_count == 0,
            !third_elapsed ==> final(self).frame_rate == old(self).frame_rate
                && final(self).frame_count == old(self).frame_count + 1,
    {
        self.frame_count = self.frame_count + 1;
        if third_elapsed {
            self.frame_rate = self.frame_count * 3;
            self.frame_count = 0;
        }
        third_elapsed
    }
}

} // verus!
