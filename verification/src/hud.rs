//! Frame counting for the on-screen FPS display: the frame rate is measured
//! over every run of a fixed number of frames.
use vstd::prelude::*;

verus! {

/// The number of frames over which the frame rate is measured.
pub const FPS_SAMPLE_FRAMES: u32 = 100;

/// Counts frames and tells when a new frame-rate sample is due.
pub struct FpsFrameCounter {
    frame: u32,
}

impl FpsFrameCounter {
    pub closed spec fn spec_frame(&self) -> u32 {
        self.frame
    }

    /// A counter at frame 0.
    pub fn new() -> (c: Self)
        ensures
            c.spec_frame() == 0,
    {
        FpsFrameCounter { frame: 0 }
    }

    /// The number of frames counted so far.
    pub fn frame(&self) -> (f: u32)
        ensures
            f == self.spec_frame(),
    {
        self.frame
    }

    /// Counts one more frame; returns whether a sample is due, which is at
    /// every `FPS_SAMPLE_FRAMES`-th frame.
    pub fn tick(&mut self) -> (sample: bool)
        requires
            old(self).spec_frame() < u32::MAX,
        ensures
            final(self).spec_frame() == old(self).spec_frame() + 1,
            sample == (final(self).spec_frame() % FPS_SAMPLE_FRAMES == 0),
    {
        self.frame = self.frame + 1;
        self.frame % FPS_SAMPLE_FRAMES == 0
    }
}

/// Samples are exactly `FPS_SAMPLE_FRAMES` frames apart: after a sampled
/// frame, the next `FPS_SAMPLE_FRAMES - 1` frames are not sampled and the one
/// after them is.
pub proof fn lemma_samples_are_evenly_spaced(frame: nat, k: nat)
    requires
        frame % (FPS_SAMPLE_FRAMES as nat) == 0,
        0 < k <= FPS_SAMPLE_FRAMES,
    ensures
        ((frame + k) % (FPS_SAMPLE_FRAMES as nat) == 0) <==> k == FPS_SAMPLE_FRAMES,
{
}

} // verus!
