//! The audio frame sequencer: a 512 Hz counter of eight frames that
//! gates the length counters, the volume envelopes and the sweep unit.

use vstd::prelude::*;

verus! {

/// The current frame, always below eight.
#[derive(Default, Debug, Clone, Copy, PartialEq, Eq, Structural)]
pub struct FrameSequencer(pub u8);

impl FrameSequencer {
    /// Moves to the next of the eight frames.
    pub fn tick(&mut self)
        requires
            old(self).0 < 8,
        ensures
            final(self).0 == (old(self).0 + 1) % 8,
    {
        self.0 = (self.0 + 1) % 8;
    }

    /// Length counters are clocked on the even frames.
    pub fn length_triggered(&self) -> (triggered: bool)
        ensures
            triggered == (self.0 == 0 || self.0 == 2 || self.0 == 4 || self.0 == 6),
    {
        self.0 == 0 || self.0 == 2 || self.0 == 4 || self.0 == 6
    }

    /// Volume envelopes are clocked on the last frame.
    pub fn vol_envelope_trigged(&self) -> (triggered: bool)
        ensures
            triggered == (self.0 == 7),
    {
        self.0 == 7
    }

    /// The frequency sweep is clocked on frames two and six.
    pub fn sweep_triggered(&self) -> (triggered: bool)
        ensures
            triggered == (self.0 == 2 || self.0 == 6),
    {
        self.0 == 2 || self.0 == 6
    }
}

} // verus!
