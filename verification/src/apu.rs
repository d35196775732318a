//! Audio-unit scheduling logic. Sample synthesis itself lives with the
//! host; what the core keeps is the 512 Hz frame sequencer that decides
//! when length counters, volume envelopes and frequency sweeps are
//! clocked.

pub mod frame_sequencer;
