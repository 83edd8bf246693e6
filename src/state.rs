use vstd::prelude::*;

verus! {

/// The process-wide recorder state.
#[derive(Clone, Copy, Debug, PartialEq, Eq, Structural)]
pub enum RecorderState {
    Idle,
    Recording,
    Transcribing,
}

/// The stream configuration negotiated with the input device for one capture.
#[derive(Clone, Copy, Debug, PartialEq, Eq, Structural)]
pub struct AudioConfig {
    pub sample_rate: u32,
    pub channels: u16,
}

/// Sample rate assumed before any device has been opened.
pub const DEFAULT_SAMPLE_RATE: u32 = 44100;

/// Channel count assumed before any device has been opened.
pub const DEFAULT_CHANNELS: u16 = 1;

impl AudioConfig {
    /// The configuration used until a device reports its own: 44100 Hz, mono.
    pub fn new() -> (r: AudioConfig)
        ensures
            r.sample_rate == DEFAULT_SAMPLE_RATE,
            r.channels == DEFAULT_CHANNELS,
    {
        AudioConfig { sample_rate: DEFAULT_SAMPLE_RATE, channels: DEFAULT_CHANNELS }
    }
}

} // verus!
