//! Descriptions of audio input devices and capture settings.
use vstd::prelude::*;

verus! {

/// An audio input device.
#[derive(Clone, Debug)]
pub struct AudioDevice {
    pub id: u32,
    pub name: String,
    pub description: String,
}

/// Current state of audio capture.
#[derive(Clone, Copy, Debug, PartialEq, Eq, Structural)]
pub enum CaptureState {
    Idle,
    Capturing,
    Paused,
    Error,
}

/// Audio capture configuration.
#[derive(Clone, Debug)]
pub struct CaptureConfig {
    /// Sample rate in Hz.
    pub sample_rate: u32,
    /// Number of channels.
    pub channels: u32,
}

impl Default for CaptureConfig {
    /// Mono at the speech model's rate of 16 kHz.
    fn default() -> (r: Self)
        ensures
            r.sample_rate == 16000,
            r.channels == 1,
    {
        CaptureConfig { sample_rate: 16000, channels: 1 }
    }
}

} // verus!
