//! Device configuration negotiated once per run.

use vstd::prelude::*;

verus! {

/// Sample rate, buffer size and channel count negotiated with a device.
#[derive(Debug, Clone, Copy, PartialEq, Eq, Structural)]
pub struct AudioDeviceConfig {
    pub sample_rate: u32,
    pub buffer_size: u32,
    pub channels: u16,
}

impl Default for AudioDeviceConfig {
    /// 48 kHz stereo with a 256-frame buffer.
    fn default() -> (c: AudioDeviceConfig)
        ensures
            c.sample_rate == 48000,
            c.buffer_size == 256,
            c.channels == 2,
    {
        AudioDeviceConfig { sample_rate: 48000, buffer_size: 256, channels: 2 }
    }
}

} // verus!
