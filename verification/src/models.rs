//! The requests that the recorder takes and the answers that it gives.

use vstd::prelude::*;

verus! {

/// The quality preset of a recording.
#[derive(Debug, Clone, Copy, PartialEq, Eq, Structural)]
pub enum AudioQuality {
    Low,
    Medium,
    High,
}

impl AudioQuality {
    /// Samples per second: 16 kHz, 44.1 kHz or 48 kHz.
    pub open spec fn spec_sample_rate(self) -> u32 {
        match self {
            AudioQuality::Low => 16000,
            AudioQuality::Medium => 44100,
            AudioQuality::High => 48000,
        }
    }

    /// Number of channels: the high preset is stereo, the others are mono.
    pub open spec fn spec_channels(self) -> u16 {
        match self {
            AudioQuality::Low => 1,
            AudioQuality::Medium => 1,
            AudioQuality::High => 2,
        }
    }

    /// The sample rate of the preset.
    pub fn sample_rate(&self) -> (rate: u32)
        ensures
            rate == self.spec_sample_rate(),
    {
        match self {
            AudioQuality::Low => 16000,
            AudioQuality::Medium => 44100,
            AudioQuality::High => 48000,
        }
    }

    /// The channel count of the preset.
    pub fn channels(&self) -> (channels: u16)
        ensures
            channels == self.spec_channels(),
    {
        match self {
            AudioQuality::Low => 1,
            AudioQuality::Medium => 1,
            AudioQuality::High => 2,
        }
    }
}

/// What to record, and where to.
#[derive(Debug, PartialEq, Eq)]
pub struct RecordingConfig {
    /// Where the WAV file goes; empty for a generated name.
    pub output_path: String,
    /// The preset to aim for.
    pub quality: AudioQuality,
    /// Seconds after which the recording stops by itself; zero for no limit.
    pub max_duration: u32,
    /// The input device, by the id that the device list gives; the system
    /// default when absent.
    pub device_id: Option<String>,
    /// The single channel to record, by the id that the channel list gives;
    /// every channel when absent.
    pub channel_id: Option<String>,
}

/// A finished recording.
#[derive(Debug, PartialEq, Eq)]
pub struct RecordingResult {
    pub file_path: String,
    pub duration_ms: u64,
    pub file_size: u64,
    pub sample_rate: u32,
    pub channels: u16,
}

/// What the recorder is doing.
#[derive(Debug, Clone, Copy, PartialEq, Eq, Structural)]
pub enum RecordingState {
    Idle,
    Recording,
    Paused,
}

/// The recorder's state as its users see it.
#[derive(Debug, PartialEq, Eq)]
pub struct RecordingStatus {
    pub state: RecordingState,
    pub duration_ms: u64,
    pub output_path: Option<String>,
}

/// An input device.
#[derive(Debug, PartialEq, Eq)]
pub struct AudioDevice {
    pub id: String,
    pub name: String,
    pub is_default: bool,
}

/// The input devices of the system.
#[derive(Debug, PartialEq, Eq)]
pub struct AudioDevicesResponse {
    pub devices: Vec<AudioDevice>,
}

/// An input channel of a device.
#[derive(Debug, PartialEq, Eq)]
pub struct AudioChannel {
    pub id: String,
    pub name: String,
    pub is_default: bool,
}

/// The input channels of a device.
#[derive(Debug, PartialEq, Eq)]
pub struct AudioChannelsResponse {
    pub channels: Vec<AudioChannel>,
}

/// Whether the microphone may be used.
#[derive(Debug, Clone, Copy, PartialEq, Eq, Structural)]
pub struct PermissionStatus {
    pub granted: bool,
    pub can_request: bool,
}

} // verus!
