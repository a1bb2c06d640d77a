//! Common types shared between the engine and its callers.
//!
//! Gains and rates are carried as integers: volumes in permille of full
//! scale (0..=1000), frame rates in millihertz, percentages as whole
//! numbers.

use vstd::prelude::*;

verus! {

/// Full scale for a volume setting, in permille.
pub const VOLUME_FULL_PERMILLE: u32 = 1000;

/// Configuration for starting a stream.
#[derive(Debug, Clone)]
pub struct StreamConfig {
    /// RTMP server URL including the application path.
    pub rtmp_url: String,
    /// Stream key for authentication.
    pub stream_key: String,
    /// Capture source identifier (`monitor:<id>` or `window:<id>`).
    pub capture_source: String,
    /// Microphone device identifier (`None` for no mic).
    pub mic_device: Option<String>,
    /// Initial microphone volume in permille of full scale (0..=1000).
    pub mic_volume_permille: u32,
    /// Initial system audio volume in permille of full scale (0..=1000).
    pub system_volume_permille: u32,
    /// Video bitrate in kbps.
    pub video_bitrate_kbps: u32,
    /// Audio bitrate in kbps.
    pub audio_bitrate_kbps: u32,
}

impl Default for StreamConfig {
    fn default() -> (r: Self)
        ensures
            r.rtmp_url@ == Seq::<char>::empty(),
            r.stream_key@ == Seq::<char>::empty(),
            r.capture_source@ == Seq::<char>::empty(),
            r.mic_device is None,
            r.mic_volume_permille == VOLUME_FULL_PERMILLE,
            r.system_volume_permille == VOLUME_FULL_PERMILLE,
            r.video_bitrate_kbps == 6000,
            r.audio_bitrate_kbps == 128,
    {
        Self {
            rtmp_url: String::new(),
            stream_key: String::new(),
            capture_source: String::new(),
            mic_device: None,
            mic_volume_permille: VOLUME_FULL_PERMILLE,
            system_volume_permille: VOLUME_FULL_PERMILLE,
            video_bitrate_kbps: 6000,
            audio_bitrate_kbps: 128,
        }
    }
}

/// Real-time stream metrics.
#[derive(Debug, Clone)]
pub struct StreamMetrics {
    /// Current video frame rate in millihertz (frames per second times 1000).
    pub fps_millihertz: u64,
    /// Target video frame rate in millihertz.
    pub target_fps_millihertz: u64,
    /// Current bitrate in kbps.
    pub bitrate_kbps: u32,
    /// Target bitrate in kbps.
    pub target_bitrate_kbps: u32,
    /// Total dropped frames since stream start.
    pub dropped_frames: u64,
    /// Frames dropped at the capture stage.
    pub capture_drops: u64,
    /// Frames dropped at the encode stage.
    pub encode_drops: u64,
    /// Frames dropped at the network stage.
    pub network_drops: u64,
    /// Encoder load percentage (0..=100).
    pub encoder_load_percent: u32,
    /// Network buffer fullness percentage (0..=100).
    pub buffer_fullness_percent: u32,
    /// Stream uptime in seconds.
    pub uptime_seconds: u64,
}

/// Stream metrics with every reading at zero.
pub open spec fn zero_metrics() -> StreamMetrics {
    StreamMetrics {
        fps_millihertz: 0,
        target_fps_millihertz: 0,
        bitrate_kbps: 0,
        target_bitrate_kbps: 0,
        dropped_frames: 0,
        capture_drops: 0,
        encode_drops: 0,
        network_drops: 0,
        encoder_load_percent: 0,
        buffer_fullness_percent: 0,
        uptime_seconds: 0,
    }
}

impl Default for StreamMetrics {
    fn default() -> (r: Self)
        ensures
            r == zero_metrics(),
    {
        Self {
            fps_millihertz: 0,
            target_fps_millihertz: 0,
            bitrate_kbps: 0,
            target_bitrate_kbps: 0,
            dropped_frames: 0,
            capture_drops: 0,
            encode_drops: 0,
            network_drops: 0,
            encoder_load_percent: 0,
            buffer_fullness_percent: 0,
            uptime_seconds: 0,
        }
    }
}

/// Types of performance warnings.
#[derive(Debug, Clone)]
pub enum WarningType {
    /// The encoder is falling behind.
    EncoderOverload { load_percent: u32 },
    /// The network buffer is filling up.
    NetworkCongestion { buffer_percent: u32 },
    /// Frames are being dropped at capture.
    CaptureDrops { count: u64 },
    /// High CPU usage detected.
    HighCpuUsage { percent: u32 },
    /// Low available memory.
    LowMemory { available_mb: u64 },
}

/// A capture source (monitor or window).
#[derive(Debug, Clone)]
pub struct CaptureSource {
    /// Unique identifier for this source.
    pub id: String,
    /// Display name for the UI.
    pub name: String,
    /// Type of capture source.
    pub source_type: CaptureSourceType,
    /// Width in pixels.
    pub width: u32,
    /// Height in pixels.
    pub height: u32,
}

/// Type of capture source.
#[derive(Debug, Clone, Copy, PartialEq, Eq, Structural)]
pub enum CaptureSourceType {
    /// A monitor/display.
    Monitor,
    /// An application window.
    Window,
}

/// An audio device.
#[derive(Debug, Clone)]
pub struct AudioDevice {
    /// Unique identifier for this device.
    pub id: String,
    /// Display name for the UI.
    pub name: String,
    /// Type of audio device.
    pub device_type: AudioDeviceType,
    /// Whether this is the default device.
    pub is_default: bool,
}

/// Type of audio device.
#[derive(Debug, Clone, Copy, PartialEq, Eq, Structural)]
pub enum AudioDeviceType {
    /// Input device (microphone).
    Input,
    /// Output device (for loopback capture).
    Output,
}

} // verus!
