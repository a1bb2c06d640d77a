//! Video encoder configuration, encoded packet types, and the hardware
//! encoder facade.
//!
//! This build carries no GPU encode path: hardware probing reports
//! unavailable, exactly as the fallback probe does on platforms without the
//! vendor SDK, and encoder selection surfaces that error. The timebase
//! conversions and the keyframe cadence contract are verified here and are
//! what any encoder behind this facade must satisfy.

use vstd::prelude::*;
use crate::capture::nv12_size;
use crate::errors::EncoderError;

verus! {

use vstd::string::StringExecFns;

/// Channel capacity for encoded packets.
pub const ENCODED_CHANNEL_CAPACITY: usize = 8;

/// Video encoding configuration.
#[derive(Debug, Clone)]
pub struct VideoEncoderConfig {
    /// Width in pixels.
    pub width: u32,
    /// Height in pixels.
    pub height: u32,
    /// Target frames per second.
    pub fps: u32,
    /// Target bitrate in kbps.
    pub bitrate_kbps: u32,
    /// Keyframe interval in seconds.
    pub keyframe_interval_secs: u32,
    /// H.264 profile.
    pub profile: H264Profile,
}

impl Default for VideoEncoderConfig {
    fn default() -> (r: Self)
        ensures
            r.width == 1920,
            r.height == 1080,
            r.fps == 60,
            r.bitrate_kbps == 6000,
            r.keyframe_interval_secs == 2,
            r.profile == H264Profile::High,
    {
        Self {
            width: 1920,
            height: 1080,
            fps: 60,
            bitrate_kbps: 6000,
            keyframe_interval_secs: 2,
            profile: H264Profile::High,
        }
    }
}

/// H.264 profile levels.
#[derive(Debug, Clone, Copy, PartialEq, Eq, Structural)]
pub enum H264Profile {
    Baseline,
    Main,
    High,
}

/// Audio encoding configuration.
#[derive(Debug, Clone)]
pub struct AudioEncoderConfig {
    /// Sample rate in Hz.
    pub sample_rate: u32,
    /// Number of channels.
    pub channels: u16,
    /// Target bitrate in kbps.
    pub bitrate_kbps: u32,
}

impl Default for AudioEncoderConfig {
    fn default() -> (r: Self)
        ensures
            r.sample_rate == 48000,
            r.channels == 2,
            r.bitrate_kbps == 128,
    {
        Self { sample_rate: 48000, channels: 2, bitrate_kbps: 128 }
    }
}

/// Video frame type, in priority order.
#[derive(Debug, Clone, Copy, PartialEq, Eq, PartialOrd, Ord, Structural)]
pub enum FrameType {
    /// I-frame (keyframe) - highest priority.
    I,
    /// P-frame - medium priority.
    P,
    /// B-frame - lowest priority.
    B,
}

/// An encoded video packet, in Annex B framing.
#[derive(Debug, Clone)]
pub struct EncodedVideoPacket {
    /// Encoded NAL data.
    pub data: Vec<u8>,
    /// Presentation timestamp in 100 ns units.
    pub pts_100ns: u64,
    /// Decode timestamp in 100 ns units.
    pub dts_100ns: u64,
    /// Whether this is a keyframe.
    pub is_keyframe: bool,
    /// Frame type for priority ordering.
    pub frame_type: FrameType,
}

/// An encoded audio packet: one raw AAC access unit.
#[derive(Debug, Clone)]
pub struct EncodedAudioPacket {
    /// Encoded AAC data.
    pub data: Vec<u8>,
    /// Presentation timestamp in 100 ns units.
    pub pts_100ns: u64,
}

/// A 100 ns-unit timestamp rescaled to an encoder timebase of `fps` ticks per
/// second.
pub open spec fn pts_to_ticks(pts_100ns: u64, fps: u32) -> int {
    pts_100ns * fps / 10_000_000
}

/// An encoder tick count rescaled back to 100 ns units.
pub open spec fn ticks_to_100ns(ticks: u64, fps: u32) -> int {
    ticks * 10_000_000 / (fps as int)
}

/// Rescale a 100 ns timestamp to the encoder timebase.
pub fn pts_to_encoder_ticks(pts_100ns: u64, fps: u32) -> (r: u64)
    requires
        pts_to_ticks(pts_100ns, fps) <= u64::MAX,
    ensures
        r == pts_to_ticks(pts_100ns, fps),
{
    let wide = (pts_100ns as u128) * (fps as u128) / 10_000_000u128;
    wide as u64
}

/// Rescale an encoder tick count back to 100 ns units.
pub fn encoder_ticks_to_pts(ticks: u64, fps: u32) -> (r: u64)
    requires
        fps > 0,
        ticks_to_100ns(ticks, fps) <= u64::MAX,
    ensures
        r == ticks_to_100ns(ticks, fps),
{
    let wide = (ticks as u128) * 10_000_000u128 / (fps as u128);
    wide as u64
}

/// Check whether hardware video encoding is available. This build carries no
/// vendor encode SDK, so the probe reports unavailable.
pub fn check_nvenc_available() -> (r: bool)
    ensures
        !r,
{
    false
}

/// The number of frames between forced keyframes for a configuration.
pub open spec fn keyframe_interval_frames(config: VideoEncoderConfig) -> int {
    config.fps * config.keyframe_interval_secs
}

/// Hardware (NVENC) video encoder facade.
#[derive(Debug, Clone)]
pub struct NvencEncoder {
    /// Encoder configuration.
    pub config: VideoEncoderConfig,
    /// Whether the encoder holds a live hardware session.
    pub initialized: bool,
    /// Frames submitted so far.
    pub frame_count: u64,
    /// Frames between forced keyframes.
    pub keyframe_interval: u64,
}

impl NvencEncoder {
    /// Create a hardware encoder. Fails whenever hardware encoding is
    /// unavailable — always, in this build.
    pub fn new(config: VideoEncoderConfig) -> (r: Result<Self, EncoderError>)
        ensures
            r matches Err(e) && e is NvencNotAvailable,
    {
        if !Self::check_nvenc_available() {
            return Err(
                EncoderError::NvencNotAvailable(
                    String::from_str("No NVIDIA GPU with NVENC support detected"),
                ),
            );
        }
        let keyframe_interval = (config.fps as u64) * (config.keyframe_interval_secs as u64);
        Ok(Self { config, initialized: true, frame_count: 0, keyframe_interval })
    }

    /// Check whether hardware encoding is available on this system.
    pub fn check_nvenc_available() -> (r: bool)
        ensures
            !r,
    {
        check_nvenc_available()
    }

    /// Whether hardware encode support is compiled into this build.
    pub fn is_compiled_with_nvenc() -> (r: bool)
        ensures
            !r,
    {
        false
    }

    /// A well-formed encoder has a live session, a positive keyframe
    /// interval matching its configuration, and frame dimensions whose NV12
    /// size is addressable.
    pub open spec fn wf(self) -> bool {
        &&& self.initialized
        &&& self.keyframe_interval == keyframe_interval_frames(self.config)
        &&& self.keyframe_interval > 0
        &&& nv12_size(self.config.width as int, self.config.height as int) <= usize::MAX
        &&& self.frame_count < u64::MAX
    }

    /// Encode one NV12 frame. Input of any size other than the configured
    /// frame's NV12 size is rejected; otherwise a packet is returned whose
    /// keyframe flag follows the configured cadence — in particular, the
    /// first frame submitted is a keyframe. With no entropy coder behind it,
    /// the packet's payload is empty.
    pub fn encode(&mut self, frame: &[u8], pts_100ns: u64) -> (r: Result<
        Option<EncodedVideoPacket>,
        EncoderError,
    >)
        requires
            old(self).wf(),
        ensures
            final(self).config == old(self).config,
            final(self).keyframe_interval == old(self).keyframe_interval,
            final(self).initialized == old(self).initialized,
            frame@.len() != nv12_size(
                old(self).config.width as int,
                old(self).config.height as int,
            ) ==> (r matches Err(e) && e is InvalidInput) && *final(self) == *old(self),
            frame@.len() == nv12_size(
                old(self).config.width as int,
                old(self).config.height as int,
            ) ==> ({
                &&& final(self).frame_count == old(self).frame_count + 1
                &&& r matches Ok(Some(p))
                &&& p.data@.len() == 0
                &&& p.pts_100ns == pts_100ns
                &&& p.dts_100ns == pts_100ns
                &&& p.is_keyframe == (old(self).frame_count as int % (
                old(self).keyframe_interval as int) == 0)
                &&& old(self).frame_count == 0 ==> p.is_keyframe
                &&& p.frame_type == (if p.is_keyframe {
                    FrameType::I
                } else {
                    FrameType::P
                })
            }),
    {
        if !self.initialized {
            return Err(EncoderError::NotInitialized);
        }
        proof {
            assert((self.config.width as int) * (self.config.height as int) >= 0)
                by (nonlinear_arith);
        }
        let expected = crate::capture::CapturedFrame::nv12_buffer_size(
            self.config.width,
            self.config.height,
        );
        if frame.len() != expected {
            return Err(EncoderError::InvalidInput(String::from_str("NV12 frame size mismatch")));
        }
        proof {
            assert(0int % (self.keyframe_interval as int) == 0) by (nonlinear_arith)
                requires
                    self.keyframe_interval > 0,
            ;
        }
        let is_keyframe = self.frame_count % self.keyframe_interval == 0;
        let frame_type = if is_keyframe {
            FrameType::I
        } else {
            FrameType::P
        };
        let packet = EncodedVideoPacket {
            data: Vec::new(),
            pts_100ns,
            dts_100ns: pts_100ns,
            is_keyframe,
            frame_type,
        };
        self.frame_count = self.frame_count + 1;
        Ok(Some(packet))
    }

    /// The encoder's Annex B parameter-set headers (SPS and PPS) for the
    /// sequence header. With no entropy coder behind this facade there are
    /// none.
    pub fn headers(&self) -> (r: Option<Vec<u8>>)
        ensures
            r is None,
    {
        None
    }

    /// Flush buffered frames; this encoder buffers none.
    pub fn flush(&mut self) -> (r: Result<Vec<EncodedVideoPacket>, EncoderError>)
        ensures
            *final(self) == *old(self),
            r matches Ok(v) && v@.len() == 0,
    {
        Ok(Vec::new())
    }

    /// Whether this encoder is hardware accelerated.
    pub fn is_hardware_accelerated(&self) -> (r: bool)
        ensures
            r,
    {
        true
    }

    /// The encoder's name for diagnostics.
    pub fn name(&self) -> (r: &'static str)
        ensures
            r@ == "NVENC"@,
    {
        "NVENC"
    }
}

/// Select a video encoder: hardware first, with the software fallback
/// requiring a codec library this build does not carry — so selection
/// surfaces the hardware probe's error.
pub fn create_video_encoder(config: VideoEncoderConfig) -> (r: Result<NvencEncoder, EncoderError>)
    ensures
        r matches Err(e) && e is NvencNotAvailable,
{
    NvencEncoder::new(config)
}

} // verus!
