//! AAC-LC audio encoder facade: frame-aligned buffering around fdk-aac.
//!
//! The facade accumulates fixed-point samples, hands the entropy coder one
//! full frame (1024 samples per channel) at a time, and stamps each emitted
//! access unit with the timestamp of the first sample in its frame. Only the
//! call into fdk-aac is trusted; all buffering, framing, padding and
//! timestamp arithmetic is verified.

use vstd::prelude::*;
use crate::errors::EncoderError;
use crate::video_enc::{AudioEncoderConfig, EncodedAudioPacket};

verus! {

use vstd::string::StringExecFns;

/// Samples per channel in one AAC frame.
pub const AAC_FRAME_SAMPLES: usize = 1024;

/// Cap on the frame counter, far beyond any real stream's length; the
/// counter saturates there so that timestamp arithmetic stays in range.
pub const MAX_FRAME_COUNT: u64 = 0xF_FFFF_FFFF;

#[verifier::external_type_specification]
#[verifier::external_body]
pub struct ExFdkEncoder(fdk_aac::enc::Encoder);

/// Relies on fdk_aac::enc::Encoder::new: builds an AAC-LC encoder in raw
/// transport with the given constant bitrate in bits per second, sample rate
/// and channel mode. A failure is always reported as an initialization
/// error.
#[verifier::external_body]
fn fdk_encoder_create(bitrate_bps: u32, sample_rate: u32, mono: bool) -> (r: Result<
    fdk_aac::enc::Encoder,
    EncoderError,
>)
    ensures
        r matches Err(e) ==> e is Initialization,
{
    let params = fdk_aac::enc::EncoderParams {
        bit_rate: fdk_aac::enc::BitRate::Cbr(bitrate_bps),
        sample_rate,
        transport: fdk_aac::enc::Transport::Raw,
        channels: if mono { fdk_aac::enc::ChannelMode::Mono } else { fdk_aac::enc::ChannelMode::Stereo },
        audio_object_type: fdk_aac::enc::AudioObjectType::Mpeg4LowComplexity,
    };
    match fdk_aac::enc::Encoder::new(params) {
        Ok(encoder) => Ok(encoder),
        Err(e) => Err(EncoderError::Initialization(format!("fdk-aac init failed: {:?}", e))),
    }
}

/// Relies on fdk_aac::enc::Encoder::encode: encodes the PCM frame into the
/// output buffer and reports how many bytes were produced, at most the
/// buffer's size.
#[verifier::external_body]
fn fdk_encode_frame(encoder: &fdk_aac::enc::Encoder, pcm: &[i16]) -> (r: Result<
    Vec<u8>,
    EncoderError,
>)
    ensures
        r matches Ok(data) ==> data@.len() <= 8192,
{
    let mut output = vec![0u8; 8192];
    match encoder.encode(pcm, &mut output) {
        Ok(info) => {
            output.truncate(info.output_size.min(8192));
            Ok(output)
        },
        Err(e) => Err(EncoderError::Encoding(format!("AAC encode failed: {:?}", e))),
    }
}

/// Convert fixed-point samples (full scale `SAMPLE_UNIT`) to 16-bit PCM by
/// clamping to the 16-bit range.
pub open spec fn sample_to_i16(v: int) -> int {
    if v < -32768 {
        -32768
    } else if v > 32767 {
        32767
    } else {
        v
    }
}

/// Clamp fixed-point samples into 16-bit PCM, element by element.
pub fn samples_to_i16(samples: &[i32]) -> (r: Vec<i16>)
    ensures
        r@.len() == samples@.len(),
        forall|i: int|
            0 <= i < r@.len() ==> #[trigger] r@[i] == sample_to_i16(samples@[i] as int),
{
    let mut r: Vec<i16> = Vec::new();
    let mut i: usize = 0;
    while i < samples.len()
        invariant
            i <= samples@.len(),
            r@.len() == i,
            forall|j: int|
                0 <= j < i ==> #[trigger] r@[j] == sample_to_i16(samples@[j] as int),
        decreases samples@.len() - i,
    {
        let s = samples[i];
        let c: i16 = if s < -32768 {
            -32768
        } else if s > 32767 {
            32767
        } else {
            s as i16
        };
        r.push(c);
        i += 1;
    }
    r
}

/// The timestamp of the frame that starts after `frame_count` full frames:
/// each frame covers 1024 samples of the configured rate, in 100 ns units.
pub open spec fn frame_pts_100ns(frame_count: u64, sample_rate: u32) -> int {
    frame_count * 1024 * 10_000_000 / (sample_rate as int)
}

/// AAC-LC audio encoder with frame-aligned buffering.
pub struct AacEncoder {
    /// The underlying entropy coder.
    pub encoder: fdk_aac::enc::Encoder,
    /// Encoder configuration.
    pub config: AudioEncoderConfig,
    /// Samples per frame across all channels.
    pub samples_per_frame: usize,
    /// Buffered 16-bit samples not yet covering a full frame.
    pub sample_buffer: Vec<i16>,
    /// Full frames handed to the coder so far.
    pub frame_count: u64,
}

impl AacEncoder {
    /// A well-formed encoder frames at 1024 samples per channel, has a sane
    /// sample rate and headroom in its frame counter.
    pub open spec fn wf(self) -> bool {
        &&& self.samples_per_frame == 1024 * self.config.channels
        &&& self.samples_per_frame > 0
        &&& self.frame_count <= MAX_FRAME_COUNT
        &&& self.config.sample_rate >= 8000
    }

    /// Create a new AAC encoder for the configuration.
    pub fn new(config: AudioEncoderConfig) -> (r: Result<Self, EncoderError>)
        requires
            1 <= config.channels <= 8,
            config.sample_rate >= 8000,
        ensures
            r matches Ok(enc) ==> ({
                &&& enc.wf()
                &&& enc.config == config
                &&& enc.sample_buffer@.len() == 0
                &&& enc.frame_count == 0
            }),
            r matches Err(e) ==> e is Initialization,
    {
        let samples_per_frame = AAC_FRAME_SAMPLES * (config.channels as usize);
        // The coder takes bits per second and a channel mode; mono only for a
        // single channel, stereo otherwise.
        let bitrate_bps: u32 = if config.bitrate_kbps <= u32::MAX / 1000 {
            config.bitrate_kbps * 1000
        } else {
            u32::MAX
        };
        let mono = config.channels == 1;
        let encoder = match fdk_encoder_create(bitrate_bps, config.sample_rate, mono) {
            Ok(e) => e,
            Err(e) => { return Err(e) },
        };
        Ok(
            Self {
                encoder,
                config,
                samples_per_frame,
                sample_buffer: Vec::new(),
                frame_count: 0,
            },
        )
    }

    /// Encode 16-bit samples. Input is appended to the frame buffer; once a
    /// full frame (1024 samples per channel) has accumulated, it is handed to
    /// the coder and any access unit it produced is returned, stamped with
    /// the caller's timestamp — the time of the first sample in the frame.
    /// With less than a full frame buffered the call returns nothing, which
    /// is normal and not an error.
    pub fn encode(&mut self, samples: &[i16], pts_100ns: u64) -> (r: Result<
        Option<EncodedAudioPacket>,
        EncoderError,
    >)
        requires
            old(self).wf(),
            samples@.len() <= 0x10000,
        ensures
            final(self).config == old(self).config,
            final(self).samples_per_frame == old(self).samples_per_frame,
            old(self).sample_buffer@.len() + samples@.len() < old(self).samples_per_frame ==> ({
                &&& r matches Ok(None)
                &&& final(self).sample_buffer@ == old(self).sample_buffer@ + samples@
                &&& final(self).frame_count == old(self).frame_count
            }),
            old(self).sample_buffer@.len() + samples@.len() >= old(self).samples_per_frame ==> ({
                &&& final(self).sample_buffer@ == (old(self).sample_buffer@ + samples@).skip(
                    old(self).samples_per_frame as int,
                )
                &&& (r matches Ok(p) ==> final(self).frame_count == if old(self).frame_count
                    < MAX_FRAME_COUNT {
                    (old(self).frame_count + 1) as u64
                } else {
                    old(self).frame_count
                })
                &&& (r matches Ok(Some(p)) ==> p.pts_100ns == pts_100ns)
            }),
            final(self).wf(),
    {
        let mut i: usize = 0;
        while i < samples.len()
            invariant
                i <= samples@.len(),
                self.sample_buffer@ == old(self).sample_buffer@ + samples@.take(i as int),
                self.config == old(self).config,
                self.samples_per_frame == old(self).samples_per_frame,
                self.frame_count == old(self).frame_count,
                self.encoder == old(self).encoder,
                old(self).wf(),
                samples@.len() <= 0x10000,
            decreases samples@.len() - i,
        {
            self.sample_buffer.push(samples[i]);
            proof {
                assert(samples@.take(i + 1) =~= samples@.take(i as int).push(samples@[i as int]));
            }
            i += 1;
        }
        proof {
            assert(samples@.take(samples@.len() as int) =~= samples@);
        }
        if self.sample_buffer.len() < self.samples_per_frame {
            return Ok(None);
        }
        // Take one frame's worth of samples from the front of the buffer.
        let mut frame: Vec<i16> = Vec::new();
        let mut k: usize = 0;
        let ghost full = self.sample_buffer@;
        while k < self.samples_per_frame
            invariant
                k <= self.samples_per_frame,
                self.samples_per_frame <= full.len(),
                frame@ == full.take(k as int),
                self.sample_buffer@ == full,
                self.config == old(self).config,
                self.samples_per_frame == old(self).samples_per_frame,
                self.frame_count == old(self).frame_count,
                self.encoder == old(self).encoder,
                old(self).wf(),
            decreases self.samples_per_frame - k,
        {
            frame.push(self.sample_buffer[k]);
            proof {
                assert(full.take(k + 1) =~= full.take(k as int).push(full[k as int]));
            }
            k += 1;
        }
        let mut rest: Vec<i16> = Vec::new();
        let mut k2: usize = self.samples_per_frame;
        while k2 < self.sample_buffer.len()
            invariant
                self.samples_per_frame <= k2 <= full.len(),
                rest@ == full.subrange(self.samples_per_frame as int, k2 as int),
                self.sample_buffer@ == full,
                self.config == old(self).config,
                self.samples_per_frame == old(self).samples_per_frame,
                self.frame_count == old(self).frame_count,
                self.encoder == old(self).encoder,
                old(self).wf(),
            decreases full.len() - k2,
        {
            rest.push(self.sample_buffer[k2]);
            proof {
                assert(full.subrange(self.samples_per_frame as int, k2 + 1) =~= full.subrange(
                    self.samples_per_frame as int,
                    k2 as int,
                ).push(full[k2 as int]));
            }
            k2 += 1;
        }
        self.sample_buffer = rest;
        proof {
            assert(full.subrange(self.samples_per_frame as int, full.len() as int) =~= full.skip(
                self.samples_per_frame as int,
            ));
        }
        let encoded = match fdk_encode_frame(&self.encoder, frame.as_slice()) {
            Ok(data) => data,
            Err(e) => { return Err(e) },
        };
        if self.frame_count < MAX_FRAME_COUNT {
            self.frame_count = self.frame_count + 1;
        }
        if encoded.len() == 0 {
            // The coder is still priming its pipeline.
            return Ok(None);
        }
        Ok(Some(EncodedAudioPacket { data: encoded, pts_100ns }))
    }

    /// Flush the encoder: pad any remaining samples with silence to a full
    /// frame and encode them. Flushing always succeeds — a final coder error
    /// only drops the tail frame — the buffer is empty afterwards, the frame
    /// counter is untouched, and at most one packet is produced, stamped at
    /// the start of the final frame.
    pub fn flush(&mut self) -> (r: Result<Vec<EncodedAudioPacket>, EncoderError>)
        requires
            old(self).wf(),
        ensures
            final(self).sample_buffer@.len() == 0,
            final(self).config == old(self).config,
            final(self).samples_per_frame == old(self).samples_per_frame,
            final(self).frame_count == old(self).frame_count,
            final(self).wf(),
            r matches Ok(packets) && ({
                &&& packets@.len() <= 1
                &&& (old(self).sample_buffer@.len() == 0 ==> packets@.len() == 0)
                &&& forall|i: int|
                    0 <= i < packets@.len() ==> (#[trigger] packets@[i]).pts_100ns
                        == frame_pts_100ns(old(self).frame_count, old(self).config.sample_rate)
            }),
    {
        let mut packets: Vec<EncodedAudioPacket> = Vec::new();
        if self.sample_buffer.len() == 0 {
            return Ok(packets);
        }
        let mut frame: Vec<i16> = Vec::new();
        let mut k: usize = 0;
        let ghost pending = self.sample_buffer@;
        while k < self.sample_buffer.len()
            invariant
                k <= pending.len(),
                frame@ == pending.take(k as int),
                self.sample_buffer@ == pending,
                self.config == old(self).config,
                self.samples_per_frame == old(self).samples_per_frame,
                self.frame_count == old(self).frame_count,
                self.encoder == old(self).encoder,
                old(self).wf(),
            decreases pending.len() - k,
        {
            frame.push(self.sample_buffer[k]);
            proof {
                assert(pending.take(k + 1) =~= pending.take(k as int).push(pending[k as int]));
            }
            k += 1;
        }
        while frame.len() < self.samples_per_frame
            invariant
                self.config == old(self).config,
                self.samples_per_frame == old(self).samples_per_frame,
                self.frame_count == old(self).frame_count,
                self.encoder == old(self).encoder,
                old(self).wf(),
            decreases self.samples_per_frame - frame@.len(),
        {
            frame.push(0);
        }
        self.sample_buffer = Vec::new();
        let pts = self.final_frame_pts();
        match fdk_encode_frame(&self.encoder, frame.as_slice()) {
            Ok(encoded) => {
                if encoded.len() > 0 {
                    packets.push(EncodedAudioPacket { data: encoded, pts_100ns: pts });
                }
            },
            Err(_) => {
                // Flushing is best effort: a final coder error drops the tail
                // frame, as the stream is ending anyway.
            },
        }
        Ok(packets)
    }

    /// The timestamp of the frame currently being assembled.
    fn final_frame_pts(&self) -> (r: u64)
        requires
            self.wf(),
        ensures
            r == frame_pts_100ns(self.frame_count, self.config.sample_rate),
    {
        let wide = (self.frame_count as u128) * 1024u128 * 10_000_000u128 / (
        self.config.sample_rate as u128);
        proof {
            assert((self.frame_count as int) * 1024 * 10_000_000 <= 0xF_FFFF_FFFFint * 1024
                * 10_000_000) by (nonlinear_arith)
                requires
                    0 <= self.frame_count <= 0xF_FFFF_FFFFu64,
            ;
            vstd::arithmetic::div_mod::lemma_div_pos_is_pos(
                (self.frame_count as int) * 1024 * 10_000_000,
                self.config.sample_rate as int,
            );
            vstd::arithmetic::div_mod::lemma_div_is_ordered(
                (self.frame_count as int) * 1024 * 10_000_000,
                0xF_FFFF_FFFFint * 1024 * 10_000_000,
                self.config.sample_rate as int,
            );
            vstd::arithmetic::div_mod::lemma_div_is_ordered_by_denominator(
                0xF_FFFF_FFFFint * 1024 * 10_000_000,
                8000,
                self.config.sample_rate as int,
            );
            assert(0xF_FFFF_FFFFint * 1024 * 10_000_000 == 703687441766400000000int);
            assert(703687441766400000000int / 8000 <= u64::MAX);
        }
        wide as u64
    }

    /// The encoder's name for diagnostics.
    pub fn name(&self) -> (r: &'static str)
        ensures
            r@ == "AAC-LC"@,
    {
        "AAC-LC"
    }
}

/// Create an audio encoder for the configuration.
pub fn create_audio_encoder(config: AudioEncoderConfig) -> (r: Result<AacEncoder, EncoderError>)
    requires
        1 <= config.channels <= 8,
        config.sample_rate >= 8000,
    ensures
        r matches Ok(enc) ==> ({
            &&& enc.wf()
            &&& enc.config == config
            &&& enc.sample_buffer@.len() == 0
            &&& enc.frame_count == 0
        }),
        r matches Err(e) ==> e is Initialization,
{
    AacEncoder::new(config)
}

} // verus!
