//! Audio chunk types and the N-input mixer.
//!
//! Samples are signed fixed-point values with `SAMPLE_UNIT` as full scale
//! (the Q15 convention: 32768 is 1.0). Gains are in permille of full scale.
//! The mixer sums the gained inputs and applies a soft clip whose saturating
//! branches follow an exponential approach to full scale, computed with a
//! rational approximation of the exponential.

use vstd::prelude::*;
use crate::types::AudioDeviceType;

verus! {

/// Audio sample rate in Hz.
pub const SAMPLE_RATE: u32 = 48000;

/// Number of audio channels.
pub const CHANNELS: u16 = 2;

/// Frames per mixed chunk (10 ms at 48 kHz).
pub const SAMPLES_PER_CHUNK: usize = 480;

/// Samples per mixed chunk across all channels.
pub const CHUNK_SAMPLE_COUNT: usize = 960;

/// Channel capacity for audio chunks.
pub const AUDIO_CHANNEL_CAPACITY: usize = 8;

/// The interval between mixed chunks, in milliseconds.
pub const MIX_TICK_MS: u64 = 10;

/// Full scale of a sample (1.0 in the fixed-point convention).
pub const SAMPLE_UNIT: i32 = 32768;

/// An audio chunk captured from one device: interleaved stereo fixed-point
/// samples at 48 kHz.
#[derive(Debug, Clone)]
pub struct AudioChunk {
    /// Interleaved stereo samples, `SAMPLE_UNIT` being full scale.
    pub data: Vec<i32>,
    /// Monotonically increasing sequence number.
    pub sequence: u64,
    /// Source device kind.
    pub source: AudioDeviceType,
}

impl AudioChunk {
    /// The number of sample frames (one per channel group) in this chunk.
    pub fn sample_count(&self) -> (r: usize)
        ensures
            r == self.data@.len() as int / (CHANNELS as int),
    {
        self.data.len() / (CHANNELS as usize)
    }
}

/// A mixed audio output chunk.
#[derive(Debug, Clone)]
pub struct MixedAudioChunk {
    /// Interleaved stereo samples, `SAMPLE_UNIT` being full scale.
    pub data: Vec<i32>,
    /// Presentation timestamp in 100 ns units.
    pub pts_100ns: u64,
    /// Sequence number.
    pub sequence: u64,
}

/// The presentation timestamp of mixed chunk number `sequence`: chunks are
/// spaced exactly `MIX_TICK_MS` apart on the mixer's clock.
pub open spec fn mix_tick_pts_100ns(sequence: u64) -> int {
    sequence * (MIX_TICK_MS as int) * 10_000
}

/// The presentation timestamp for mixed chunk number `sequence`, in 100 ns
/// units.
pub fn mixer_tick_pts(sequence: u64) -> (r: u64)
    requires
        mix_tick_pts_100ns(sequence) <= u64::MAX,
    ensures
        r == mix_tick_pts_100ns(sequence),
{
    proof {
        assert(sequence as int * 100_000 == mix_tick_pts_100ns(sequence)) by (nonlinear_arith);
    }
    sequence * 100_000
}

/// The mixer's emitted timestamps keep exact cadence: chunk `n` carries a
/// timestamp within one millisecond of `n` times the tick period (here the
/// difference is zero, the timestamp being derived from the tick counter, not
/// from a wall-clock reading).
pub proof fn lemma_mixer_timing(sequence: u64)
    ensures
        mix_tick_pts_100ns(sequence) - sequence * 100_000 == 0,
        -10_000 < mix_tick_pts_100ns(sequence) - sequence * 100_000 < 10_000,
{
    assert(sequence * (MIX_TICK_MS as int) * 10_000 == sequence * 100_000) by (nonlinear_arith);
}

/// Cap on the exponential argument: beyond this the approximation returns
/// zero.
pub open spec fn exp_arg_cap() -> int {
    16 * (SAMPLE_UNIT as int)
}

/// A decreasing rational approximation of `SAMPLE_UNIT * e^(-t / SAMPLE_UNIT)`
/// for `t >= 0`: full scale over `1 + t + t^2 / 2` in fixed point, cut to
/// zero past the cap.
pub open spec fn exp_neg_spec(t: int) -> int {
    let u = SAMPLE_UNIT as int;
    if t > exp_arg_cap() {
        0
    } else {
        (u * u) / (u + t + (t * t) / (2 * u))
    }
}

/// The approximation stays within `[0, SAMPLE_UNIT]` for nonnegative
/// arguments.
pub proof fn lemma_exp_neg_bounds(t: int)
    requires
        t >= 0,
    ensures
        0 <= exp_neg_spec(t) <= SAMPLE_UNIT,
{
    let u = SAMPLE_UNIT as int;
    if t > exp_arg_cap() {
    } else {
        assert((t * t) / (2 * u) >= 0) by {
            assert(t * t >= 0) by (nonlinear_arith);
            vstd::arithmetic::div_mod::lemma_div_pos_is_pos(t * t, 2 * u);
        }
        let d = u + t + (t * t) / (2 * u);
        assert(d >= u);
        vstd::arithmetic::div_mod::lemma_div_is_ordered_by_denominator(u * u, u, d);
        vstd::arithmetic::div_mod::lemma_div_multiples_vanish(u, u);
        assert((u * u) / u == u);
        vstd::arithmetic::div_mod::lemma_div_pos_is_pos(u * u, d);
    }
}

/// The approximation is nonincreasing on nonnegative arguments.
pub proof fn lemma_exp_neg_antitone(t1: int, t2: int)
    requires
        0 <= t1 <= t2,
    ensures
        exp_neg_spec(t1) >= exp_neg_spec(t2),
{
    let u = SAMPLE_UNIT as int;
    if t2 > exp_arg_cap() {
        lemma_exp_neg_bounds(t1);
    } else {
        assert(t1 * t1 <= t2 * t2) by (nonlinear_arith)
            requires
                0 <= t1 <= t2,
        ;
        vstd::arithmetic::div_mod::lemma_div_is_ordered(t1 * t1, t2 * t2, 2 * u);
        let d1 = u + t1 + (t1 * t1) / (2 * u);
        let d2 = u + t2 + (t2 * t2) / (2 * u);
        assert(t1 * t1 >= 0) by (nonlinear_arith);
        vstd::arithmetic::div_mod::lemma_div_pos_is_pos(t1 * t1, 2 * u);
        assert(1 <= d1 <= d2);
        vstd::arithmetic::div_mod::lemma_div_is_ordered_by_denominator(u * u, d1, d2);
    }
}

/// The soft clip: the identity within full scale; beyond it, an exponential
/// approach from half scale to full scale that never crosses full scale.
pub open spec fn soft_clip_spec(x: int) -> int {
    let u = SAMPLE_UNIT as int;
    if x > u {
        u - exp_neg_spec(x - u) / 2
    } else if x < -u {
        -u + exp_neg_spec(-u - x) / 2
    } else {
        x
    }
}

/// The region of the soft clip's definition that `x` falls in: below, inside
/// or above full scale.
pub open spec fn clip_region(x: int) -> int {
    let u = SAMPLE_UNIT as int;
    if x > u {
        1
    } else if x < -u {
        -1
    } else {
        0
    }
}

/// Soft clipping never exceeds full scale in magnitude.
pub proof fn lemma_soft_clip_bounded(x: int)
    ensures
        -SAMPLE_UNIT <= soft_clip_spec(x) <= SAMPLE_UNIT,
{
    let u = SAMPLE_UNIT as int;
    if x > u {
        lemma_exp_neg_bounds(x - u);
    } else if x < -u {
        lemma_exp_neg_bounds(-u - x);
    }
}

/// Soft clipping is nondecreasing within each of its three regions. (At the
/// region boundaries the curve jumps from full scale to the exponential
/// branch, so monotonicity holds per region, not across them.)
pub proof fn lemma_soft_clip_monotone(a: int, b: int)
    requires
        a <= b,
        clip_region(a) == clip_region(b),
    ensures
        soft_clip_spec(a) <= soft_clip_spec(b),
{
    let u = SAMPLE_UNIT as int;
    if a > u {
        lemma_exp_neg_antitone(a - u, b - u);
        vstd::arithmetic::div_mod::lemma_div_is_ordered(
            exp_neg_spec(b - u),
            exp_neg_spec(a - u),
            2,
        );
    } else if a < -u {
        lemma_exp_neg_antitone(-u - b, -u - a);
        vstd::arithmetic::div_mod::lemma_div_is_ordered(
            exp_neg_spec(-u - a),
            exp_neg_spec(-u - b),
            2,
        );
    }
}

/// Divide a nonnegative value by a positive one, in execution.
fn div_nonneg(x: i64, d: i64) -> (r: i64)
    requires
        x >= 0,
        d > 0,
    ensures
        r == x as int / d as int,
{
    x / d
}

/// Apply the soft clip to an accumulated sample.
pub fn soft_clip(x: i64) -> (r: i64)
    requires
        -0x4000_0000_0000 <= x <= 0x4000_0000_0000,
    ensures
        r == soft_clip_spec(x as int),
{
    let u: i64 = SAMPLE_UNIT as i64;
    if x > u {
        u - exp_neg(x - u) / 2
    } else if x < -u {
        -u + exp_neg(-u - x) / 2
    } else {
        x
    }
}

/// The exponential approximation, in execution.
fn exp_neg(t: i64) -> (r: i64)
    requires
        0 <= t <= 0x8000_0000_0000,
    ensures
        r == exp_neg_spec(t as int),
        r >= 0,
{
    let u: i64 = SAMPLE_UNIT as i64;
    if t > 16 * u {
        proof {
            lemma_exp_neg_bounds(t as int);
        }
        0
    } else {
        proof {
            assert(t as int * t as int >= 0 && t as int * t as int <= 0x4000000000)
                by (nonlinear_arith)
                requires
                    0 <= t <= 524288,
            ;
        }
        let squared_term = div_nonneg(t * t, 2 * u);
        let d = u + t + squared_term;
        proof {
            vstd::arithmetic::div_mod::lemma_div_pos_is_pos(t as int * t as int, 2 * u as int);
            vstd::arithmetic::div_mod::lemma_div_is_ordered(
                t as int * t as int,
                0x4000000000,
                2 * u as int,
            );
        }
        let r = div_nonneg(u * u, d);
        proof {
            lemma_exp_neg_bounds(t as int);
        }
        r
    }
}

/// One input's contribution to a mix sample: its sample scaled by the gain,
/// zero when the input is absent, muted, or too short for this tick.
pub open spec fn input_contrib(
    input: Option<Seq<i32>>,
    gain_permille: u32,
    muted: bool,
    i: int,
) -> int {
    match input {
        Some(samples) => if muted || i >= samples.len() {
            0
        } else {
            scaled_sample(samples[i] as int, gain_permille as int)
        },
        None => 0,
    }
}

/// A sample scaled by a permille gain, truncating toward zero.
pub open spec fn scaled_sample(s: int, gain_permille: int) -> int {
    if s >= 0 {
        (s * gain_permille) / 1000
    } else {
        -(((-s) * gain_permille) / 1000)
    }
}

/// The mixed and clipped sample at position `i` of one tick.
pub open spec fn mixed_sample(
    mic: Option<Seq<i32>>,
    system: Option<Seq<i32>>,
    mic_gain: u32,
    system_gain: u32,
    mic_muted: bool,
    system_muted: bool,
    i: int,
) -> int {
    soft_clip_spec(
        input_contrib(mic, mic_gain, mic_muted, i) + input_contrib(
            system,
            system_gain,
            system_muted,
            i,
        ),
    )
}

/// Scale one sample by a permille gain.
fn scale_sample(s: i32, gain_permille: u32) -> (r: i64)
    requires
        gain_permille <= 1000,
    ensures
        r == scaled_sample(s as int, gain_permille as int),
        -0x2000_0000_0000 <= r <= 0x2000_0000_0000,
{
    let wide = s as i64;
    let g = gain_permille as i64;
    if wide >= 0 {
        proof {
            assert(wide * g <= 0x80000000 * 1000) by (nonlinear_arith)
                requires
                    0 <= wide <= 0x80000000i64 && 0 <= g <= 1000,
            ;
            vstd::arithmetic::div_mod::lemma_div_pos_is_pos(wide as int * g as int, 1000);
            vstd::arithmetic::div_mod::lemma_div_is_ordered(
                wide as int * g as int,
                0x80000000int * 1000,
                1000,
            );
        }
        div_nonneg(wide * g, 1000)
    } else {
        let m = -wide;
        proof {
            assert(m * g <= 0x80000000 * 1000) by (nonlinear_arith)
                requires
                    0 <= m <= 0x80000000i64 && 0 <= g <= 1000,
            ;
            vstd::arithmetic::div_mod::lemma_div_pos_is_pos(m as int * g as int, 1000);
            vstd::arithmetic::div_mod::lemma_div_is_ordered(
                m as int * g as int,
                0x80000000int * 1000,
                1000,
            );
        }
        -div_nonneg(m * g, 1000)
    }
}

/// Mix one tick: sum the gained, unmuted inputs sample by sample over a
/// silent scratch buffer of one chunk, soft-clipping every sample. An absent
/// or muted input, and any sample past an input's end, contributes silence.
pub fn mix_tick(
    mic: Option<&Vec<i32>>,
    system: Option<&Vec<i32>>,
    mic_gain_permille: u32,
    system_gain_permille: u32,
    mic_muted: bool,
    system_muted: bool,
) -> (r: Vec<i32>)
    requires
        mic_gain_permille <= 1000,
        system_gain_permille <= 1000,
    ensures
        r@.len() == CHUNK_SAMPLE_COUNT,
        forall|i: int|
            0 <= i < r@.len() ==> #[trigger] r@[i] == mixed_sample(
                match mic {
                    Some(v) => Some(v@),
                    None => None,
                },
                match system {
                    Some(v) => Some(v@),
                    None => None,
                },
                mic_gain_permille,
                system_gain_permille,
                mic_muted,
                system_muted,
                i,
            ),
{
    let ghost mic_view: Option<Seq<i32>> = match mic {
        Some(v) => Some(v@),
        None => None,
    };
    let ghost system_view: Option<Seq<i32>> = match system {
        Some(v) => Some(v@),
        None => None,
    };
    let mut out: Vec<i32> = Vec::new();
    let mut i: usize = 0;
    while i < CHUNK_SAMPLE_COUNT
        invariant
            i <= CHUNK_SAMPLE_COUNT,
            out@.len() == i,
            mic_gain_permille <= 1000,
            system_gain_permille <= 1000,
            mic_view == match mic {
                Some(v) => Some(v@),
                None => None,
            },
            system_view == match system {
                Some(v) => Some(v@),
                None => None,
            },
            forall|j: int|
                0 <= j < i ==> #[trigger] out@[j] == mixed_sample(
                    mic_view,
                    system_view,
                    mic_gain_permille,
                    system_gain_permille,
                    mic_muted,
                    system_muted,
                    j,
                ),
        decreases CHUNK_SAMPLE_COUNT - i,
    {
        let mic_part: i64 = match mic {
            Some(v) => if !mic_muted && i < v.len() {
                scale_sample(v[i], mic_gain_permille)
            } else {
                0
            },
            None => 0,
        };
        let system_part: i64 = match system {
            Some(v) => if !system_muted && i < v.len() {
                scale_sample(v[i], system_gain_permille)
            } else {
                0
            },
            None => 0,
        };
        let clipped = soft_clip(mic_part + system_part);
        proof {
            lemma_soft_clip_bounded(mic_part as int + system_part as int);
        }
        out.push(clipped as i32);
        i += 1;
    }
    out
}

/// A muted input, or one with zero gain, contributes exact silence to every
/// mixed sample: the mix equals what the remaining input alone produces.
pub proof fn lemma_silenced_input(
    mic: Option<Seq<i32>>,
    system: Option<Seq<i32>>,
    mic_gain: u32,
    system_gain: u32,
    mic_muted: bool,
    system_muted: bool,
    i: int,
)
    requires
        mic_muted || mic_gain == 0,
    ensures
        input_contrib(mic, mic_gain, mic_muted, i) == 0,
        mixed_sample(mic, system, mic_gain, system_gain, mic_muted, system_muted, i)
            == mixed_sample(None, system, 0, system_gain, false, system_muted, i),
{
    match mic {
        Some(samples) => {
            if !mic_muted && 0 <= i < samples.len() {
                assert(scaled_sample(samples[i] as int, 0) == 0) by {
                    assert(samples[i] as int * 0 == 0) by (nonlinear_arith);
                    assert((-(samples[i] as int)) * 0 == 0) by (nonlinear_arith);
                }
            }
        },
        None => {},
    }
}

/// Per-input mixer settings: a gain and a mute flag.
#[derive(Debug, Clone, Copy)]
pub struct MixerInput {
    /// Gain in permille of full scale (0..=1000).
    pub volume_permille: u32,
    /// Whether this input is muted.
    pub muted: bool,
}

impl MixerInput {
    /// A new input at full volume, unmuted.
    pub fn new() -> (r: Self)
        ensures
            r.volume_permille == 1000,
            !r.muted,
    {
        Self { volume_permille: 1000, muted: false }
    }

    /// Set the gain, clamped to 0..=1000 permille.
    pub fn set_volume(&mut self, volume_permille: u32)
        ensures
            final(self).volume_permille == if volume_permille <= 1000 {
                volume_permille
            } else {
                1000
            },
            final(self).muted == old(self).muted,
    {
        self.volume_permille = if volume_permille <= 1000 {
            volume_permille
        } else {
            1000
        };
    }

    /// Set the muted state.
    pub fn set_muted(&mut self, muted: bool)
        ensures
            final(self).muted == muted,
            final(self).volume_permille == old(self).volume_permille,
    {
        self.muted = muted;
    }

    /// The current gain in permille.
    pub fn volume(&self) -> (r: u32)
        ensures
            r == self.volume_permille,
    {
        self.volume_permille
    }

    /// Whether this input is muted.
    pub fn is_muted(&self) -> (r: bool)
        ensures
            r == self.muted,
    {
        self.muted
    }
}

/// The audio mixer's settings and per-tick mixing. The cadence worker that
/// calls `mix_chunk` every ten milliseconds lives outside this crate; every
/// sample it emits is computed here.
#[derive(Debug, Clone, Copy)]
pub struct AudioMixer {
    /// Microphone input settings.
    pub mic: MixerInput,
    /// System audio input settings.
    pub system: MixerInput,
}

impl AudioMixer {
    /// A new mixer with both inputs at full volume, unmuted.
    pub fn new() -> (r: Self)
        ensures
            r.mic.volume_permille == 1000,
            !r.mic.muted,
            r.system.volume_permille == 1000,
            !r.system.muted,
    {
        Self { mic: MixerInput::new(), system: MixerInput::new() }
    }

    /// Set the microphone gain, clamped to 0..=1000 permille.
    pub fn set_mic_volume(&mut self, volume_permille: u32)
        ensures
            final(self).mic.volume_permille == if volume_permille <= 1000 {
                volume_permille
            } else {
                1000
            },
            final(self).mic.muted == old(self).mic.muted,
            final(self).system == old(self).system,
    {
        self.mic.set_volume(volume_permille);
    }

    /// Set the system audio gain, clamped to 0..=1000 permille.
    pub fn set_system_volume(&mut self, volume_permille: u32)
        ensures
            final(self).system.volume_permille == if volume_permille <= 1000 {
                volume_permille
            } else {
                1000
            },
            final(self).system.muted == old(self).system.muted,
            final(self).mic == old(self).mic,
    {
        self.system.set_volume(volume_permille);
    }

    /// Mute or unmute the microphone.
    pub fn set_mic_muted(&mut self, muted: bool)
        ensures
            final(self).mic.muted == muted,
            final(self).mic.volume_permille == old(self).mic.volume_permille,
            final(self).system == old(self).system,
    {
        self.mic.set_muted(muted);
    }

    /// Mute or unmute system audio.
    pub fn set_system_muted(&mut self, muted: bool)
        ensures
            final(self).system.muted == muted,
            final(self).system.volume_permille == old(self).system.volume_permille,
            final(self).mic == old(self).mic,
    {
        self.system.set_muted(muted);
    }

    /// Mix one tick's chunk under the current settings.
    pub fn mix_chunk(
        &self,
        mic: Option<&Vec<i32>>,
        system: Option<&Vec<i32>>,
        sequence: u64,
    ) -> (r: MixedAudioChunk)
        requires
            self.mic.volume_permille <= 1000,
            self.system.volume_permille <= 1000,
            mix_tick_pts_100ns(sequence) <= u64::MAX,
        ensures
            r.data@.len() == CHUNK_SAMPLE_COUNT,
            r.pts_100ns == mix_tick_pts_100ns(sequence),
            r.sequence == sequence,
            forall|i: int|
                0 <= i < r.data@.len() ==> #[trigger] r.data@[i] == mixed_sample(
                    match mic {
                        Some(v) => Some(v@),
                        None => None,
                    },
                    match system {
                        Some(v) => Some(v@),
                        None => None,
                    },
                    self.mic.volume_permille,
                    self.system.volume_permille,
                    self.mic.muted,
                    self.system.muted,
                    i,
                ),
    {
        let data = mix_tick(
            mic,
            system,
            self.mic.volume_permille,
            self.system.volume_permille,
            self.mic.muted,
            self.system.muted,
        );
        MixedAudioChunk { data, pts_100ns: mixer_tick_pts(sequence), sequence }
    }
}

} // verus!
