//! Per-tick stream assembly: the decisions and packet building of the hot
//! loop.
//!
//! The worker thread that paces the loop lives outside this crate; each tick
//! it polls the frame queue, calls the functions here to decide what to
//! encode and to turn encoder output into wire packets, and enqueues the
//! results.

use vstd::prelude::*;
use crate::nal::{
    annex_b_payloads, avc_decoder_config_bytes, avcc_of, build_avc_decoder_config,
    build_audio_specific_config, build_flv_audio_tag, build_flv_video_tag, extract_sps_pps,
    filter_parameter_sets, flv_audio_tag_bytes, flv_video_tag_bytes, last_payload_of_type,
    lemma_last_payload_is_element, lemma_parse_payload_lens, nals_to_avcc, parse_annex_b,
    payloads_of, sampling_frequency_index, audio_specific_config_bytes, without_parameter_sets,
    NalUnitType,
};
use crate::rtmp::RtmpPacket;

verus! {

/// Frames per second the stream loop paces itself at.
pub const STREAM_FPS: u64 = 60;

/// The stream loop's tick interval in nanoseconds.
pub const FRAME_INTERVAL_NS: u64 = 16_666_666;

/// A monotonic elapsed time converted to the 100 ns presentation unit.
pub fn stream_pts_100ns(elapsed_ns: u64) -> (r: u64)
    ensures
        r == elapsed_ns / 100,
{
    elapsed_ns / 100
}

/// What one poll of the video frame queue yielded.
pub enum FramePoll {
    /// A fresh frame arrived.
    Fresh,
    /// No frame this tick.
    Empty,
    /// The capture side hung up.
    Disconnected,
}

/// What the stream loop does with this tick's frame slot.
#[derive(Debug, Clone, Copy, PartialEq, Eq, Structural)]
pub enum TickAction {
    /// Encode the fresh frame and remember it for duplication.
    EncodeFresh,
    /// No fresh frame: encode the remembered frame again to keep cadence.
    DuplicateLast,
    /// Nothing to encode yet (no frame has ever arrived).
    Skip,
    /// The frame source is gone: leave the loop with a capture error.
    Stop,
}

/// Decide this tick's action: a fresh frame is encoded and remembered; an
/// empty poll re-encodes the last frame when one exists (duplication keeps
/// the cadence constant) and otherwise skips; a disconnected source stops
/// the loop.
pub fn tick_action(poll: &FramePoll, have_last_frame: bool) -> (r: TickAction)
    ensures
        r == (match poll {
            FramePoll::Fresh => TickAction::EncodeFresh,
            FramePoll::Empty => if have_last_frame {
                TickAction::DuplicateLast
            } else {
                TickAction::Skip
            },
            FramePoll::Disconnected => TickAction::Stop,
        }),
{
    match poll {
        FramePoll::Fresh => TickAction::EncodeFresh,
        FramePoll::Empty => if have_last_frame {
            TickAction::DuplicateLast
        } else {
            TickAction::Skip
        },
        FramePoll::Disconnected => TickAction::Stop,
    }
}

/// Whether Annex B header bytes yield a sequence header: they must carry an
/// SPS of at least four bytes and a PPS.
pub open spec fn has_avc_config(headers: Seq<u8>) -> bool {
    let ps = annex_b_payloads(headers);
    &&& last_payload_of_type(ps, NalUnitType::Sps) matches Some(sps) && sps.len() >= 4
    &&& last_payload_of_type(ps, NalUnitType::Pps) is Some
}

/// The bytes of the video sequence-header tag built from header bytes that
/// yield one.
pub open spec fn avc_sequence_header_tag(headers: Seq<u8>) -> Seq<u8> {
    let ps = annex_b_payloads(headers);
    let sps = last_payload_of_type(ps, NalUnitType::Sps).unwrap();
    let pps = last_payload_of_type(ps, NalUnitType::Pps).unwrap();
    flv_video_tag_bytes(avc_decoder_config_bytes(sps, pps), true, true, 0)
}

/// Build the AVC sequence-header wire packet from an encoder's Annex B
/// headers: extract the parameter sets, build the decoder configuration
/// record, and frame it as a keyframe sequence-header video tag at
/// timestamp zero — the first packet of the video stream.
pub fn sequence_header_packet(headers: &[u8]) -> (r: Option<RtmpPacket>)
    requires
        headers@.len() <= 0xFFFF,
    ensures
        match r {
            Some(p) => {
                &&& has_avc_config(headers@)
                &&& p.data@ == avc_sequence_header_tag(headers@)
                &&& p.timestamp_ms == 0
                &&& p.is_video
                &&& p.is_keyframe
                &&& p.is_sequence_header
            },
            None => !has_avc_config(headers@),
        },
{
    proof {
        lemma_parse_payload_lens(headers@, 0);
        lemma_last_payload_is_element(annex_b_payloads(headers@), NalUnitType::Sps);
        lemma_last_payload_is_element(annex_b_payloads(headers@), NalUnitType::Pps);
    }
    let (sps, pps) = match extract_sps_pps(headers) {
        Some(pair) => pair,
        None => { return None },
    };
    let config = match build_avc_decoder_config(sps.as_slice(), pps.as_slice()) {
        Some(c) => c,
        None => { return None },
    };
    let data = build_flv_video_tag(config.as_slice(), true, true, 0);
    Some(
        RtmpPacket {
            data,
            timestamp_ms: 0,
            is_video: true,
            is_keyframe: true,
            is_sequence_header: true,
        },
    )
}

/// The bytes of a video data tag for an encoded Annex B access unit: its
/// NAL units with parameter sets removed, repacked as AVCC, framed as a
/// video tag.
pub open spec fn video_data_tag(annexb: Seq<u8>, is_keyframe: bool) -> Seq<u8> {
    let nals = without_parameter_sets_payloads(annexb);
    flv_video_tag_bytes(avcc_of(nals), is_keyframe, false, 0)
}

/// The payloads of an Annex B stream with SPS, PPS and AUD units removed.
pub open spec fn without_parameter_sets_payloads(annexb: Seq<u8>) -> Seq<Seq<u8>> {
    annex_b_payloads(annexb).filter(
        |p: Seq<u8>| p.len() > 0 && !(crate::nal::nal_type_of(p[0]) == NalUnitType::Sps
            || crate::nal::nal_type_of(p[0]) == NalUnitType::Pps || crate::nal::nal_type_of(p[0])
            == NalUnitType::Aud),
    )
}

/// Build a video data wire packet from one encoded Annex B access unit:
/// parse the NAL units, drop the parameter sets (the sequence header already
/// carries them), pack the rest as AVCC, and frame the result as a video
/// tag stamped with the elapsed stream time. Yields nothing when no data
/// NAL units remain.
pub fn video_data_packet(annexb: &[u8], is_keyframe: bool, elapsed_ms: u32) -> (r: Option<
    RtmpPacket,
>)
    requires
        annexb@.len() <= u32::MAX,
    ensures
        match r {
            Some(p) => {
                &&& without_parameter_sets_payloads(annexb@).len() > 0
                &&& p.data@ == video_data_tag(annexb@, is_keyframe)
                &&& p.timestamp_ms == elapsed_ms
                &&& p.is_video
                &&& p.is_keyframe == is_keyframe
                &&& !p.is_sequence_header
            },
            None => without_parameter_sets_payloads(annexb@).len() == 0,
        },
{
    proof {
        lemma_parse_payload_lens(annexb@, 0);
    }
    let nals = parse_annex_b(annexb);
    let ghost parsed = nals@;
    let filtered = filter_parameter_sets(nals);
    proof {
        lemma_filtered_payloads(parsed, annexb@);
    }
    if filtered.len() == 0 {
        return None;
    }
    proof {
        assert(forall|k: int|
            0 <= k < filtered@.len() ==> (#[trigger] filtered@[k]).data@.len() <= u32::MAX) by {
            assert(forall|k: int|
                0 <= k < filtered@.len() ==> without_parameter_sets(parsed).contains(
                    #[trigger] filtered@[k],
                ));
        }
    }
    let avcc = nals_to_avcc(&filtered);
    let data = build_flv_video_tag(avcc.as_slice(), is_keyframe, false, 0);
    Some(
        RtmpPacket {
            data,
            timestamp_ms: elapsed_ms,
            is_video: true,
            is_keyframe,
            is_sequence_header: false,
        },
    )
}

/// Filtering well-formed parsed NAL units and then taking payloads is the
/// same as filtering the payloads by their first byte's type; and each kept
/// payload is no longer than the stream.
proof fn lemma_filtered_payloads(parsed: Seq<crate::nal::NalUnit>, d: Seq<u8>)
    requires
        payloads_of(parsed) == annex_b_payloads(d),
        forall|k: int| 0 <= k < parsed.len() ==> (#[trigger] parsed[k]).wf(),
        forall|k: int|
            0 <= k < annex_b_payloads(d).len() ==> (#[trigger] annex_b_payloads(d)[k]).len()
                <= d.len(),
    ensures
        payloads_of(without_parameter_sets(parsed)) == without_parameter_sets_payloads(d),
        forall|k: int|
            0 <= k < without_parameter_sets(parsed).len() ==> (#[trigger] without_parameter_sets(
                parsed,
            )[k]).data@.len() <= d.len(),
        forall|k: int|
            0 <= k < without_parameter_sets(parsed).len() ==> (#[trigger] without_parameter_sets(
                parsed,
            )[k]).wf(),
    decreases parsed.len(),
{
    reveal_with_fuel(Seq::filter, 2);
    if parsed.len() == 0 {
        assert(without_parameter_sets(parsed) =~= Seq::<crate::nal::NalUnit>::empty());
        assert(payloads_of(without_parameter_sets(parsed)) =~= Seq::<Seq<u8>>::empty());
        assert(annex_b_payloads(d).len() == 0);
        assert(without_parameter_sets_payloads(d) =~= Seq::<Seq<u8>>::empty());
    } else {
        let init = parsed.drop_last();
        let last = parsed.last();
        let pd = annex_b_payloads(d);
        assert(payloads_of(init) =~= pd.drop_last());
        lemma_filtered_payloads_take(init, pd.drop_last(), d.len() as int);
        assert(pd.drop_last().len() == pd.len() - 1);
        assert(last.data@ == pd.last());
        let keep_nal = |n: crate::nal::NalUnit| !crate::nal::is_parameter_set_nal(n);
        let keep_payload = |p: Seq<u8>|
            p.len() > 0 && !(crate::nal::nal_type_of(p[0]) == NalUnitType::Sps
                || crate::nal::nal_type_of(p[0]) == NalUnitType::Pps || crate::nal::nal_type_of(
                p[0],
            ) == NalUnitType::Aud);
        assert(keep_nal(last) == keep_payload(last.data@));
        assert(without_parameter_sets(parsed) == if keep_nal(last) {
            without_parameter_sets(init).push(last)
        } else {
            without_parameter_sets(init)
        });
        assert(without_parameter_sets_payloads(d) == pd.filter(keep_payload));
        assert(pd.filter(keep_payload) == if keep_payload(pd.last()) {
            pd.drop_last().filter(keep_payload).push(pd.last())
        } else {
            pd.drop_last().filter(keep_payload)
        });
        if keep_nal(last) {
            assert(payloads_of(without_parameter_sets(init).push(last)) =~= payloads_of(
                without_parameter_sets(init),
            ).push(last.data@));
        }
        assert(payloads_of(without_parameter_sets(parsed)) =~= without_parameter_sets_payloads(d));
    }
}

/// The helper induction of `lemma_filtered_payloads` on a shorter prefix.
proof fn lemma_filtered_payloads_take(parsed: Seq<crate::nal::NalUnit>, pd: Seq<Seq<u8>>, cap: int)
    requires
        payloads_of(parsed) == pd,
        forall|k: int| 0 <= k < parsed.len() ==> (#[trigger] parsed[k]).wf(),
        forall|k: int| 0 <= k < pd.len() ==> (#[trigger] pd[k]).len() <= cap,
    ensures
        payloads_of(without_parameter_sets(parsed)) == pd.filter(
            |p: Seq<u8>| p.len() > 0 && !(crate::nal::nal_type_of(p[0]) == NalUnitType::Sps
                || crate::nal::nal_type_of(p[0]) == NalUnitType::Pps || crate::nal::nal_type_of(
                p[0],
            ) == NalUnitType::Aud),
        ),
        forall|k: int|
            0 <= k < without_parameter_sets(parsed).len() ==> (#[trigger] without_parameter_sets(
                parsed,
            )[k]).data@.len() <= cap,
        forall|k: int|
            0 <= k < without_parameter_sets(parsed).len() ==> (#[trigger] without_parameter_sets(
                parsed,
            )[k]).wf(),
    decreases parsed.len(),
{
    reveal_with_fuel(Seq::filter, 2);
    let keep_payload = |p: Seq<u8>|
        p.len() > 0 && !(crate::nal::nal_type_of(p[0]) == NalUnitType::Sps
            || crate::nal::nal_type_of(p[0]) == NalUnitType::Pps || crate::nal::nal_type_of(p[0])
            == NalUnitType::Aud);
    if parsed.len() == 0 {
        assert(without_parameter_sets(parsed) =~= Seq::<crate::nal::NalUnit>::empty());
        assert(payloads_of(without_parameter_sets(parsed)) =~= Seq::<Seq<u8>>::empty());
        assert(pd =~= Seq::<Seq<u8>>::empty());
        assert(pd.filter(keep_payload) =~= Seq::<Seq<u8>>::empty());
    } else {
        let init = parsed.drop_last();
        let last = parsed.last();
        assert(payloads_of(init) =~= pd.drop_last());
        lemma_filtered_payloads_take(init, pd.drop_last(), cap);
        let keep_nal = |n: crate::nal::NalUnit| !crate::nal::is_parameter_set_nal(n);
        assert(last.data@ == pd.last());
        assert(keep_nal(last) == keep_payload(pd.last()));
        if keep_nal(last) {
            assert(payloads_of(without_parameter_sets(init).push(last)) =~= payloads_of(
                without_parameter_sets(init),
            ).push(last.data@));
        }
        assert(payloads_of(without_parameter_sets(parsed)) =~= pd.filter(keep_payload));
    }
}

/// Build an audio data wire packet from one raw AAC access unit, framed as
/// an audio tag stamped with the elapsed stream time.
pub fn audio_data_packet(aac: &[u8], elapsed_ms: u32) -> (r: RtmpPacket)
    ensures
        r.data@ == flv_audio_tag_bytes(aac@, false),
        r.timestamp_ms == elapsed_ms,
        !r.is_video,
        !r.is_keyframe,
        !r.is_sequence_header,
{
    let data = build_flv_audio_tag(aac, false);
    RtmpPacket {
        data,
        timestamp_ms: elapsed_ms,
        is_video: false,
        is_keyframe: false,
        is_sequence_header: false,
    }
}

/// Build the audio sequence-header wire packet: the AudioSpecificConfig for
/// the encoder's configuration, framed as an audio sequence-header tag at
/// timestamp zero — sent once before any audio data.
pub fn audio_sequence_header_packet(sample_rate: u32, channels: u16) -> (r: Option<RtmpPacket>)
    ensures
        match r {
            Some(p) => {
                &&& sampling_frequency_index(sample_rate) matches Some(fi) && p.data@
                    == flv_audio_tag_bytes(audio_specific_config_bytes(fi, channels), true)
                &&& channels < 16
                &&& p.timestamp_ms == 0
                &&& !p.is_video
                &&& !p.is_keyframe
                &&& p.is_sequence_header
            },
            None => sampling_frequency_index(sample_rate) is None || channels >= 16,
        },
{
    let config = match build_audio_specific_config(sample_rate, channels) {
        Some(c) => c,
        None => { return None },
    };
    let data = build_flv_audio_tag(config.as_slice(), true);
    Some(
        RtmpPacket {
            data,
            timestamp_ms: 0,
            is_video: false,
            is_keyframe: false,
            is_sequence_header: true,
        },
    )
}

/// The stream worker's per-stream latches: each codec's sequence header is
/// emitted before any data packet of that stream, and latched only once its
/// packet was actually enqueued.
#[derive(Debug, Clone, Copy)]
pub struct StreamAssembler {
    /// Whether the video sequence header has been enqueued.
    pub video_header_sent: bool,
    /// Whether the audio sequence header has been enqueued.
    pub audio_header_sent: bool,
}

impl StreamAssembler {
    /// A fresh assembler: used at stream start, and again after every
    /// reconnection, so that the headers precede any data on the new
    /// connection.
    pub fn new() -> (r: Self)
        ensures
            !r.video_header_sent,
            !r.audio_header_sent,
    {
        Self { video_header_sent: false, audio_header_sent: false }
    }

    /// Whether the video sequence header must still be attempted before
    /// encoding.
    pub fn needs_video_header(&self) -> (r: bool)
        ensures
            r == !self.video_header_sent,
    {
        !self.video_header_sent
    }

    /// Latch the video sequence header: call only once its packet was
    /// enqueued.
    pub fn mark_video_header_sent(&mut self)
        ensures
            final(self).video_header_sent,
            final(self).audio_header_sent == old(self).audio_header_sent,
    {
        self.video_header_sent = true;
    }

    /// Whether the audio sequence header must still precede the next audio
    /// data packet.
    pub fn needs_audio_header(&self) -> (r: bool)
        ensures
            r == !self.audio_header_sent,
    {
        !self.audio_header_sent
    }

    /// Latch the audio sequence header: call only once its packet was
    /// enqueued.
    pub fn mark_audio_header_sent(&mut self)
        ensures
            final(self).audio_header_sent,
            final(self).video_header_sent == old(self).video_header_sent,
    {
        self.audio_header_sent = true;
    }
}

} // verus!
