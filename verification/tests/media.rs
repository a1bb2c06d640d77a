//! Tests for the pixel converter, mixer, encoders and stream assembly.

use broadcaster::audio_enc::{samples_to_i16, AacEncoder};
use broadcaster::mixer::{mix_tick, mixer_tick_pts, soft_clip, AudioMixer, SAMPLE_UNIT};
use broadcaster::pixel::convert_bgra_to_nv12;
use broadcaster::stream::{
    audio_data_packet, audio_sequence_header_packet, sequence_header_packet, tick_action,
    video_data_packet, FramePoll, StreamAssembler, TickAction,
};
use broadcaster::text::{i64_to_string, parse_i64, u64_to_string};
use broadcaster::video_enc::{
    create_video_encoder, encoder_ticks_to_pts, pts_to_encoder_ticks, AudioEncoderConfig,
    NvencEncoder, VideoEncoderConfig,
};
use broadcaster::EncoderError;

#[test]
fn nv12_output_size_is_independent_of_stride() {
    // A 4x2 frame: tightly packed rows, then rows with 8 bytes of padding.
    let tight = vec![0x80u8; 4 * 4 * 2];
    let out_tight = convert_bgra_to_nv12(&tight, 4, 2, 16);
    assert_eq!(out_tight.len(), 4 * 2 * 3 / 2);

    let padded = vec![0x80u8; 24 * 2];
    let out_padded = convert_bgra_to_nv12(&padded, 4, 2, 24);
    assert_eq!(out_padded.len(), 4 * 2 * 3 / 2);
    assert_eq!(out_tight, out_padded);
}

#[test]
fn nv12_known_pixel_values() {
    // One 2x2 block of pure white: luma saturates, chroma sits at midpoint.
    let white = vec![0xFFu8; 2 * 4 * 2];
    let out = convert_bgra_to_nv12(&white, 2, 2, 8);
    assert_eq!(out, vec![255, 255, 255, 255, 128, 128]);

    // Pure black.
    let black = vec![0x00u8; 2 * 4 * 2];
    let out_black = convert_bgra_to_nv12(&black, 2, 2, 8);
    assert_eq!(out_black, vec![0, 0, 0, 0, 128, 128]);

    // Pure red (BGRA order): Y = 299*255/1000 = 76,
    // U = -169*255/1000 + 128 = 85, V = 500*255/1000 + 128 = 255.
    let mut red = Vec::new();
    for _ in 0..4 {
        red.extend([0x00u8, 0x00, 0xFF, 0xFF]);
    }
    let out_red = convert_bgra_to_nv12(&red, 2, 2, 8);
    assert_eq!(out_red, vec![76, 76, 76, 76, 85, 255]);
}

#[test]
fn soft_clip_bounds_and_identity() {
    let unit = SAMPLE_UNIT as i64;
    assert_eq!(soft_clip(0), 0);
    assert_eq!(soft_clip(1234), 1234);
    assert_eq!(soft_clip(unit), unit);
    assert_eq!(soft_clip(-unit), -unit);
    // Beyond full scale the curve saturates between half and full scale.
    for x in [unit + 1, unit * 2, unit * 16, unit * 1000] {
        let y = soft_clip(x);
        assert!(y > unit / 2 - 1 && y <= unit);
        let z = soft_clip(-x);
        assert!(z < -unit / 2 + 1 && z >= -unit);
    }
    // Nondecreasing within the saturating region.
    assert!(soft_clip(unit * 2) <= soft_clip(unit * 3));
    assert!(soft_clip(-unit * 3) <= soft_clip(-unit * 2));
}

#[test]
fn mixer_sums_gains_and_clips() {
    let mic = vec![SAMPLE_UNIT / 2; 960];
    let system = vec![SAMPLE_UNIT; 960];
    let out = mix_tick(Some(&mic), Some(&system), 1000, 1000, false, false);
    assert_eq!(out.len(), 960);
    // 1.5 in fixed point soft-clips below full scale but above half scale.
    assert!(out[0] > SAMPLE_UNIT / 2 && out[0] <= SAMPLE_UNIT);

    // Half gain on the system input alone.
    let quiet = mix_tick(None, Some(&system), 1000, 500, false, false);
    assert_eq!(quiet[0], SAMPLE_UNIT / 2);
}

#[test]
fn mixer_mute_and_zero_volume_silence_an_input() {
    let mic = vec![SAMPLE_UNIT / 4; 960];
    let system = vec![SAMPLE_UNIT / 8; 960];
    let muted = mix_tick(Some(&mic), Some(&system), 1000, 1000, true, false);
    let zeroed = mix_tick(Some(&mic), Some(&system), 0, 1000, false, false);
    let system_only = mix_tick(None, Some(&system), 0, 1000, false, false);
    assert_eq!(muted, system_only);
    assert_eq!(zeroed, system_only);
    assert_eq!(system_only[0], SAMPLE_UNIT / 8);
}

#[test]
fn mixer_settings_apply_to_chunks() {
    let mut mixer = AudioMixer::new();
    mixer.set_mic_volume(0);
    mixer.set_system_volume(2500); // clamps to full scale
    let mic = vec![SAMPLE_UNIT; 960];
    let system = vec![SAMPLE_UNIT / 4; 960];
    let chunk = mixer.mix_chunk(Some(&mic), Some(&system), 7);
    assert_eq!(chunk.sequence, 7);
    assert_eq!(chunk.pts_100ns, 700_000);
    assert_eq!(chunk.data[0], SAMPLE_UNIT / 4);
}

#[test]
fn mixer_tick_cadence_is_exact() {
    assert_eq!(mixer_tick_pts(0), 0);
    assert_eq!(mixer_tick_pts(1), 100_000); // 10 ms in 100 ns units
    assert_eq!(mixer_tick_pts(300), 30_000_000); // 3 s
}

#[test]
fn sample_conversion_clamps() {
    let converted = samples_to_i16(&[0, 100, -100, 40_000, -40_000]);
    assert_eq!(converted, vec![0, 100, -100, 32767, -32768]);
}

#[test]
fn video_encoder_selection_reports_no_hardware() {
    assert!(!NvencEncoder::check_nvenc_available());
    assert!(!NvencEncoder::is_compiled_with_nvenc());
    match NvencEncoder::new(VideoEncoderConfig::default()) {
        Err(EncoderError::NvencNotAvailable(_)) => {}
        _ => panic!("expected the hardware probe to fail"),
    }
    assert!(create_video_encoder(VideoEncoderConfig::default()).is_err());
}

#[test]
fn aac_encoder_buffers_to_frame_boundaries() {
    let mut encoder = match AacEncoder::new(AudioEncoderConfig::default()) {
        Ok(e) => e,
        Err(e) => panic!("AAC encoder init failed: {:?}", e),
    };
    // Less than one frame (2048 samples for stereo): nothing comes out.
    let short = vec![0i16; 960];
    assert!(encoder.encode(&short, 0).unwrap().is_none());
    // Topping it up past one frame yields at most one access unit, stamped
    // with the caller's timestamp.
    let rest = vec![0i16; 2048];
    match encoder.encode(&rest, 200_000).unwrap() {
        Some(packet) => {
            assert_eq!(packet.pts_100ns, 200_000);
            assert!(!packet.data.is_empty());
        }
        None => {} // the coder may prime its pipeline first
    }
    // Flush drains whatever remains and empties the buffer.
    let flushed = encoder.flush().unwrap();
    assert!(flushed.len() <= 1);
    let again = encoder.flush().unwrap();
    assert!(again.is_empty());
}

#[test]
fn sequence_header_packet_is_first_packet_shape() {
    let headers = [
        0x00, 0x00, 0x00, 0x01, 0x67, 0x42, 0x00, 0x1E, // SPS
        0x00, 0x00, 0x00, 0x01, 0x68, 0xCE, 0x3C, 0x80, // PPS
    ];
    let packet = sequence_header_packet(&headers).unwrap();
    assert_eq!(packet.timestamp_ms, 0);
    assert!(packet.is_video);
    assert!(packet.is_keyframe);
    assert!(packet.is_sequence_header);
    assert_eq!(packet.data[0], 0x17);
    assert_eq!(packet.data[1], 0x00);
    // The record follows the five tag bytes.
    assert_eq!(packet.data[5], 0x01);

    // Headers without parameter sets yield no sequence header.
    assert!(sequence_header_packet(&[0x00, 0x00, 0x00, 0x01, 0x65, 0x01]).is_none());
}

#[test]
fn video_data_packet_strips_parameter_sets() {
    let annexb = [
        0x00, 0x00, 0x00, 0x01, 0x67, 0x42, 0x00, 0x1E, // SPS (stripped)
        0x00, 0x00, 0x00, 0x01, 0x65, 0x88, 0x84, // IDR
    ];
    let packet = video_data_packet(&annexb, true, 42).unwrap();
    assert_eq!(packet.timestamp_ms, 42);
    assert!(packet.is_video && packet.is_keyframe && !packet.is_sequence_header);
    let mut expected = vec![0x17, 0x01, 0x00, 0x00, 0x00];
    expected.extend([0x00, 0x00, 0x00, 0x03, 0x65, 0x88, 0x84]);
    assert_eq!(packet.data, expected);

    // Only parameter sets: nothing to send.
    assert!(video_data_packet(&annexb[0..8], false, 0).is_none());
}

#[test]
fn audio_packets_wrap_aac_payloads() {
    let data = audio_data_packet(&[0x21, 0x10], 33);
    assert_eq!(data.timestamp_ms, 33);
    assert!(!data.is_video && !data.is_sequence_header);
    assert_eq!(data.data, vec![0xAF, 0x01, 0x21, 0x10]);

    let header = audio_sequence_header_packet(48000, 2).unwrap();
    assert_eq!(header.timestamp_ms, 0);
    assert!(header.is_sequence_header);
    assert_eq!(header.data, vec![0xAF, 0x00, 0x11, 0x90]);
}

#[test]
fn tick_actions_cover_duplication_and_stop() {
    assert_eq!(tick_action(&FramePoll::Fresh, false), TickAction::EncodeFresh);
    assert_eq!(tick_action(&FramePoll::Empty, true), TickAction::DuplicateLast);
    assert_eq!(tick_action(&FramePoll::Empty, false), TickAction::Skip);
    assert_eq!(tick_action(&FramePoll::Disconnected, true), TickAction::Stop);
}

#[test]
fn decimal_formatting_and_parsing() {
    assert_eq!(u64_to_string(0), "0");
    assert_eq!(u64_to_string(12345), "12345");
    assert_eq!(i64_to_string(-5), "-5");
    assert_eq!(i64_to_string(i64::MIN), "-9223372036854775808");
    assert_eq!(parse_i64("42"), Some(42));
    assert_eq!(parse_i64("-42"), Some(-42));
    assert_eq!(parse_i64("+7"), Some(7));
    assert_eq!(parse_i64(""), None);
    assert_eq!(parse_i64("4x2"), None);
    assert_eq!(parse_i64("9223372036854775807"), Some(i64::MAX));
    assert_eq!(parse_i64("9223372036854775808"), None);
    assert_eq!(parse_i64("-9223372036854775808"), Some(i64::MIN));
}

#[test]
fn stream_assembler_latches_headers() {
    let mut assembler = StreamAssembler::new();
    assert!(assembler.needs_video_header());
    assert!(assembler.needs_audio_header());
    assembler.mark_video_header_sent();
    assert!(!assembler.needs_video_header());
    assert!(assembler.needs_audio_header());
    assembler.mark_audio_header_sent();
    assert!(!assembler.needs_audio_header());
    // A reconnection starts over with fresh latches.
    let fresh = StreamAssembler::new();
    assert!(fresh.needs_video_header());
}

#[test]
fn encoder_timebase_conversions() {
    // One second in 100 ns units is one second of ticks.
    assert_eq!(pts_to_encoder_ticks(10_000_000, 60), 60);
    assert_eq!(encoder_ticks_to_pts(60, 60), 10_000_000);
    // A fraction of a tick truncates.
    assert_eq!(pts_to_encoder_ticks(166_666, 60), 0);
    assert_eq!(pts_to_encoder_ticks(166_667, 60), 1);
    assert_eq!(encoder_ticks_to_pts(1, 60), 166_666);
}
