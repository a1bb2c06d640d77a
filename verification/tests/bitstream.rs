//! Tests for the H.264 bitstream adapters and RTMP framing.

use broadcaster::nal::{
    build_audio_specific_config, build_avc_decoder_config, build_flv_audio_tag,
    build_flv_video_tag, extract_sps_pps, filter_parameter_sets, nals_to_avcc, parse_annex_b,
    NalUnit, NalUnitType,
};

#[test]
fn test_parse_annex_b_3byte_start_code() {
    // NAL with 3-byte start code
    let data = [0x00, 0x00, 0x01, 0x67, 0x42, 0x00, 0x1E]; // SPS
    let nals = parse_annex_b(&data);
    assert_eq!(nals.len(), 1);
    assert_eq!(nals[0].nal_type, NalUnitType::Sps);
    assert_eq!(nals[0].data, vec![0x67, 0x42, 0x00, 0x1E]);
}

#[test]
fn test_parse_annex_b_4byte_start_code() {
    // NAL with 4-byte start code
    let data = [0x00, 0x00, 0x00, 0x01, 0x68, 0xCE, 0x3C, 0x80]; // PPS
    let nals = parse_annex_b(&data);
    assert_eq!(nals.len(), 1);
    assert_eq!(nals[0].nal_type, NalUnitType::Pps);
}

#[test]
fn test_parse_annex_b_multiple_nals() {
    // SPS followed by PPS
    let data = [
        0x00, 0x00, 0x00, 0x01, 0x67, 0x42, 0x00, 0x1E, // SPS
        0x00, 0x00, 0x00, 0x01, 0x68, 0xCE, 0x3C, 0x80, // PPS
    ];
    let nals = parse_annex_b(&data);
    assert_eq!(nals.len(), 2);
    assert_eq!(nals[0].nal_type, NalUnitType::Sps);
    assert_eq!(nals[1].nal_type, NalUnitType::Pps);
}

#[test]
fn test_nals_to_avcc() {
    let nals = vec![NalUnit {
        nal_type: NalUnitType::IdrSlice,
        data: vec![0x65, 0x88, 0x84],
    }];
    let avcc = nals_to_avcc(&nals);
    // 4-byte length (3) + 3 bytes data
    assert_eq!(avcc, vec![0x00, 0x00, 0x00, 0x03, 0x65, 0x88, 0x84]);
}

#[test]
fn test_build_avc_decoder_config() {
    let sps = [0x67, 0x42, 0x00, 0x1E, 0xAB, 0xCD]; // Fake SPS
    let pps = [0x68, 0xCE, 0x3C, 0x80]; // Fake PPS

    let config = build_avc_decoder_config(&sps, &pps).unwrap();

    // Check header
    assert_eq!(config[0], 0x01); // configurationVersion
    assert_eq!(config[1], 0x42); // profile_idc (from SPS[1])
    assert_eq!(config[2], 0x00); // constraint flags (from SPS[2])
    assert_eq!(config[3], 0x1E); // level_idc (from SPS[3])
    assert_eq!(config[4], 0xFF); // lengthSizeMinusOne
    assert_eq!(config[5], 0xE1); // numOfSequenceParameterSets
}

#[test]
fn test_build_flv_video_tag_keyframe() {
    let data = [0x65, 0x88, 0x84];
    let tag = build_flv_video_tag(&data, true, false, 0);

    assert_eq!(tag[0], 0x17); // keyframe (0x10) + AVC (0x07)
    assert_eq!(tag[1], 0x01); // AVC NALU
    assert_eq!(tag[2], 0x00); // composition time
    assert_eq!(tag[3], 0x00);
    assert_eq!(tag[4], 0x00);
    assert_eq!(&tag[5..], &data);
}

#[test]
fn test_build_flv_video_tag_sequence_header() {
    let data = [0x01, 0x42, 0x00, 0x1E];
    let tag = build_flv_video_tag(&data, true, true, 0);

    assert_eq!(tag[0], 0x17); // keyframe (0x10) + AVC (0x07)
    assert_eq!(tag[1], 0x00); // AVC sequence header
}

#[test]
fn test_filter_parameter_sets() {
    let nals = vec![
        NalUnit {
            nal_type: NalUnitType::Sps,
            data: vec![0x67],
        },
        NalUnit {
            nal_type: NalUnitType::Pps,
            data: vec![0x68],
        },
        NalUnit {
            nal_type: NalUnitType::IdrSlice,
            data: vec![0x65],
        },
    ];

    let filtered = filter_parameter_sets(nals);
    assert_eq!(filtered.len(), 1);
    assert_eq!(filtered[0].nal_type, NalUnitType::IdrSlice);
}

#[test]
fn annex_b_round_trip_recovers_payloads() {
    // Two payloads framed with 4-byte start codes parse back to themselves,
    // and AVCC packing then length-prefixes each one.
    let first = vec![0x65, 0x88, 0x84, 0x00];
    let second = vec![0x41, 0x9A, 0x02];
    let mut annex_b: Vec<u8> = Vec::new();
    annex_b.extend(vec![0x00, 0x00, 0x00, 0x01]);
    annex_b.extend(first.clone());
    annex_b.extend(vec![0x00, 0x00, 0x00, 0x01]);
    annex_b.extend(second.clone());

    let nals = parse_annex_b(&annex_b);
    assert_eq!(nals.len(), 2);
    assert_eq!(nals[0].data, first);
    assert_eq!(nals[1].data, second);

    let avcc = nals_to_avcc(&nals);
    let mut expected: Vec<u8> = Vec::new();
    expected.extend(vec![0x00, 0x00, 0x00, 0x04]);
    expected.extend(first);
    expected.extend(vec![0x00, 0x00, 0x00, 0x03]);
    expected.extend(second);
    assert_eq!(avcc, expected);
}

#[test]
fn avc_decoder_config_full_layout() {
    let sps = vec![0x67, 0x64, 0x00, 0x28, 0xAC];
    let pps = vec![0x68, 0xEE, 0x38, 0x80];
    let config = build_avc_decoder_config(&sps, &pps).unwrap();
    assert_eq!(config.len(), 11 + sps.len() + pps.len());
    assert_eq!(&config[0..6], &[0x01, 0x64, 0x00, 0x28, 0xFF, 0xE1]);
    assert_eq!(&config[6..8], &[0x00, 0x05]); // SPS length
    assert_eq!(&config[8..13], &sps[..]);
    assert_eq!(config[13], 0x01); // numOfPictureParameterSets
    assert_eq!(&config[14..16], &[0x00, 0x04]); // PPS length
    assert_eq!(&config[16..], &pps[..]);
}

#[test]
fn avc_decoder_config_rejects_short_sps() {
    assert!(build_avc_decoder_config(&[0x67, 0x42, 0x00], &[0x68]).is_none());
}

#[test]
fn extract_sps_pps_takes_last_of_each() {
    let data = [
        0x00, 0x00, 0x00, 0x01, 0x67, 0x42, 0x00, 0x1E, // SPS
        0x00, 0x00, 0x00, 0x01, 0x68, 0xCE, 0x3C, 0x80, // PPS
        0x00, 0x00, 0x00, 0x01, 0x65, 0x88, // IDR
    ];
    let (sps, pps) = extract_sps_pps(&data).unwrap();
    assert_eq!(sps, vec![0x67, 0x42, 0x00, 0x1E]);
    assert_eq!(pps, vec![0x68, 0xCE, 0x3C, 0x80]);
    // Headers without a PPS yield nothing.
    assert!(extract_sps_pps(&data[0..8]).is_none());
}

#[test]
fn flv_video_tag_nonzero_composition_time() {
    let tag = build_flv_video_tag(&[0xAA], false, false, 0x010203);
    assert_eq!(tag[0], 0x27); // inter frame (0x20) + AVC (0x07)
    assert_eq!(tag[1], 0x01);
    assert_eq!(&tag[2..5], &[0x01, 0x02, 0x03]);

    // A negative offset is carried in 24-bit two's complement.
    let neg = build_flv_video_tag(&[0xAA], true, false, -1);
    assert_eq!(&neg[2..5], &[0xFF, 0xFF, 0xFF]);
}

#[test]
fn flv_audio_tag_bytes() {
    let data_tag = build_flv_audio_tag(&[0x21, 0x22], false);
    assert_eq!(data_tag, vec![0xAF, 0x01, 0x21, 0x22]);
    let header_tag = build_flv_audio_tag(&[0x11, 0x90], true);
    assert_eq!(header_tag, vec![0xAF, 0x00, 0x11, 0x90]);
}

#[test]
fn audio_specific_config_for_aac_lc_48k_stereo() {
    let config = build_audio_specific_config(48000, 2).unwrap();
    assert_eq!(config, vec![0x11, 0x90]);
    assert!(build_audio_specific_config(12345, 2).is_none());
}

#[test]
fn parse_annex_b_ignores_garbage_before_first_start_code() {
    let data = [0xDE, 0xAD, 0x00, 0x00, 0x01, 0x65, 0x01];
    let nals = parse_annex_b(&data);
    assert_eq!(nals.len(), 1);
    assert_eq!(nals[0].nal_type, NalUnitType::IdrSlice);
    assert_eq!(nals[0].data, vec![0x65, 0x01]);
}
