use agent::video::capture::crop_even;
use agent::video::config::describe_stream;
use agent::video::encoder::bitrate_for;
use agent::video::{
    annexb_nals, nal_type, to_avcc, StreamPacket, STREAM_FLAG_KEYFRAME, STREAM_KIND_VIDEO,
};

#[test]
fn splits_nals_without_copying_the_next_start_code() {
    let stream = [
        0, 0, 0, 1, 0x67, 0xaa, // four-byte Annex-B marker + SPS
        0, 0, 1, 0x68, 0xbb, // three-byte Annex-B marker + PPS
        0, 0, 0, 1, 0x65, 0xcc, // four-byte Annex-B marker + IDR
    ];

    assert_eq!(annexb_nals(&stream), vec![&[0x67, 0xaa][..], &[0x68, 0xbb], &[0x65, 0xcc]]);
}

#[test]
fn ignores_what_stands_before_the_first_start_code() {
    let stream = [9, 9, 0, 0, 1, 0x41, 0x9a];
    assert_eq!(annexb_nals(&stream), vec![&[0x41, 0x9a][..]]);
}

#[test]
fn strips_trailing_zero_bytes_and_empty_units() {
    let stream = [0, 0, 0, 1, 0x65, 0x88, 0, 0, 0, 0, 1, 0, 0, 1, 0x41, 0, 0];
    assert_eq!(annexb_nals(&stream), vec![&[0x65, 0x88][..], &[0x41]]);
    let none: Vec<&[u8]> = Vec::new();
    assert_eq!(annexb_nals(&[]), none);
    assert_eq!(annexb_nals(&[0, 0, 0]), none);
    assert_eq!(annexb_nals(&[1, 2, 3, 4, 5]), none);
}

#[test]
fn start_code_at_the_end_is_stripped_too() {
    let none: Vec<&[u8]> = Vec::new();
    assert_eq!(annexb_nals(&[0, 0, 0, 1, 0x67, 0xaa, 0, 0, 1]), vec![&[0x67u8, 0xaa][..]]);
    assert_eq!(annexb_nals(&[0, 0, 0, 1, 0x67, 0xaa, 0, 0, 0, 1]), vec![&[0x67u8, 0xaa][..]]);
    assert_eq!(annexb_nals(&[0, 0, 1]), none);
    assert_eq!(annexb_nals(&[0, 0, 0, 1]), none);
    assert_eq!(annexb_nals(&[0, 0, 1, 0, 0, 1]), none);
    assert_eq!(annexb_nals(&[0, 0, 1, 7]), vec![&[7u8][..]]);
}

#[test]
fn splitting_a_stream_of_units_gives_back_the_units() {
    let units: [&[u8]; 4] = [&[0x67, 1, 2], &[0x68, 0, 0, 3], &[0x65], &[0x41, 0, 1, 0, 9]];
    let mut stream = Vec::new();
    for unit in units {
        stream.extend_from_slice(&[0, 0, 0, 1]);
        stream.extend_from_slice(unit);
    }
    assert_eq!(annexb_nals(&stream), units.to_vec());
}

#[test]
fn nal_type_is_the_low_five_bits() {
    assert_eq!(nal_type(&[0x67, 1]), 7);
    assert_eq!(nal_type(&[0x68]), 8);
    assert_eq!(nal_type(&[0x65]), 5);
    assert_eq!(nal_type(&[0xe1]), 1);
}

#[test]
fn avcc_puts_a_length_before_every_unit() {
    let mut out = vec![7];
    to_avcc(&[&[1, 2, 3], &[4]], &mut out);
    assert_eq!(out, vec![7, 0, 0, 0, 3, 1, 2, 3, 0, 0, 0, 1, 4]);
}

#[test]
fn packets_go_over_the_wire_and_back() {
    let packet = StreamPacket {
        kind: STREAM_KIND_VIDEO,
        keyframe: true,
        timestamp_ms: 0x0102_0304,
        payload: vec![9, 8],
    };
    let bytes = packet.into_binary();
    assert_eq!(bytes, vec![2, STREAM_FLAG_KEYFRAME, 1, 2, 3, 4, 9, 8]);
    let read = StreamPacket::from_binary(&bytes).unwrap();
    assert_eq!(read.kind, STREAM_KIND_VIDEO);
    assert!(read.keyframe);
    assert_eq!(read.timestamp_ms, 0x0102_0304);
    assert_eq!(read.payload, vec![9, 8]);
    assert_eq!(read.into_binary(), bytes);
}

#[test]
fn malformed_packets_are_refused() {
    assert!(StreamPacket::from_binary(&[1, 0, 0, 0, 0]).is_none());
    assert!(StreamPacket::from_binary(&[1, 2, 0, 0, 0, 0]).is_none());
    assert!(StreamPacket::from_binary(&[1, 0, 0, 0, 0, 0]).unwrap().payload.is_empty());
}

#[test]
fn describes_a_stream() {
    let mut config = describe_stream(&[0x67, 0x42, 0xc0, 0x1f], &[0x68, 0xce]);
    assert_eq!((config.width, config.height), (0, 0));
    assert_eq!(config.codec, "avc1.42c01f");
    assert_eq!(config.description_len, 17);
    assert_eq!(config.description_b64, "AULAH//hAARnQsAfAQACaM4=");
    config.width = 1280;
    config.height = 720;
    assert_eq!(
        config.to_json(),
        "{\"codec\":\"avc1.42c01f\",\"description\":\"AULAH//hAARnQsAfAQACaM4=\",\"fps\":10,\"h\":720,\"w\":1280}"
    );
}

#[test]
fn crops_odd_dimensions() {
    let raw: Vec<u8> = (0..3 * 3 * 4).collect();
    let (width, height, pixels) = crop_even(3, 3, raw);
    assert_eq!((width, height), (2, 2));
    assert_eq!(pixels, vec![0, 1, 2, 3, 4, 5, 6, 7, 12, 13, 14, 15, 16, 17, 18, 19]);

    let even: Vec<u8> = (0..2 * 2 * 4).collect();
    assert_eq!(crop_even(2, 2, even.clone()), (2, 2, even));
    assert_eq!(crop_even(1, 5, vec![7; 20]), (0, 4, vec![]));
}

fn float_bitrate(area: usize) -> u32 {
    let reference_area = (1280 * 720) as f64;
    let scaled = 2_500_000.0 * (area as f64 / reference_area);
    scaled.clamp(1_000_000.0, 8_000_000.0) as u32
}

#[test]
fn bitrate_is_that_of_double_precision_arithmetic() {
    for area in 0..3_200_000 {
        assert_eq!(bitrate_for(area, 1), float_bitrate(area));
    }
    assert_eq!(bitrate_for(usize::MAX, 1), float_bitrate(usize::MAX));
}

#[test]
fn bitrate_of_common_screens() {
    assert_eq!(bitrate_for(1280, 720), 2_500_000);
    assert_eq!(bitrate_for(1920, 1080), 5_625_000);
    assert_eq!(bitrate_for(800, 600), 1_302_083);
    assert_eq!(bitrate_for(640, 480), 1_000_000);
    assert_eq!(bitrate_for(3840, 2160), 8_000_000);
}

#[test]
fn start_codes_of_both_lengths_and_padding() {
    let units: [&[u8]; 4] = [&[0x67, 1, 2], &[0x68, 0, 0, 3], &[0x65], &[0x41, 0, 1, 0, 9]];
    let mut stream = Vec::new();
    for (unit, zeros) in units.iter().zip([2, 3, 7, 2]) {
        stream.extend(vec![0u8; zeros]);
        stream.push(1);
        stream.extend_from_slice(unit);
    }
    stream.extend([0, 0, 0, 0, 0]);
    assert_eq!(annexb_nals(&stream), units.to_vec());
}

#[test]
fn bitrate_does_not_fall_as_the_area_grows() {
    let mut last = 0;
    for area in 360_000..2_960_000usize {
        let bps = bitrate_for(area, 1);
        assert!(last <= bps);
        last = bps;
    }
    assert_eq!(last, 8_000_000);
}

#[test]
fn padding_around_a_stream_changes_nothing() {
    let streams: [&[u8]; 6] = [
        &[],
        &[0, 0, 0, 1, 0x67, 0xaa, 0, 0, 1, 0x65],
        &[0, 0, 1, 0x41, 0, 0],
        &[0, 0, 1, 0x41, 0, 0, 1],
        &[0, 0, 0, 1],
        &[7, 8, 9],
    ];
    for stream in streams {
        let units = annexb_nals(stream);
        let mut padded = stream.to_vec();
        padded.extend_from_slice(&[0, 0, 0, 0, 0]);
        assert_eq!(annexb_nals(&padded), units);
        for junk in [&[5u8][..], &[0, 0, 2], &[1, 0, 1]] {
            let mut late = junk.to_vec();
            late.extend_from_slice(stream);
            assert_eq!(annexb_nals(&late), units);
        }
    }
}
