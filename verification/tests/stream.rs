use openh264::formats::YUVSource;

use agent::video::encoder::{
    configure, create_encoder, settings_at, with_buffer, Colors, Complexity, EncodedFrame,
    EncoderError, FrameType, Profile, RateControl, Settings, Usage,
};
use agent::video::stream::{rest_of_interval, ScreenStream, StreamState, StreamStep};
use agent::video::{annexb_nals, nal_type, StreamPacket, STREAM_KIND_CONFIG, STREAM_KIND_VIDEO};

fn annexb(units: &[&[u8]]) -> Vec<u8> {
    let mut stream = Vec::new();
    for unit in units {
        stream.extend_from_slice(&[0, 0, 0, 1]);
        stream.extend_from_slice(unit);
    }
    stream
}

const SPS: &[u8] = &[0x67, 0x42, 0xc0, 0x1f];
const PPS: &[u8] = &[0x68, 0xce];
const IDR: &[u8] = &[0x65, 0x88, 0x84];
const DELTA: &[u8] = &[0x41, 0x9a];

fn key_frame() -> EncodedFrame {
    EncodedFrame { frame_type: FrameType::IDR, annexb: annexb(&[SPS, PPS, IDR]) }
}

fn delta_frame() -> EncodedFrame {
    EncodedFrame { frame_type: FrameType::P, annexb: annexb(&[DELTA]) }
}

fn packets(steps: Vec<StreamStep>) -> Vec<StreamPacket> {
    let mut found = Vec::new();
    for step in steps {
        if let StreamStep::Send { packet } = step {
            found.push(packet);
        }
    }
    found
}

#[test]
fn first_keyframe_is_preceded_by_its_config() {
    let mut state = StreamState::new();
    let steps = state.on_encoded(64, 48, &key_frame());
    assert_eq!(steps.len(), 4);
    assert!(matches!(&steps[1], StreamStep::ConfigSent { width: 64, height: 48, codec, description_len: 17 } if codec == "avc1.42c01f"));
    assert!(matches!(steps[3], StreamStep::Pace));
    let sent = packets(steps);
    assert_eq!(sent[0].kind, STREAM_KIND_CONFIG);
    assert!(!sent[0].keyframe);
    assert_eq!(sent[0].timestamp_ms, 0);
    assert_eq!(
        String::from_utf8(sent[0].payload.clone()).unwrap(),
        "{\"codec\":\"avc1.42c01f\",\"description\":\"AULAH//hAARnQsAfAQACaM4=\",\"fps\":10,\"h\":48,\"w\":64}"
    );
    assert_eq!(sent[1].kind, STREAM_KIND_VIDEO);
    assert!(sent[1].keyframe);
    assert_eq!(sent[1].timestamp_ms, 0);
    assert_eq!(sent[1].payload, vec![0, 0, 0, 3, 0x65, 0x88, 0x84]);
    assert_eq!(state.last_config_frame, 1);
}

#[test]
fn frames_are_stamped_a_tenth_of_a_second_apart() {
    let mut state = StreamState::new();
    for n in 0..25u32 {
        let sent = packets(state.on_encoded(64, 48, &delta_frame()));
        assert_eq!(sent.len(), 1);
        assert_eq!(sent[0].timestamp_ms, n * 100);
        assert!(!sent[0].keyframe);
        assert_eq!(sent[0].payload, vec![0, 0, 0, 2, 0x41, 0x9a]);
    }
    let mut late = StreamState { stored: None, last_config_frame: 0, frame_index: 50_000_000 };
    let sent = packets(late.on_encoded(64, 48, &delta_frame()));
    assert_eq!(sent[0].timestamp_ms, (5_000_000_000u64 % 0x1_0000_0000) as u32);
}

#[test]
fn config_is_repeated_a_second_later() {
    let mut state = StreamState::new();
    let first = packets(state.on_encoded(64, 48, &key_frame()));
    for _ in 0..8 {
        state.on_encoded(64, 48, &delta_frame());
    }
    // The tenth frame is nine frames behind the config: too early.
    let early = packets(state.on_encoded(64, 48, &key_frame()));
    assert_eq!(early.len(), 1);
    let steps = state.on_encoded(64, 48, &key_frame());
    assert!(matches!(steps[1], StreamStep::ConfigResent));
    let again = packets(steps);
    assert_eq!(again.len(), 2);
    assert_eq!(again[0].payload, first[0].payload);
    assert_eq!(state.last_config_frame, 11);
}

#[test]
fn new_resolution_gets_a_new_config() {
    let mut state = StreamState::new();
    state.on_encoded(64, 48, &key_frame());
    let sent = packets(state.on_encoded(128, 96, &key_frame()));
    assert_eq!(sent.len(), 2);
    assert!(String::from_utf8(sent[0].payload.clone()).unwrap().contains("\"w\":128"));
}

#[test]
fn keyframe_needs_both_signals() {
    let mut state = StreamState::new();
    let claimed = EncodedFrame { frame_type: FrameType::I, annexb: annexb(&[DELTA]) };
    let steps = state.on_encoded(64, 48, &claimed);
    assert!(matches!(
        steps[0],
        StreamStep::Disagreement { frame_type: FrameType::I, contains_idr: false, keyframe: false }
    ));
    assert!(!packets(steps)[0].keyframe);

    let unclaimed = EncodedFrame { frame_type: FrameType::P, annexb: annexb(&[SPS, PPS, IDR]) };
    let steps = state.on_encoded(64, 48, &unclaimed);
    assert!(matches!(
        steps[0],
        StreamStep::Disagreement { contains_idr: true, keyframe: false, .. }
    ));
    let sent = packets(steps);
    assert_eq!(sent.len(), 1);
    assert!(!sent[0].keyframe);
}

#[test]
fn parameter_sets_alone_are_not_sent() {
    let mut state = StreamState::new();
    let sets = EncodedFrame { frame_type: FrameType::P, annexb: annexb(&[SPS, PPS]) };
    assert!(state.on_encoded(64, 48, &sets).is_empty());
    let nothing = EncodedFrame { frame_type: FrameType::Skip, annexb: vec![] };
    assert!(state.on_encoded(64, 48, &nothing).is_empty());
    assert_eq!(state.frame_index, 2);
}

#[test]
fn every_twentieth_frame_is_reported() {
    let mut state = StreamState::new();
    for n in 1..=40 {
        let steps = state.on_encoded(64, 48, &delta_frame());
        let reported = steps.iter().any(|step| matches!(step, StreamStep::FrameSent { .. }));
        assert_eq!(reported, n % 20 == 0);
    }
}

#[test]
fn short_parameter_set_is_not_accepted() {
    let state = StreamState::new();
    let short = EncodedFrame { frame_type: FrameType::IDR, annexb: annexb(&[&[0x67, 1], PPS, IDR]) };
    assert!(!state.accepts(64, 48, &short));
    assert!(state.accepts(64, 48, &key_frame()));
    assert!(state.accepts(64, 48, &delta_frame()));
}

fn picture(width: usize, height: usize, shift: usize) -> Vec<u8> {
    let mut rgba = Vec::new();
    for y in 0..height {
        for x in 0..width {
            rgba.push((x + shift) as u8);
            rgba.push((y * 3) as u8);
            rgba.push((x * y) as u8);
            rgba.push(255);
        }
    }
    rgba
}

#[test]
fn real_encoder_streams_a_config_and_a_keyframe() {
    let mut stream = ScreenStream::new();
    let steps = stream.push_frame(64, 48, &picture(64, 48, 0)).unwrap();
    assert!(matches!(steps[0], StreamStep::EncoderReady { width: 64, height: 48 }));
    let sent = packets(steps);
    assert_eq!(sent.len(), 2);
    assert_eq!(sent[0].kind, STREAM_KIND_CONFIG);
    let config = String::from_utf8(sent[0].payload.clone()).unwrap();
    assert!(config.starts_with("{\"codec\":\"avc1.42"));
    assert!(config.ends_with("\"fps\":10,\"h\":48,\"w\":64}"));
    assert_eq!(sent[1].kind, STREAM_KIND_VIDEO);
    assert!(sent[1].keyframe);
    // The payload is one length-prefixed IDR unit, or more than one slice.
    let payload = &sent[1].payload;
    assert_eq!(payload[4] & 0x1f, 5);

    let second = packets(stream.push_frame(64, 48, &picture(64, 48, 5)).unwrap());
    assert_eq!(second.len(), 1);
    assert_eq!(second[0].timestamp_ms, 100);

    let steps = stream.push_frame(32, 32, &picture(32, 32, 0)).unwrap();
    assert!(matches!(steps[0], StreamStep::EncoderReady { width: 32, height: 32 }));
    assert_eq!(packets(steps).len(), 2);
}

#[test]
fn real_encoder_sees_the_picture() {
    let mut grey = create_encoder(64, 48).unwrap_or_else(|error| panic!("{}", error.reason));
    let mut busy = create_encoder(64, 48).unwrap_or_else(|error| panic!("{}", error.reason));
    assert_eq!((grey.width, grey.height), (64, 48));
    let plain = grey.encode(&vec![128; 64 * 48 * 4], 0).unwrap_or_else(|e| panic!("{}", e.reason));
    let rich = busy.encode(&picture(64, 48, 0), 0).unwrap_or_else(|e| panic!("{}", e.reason));
    assert!(matches!(plain.frame_type, FrameType::IDR));
    assert!(rich.annexb.len() > plain.annexb.len());
    let kinds: Vec<u8> = annexb_nals(&plain.annexb).iter().map(|nal| nal_type(nal)).collect();
    assert_eq!(kinds[..3], [7, 8, 5]);
    let next = grey.encode(&vec![128; 64 * 48 * 4], 100).unwrap_or_else(|e| panic!("{}", e.reason));
    assert!(!matches!(next.frame_type, FrameType::IDR));
}

#[test]
fn frame_beyond_the_encoder_limit_is_reported() {
    let mut stream = ScreenStream::new();
    let steps = stream.push_frame(4098, 2, &vec![0; 4098 * 2 * 4]).unwrap();
    assert_eq!(steps.len(), 2);
    assert!(matches!(steps[0], StreamStep::EncoderReady { .. }));
    assert!(matches!(&steps[1], StreamStep::EncodeFailed { error } if error.reason.contains("max resolution")));
    assert_eq!(stream.state.frame_index, 0);
    // The encoder stays for the next frame of the same size.
    assert_eq!(stream.push_frame(4098, 2, &vec![0; 4098 * 2 * 4]).unwrap().len(), 1);
}

#[test]
fn failed_encoder_is_retried() {
    let mut stream = ScreenStream::new();
    let failed = with_buffer(64, 48, Err(openh264::Error::msg("no codec")));
    let steps = stream.on_created(64, 48, failed);
    let reason = "OpenH264 encountered an error. Native:0. Decoding State:0. User Message:Some(\"no codec\"). Backtraces enabled.";
    assert!(matches!(&steps[0], StreamStep::EncoderInitFailed { error } if error.reason == reason));
    assert!(matches!(steps[1], StreamStep::Retry));
    assert!(stream.active.is_none());
}

#[test]
fn pacing_sleeps_for_the_rest_of_the_interval() {
    assert_eq!(rest_of_interval(0), 100_000_000);
    assert_eq!(rest_of_interval(99_999_999), 1);
    assert_eq!(rest_of_interval(100_000_000), 0);
    assert_eq!(rest_of_interval(u128::MAX), 0);
}

#[test]
fn frames_are_converted_into_the_picture_buffer() {
    let mut active = create_encoder(16, 16).unwrap();
    assert!(active.yuv.y().iter().all(|&value| value == 0));
    let mut rgba = Vec::new();
    for row in 0..16 {
        for _ in 0..16 {
            rgba.extend(if row < 2 { [255, 255, 255, 255] } else { [255, 0, 0, 255] });
        }
    }
    active.encode(&rgba, 0).unwrap();
    // White, then red.
    assert_eq!(active.yuv.y()[0], 235);
    assert_eq!((active.yuv.u()[0], active.yuv.v()[0]), (128, 128));
    assert_eq!(active.yuv.y()[255], 81);
    assert_eq!((active.yuv.u()[63], active.yuv.v()[63]), (90, 239));
}

#[test]
fn answers_of_the_encoder_are_followed() {
    let mut stream = ScreenStream::new();
    let failed = stream
        .on_answer(64, 48, Err(EncoderError { reason: "full".to_string() }))
        .unwrap();
    assert_eq!(failed.len(), 1);
    assert!(matches!(&failed[0], StreamStep::EncodeFailed { error } if error.reason == "full"));
    assert_eq!(stream.state.frame_index, 0);

    // Parameter sets that cannot be described stop the stream where it is.
    let short = EncodedFrame { frame_type: FrameType::IDR, annexb: annexb(&[&[0x67, 1], PPS, IDR]) };
    assert!(stream.on_answer(64, 48, Ok(short)).is_none());
    assert_eq!(stream.state.frame_index, 0);

    let sent = packets(stream.on_answer(64, 48, Ok(key_frame())).unwrap());
    assert_eq!(sent.len(), 2);
    assert_eq!(stream.state.frame_index, 1);
    // With a config in effect there is nothing to describe.
    let short = EncodedFrame { frame_type: FrameType::IDR, annexb: annexb(&[&[0x67, 1], PPS, IDR]) };
    assert_eq!(packets(stream.on_answer(64, 48, Ok(short)).unwrap()).len(), 1);
}

#[test]
fn packets_of_a_whole_stream() {
    let mut stream = ScreenStream::new();
    let mut sent = Vec::new();
    let mut frames = 0u32;
    for n in 0..60u32 {
        // Every seventh frame cannot be encoded, every fourth is a keyframe.
        let encoded = if n % 7 == 3 {
            Err(EncoderError { reason: "busy".to_string() })
        } else {
            frames += 1;
            Ok(if n % 4 == 0 { key_frame() } else { delta_frame() })
        };
        sent.extend(packets(stream.on_answer(64, 48, encoded).unwrap()));
    }
    assert_eq!(stream.state.frame_index, frames as u64);
    let config = sent[0].payload.clone();
    let mut stamps = Vec::new();
    let mut frames_since = 0;
    for (i, packet) in sent.iter().enumerate() {
        if packet.kind == STREAM_KIND_CONFIG {
            assert!(!packet.keyframe && packet.timestamp_ms == 0);
            assert_eq!(packet.payload, config);
            assert!(sent[i + 1].kind == STREAM_KIND_VIDEO && sent[i + 1].keyframe);
            assert!(i == 0 || frames_since + 1 >= 10);
            frames_since = -1;
        } else {
            frames_since += 1;
            // A keyframe without a config ahead of it came too early for one.
            if packet.keyframe && sent[i - 1].kind == STREAM_KIND_VIDEO {
                assert!(frames_since < 10);
            }
            stamps.push(packet.timestamp_ms);
        }
    }
    let wanted: Vec<u32> = (0..frames).map(|n| n * 100).collect();
    assert_eq!(stamps, wanted);
}

#[test]
fn settings_reach_the_encoder_configuration() {
    same_configuration(
        settings_at(2_500_000),
        openh264::encoder::EncoderConfig::new()
            .bitrate(openh264::encoder::BitRate::from_bps(2_500_000))
            .max_frame_rate(openh264::encoder::FrameRate::from_hz(10.0))
            .usage_type(openh264::encoder::UsageType::ScreenContentRealTime)
            .rate_control_mode(openh264::encoder::RateControlMode::Bitrate)
            .profile(openh264::encoder::Profile::Baseline)
            .complexity(openh264::encoder::Complexity::Low)
            .adaptive_quantization(false)
            .background_detection(false)
            .intra_frame_period(openh264::encoder::IntraFramePeriod::from_num_frames(20))
            .vui(openh264::encoder::VuiConfig::bt709_full()),
    );
    let camera = Settings {
        bps: 1,
        fps: 2,
        intra_frames: 3,
        usage: Usage::Camera,
        rate_control: RateControl::Quality,
        profile: Profile::Main,
        complexity: Complexity::Medium,
        adaptive_quantization: true,
        background_detection: true,
        colors: Colors::Limited,
    };
    let direct = openh264::encoder::EncoderConfig::new()
        .bitrate(openh264::encoder::BitRate::from_bps(1))
        .max_frame_rate(openh264::encoder::FrameRate::from_hz(2.0))
        .profile(openh264::encoder::Profile::Main)
        .intra_frame_period(openh264::encoder::IntraFramePeriod::from_num_frames(3))
        .vui(openh264::encoder::VuiConfig::bt709());
    same_configuration(camera, direct);
    same_configuration(
        Settings {
            rate_control: RateControl::Off,
            profile: Profile::High,
            complexity: Complexity::High,
            ..camera
        },
        direct
            .rate_control_mode(openh264::encoder::RateControlMode::Off)
            .profile(openh264::encoder::Profile::High)
            .complexity(openh264::encoder::Complexity::High),
    );
}

fn same_configuration(settings: Settings, direct: openh264::encoder::EncoderConfig) {
    assert_eq!(format!("{:?}", configure(settings)), format!("{:?}", direct));
}

#[test]
fn intra_frames_come_every_two_seconds() {
    let mut active = create_encoder(64, 48).unwrap();
    let rgba = picture(64, 48, 0);
    for n in 0..41u32 {
        let frame = active.encode(&rgba, n * 100).unwrap();
        let idr = annexb_nals(&frame.annexb).iter().any(|nal| nal_type(nal) == 5);
        assert_eq!(idr, n % 20 == 0);
    }
}

#[test]
fn failed_capture_is_retried() {
    let stream = ScreenStream::new();
    let steps = stream.on_capture_failed("no permission".to_string());
    assert_eq!(steps.len(), 2);
    assert!(matches!(&steps[0], StreamStep::CaptureFailed { reason } if reason == "no permission"));
    assert!(matches!(steps[1], StreamStep::Retry));
    assert_eq!(stream.state.frame_index, 0);
}

#[test]
fn lost_packet_ends_the_stream() {
    let mut stream = ScreenStream::new();
    let steps = stream.on_answer(64, 48, Ok(key_frame())).unwrap();
    let mut sends = 0;
    for step in &steps {
        assert!(step.goes_on(true));
        let is_packet = matches!(step, StreamStep::Send { .. });
        assert_eq!(step.goes_on(false), !is_packet);
        sends += is_packet as usize;
    }
    assert_eq!(sends, 2);
}
