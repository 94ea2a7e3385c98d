use agent::diagnostics::{
    check_frame, count_mismatches, make_yuv, on_capture, probe, probe_encoder, CaptureStep, KeyRule,
};
use agent::video::encoder::FrameType;

#[test]
fn test_pattern_is_a_moving_ramp() {
    let data = make_yuv(4, 2, 3, true);
    assert_eq!(data, vec![21, 21, 22, 22, 22, 22, 23, 23, 128, 128, 128, 128]);
    assert_eq!(make_yuv(2, 2, 3, false), vec![128; 6]);
    assert_eq!(make_yuv(2, 2, 36, true)[2], (1 + 36 * 7 % 255) as u8);
    assert_eq!(make_yuv(0, 5, 0, true), Vec::<u8>::new());
}

#[test]
fn frame_checks_compare_both_signals() {
    let idr = vec![0, 0, 0, 1, 0x67, 1, 0, 0, 0, 1, 0x65, 2];
    let delta = vec![0, 0, 0, 1, 0x41, 2];
    let good = check_frame(0, FrameType::IDR, idr.clone(), KeyRule::IdrOnly);
    assert_eq!(good.types, vec![7, 5]);
    assert!(good.nal_key && good.agrees);
    let intra = check_frame(1, FrameType::I, idr.clone(), KeyRule::IdrOnly);
    assert!(!intra.agrees);
    assert!(check_frame(1, FrameType::I, idr, KeyRule::AsStreamed).agrees);
    let wrong = check_frame(2, FrameType::IPMixed, delta.clone(), KeyRule::AsStreamed);
    assert!(!wrong.nal_key && !wrong.agrees);
    let right = check_frame(3, FrameType::P, delta, KeyRule::AsStreamed);
    assert!(right.agrees);
    assert_eq!(count_mismatches(&vec![good, intra, wrong, right]), 2);
    assert_eq!(count_mismatches(&vec![]), 0);
}

#[test]
fn probing_the_encoder_finds_a_keyframe_first() {
    for moving in [true, false] {
        let probe = probe_encoder(moving, 64, 48, 5);
        assert!(probe.failure.is_none());
        assert_eq!(probe.checks.len(), 5);
        assert_eq!(probe.checks[0].types[..3], [7, 8, 5]);
        assert!(probe.checks[0].nal_key);
        assert!(matches!(probe.checks[0].frame_type, FrameType::IDR));
        assert_eq!(probe.checks[4].frame, 4);
        assert_eq!(count_mismatches(&probe.checks), 0);
        assert!(probe.encoder.is_some());
    }
}

#[test]
fn capture_of_another_resolution_reopens_the_encoder() {
    assert_eq!(on_capture(None, 64, 48), CaptureStep::Reopen);
    assert_eq!(on_capture(Some((64, 48)), 64, 48), CaptureStep::Encode);
    assert_eq!(on_capture(Some((64, 48)), 48, 64), CaptureStep::Reopen);
    assert_eq!(on_capture(Some((64, 48)), 64, 50), CaptureStep::Reopen);
}

#[test]
fn probe_reports_what_the_encoder_refuses() {
    let probe = probe_encoder(false, 4098, 2, 3);
    assert!(probe.checks.is_empty());
    assert!(probe.failure.unwrap().reason.contains("max resolution"));
    assert!(probe.encoder.is_some());
}

#[test]
fn any_encoder_can_be_probed() {
    let mut encoder = openh264::encoder::Encoder::new().unwrap();
    let first = probe(&mut encoder, true, 64, 48, 2);
    assert!(first.failure.is_none());
    assert!(first.checks[0].nal_key);
    // It goes on from where it was.
    let second = probe(&mut encoder, true, 64, 48, 1);
    assert_eq!(second.checks.len(), 1);
    assert!(probe(&mut encoder, false, 64, 48, 0).checks.is_empty());
}
