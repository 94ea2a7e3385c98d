use agent::command::BackendCommand;
use agent::platform::Platform;
use agent::session::bridge::{
    client_is_in_session, control_line, handle_frame, location_of, BridgeAction, Fix, FrameEvent, Link,
    ServiceRole, SessionBridge, StopReason, Wanted, NO_ACTIVE_SESSION,
};
use agent::session::helper::{
    argument_value, forward_packet, location_frame, start_failure_frame, Helper, HelperAction,
};
use agent::session::launch::{
    failure_text, helper_command_line, nonce, pipe_name, Launch, LaunchAction, LaunchFailure,
    LaunchStage,
};
use agent::session::note_running_as_service;
use agent::session::protocol::{Frame, FRAME_GPS, FRAME_LOG, FRAME_VIDEO};
use agent::session::reader::{ActionRun, FollowUp, PipeReader, ReaderAction, ReaderPhase};
use agent::video::StreamPacket;

fn service() -> ServiceRole {
    let mut role = ServiceRole::new();
    assert!(!role.running_as_service);
    note_running_as_service(&mut role);
    role
}

fn bridge() -> SessionBridge {
    SessionBridge::new(Platform::Windows, service())
}

#[test]
fn only_a_windows_service_delegates() {
    assert!(bridge().delegates());
    assert!(!SessionBridge::new(Platform::Windows, ServiceRole::new()).delegates());
    assert!(!SessionBridge::new(Platform::Macos, service()).delegates());
    assert!(!SessionBridge::new(Platform::Other, service()).delegates());
}

#[test]
fn bridge_that_does_not_delegate_is_inert() {
    let mut inert = SessionBridge::new(Platform::Macos, service());
    assert!(inert.tick(3, true).is_empty());
    assert!(inert.set_screen(true).is_empty());
    assert!(inert.set_gps(true).is_empty());
    assert!(inert.stop().is_empty());
    assert_eq!(inert.take_fix(), None);
    assert_eq!(inert.session_id, None);
}

#[test]
fn helper_follows_the_console_session() {
    let mut bridge = bridge();
    assert!(bridge.tick(NO_ACTIVE_SESSION, false).is_empty());
    assert_eq!(bridge.tick(3, false), vec![BridgeAction::StartHelper { session_id: 3 }]);
    // The launch failed, so it is tried again.
    assert_eq!(bridge.tick(3, false), vec![BridgeAction::StartHelper { session_id: 3 }]);
    bridge.on_helper_started(1, 3);
    assert!(bridge.tick(3, true).is_empty());

    // Fast user switching.
    assert_eq!(
        bridge.tick(4, true),
        vec![
            BridgeAction::StopHelper { link_id: 1, reason: StopReason::SessionChanged },
            BridgeAction::StartHelper { session_id: 4 },
        ]
    );
    bridge.on_helper_started(2, 4);

    // The helper crashed.
    assert_eq!(
        bridge.tick(4, false),
        vec![BridgeAction::ReportGone, BridgeAction::StartHelper { session_id: 4 }]
    );
    bridge.on_helper_started(3, 4);

    // Logout.
    assert_eq!(
        bridge.tick(NO_ACTIVE_SESSION, true),
        vec![BridgeAction::StopHelper { link_id: 3, reason: StopReason::NoSession }]
    );
    assert_eq!((bridge.session_id, bridge.link), (None, None));
}

#[test]
fn broken_pipe_restarts_the_helper() {
    let mut bridge = bridge();
    bridge.tick(3, false);
    bridge.on_helper_started(1, 3);
    // The end of an earlier launch's pipe is not about this helper.
    bridge.on_pipe_ended(99);
    assert!(bridge.tick(3, true).is_empty());
    bridge.on_pipe_ended(1);
    assert_eq!(
        bridge.tick(3, true),
        vec![BridgeAction::ReportGone, BridgeAction::StartHelper { session_id: 3 }]
    );
}

#[test]
fn commands_are_remembered_and_replayed() {
    let mut bridge = bridge();
    bridge.tick(3, false);
    assert!(bridge.set_screen(true).is_empty());
    bridge.on_helper_started(1, 3);
    assert!(bridge.set_gps(true).is_empty());
    assert_eq!(
        bridge.on_connected(1),
        vec![BackendCommand::StartScreen, BackendCommand::Gps { enabled: true }]
    );
    assert_eq!(
        bridge.set_screen(false),
        vec![BridgeAction::Tell { link_id: 1, command: BackendCommand::StopScreen }]
    );
    assert_eq!(
        bridge.set_gps(false),
        vec![BridgeAction::Tell { link_id: 1, command: BackendCommand::Gps { enabled: false } }]
    );
    assert_eq!(bridge.wanted, Wanted { screen: false, gps: false });
    assert_eq!(
        bridge.stop(),
        vec![BridgeAction::StopHelper { link_id: 1, reason: StopReason::ShuttingDown }]
    );
    assert!(bridge.stop().is_empty());
}

#[test]
fn fix_is_taken_once() {
    let mut bridge = bridge();
    let fix = Fix { latitude: 1, longitude: 2 };
    bridge.on_fix(Fix { latitude: 9, longitude: 9 });
    bridge.on_fix(fix);
    assert_eq!(bridge.take_fix(), Some(fix));
    assert_eq!(bridge.take_fix(), None);
}

#[test]
fn stop_reasons_in_words() {
    assert_eq!(StopReason::NoSession.text(), "no console session is active");
    assert_eq!(StopReason::SessionChanged.text(), "the console session changed");
    assert_eq!(StopReason::ShuttingDown.text(), "the agent is shutting down");
}

#[test]
fn clients_from_elsewhere_are_refused() {
    assert!(client_is_in_session(Some(3), 3));
    assert!(!client_is_in_session(Some(0), 3));
    assert!(!client_is_in_session(None, 3));

    let mut bridge = bridge();
    bridge.tick(3, false);
    bridge.on_helper_started(1, 3);
    let mut reader = PipeReader::new(1, 3);
    assert!(matches!(reader.on_accept(&mut bridge, true), ReaderAction::AskClientSession));
    let actions = reader.on_client(&mut bridge, Some(0));
    assert_eq!(actions.len(), 1);
    assert!(matches!(actions[0], ReaderAction::ReportRefused { client_session: Some(0) }));
    assert_eq!(reader.phase, ReaderPhase::Ended);
    assert_eq!(bridge.link, Some(Link { id: 1, session_id: 3, connected: false, alive: false }));
}

#[test]
fn helper_that_never_connects_is_gone() {
    let mut bridge = bridge();
    bridge.tick(3, false);
    bridge.on_helper_started(1, 3);
    let mut reader = PipeReader::new(1, 3);
    assert!(matches!(reader.on_accept(&mut bridge, false), ReaderAction::ReportNeverConnected));
    assert!(!bridge.link.unwrap().alive);
}

#[test]
fn reader_serves_the_helper() {
    let mut bridge = bridge();
    bridge.tick(3, false);
    bridge.on_helper_started(1, 3);
    bridge.set_gps(true);
    let mut reader = PipeReader::new(1, 3);
    reader.on_accept(&mut bridge, true);
    let actions = reader.on_client(&mut bridge, Some(3));
    assert!(matches!(actions[0], ReaderAction::ReportConnected));
    assert!(matches!(actions[1], ReaderAction::Tell { command: BackendCommand::StopScreen }));
    assert!(matches!(
        actions[2],
        ReaderAction::Tell { command: BackendCommand::Gps { enabled: true } }
    ));
    assert!(matches!(actions[3], ReaderAction::ReadFrame));
    assert!(bridge.link.unwrap().connected);

    let actions =
        reader.on_frame(&mut bridge, Frame { kind: FRAME_VIDEO, payload: vec![1, 0, 0, 0, 0, 5, 9] });
    assert!(matches!(&actions[0], ReaderAction::Forward { packet } if packet.timestamp_ms == 5));

    let actions = reader.on_frame(&mut bridge, Frame { kind: FRAME_VIDEO, payload: vec![1] });
    assert!(matches!(actions[0], ReaderAction::ReportBadPacket { length: 1 }));

    let reading = b"{\"latitude\":51.5,\"longitude\":-0.25}".to_vec();
    let actions = reader.on_frame(&mut bridge, Frame { kind: FRAME_GPS, payload: reading });
    assert_eq!(actions.len(), 1);
    let fix = bridge.take_fix().unwrap();
    assert_eq!(fix, Fix { latitude: 51.5f64.to_bits(), longitude: (-0.25f64).to_bits() });

    let actions = reader.on_frame(&mut bridge, Frame { kind: FRAME_LOG, payload: b"hi \n".to_vec() });
    assert!(matches!(&actions[0], ReaderAction::LogForHelper { text } if text == "hi"));

    let actions = reader.on_frame(&mut bridge, Frame { kind: 9, payload: vec![] });
    assert!(matches!(actions[0], ReaderAction::ReportUnknown { kind: 9 }));

    assert!(matches!(reader.on_end(&mut bridge), ReaderAction::ReportDisconnected));
    let link = bridge.link.unwrap();
    assert!(!link.connected && !link.alive);
}

#[test]
fn readings_need_both_coordinates() {
    let gps = |text: &str| handle_frame(Frame { kind: FRAME_GPS, payload: text.as_bytes().to_vec() });
    assert!(matches!(gps("{\"latitude\":1}"), FrameEvent::NoCoordinates));
    assert!(matches!(gps("{\"latitude\":\"1\",\"longitude\":2}"), FrameEvent::NoCoordinates));
    assert!(matches!(
        gps("latitude"),
        FrameEvent::BadReading { reason } if reason == "expected value at line 1 column 1"
    ));
    assert!(matches!(
        gps("{\"longitude\":2,\"latitude\":1}"),
        FrameEvent::Located { fix } if fix.latitude == 1f64.to_bits() && fix.longitude == 2f64.to_bits()
    ));
    assert!(matches!(location_of(Ok((None, Some(1)))), FrameEvent::NoCoordinates));
    assert!(matches!(
        location_of(Err("bad".to_string())),
        FrameEvent::BadReading { reason } if reason == "bad"
    ));
}

#[test]
fn helper_log_is_decoded_leniently() {
    let event = handle_frame(Frame { kind: FRAME_LOG, payload: b"caf\xc3\xa9 \xff \t\n".to_vec() });
    assert!(matches!(event, FrameEvent::Log { text } if text == "café \u{fffd}"));
}

#[test]
fn helper_follows_control_messages() {
    let mut helper = Helper::new();
    assert_eq!(helper.handle_control("not json"), None);
    assert_eq!(
        helper.handle_control("{\"type\":\"START_SCREEN_STREAM\"}"),
        Some(HelperAction::StartStream)
    );
    helper.on_stream_started(false);
    assert_eq!(helper.on_command(BackendCommand::StartScreen), Some(HelperAction::StartStream));
    helper.on_stream_started(true);
    assert_eq!(helper.on_command(BackendCommand::StartScreen), None);
    assert_eq!(
        helper.handle_control("{\"type\":\"GPS_COLLECTION\",\"enabled\":true}"),
        Some(HelperAction::StartLocation)
    );
    assert_eq!(helper.on_command(BackendCommand::Gps { enabled: true }), None);
    assert_eq!(
        helper.handle_control("{\"type\":\"GPS_COLLECTION\"}"),
        Some(HelperAction::StopLocation)
    );
    assert_eq!(helper.on_service_gone(), Some(HelperAction::StopStream));
    assert_eq!(helper.on_service_gone(), None);
    assert_eq!(helper.on_command(BackendCommand::StopScreen), None);
}

#[test]
fn briefing_brings_any_helper_in_line() {
    for bits in 0..16 {
        let mut helper = Helper { streaming: bits & 1 != 0, locating: bits & 2 != 0 };
        let wanted = Wanted { screen: bits & 4 != 0, gps: bits & 8 != 0 };
        for command in wanted.control_lines() {
            if helper.on_command(command) == Some(HelperAction::StartStream) {
                helper.on_stream_started(true);
            }
        }
        assert_eq!(helper, Helper { streaming: wanted.screen, locating: wanted.gps });
    }
}

#[test]
fn packets_reach_the_service_unchanged() {
    let packet = StreamPacket { kind: 1, keyframe: false, timestamp_ms: 7, payload: vec![1, 2, 3] };
    let forwarded = forward_packet(packet);
    assert!(forwarded.config);
    assert_eq!(forwarded.packet_len, 9);
    assert_eq!(forwarded.frame, vec![1, 0, 0, 0, 9, 1, 0, 0, 0, 0, 7, 1, 2, 3]);
    let event = handle_frame(Frame { kind: 1, payload: forwarded.frame[5..].to_vec() });
    assert!(matches!(event, FrameEvent::Packet { packet } if packet.payload == vec![1, 2, 3]));
    assert_eq!(location_frame("{}"), vec![2, 0, 0, 0, 2, b'{', b'}']);
    assert_eq!(start_failure_frame("x")[..5], [3, 0, 0, 0, 29]);
}

#[test]
fn argument_behind_the_flag() {
    let arguments = |list: &[&str]| list.iter().map(|a| a.to_string()).collect::<Vec<String>>();
    let given = arguments(&["agent", "--session-helper", "--pipe", "p", "--pipe", "q"]);
    assert_eq!(argument_value(&given, "--pipe"), Some("p".to_string()));
    assert_eq!(argument_value(&arguments(&["--pipe", "x"]), "--pipe"), None);
    assert_eq!(argument_value(&arguments(&["agent", "--pipe"]), "--pipe"), None);
    assert_eq!(argument_value(&arguments(&[]), "--pipe"), None);
}

#[test]
fn launches_have_their_own_pipes() {
    assert_eq!(nonce(5, 1), 0x1_0000_0005);
    assert_eq!(nonce(u64::MAX, u32::MAX), 0xffff_ffff);
    assert_eq!(pipe_name(0xab), r"\\.\pipe\gbos-agent-session-00000000000000ab");
    assert_ne!(pipe_name(nonce(1, 7)), pipe_name(nonce(2, 7)));
    assert_eq!(
        helper_command_line(r"C:\a b.exe", r"\\.\pipe\x"),
        r#""C:\a b.exe" --session-helper --pipe \\.\pipe\x"#
    );
}

#[test]
fn launch_falls_back_and_cleans_up() {
    let mut launch = Launch::new();
    assert_eq!(
        launch.on_outcome(true),
        vec![LaunchAction::Attempt { stage: LaunchStage::DuplicateToken }]
    );
    launch.on_outcome(true);
    assert_eq!(
        launch.on_outcome(true),
        vec![LaunchAction::Attempt { stage: LaunchStage::CreateAsUser }]
    );
    assert_eq!(
        launch.on_outcome(false),
        vec![
            LaunchAction::ReportFallback,
            LaunchAction::Attempt { stage: LaunchStage::CreateWithToken },
        ]
    );
    assert_eq!(
        launch.on_outcome(true),
        vec![
            LaunchAction::DestroyEnvironment,
            LaunchAction::CloseThread,
            LaunchAction::ClosePrimaryToken,
            LaunchAction::CloseUserToken,
            LaunchAction::Succeed,
        ]
    );
    assert!(launch.on_outcome(true).is_empty());
}

#[test]
fn failed_launches_clean_up_too() {
    let mut launch = Launch::new();
    assert_eq!(
        launch.on_outcome(false),
        vec![LaunchAction::Fail { cause: LaunchFailure::NoToken }]
    );

    let mut launch = Launch::new();
    launch.on_outcome(true);
    assert_eq!(
        launch.on_outcome(false),
        vec![
            LaunchAction::CloseUserToken,
            LaunchAction::Fail { cause: LaunchFailure::NoPrimaryToken },
        ]
    );

    let mut launch = Launch::new();
    launch.on_outcome(true);
    launch.on_outcome(true);
    assert_eq!(launch.on_outcome(false)[0], LaunchAction::ReportNoEnvironment);
    launch.on_outcome(false);
    assert_eq!(
        launch.on_outcome(false),
        vec![
            LaunchAction::ReportFallbackFailed,
            LaunchAction::ClosePrimaryToken,
            LaunchAction::CloseUserToken,
            LaunchAction::Fail { cause: LaunchFailure::NoProcess },
        ]
    );
    assert_eq!(
        failure_text(LaunchFailure::NoToken, "denied"),
        "WTSQueryUserToken failed: denied"
    );
    assert_eq!(
        failure_text(LaunchFailure::NoExecutable, "e"),
        "could not locate this executable: e"
    );
    assert_eq!(failure_text(LaunchFailure::NoPrimaryToken, "e"), "DuplicateTokenEx failed: e");
    assert_eq!(
        failure_text(LaunchFailure::NoProcess, "e"),
        "could not start the session helper: e"
    );
}

#[test]
fn commands_go_out_one_to_a_line() {
    assert_eq!(control_line(BackendCommand::StartScreen), b"{\"type\":\"START_SCREEN_STREAM\"}\n");
    assert_eq!(control_line(BackendCommand::StopScreen), b"{\"type\":\"STOP_SCREEN_STREAM\"}\n");
    assert_eq!(
        control_line(BackendCommand::Gps { enabled: true }),
        b"{\"type\":\"GPS_COLLECTION\",\"enabled\":true}\n"
    );
    assert_eq!(
        control_line(BackendCommand::Gps { enabled: false }),
        b"{\"type\":\"GPS_COLLECTION\",\"enabled\":false}\n"
    );
}

#[test]
fn what_is_wanted_survives_a_restart() {
    let mut bridge = bridge();
    bridge.tick(3, false);
    bridge.on_helper_started(1, 3);
    bridge.set_screen(true);
    bridge.set_gps(true);
    bridge.on_pipe_ended(1);
    bridge.tick(3, false);
    bridge.on_helper_started(2, 3);
    let mut helper = Helper::new();
    for command in bridge.on_connected(2) {
        let line = control_line(command);
        let text = std::str::from_utf8(&line[..line.len() - 1]).unwrap();
        if helper.handle_control(text) == Some(HelperAction::StartStream) {
            helper.on_stream_started(true);
        }
    }
    assert_eq!(helper, Helper { streaming: true, locating: true });
    // And a change keeps it in line.
    assert_eq!(helper.on_command(BackendCommand::Gps { enabled: false }), Some(HelperAction::StopLocation));
    assert_eq!(helper, Helper { streaming: true, locating: false });
    // What the first launch's reader says now is about nobody.
    let before = bridge;
    bridge.on_pipe_ended(1);
    assert_eq!(bridge, before);
}

#[test]
fn helper_reports_fixes_while_it_collects_them() {
    let fix = Fix { latitude: 1.5f64.to_bits(), longitude: (-2.0f64).to_bits() };
    let mut helper = Helper::new();
    assert_eq!(helper.on_location_due(Some(fix)), None);
    assert_eq!(
        helper.on_command(BackendCommand::Gps { enabled: true }),
        Some(HelperAction::StartLocation)
    );
    assert_eq!(helper.on_location_due(None), None);
    assert_eq!(helper.on_location_due(Some(fix)), Some(fix));
}

#[test]
fn failed_command_drops_the_commands_behind_it() {
    let tell = || ReaderAction::Tell { command: BackendCommand::StopScreen };
    assert_eq!(tell().follow_up(true), FollowUp::Next);
    assert_eq!(tell().follow_up(false), FollowUp::SkipCommands);
    let mut run = ActionRun::new();
    assert!(run.tries(&tell()));
    run.on_tried(tell().follow_up(false));
    assert!(!run.tries(&tell()));
    assert!(run.tries(&ReaderAction::ReadFrame));
    assert!(!run.ended);
}

#[test]
fn packet_that_nobody_takes_ends_the_link() {
    let forward = || ReaderAction::Forward {
        packet: StreamPacket { kind: 2, keyframe: false, timestamp_ms: 0, payload: vec![] },
    };
    assert_eq!(forward().follow_up(true), FollowUp::Next);
    assert_eq!(forward().follow_up(false), FollowUp::EndLink);
    assert_eq!(ReaderAction::ReadFrame.follow_up(false), FollowUp::Next);
    let mut run = ActionRun::new();
    run.on_tried(forward().follow_up(true));
    assert!(run.tries(&ReaderAction::ReadFrame));
    run.on_tried(forward().follow_up(false));
    assert!(run.ended);
    assert!(!run.tries(&ReaderAction::ReadFrame));
}
