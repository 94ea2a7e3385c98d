use agent::command::BackendCommand;
use agent::monitor::{FixSource, Label, Monitor, MonitorAction, MonitorEvent, Notice};
use agent::platform::Platform;
use agent::session::bridge::{Fix, ServiceRole, SessionBridge};
use agent::telemetry::{Reading, Share};
use agent::video::StreamPacket;

fn monitor(platform: Platform, service: bool, user: Option<&str>) -> Monitor {
    let bridge = SessionBridge::new(platform, ServiceRole { running_as_service: service });
    Monitor::new(platform, &bridge, user.map(|name| name.to_string()), 1000)
}

fn backend(monitor: &mut Monitor, text: &str) -> Vec<MonitorAction> {
    monitor.on_event(MonitorEvent::Backend { message: text.to_string() })
}

const START: &str = "{\"type\":\"START_SCREEN_STREAM\"}";
const STOP: &str = "{\"type\":\"STOP_SCREEN_STREAM\"}";
const GPS_ON: &str = "{\"type\":\"GPS_COLLECTION\",\"enabled\":true}";
const GPS_OFF: &str = "{\"type\":\"GPS_COLLECTION\",\"enabled\":false}";

#[test]
fn greets_with_the_console_user() {
    let actions = monitor(Platform::Other, false, Some("ada")).on_connected();
    assert!(matches!(
        &actions[0],
        MonitorAction::Send { label: Label::Login, username: Some(name), text }
            if name == "ada"
                && text == "{\"event\":\"login\",\"type\":\"session\",\"username\":\"ada\"}"
    ));
    let actions = monitor(Platform::Other, false, None).on_connected();
    assert!(matches!(actions[0], MonitorAction::Report { notice: Notice::NoConsoleUser }));
}

#[test]
fn tells_the_backend_who_logs_in_and_out() {
    let mut monitor = monitor(Platform::Other, false, Some("ada"));
    let check = |m: &mut Monitor, user: Option<&str>| {
        m.on_event(MonitorEvent::ConsoleChecked { user: user.map(|name| name.to_string()) })
    };
    assert!(check(&mut monitor, Some("ada")).is_empty());
    let actions = check(&mut monitor, Some("bob"));
    assert_eq!(actions.len(), 3);
    assert!(matches!(
        &actions[0],
        MonitorAction::ReportConsoleChange { from: Some(from), to: Some(to) }
            if from == "ada" && to == "bob"
    ));
    assert!(matches!(
        &actions[1],
        MonitorAction::Send { label: Label::Logout, username: Some(name), .. } if name == "ada"
    ));
    assert!(matches!(
        &actions[2],
        MonitorAction::Send { label: Label::Login, username: Some(name), .. } if name == "bob"
    ));
    let actions = check(&mut monitor, None);
    assert_eq!(actions.len(), 2);
    assert!(matches!(&actions[1], MonitorAction::Send { label: Label::Logout, .. }));
    assert!(check(&mut monitor, None).is_empty());
    assert_eq!(check(&mut monitor, Some("eve")).len(), 2);
}

#[test]
fn own_stream_is_started_once() {
    let mut monitor = monitor(Platform::Other, false, None);
    let actions = backend(&mut monitor, START);
    assert!(matches!(actions[0], MonitorAction::Report { notice: Notice::ScreenEnabled }));
    assert!(matches!(actions[1], MonitorAction::StartStream));
    monitor.on_stream_started(false);
    assert_eq!(backend(&mut monitor, START).len(), 2);
    monitor.on_stream_started(true);
    assert!(backend(&mut monitor, START).is_empty());
    let actions = backend(&mut monitor, STOP);
    assert!(matches!(actions[0], MonitorAction::StopStream));
    assert!(matches!(actions[1], MonitorAction::Report { notice: Notice::ScreenDisabled }));
    assert!(backend(&mut monitor, STOP).is_empty());
}

#[test]
fn macos_refuses_aloud() {
    let mut monitor = monitor(Platform::Macos, false, None);
    let actions = backend(&mut monitor, START);
    assert_eq!(actions.len(), 1);
    assert!(matches!(actions[0], MonitorAction::Report { notice: Notice::ScreenUnsupported }));
    let actions = backend(&mut monitor, GPS_ON);
    assert!(matches!(actions[0], MonitorAction::Report { notice: Notice::LocationUnsupported }));
    assert!(backend(&mut monitor, GPS_OFF).is_empty());
    assert!(backend(&mut monitor, STOP).is_empty());
    assert!(!monitor.gps_enabled);
    assert!(!monitor.measures_location());
}

#[test]
fn service_delegates_to_its_helper() {
    let mut monitor = monitor(Platform::Windows, true, None);
    let actions = backend(&mut monitor, START);
    assert!(matches!(actions[0], MonitorAction::Report { notice: Notice::ScreenDelegated }));
    assert!(matches!(actions[1], MonitorAction::HelperScreen { enabled: true }));
    let actions = backend(&mut monitor, STOP);
    assert!(matches!(actions[0], MonitorAction::HelperScreen { enabled: false }));
    let actions = backend(&mut monitor, GPS_ON);
    assert!(matches!(actions[0], MonitorAction::HelperLocation { enabled: true }));
    assert!(matches!(actions[1], MonitorAction::Report { notice: Notice::LocationDelegated }));
    assert_eq!(monitor.fix_source(), Some(FixSource::Helper));
    let actions = backend(&mut monitor, GPS_OFF);
    assert!(matches!(actions[0], MonitorAction::HelperLocation { enabled: false }));
    assert!(matches!(actions[1], MonitorAction::Report { notice: Notice::LocationDisabled }));
    assert_eq!(monitor.fix_source(), None);
    assert!(!monitor.measures_location());
}

#[test]
fn foreground_windows_measures_for_itself() {
    let mut monitor = monitor(Platform::Windows, false, None);
    assert!(monitor.measures_location());
    let fix = Fix { latitude: 1, longitude: 2 };
    assert!(monitor.on_event(MonitorEvent::LocationDue { fix: Some(fix) }).is_empty());
    let actions = monitor.on_command(BackendCommand::Gps { enabled: true });
    assert!(matches!(actions[0], MonitorAction::StartLocation));
    assert!(matches!(actions[1], MonitorAction::Report { notice: Notice::LocationEnabled }));
    assert!(monitor.on_command(BackendCommand::Gps { enabled: true }).is_empty());
    assert_eq!(monitor.fix_source(), Some(FixSource::Own));
    let actions = monitor.on_event(MonitorEvent::LocationDue { fix: Some(fix) });
    assert!(matches!(actions[0], MonitorAction::SendLocation { fix: sent } if sent == fix));
    let actions = monitor.on_event(MonitorEvent::LocationDue { fix: None });
    assert!(matches!(actions[0], MonitorAction::Report { notice: Notice::NoFixYet }));
    let actions = monitor.on_command(BackendCommand::Gps { enabled: false });
    assert!(matches!(actions[0], MonitorAction::StopLocation));
}

#[test]
fn other_backend_messages_are_ignored_or_reported() {
    let mut monitor = monitor(Platform::Other, false, None);
    assert!(backend(&mut monitor, "{\"type\":\"PING\"}").is_empty());
    assert!(backend(&mut monitor, "{}").is_empty());
    let actions = backend(&mut monitor, "hello");
    assert!(matches!(
        &actions[0],
        MonitorAction::ReportNotJson { error }
            if error.reason == "expected value at line 1 column 1"
    ));
    assert!(!monitor.streaming && !monitor.gps_enabled && !monitor.screen_requested);
}

#[test]
fn telemetry_counts_bytes_since_the_last_reading() {
    let mut monitor = monitor(Platform::Other, false, None);
    let reading = |network_bytes: u64| Reading {
        memory: Share { used: 3, total: 4 },
        storage: None,
        network_bytes,
    };
    let actions = monitor.on_event(MonitorEvent::TelemetryDue { reading: reading(1500) });
    assert!(matches!(
        actions[0],
        MonitorAction::SendTelemetry { memory: Share { used: 3, total: 4 }, storage: None, bytes_transferred: 500 }
    ));
    let actions = monitor.on_event(MonitorEvent::TelemetryDue { reading: reading(20) });
    assert!(matches!(actions[0], MonitorAction::SendTelemetry { bytes_transferred: 0, .. }));
    let actions = monitor.on_event(MonitorEvent::TelemetryDue { reading: reading(21) });
    assert!(matches!(actions[0], MonitorAction::SendTelemetry { bytes_transferred: 1, .. }));
}

#[test]
fn heartbeats_and_packets_go_out() {
    let mut monitor = monitor(Platform::Other, false, None);
    let actions = monitor.on_event(MonitorEvent::HeartbeatDue);
    assert!(matches!(
        &actions[0],
        MonitorAction::Send { label: Label::Heartbeat, username: None, text }
            if text == "{\"type\":\"heartbeat\"}"
    ));
    backend(&mut monitor, START);
    let packet = StreamPacket { kind: 1, keyframe: false, timestamp_ms: 0, payload: vec![5] };
    let actions = monitor.on_event(MonitorEvent::Packet { packet });
    assert!(matches!(
        &actions[0],
        MonitorAction::SendPacket { bytes, config: true } if *bytes == vec![1, 0, 0, 0, 0, 0, 5]
    ));
    let packet = StreamPacket { kind: 2, keyframe: true, timestamp_ms: 0, payload: vec![] };
    let actions = monitor.on_event(MonitorEvent::Packet { packet });
    assert!(matches!(&actions[0], MonitorAction::SendPacket { config: false, .. }));
}

#[test]
fn agent_says_goodbye_before_it_stops() {
    let mut monitor = monitor(Platform::Other, false, None);
    assert!(monitor.on_event(MonitorEvent::ServiceShutdown { requested: false }).is_empty());
    for event in [MonitorEvent::ServiceShutdown { requested: true }, MonitorEvent::StopSignal] {
        let actions = monitor.on_event(event);
        assert_eq!(actions.len(), 3);
        assert!(matches!(actions[0], MonitorAction::Report { .. }));
        assert!(matches!(actions[1], MonitorAction::SendClose));
        assert!(matches!(actions[2], MonitorAction::End));
    }
}

#[test]
fn lost_connection_ends_the_session() {
    let mut monitor = monitor(Platform::Other, false, None);
    for (event, expected) in [
        (MonitorEvent::BackendClosed, Notice::BackendClosed),
        (MonitorEvent::BackendFailed, Notice::BackendFailed),
        (MonitorEvent::BackendEnded, Notice::BackendEnded),
    ] {
        let actions = monitor.on_event(event);
        assert_eq!(actions.len(), 2);
        assert!(matches!(actions[0], MonitorAction::Report { notice } if notice == expected));
        assert!(matches!(actions[1], MonitorAction::End));
    }
}

#[test]
fn teardown_stops_what_runs() {
    let mut idle = monitor(Platform::Other, false, None);
    let actions = idle.teardown();
    assert_eq!(actions.len(), 1);
    assert!(matches!(actions[0], MonitorAction::StopHelper));

    let mut busy = monitor(Platform::Windows, false, None);
    busy.on_command(BackendCommand::StartScreen);
    busy.on_stream_started(true);
    let actions = busy.teardown();
    assert!(matches!(actions[0], MonitorAction::StopStream));
    assert!(matches!(actions[1], MonitorAction::StopLocation));
    assert!(matches!(actions[2], MonitorAction::StopHelper));
    assert!(!busy.streaming);
}

#[test]
fn reasons_for_refusals() {
    assert!(Platform::Macos.screen_stream_unavailable_reason().contains("Screen Recording"));
    assert!(Platform::Macos.gps_unavailable_reason().contains("Core Location"));
    assert_eq!(
        Platform::Windows.gps_unavailable_reason(),
        "location collection is unavailable in this build"
    );
}

#[test]
fn lost_message_drops_what_stands_behind_it() {
    let mut monitor = monitor(Platform::Other, false, Some("ada"));
    let actions = monitor.on_event(MonitorEvent::ConsoleChecked { user: Some("bob".to_string()) });
    // The change is only reported; the logout has to get through.
    assert!(actions[0].goes_on(false));
    assert!(!actions[1].goes_on(false));
    assert!(actions[1].goes_on(true));
    let beat = monitor.on_event(MonitorEvent::HeartbeatDue);
    assert!(!beat[0].goes_on(false));
    // A close frame that is lost does not matter; the end is the end.
    let goodbye = monitor.on_event(MonitorEvent::StopSignal);
    assert!(goodbye[1].goes_on(false));
    assert!(!goodbye[2].goes_on(true));
}

fn packet() -> MonitorEvent {
    MonitorEvent::Packet {
        packet: StreamPacket { kind: 2, keyframe: true, timestamp_ms: 0, payload: vec![1] },
    }
}

#[test]
fn no_packet_goes_out_before_the_screen_is_asked_for() {
    for (platform, service) in [(Platform::Other, false), (Platform::Windows, true)] {
        let mut monitor = monitor(platform, service, None);
        assert!(monitor.on_event(packet()).is_empty());
        backend(&mut monitor, GPS_ON);
        backend(&mut monitor, STOP);
        backend(&mut monitor, "START_SCREEN_STREAM");
        backend(&mut monitor, "{\"type\":\"START\"}");
        assert!(monitor.on_event(packet()).is_empty());
        backend(&mut monitor, START);
        assert_eq!(monitor.on_event(packet()).len(), 1);
        // What was on its way when the stream was stopped still goes out.
        backend(&mut monitor, STOP);
        assert_eq!(monitor.on_event(packet()).len(), 1);
    }
    // A request that was refused is none.
    let mut mac = monitor(Platform::Macos, false, None);
    backend(&mut mac, START);
    assert!(mac.on_event(packet()).is_empty());
}

#[test]
fn latest_location_command_counts() {
    let due = || MonitorEvent::LocationDue { fix: Some(Fix { latitude: 1, longitude: 2 }) };
    let mut monitor = monitor(Platform::Windows, false, None);
    for (message, sent) in [
        (GPS_ON, 1),
        (START, 1),
        ("no json", 1),
        ("{\"type\":\"GPS_COLLECTION\"}", 0),
        (GPS_ON, 1),
        (GPS_OFF, 0),
        ("{\"type\":\"PING\",\"enabled\":true}", 0),
    ] {
        backend(&mut monitor, message);
        assert_eq!(monitor.on_event(due()).len(), sent);
    }
}
