use agent::command::{command, command_text, read_command, BackendCommand};

#[test]
fn commands_are_known_by_their_type() {
    let kind = |text: &str| Some(text.to_string());
    assert_eq!(command(kind("START_SCREEN_STREAM"), None), BackendCommand::StartScreen);
    assert_eq!(command(kind("STOP_SCREEN_STREAM"), Some(true)), BackendCommand::StopScreen);
    assert_eq!(command(kind("GPS_COLLECTION"), Some(true)), BackendCommand::Gps { enabled: true });
    assert_eq!(command(kind("GPS_COLLECTION"), None), BackendCommand::Gps { enabled: false });
    assert_eq!(command(kind("start_screen_stream"), None), BackendCommand::Other);
    assert_eq!(command(None, Some(true)), BackendCommand::Other);
}

#[test]
fn commands_read_back_as_written() {
    let commands = [
        BackendCommand::StartScreen,
        BackendCommand::StopScreen,
        BackendCommand::Gps { enabled: true },
        BackendCommand::Gps { enabled: false },
    ];
    for wanted in commands {
        let read = read_command(&command_text(wanted)).unwrap_or_else(|e| panic!("{}", e.reason));
        assert_eq!(read, wanted);
    }
    assert_eq!(command_text(BackendCommand::StartScreen), "{\"type\":\"START_SCREEN_STREAM\"}");
    assert_eq!(
        command_text(BackendCommand::Gps { enabled: false }),
        "{\"type\":\"GPS_COLLECTION\",\"enabled\":false}"
    );
}

#[test]
fn other_json_is_read_too() {
    let read = |text: &str| read_command(text).unwrap_or_else(|e| panic!("{}", e.reason));
    assert_eq!(
        read(" { \"enabled\" : true, \"x\": [1], \"type\": \"GPS_COLLECTION\" } "),
        BackendCommand::Gps { enabled: true }
    );
    assert_eq!(
        read("{\"type\":\"GPS_COLLECTION\",\"enabled\":\"yes\"}"),
        BackendCommand::Gps { enabled: false }
    );
    assert_eq!(read("{\"type\":7}"), BackendCommand::Other);
    assert_eq!(read("[\"START_SCREEN_STREAM\"]"), BackendCommand::Other);
    assert_eq!(read("null"), BackendCommand::Other);
}

#[test]
fn what_is_not_json_is_refused() {
    assert!(read_command("START_SCREEN_STREAM").is_err());
    assert!(read_command("").is_err());
    assert_eq!(
        read_command("{\"type\":").unwrap_err().reason,
        "EOF while parsing a value at line 1 column 8"
    );
    assert_eq!(
        read_command("{\n 7}").unwrap_err().reason,
        "key must be a string at line 2 column 2"
    );
}
