use agent::logging::{
    backup_path, default_log_path, init, log_line, on_appended, on_rotated, open_failure,
    seconds_since_epoch, set_stdout_echo, timestamp, Logger, MAX_LOG_BYTES,
};
use agent::platform::Platform;

#[test]
fn default_paths() {
    assert_eq!(default_log_path(Platform::Windows), r"C:\ProgramData\GBOS\Agent\agent.log");
    assert_eq!(default_log_path(Platform::Macos), "/var/log/gbos-agent.log");
    assert_eq!(default_log_path(Platform::Other), "/var/log/gbos-agent.log");
}

#[test]
fn timestamps_are_utc() {
    assert_eq!(timestamp(0), "1970-01-01T00:00:00Z");
    assert_eq!(timestamp(951_782_400), "2000-02-29T00:00:00Z");
    assert_eq!(timestamp(1_700_000_000), "2023-11-14T22:13:20Z");
    assert_eq!(timestamp(4_102_444_799), "2099-12-31T23:59:59Z");
    assert_eq!(timestamp(u64::MAX), "1969-12-31T23:59:59Z");
}

#[test]
fn lines_go_to_stdout_until_a_file_is_open() {
    let mut logger = Logger::new();
    let line = log_line(&logger, 0, "Heartbeat sent 💓");
    assert_eq!(line.bytes, "1970-01-01T00:00:00Z Heartbeat sent 💓\n".as_bytes());
    assert!(line.echo);
    assert!(!line.append);

    init(&mut logger, "/tmp/a.log".to_string(), true, 10);
    set_stdout_echo(&mut logger, false);
    let line = log_line(&logger, 0, "x");
    assert!(!line.echo);
    assert!(line.append);
    assert_eq!(logger.bytes_written, 10);

    init(&mut logger, "/tmp/b.log".to_string(), false, 0);
    assert_eq!(logger.active_path, Some("/tmp/b.log".to_string()));
    assert!(!log_line(&logger, 0, "x").append);
}

#[test]
fn second_init_moves_the_log() {
    let mut logger = Logger::new();
    init(&mut logger, "/tmp/a.log".to_string(), true, 10);
    init(&mut logger, "/tmp/b.log".to_string(), true, MAX_LOG_BYTES - 1);
    assert!(on_appended(&mut logger, 1, true));
    // The file that was written to is the one to be renamed and opened again.
    let path = logger.active_path.clone().unwrap();
    assert_eq!(path, "/tmp/b.log");
    assert_eq!(backup_path(&path), "/tmp/b.log.1");
    on_rotated(&mut logger, true, true);
    assert_eq!(logger.active_path, Some("/tmp/b.log".to_string()));
    assert!(logger.file_open);
}

#[test]
fn later_timestamps_are_later_strings() {
    let seconds: [u64; 12] = [
        0,
        1,
        59,
        60,
        3_599,
        3_600,
        86_399,
        86_400,
        951_782_399,
        951_782_400,
        253_402_300_798,
        253_402_300_799,
    ];
    for pair in seconds.windows(2) {
        let (earlier, later) = (timestamp(pair[0]), timestamp(pair[1]));
        assert!(earlier < later);
        assert_eq!((earlier.len(), later.len()), (20, 20));
        assert!(earlier.is_ascii() && later.is_ascii());
    }
    assert_eq!(timestamp(253_402_300_799), "9999-12-31T23:59:59Z");
    // Beyond that the year has five digits.
    assert_eq!(timestamp(253_402_300_800), "10000-01-01T00:00:00Z");
}

#[test]
fn clock_before_the_epoch_stands_at_it() {
    assert_eq!(timestamp(seconds_since_epoch(None)), "1970-01-01T00:00:00Z");
    assert_eq!(seconds_since_epoch(Some(7)), 7);
}

#[test]
fn log_rotates_at_its_limit() {
    let mut logger = Logger::new();
    init(&mut logger, "/tmp/a.log".to_string(), true, MAX_LOG_BYTES - 10);
    assert!(!on_appended(&mut logger, 9, true));
    assert!(!on_appended(&mut logger, 100, false));
    assert_eq!(logger.bytes_written, MAX_LOG_BYTES - 1);
    assert!(on_appended(&mut logger, 1, true));

    // A failed rename keeps the count, so the next line tries again.
    on_rotated(&mut logger, false, true);
    assert_eq!(logger.bytes_written, MAX_LOG_BYTES);
    assert!(on_appended(&mut logger, 1, true));
    on_rotated(&mut logger, true, true);
    assert_eq!(logger.bytes_written, 0);
    assert!(logger.file_open);
    on_rotated(&mut logger, true, false);
    assert!(!logger.file_open);
}

#[test]
fn backup_stands_beside_the_log() {
    assert_eq!(backup_path("/var/log/gbos-agent.log"), "/var/log/gbos-agent.log.1");
    assert_eq!(
        open_failure("/x", "denied"),
        "GBOS agent could not open log file /x: denied"
    );
}

#[test]
fn log_stays_below_its_limit() {
    let mut logger = Logger::new();
    init(&mut logger, "/tmp/a.log".to_string(), true, 0);
    for length in [MAX_LOG_BYTES - 1, 1, 5, MAX_LOG_BYTES, 7] {
        if on_appended(&mut logger, length, true) {
            on_rotated(&mut logger, true, true);
        }
        assert!(logger.bytes_written < MAX_LOG_BYTES);
    }
    assert_eq!(logger.bytes_written, 7);
}
