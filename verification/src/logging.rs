//! The agent's log: timestamped lines, and when the file is rotated.

use vstd::prelude::*;
use vstd::utf8::encode_utf8;

use crate::calendar::{civil_from_days, day_number, is_date};
use crate::platform::Platform;
use crate::text::{
    is_digit, padded_decimal, padded_decimal_fills_its_width, padded_numbers_sort, power_of_ten,
    push_padded, same_words_ahead_keep_the_order, sorts_before,
};

verus! {

/// Rotate once the active file passes this size. One `.1` backup is kept.
pub const MAX_LOG_BYTES: u64 = 5_242_880;

/// The log file on every platform but Windows.
pub const UNIX_LOG_PATH: &'static str = "/var/log/gbos-agent.log";

/// The log file on Windows.
pub const WINDOWS_LOG_PATH: &'static str = "C:\\ProgramData\\GBOS\\Agent\\agent.log";

/// Default log file location for a platform.
///
/// macOS uses `/var/log` rather than `~/Library/Logs` because the daemon runs
/// as root and has no home directory worth writing to. Windows uses
/// `ProgramData` for the same reason: a service has no per-user profile.
pub fn default_log_path(platform: Platform) -> (path: String)
    ensures
        path@ == if platform is Windows {
            WINDOWS_LOG_PATH@
        } else {
            UNIX_LOG_PATH@
        },
{
    match platform {
        Platform::Windows => WINDOWS_LOG_PATH.to_owned(),
        _ => UNIX_LOG_PATH.to_owned(),
    }
}

// ---------------------------------------------------------------------------
// Timestamps
// ---------------------------------------------------------------------------

/// The date that lies this many days after 1970-01-01.
pub open spec fn date_of(days: int) -> (int, int, int) {
    choose|date: (int, int, int)|
        is_date(date.0, date.1, date.2) && #[trigger] day_number(date.0, date.1, date.2) == days
}

/// `YYYY-MM-DDTHH:MM:SSZ` for a time in seconds since the Unix epoch.
pub open spec fn timestamp_text(seconds: int) -> Seq<char> {
    let (year, month, day) = date_of(seconds / 86_400);
    let second = seconds % 86_400;
    padded_decimal(year, 4) + "-"@ + padded_decimal(month, 2) + "-"@ + padded_decimal(day, 2) + "T"@
        + padded_decimal(second / 3_600, 2) + ":"@ + padded_decimal(second % 3_600 / 60, 2) + ":"@
        + padded_decimal(second % 60, 2) + "Z"@
}

/// The UTC time of a log line, from the seconds since the Unix epoch.
pub fn timestamp(now_seconds: u64) -> (text: String)
    ensures
        text@ == timestamp_text((now_seconds as i64) as int),
{
    let seconds: i64 = now_seconds as i64;
    let days: i64 = if seconds >= 0 {
        seconds / 86_400
    } else {
        -((-(seconds + 1)) / 86_400) - 1
    };
    assert(days == seconds as int / 86_400);
    let second: i64 = if seconds >= 0 {
        seconds % 86_400
    } else {
        86_399 - (-(seconds + 1)) % 86_400
    };
    assert(second == seconds as int % 86_400);
    let (year, month, day) = civil_from_days(days);
    proof {
        let date = (year as int, month as int, day as int);
        assert(day_number(date.0, date.1, date.2) == days);
        let other = date_of(days as int);
        crate::calendar::day_numbers_are_unique(
            date.0,
            date.1,
            date.2,
            other.0,
            other.1,
            other.2,
        );
        year_is_small(date.0, date.1, date.2);
    }
    let mut text = String::new();
    push_padded(&mut text, year, 4);
    text.append("-");
    push_padded(&mut text, month as i64, 2);
    text.append("-");
    push_padded(&mut text, day as i64, 2);
    text.append("T");
    push_padded(&mut text, second / 3_600, 2);
    text.append(":");
    push_padded(&mut text, (second % 3_600) / 60, 2);
    text.append(":");
    push_padded(&mut text, second % 60, 2);
    text.append("Z");
    assert(text@ =~= timestamp_text(seconds as int));
    text
}

/// A date whose number is not far below zero has a year above `i64::MIN`.
proof fn year_is_small(year: int, month: int, day: int)
    requires
        is_date(year, month, day),
        day_number(year, month, day) >= i64::MIN,
    ensures
        year > i64::MIN,
{
    months_are_short(year, month);
}

/// A month begins within 372 days of its year.
proof fn months_are_short(year: int, month: int)
    requires
        month <= 12,
    ensures
        crate::calendar::days_before_month(year, month) <= 372,
{
    reveal_with_fuel(crate::calendar::days_before_month, 13);
}

/// The seconds since the Unix epoch on a clock that reads this much past it. A clock
/// before the epoch counts as standing at it.
pub fn seconds_since_epoch(elapsed: Option<u64>) -> (seconds: u64)
    ensures
        seconds == match elapsed {
            Some(seconds) => seconds,
            None => 0,
        },
{
    match elapsed {
        Some(seconds) => seconds,
        None => 0,
    }
}

/// The seconds from the Unix epoch to the end of the year 9999.
pub const FOUR_DIGIT_YEARS: u64 = 253_402_300_800;

/// `YYYY-MM-DDTHH:MM:SSZ`, with a digit for each of the letters but `T` and `Z`.
pub open spec fn has_timestamp_shape(text: Seq<char>) -> bool {
    &&& text.len() == 20
    &&& text[4] == '-'
    &&& text[7] == '-'
    &&& text[10] == 'T'
    &&& text[13] == ':'
    &&& text[16] == ':'
    &&& text[19] == 'Z'
    &&& forall|i: int|
        0 <= i < 20 && i != 4 && i != 7 && i != 10 && i != 13 && i != 16 && i != 19 ==> is_digit(
            #[trigger] text[i],
        )
}

/// The date and the time of day at a second of the years up to 9999.
proof fn fields_fit(seconds: int)
    requires
        0 <= seconds < FOUR_DIGIT_YEARS,
    ensures
        ({
            let (year, month, day) = date_of(seconds / 86_400);
            &&& is_date(year, month, day)
            &&& day_number(year, month, day) == seconds / 86_400
            &&& 1970 <= year < 10_000
            &&& 1 <= month <= 12
            &&& 1 <= day <= 31
        }),
{
    let days = seconds / 86_400;
    crate::calendar::every_day_has_a_date(days);
    let date = date_of(days);
    crate::calendar::years_have_four_digits(date.0, date.1, date.2);
}

/// A timestamp of the years up to 9999 has 20 characters in a fixed shape, and names
/// exactly its second: the date is that of the day, and the day with the hours,
/// minutes and seconds makes up the seconds since the epoch.
pub proof fn timestamps_name_their_second(seconds: int)
    requires
        0 <= seconds < FOUR_DIGIT_YEARS,
    ensures
        has_timestamp_shape(timestamp_text(seconds)),
        ({
            let text = timestamp_text(seconds);
            let (year, month, day) = date_of(seconds / 86_400);
            let hour = seconds % 86_400 / 3_600;
            let minute = seconds % 86_400 % 3_600 / 60;
            let second = seconds % 86_400 % 60;
            &&& text.subrange(0, 4) == padded_decimal(year, 4)
            &&& text.subrange(5, 7) == padded_decimal(month, 2)
            &&& text.subrange(8, 10) == padded_decimal(day, 2)
            &&& text.subrange(11, 13) == padded_decimal(hour, 2)
            &&& text.subrange(14, 16) == padded_decimal(minute, 2)
            &&& text.subrange(17, 19) == padded_decimal(second, 2)
            &&& is_date(year, month, day)
            &&& 0 <= hour < 24
            &&& 0 <= minute < 60
            &&& 0 <= second < 60
            &&& day_number(year, month, day) * 86_400 + hour * 3_600 + minute * 60 + second
                == seconds
        }),
{
    let text = timestamp_text(seconds);
    let (year, month, day) = date_of(seconds / 86_400);
    let hour = seconds % 86_400 / 3_600;
    let minute = seconds % 86_400 % 3_600 / 60;
    let second = seconds % 86_400 % 60;
    fields_fit(seconds);
    reveal_with_fuel(power_of_ten, 5);
    padded_decimal_fills_its_width(year, 4);
    padded_decimal_fills_its_width(month, 2);
    padded_decimal_fills_its_width(day, 2);
    padded_decimal_fills_its_width(hour, 2);
    padded_decimal_fills_its_width(minute, 2);
    padded_decimal_fills_its_width(second, 2);
    reveal_strlit("-");
    reveal_strlit("T");
    reveal_strlit(":");
    reveal_strlit("Z");
    assert(text.subrange(0, 4) =~= padded_decimal(year, 4));
    assert(text.subrange(5, 7) =~= padded_decimal(month, 2));
    assert(text.subrange(8, 10) =~= padded_decimal(day, 2));
    assert(text.subrange(11, 13) =~= padded_decimal(hour, 2));
    assert(text.subrange(14, 16) =~= padded_decimal(minute, 2));
    assert(text.subrange(17, 19) =~= padded_decimal(second, 2));
}

/// `HH:MM:SSZ`
spec fn clock_text(hour: int, minute: int, second: int) -> Seq<char> {
    padded_decimal(hour, 2) + (":"@ + (padded_decimal(minute, 2) + (":"@ + (padded_decimal(
        second,
        2,
    ) + "Z"@))))
}

/// `YYYY-MM-DDT` and what follows it.
spec fn day_text(year: int, month: int, day: int, clock: Seq<char>) -> Seq<char> {
    padded_decimal(year, 4) + ("-"@ + (padded_decimal(month, 2) + ("-"@ + (padded_decimal(day, 2)
        + ("T"@ + clock)))))
}

/// An earlier time of day comes first as a text.
proof fn clocks_sort(h1: int, m1: int, s1: int, h2: int, m2: int, s2: int)
    requires
        0 <= h1 < 100 && 0 <= m1 < 100 && 0 <= s1 < 100,
        0 <= h2 < 100 && 0 <= m2 < 100 && 0 <= s2 < 100,
        h1 < h2 || (h1 == h2 && (m1 < m2 || (m1 == m2 && s1 < s2))),
    ensures
        sorts_before(clock_text(h1, m1, s1), clock_text(h2, m2, s2)),
{
    reveal_with_fuel(power_of_ten, 3);
    let (c1, c2) = (padded_decimal(s1, 2) + "Z"@, padded_decimal(s2, 2) + "Z"@);
    let (b1, b2) = (
        padded_decimal(m1, 2) + (":"@ + c1),
        padded_decimal(m2, 2) + (":"@ + c2),
    );
    if h1 < h2 {
        padded_numbers_sort(h1, h2, 2, ":"@ + b1, ":"@ + b2);
    } else {
        if m1 < m2 {
            padded_numbers_sort(m1, m2, 2, ":"@ + c1, ":"@ + c2);
        } else {
            padded_numbers_sort(s1, s2, 2, "Z"@, "Z"@);
            behind(padded_decimal(m1, 2), ":"@, c1, c2);
        }
        behind(padded_decimal(h1, 2), ":"@, b1, b2);
    }
}

/// An earlier date comes first as a text, and on the same date what comes first
/// behind it.
proof fn days_sort(
    y1: int,
    m1: int,
    d1: int,
    c1: Seq<char>,
    y2: int,
    m2: int,
    d2: int,
    c2: Seq<char>,
)
    requires
        0 <= y1 < 10_000 && 0 <= m1 < 100 && 0 <= d1 < 100,
        0 <= y2 < 10_000 && 0 <= m2 < 100 && 0 <= d2 < 100,
        y1 < y2 || (y1 == y2 && (m1 < m2 || (m1 == m2 && (d1 < d2 || (d1 == d2 && sorts_before(
            c1,
            c2,
        )))))),
    ensures
        sorts_before(day_text(y1, m1, d1, c1), day_text(y2, m2, d2, c2)),
{
    reveal_with_fuel(power_of_ten, 5);
    let (b1, b2) = (
        padded_decimal(d1, 2) + ("T"@ + c1),
        padded_decimal(d2, 2) + ("T"@ + c2),
    );
    let (a1, a2) = (
        padded_decimal(m1, 2) + ("-"@ + b1),
        padded_decimal(m2, 2) + ("-"@ + b2),
    );
    if y1 < y2 {
        padded_numbers_sort(y1, y2, 4, "-"@ + a1, "-"@ + a2);
    } else {
        if m1 < m2 {
            padded_numbers_sort(m1, m2, 2, "-"@ + b1, "-"@ + b2);
        } else {
            if d1 < d2 {
                padded_numbers_sort(d1, d2, 2, "T"@ + c1, "T"@ + c2);
            } else {
                behind(padded_decimal(d1, 2), "T"@, c1, c2);
            }
            behind(padded_decimal(m1, 2), "-"@, b1, b2);
        }
        behind(padded_decimal(y1, 4), "-"@, a1, a2);
    }
}

/// A timestamp is its date and its time of day.
proof fn timestamp_by_parts(seconds: int)
    ensures
        ({
            let (year, month, day) = date_of(seconds / 86_400);
            let second = seconds % 86_400;
            timestamp_text(seconds) == day_text(
                year,
                month,
                day,
                clock_text(second / 3_600, second % 3_600 / 60, second % 60),
            )
        }),
{
    let (year, month, day) = date_of(seconds / 86_400);
    let second = seconds % 86_400;
    regroup(
        padded_decimal(year, 4),
        "-"@,
        padded_decimal(month, 2),
        padded_decimal(day, 2),
        "T"@,
        padded_decimal(second / 3_600, 2),
        ":"@,
        padded_decimal(second % 3_600 / 60, 2),
        padded_decimal(second % 60, 2),
        "Z"@,
    );
}

/// Joining texts from the left gives the same as joining them from the right.
proof fn regroup(
    year: Seq<char>,
    dash: Seq<char>,
    month: Seq<char>,
    day: Seq<char>,
    t: Seq<char>,
    hour: Seq<char>,
    colon: Seq<char>,
    minute: Seq<char>,
    second: Seq<char>,
    z: Seq<char>,
)
    ensures
        year + dash + month + dash + day + t + hour + colon + minute + colon + second + z == year
            + (dash + (month + (dash + (day + (t + (hour + (colon + (minute + (colon + (second
            + z)))))))))),
{
    let to_month = year + dash + month;
    let to_day = to_month + dash + day;
    let to_hour = to_day + t + hour;
    let to_minute = to_hour + colon + minute;
    let from_second = second + z;
    let from_minute = minute + (colon + from_second);
    let from_hour = hour + (colon + from_minute);
    let from_day = day + (t + from_hour);
    let from_month = month + (dash + from_day);
    assert(to_minute + colon + second + z =~= to_minute + (colon + from_second));
    assert(to_hour + colon + minute + (colon + from_second) =~= to_hour + (colon + from_minute));
    assert(to_day + t + hour + (colon + from_minute) =~= to_day + (t + from_hour));
    assert(to_month + dash + day + (t + from_hour) =~= to_month + (dash + from_day));
    assert(year + dash + month + (dash + from_day) =~= year + (dash + from_month));
}

/// Later timestamps sort later: of two seconds of the years up to 9999 the earlier
/// one has the text that comes first.
pub proof fn later_timestamps_sort_later(a: int, b: int)
    requires
        0 <= a < b < FOUR_DIGIT_YEARS,
    ensures
        sorts_before(timestamp_text(a), timestamp_text(b)),
{
    timestamp_by_parts(a);
    timestamp_by_parts(b);
    fields_fit(a);
    fields_fit(b);
    let (y1, m1, d1) = date_of(a / 86_400);
    let (y2, m2, d2) = date_of(b / 86_400);
    let (s1, s2) = (a % 86_400, b % 86_400);
    let c1 = clock_text(s1 / 3_600, s1 % 3_600 / 60, s1 % 60);
    let c2 = clock_text(s2 / 3_600, s2 % 3_600 / 60, s2 % 60);
    if a / 86_400 < b / 86_400 {
        crate::calendar::lower_numbers_are_earlier_dates(y1, m1, d1, y2, m2, d2);
    } else {
        assert(a / 86_400 == b / 86_400);
        assert(s1 < s2);
        clocks_sort(
            s1 / 3_600,
            s1 % 3_600 / 60,
            s1 % 60,
            s2 / 3_600,
            s2 % 3_600 / 60,
            s2 % 60,
        );
    }
    days_sort(y1, m1, d1, c1, y2, m2, d2, c2);
}

/// The order of two texts stays behind the same field and the same sign.
proof fn behind(field: Seq<char>, sign: Seq<char>, a: Seq<char>, b: Seq<char>)
    requires
        sorts_before(a, b),
    ensures
        sorts_before(field + (sign + a), field + (sign + b)),
{
    same_words_ahead_keep_the_order(sign, a, b);
    same_words_ahead_keep_the_order(field, sign + a, sign + b);
}

/// One line of the log.
pub open spec fn line_text(seconds: int, message: Seq<char>) -> Seq<char> {
    timestamp_text(seconds) + " "@ + message + "\n"@
}

// ---------------------------------------------------------------------------
// Logger
// ---------------------------------------------------------------------------

/// Where log lines go.
pub struct Logger {
    /// The path of the file that was opened last, or tried.
    pub active_path: Option<String>,
    /// The file is open for appending.
    pub file_open: bool,
    /// Bytes in the file, as far as the logger knows.
    pub bytes_written: u64,
    /// Lines are echoed to stdout.
    pub echo_stdout: bool,
}

/// What to do with one line.
pub struct LogLine {
    pub bytes: Vec<u8>,
    pub echo: bool,
    pub append: bool,
}

impl Logger {
    /// A file is open only where a path is known.
    pub open spec fn well_formed(self) -> bool {
        self.file_open ==> self.active_path is Some
    }

    /// A logger before any file is opened: everything goes to stdout.
    pub fn new() -> (logger: Logger)
        ensures
            logger.well_formed(),
            logger.active_path is None,
            !logger.file_open,
            logger.bytes_written == 0,
            logger.echo_stdout,
    {
        Logger { active_path: None, file_open: false, bytes_written: 0, echo_stdout: true }
    }
}

/// Route all logging to the file at `path`, which holds `existing_bytes` already
/// and could be opened or not.
///
/// Falls back to stdout alone if the file cannot be opened, so a permissions
/// problem degrades logging rather than killing the agent.
pub fn init(logger: &mut Logger, path: String, opened: bool, existing_bytes: u64)
    ensures
        final(logger).well_formed(),
        final(logger).active_path == Some(path),
        final(logger).file_open == opened,
        final(logger).bytes_written == existing_bytes,
        final(logger).echo_stdout == old(logger).echo_stdout,
{
    logger.active_path = Some(path);
    logger.file_open = opened;
    logger.bytes_written = existing_bytes;
}

/// What is printed where the log file cannot be opened.
pub fn open_failure(path: &str, error: &str) -> (text: String)
    ensures
        text@ == "GBOS agent could not open log file "@ + path@ + ": "@ + error@,
{
    let mut text = "GBOS agent could not open log file ".to_owned();
    text.append(path);
    text.append(": ");
    text.append(error);
    text
}

/// One timestamped line, and where it goes.
pub fn log_line(logger: &Logger, now_seconds: u64, message: &str) -> (line: LogLine)
    ensures
        line.bytes@ == encode_utf8(line_text((now_seconds as i64) as int, message@)),
        line.echo == logger.echo_stdout,
        line.append == logger.file_open,
{
    let mut text = timestamp(now_seconds);
    text.append(" ");
    text.append(message);
    text.append("\n");
    let mut bytes: Vec<u8> = Vec::new();
    crate::bytes::push_all(&mut bytes, text.as_str().as_bytes());
    assert(bytes@ =~= encode_utf8(line_text((now_seconds as i64) as int, message@)));
    LogLine { bytes, echo: logger.echo_stdout, append: logger.file_open }
}

/// How many bytes the file holds, once a line of this length was appended to it or
/// could not be.
pub open spec fn bytes_with(bytes: int, length: int, written: bool) -> int {
    if written {
        bytes + length
    } else {
        bytes
    }
}

/// The file is to be rotated after such a line.
pub open spec fn rotates(bytes: int, length: int, written: bool) -> bool {
    written && bytes + length >= MAX_LOG_BYTES
}

/// How many bytes the file holds, once it was rotated or could not be renamed.
pub open spec fn bytes_rotated(bytes: int, renamed: bool) -> int {
    if renamed {
        0
    } else {
        bytes
    }
}

/// Count a line that was appended to the file, or could not be. Says whether the
/// file is to be rotated now.
pub fn on_appended(logger: &mut Logger, length: u64, written: bool) -> (rotate: bool)
    requires
        old(logger).well_formed(),
        old(logger).file_open,
        old(logger).bytes_written + length <= u64::MAX,
    ensures
        final(logger).bytes_written == bytes_with(
            old(logger).bytes_written as int,
            length as int,
            written,
        ),
        rotate == rotates(old(logger).bytes_written as int, length as int, written),
        final(logger).active_path == old(logger).active_path,
        final(logger).file_open == old(logger).file_open,
        final(logger).echo_stdout == old(logger).echo_stdout,
{
    if !written {
        return false;
    }
    logger.bytes_written = logger.bytes_written + length;
    logger.bytes_written >= MAX_LOG_BYTES
}

/// The path that the file is renamed to when it is rotated.
pub fn backup_path(path: &str) -> (backup: String)
    ensures
        backup@ == path@ + ".1"@,
{
    let mut backup = path.to_owned();
    backup.append(".1");
    backup
}

/// Account for a rotation: the file was renamed or could not be, and a file was
/// opened again or could not be.
///
/// If the rename failed, the original file goes on being appended to rather than
/// silently losing output, and the next line tries again.
pub fn on_rotated(logger: &mut Logger, renamed: bool, reopened: bool)
    requires
        old(logger).well_formed(),
        old(logger).file_open,
    ensures
        final(logger).well_formed(),
        final(logger).file_open == reopened,
        final(logger).bytes_written == bytes_rotated(old(logger).bytes_written as int, renamed),
        final(logger).active_path == old(logger).active_path,
        final(logger).echo_stdout == old(logger).echo_stdout,
{
    logger.file_open = reopened;
    if renamed {
        logger.bytes_written = 0;
    }
}

/// Enable or disable echoing to stdout.
///
/// The Windows service disables this: its stdout handle is invalid, and every
/// write is a wasted syscall.
pub fn set_stdout_echo(logger: &mut Logger, enabled: bool)
    ensures
        *final(logger) == (Logger { echo_stdout: enabled, ..*old(logger) }),
{
    logger.echo_stdout = enabled;
}

/// The log stays bounded: a file below the limit is below it again behind every line,
/// unless a rotation was due and the rename failed.
pub proof fn the_log_stays_below_its_limit(bytes: int, length: int, written: bool, renamed: bool)
    requires
        bytes < MAX_LOG_BYTES,
        rotates(bytes, length, written) ==> renamed,
    ensures
        ({
            let appended = bytes_with(bytes, length, written);
            let after = if rotates(bytes, length, written) {
                bytes_rotated(appended, renamed)
            } else {
                appended
            };
            after < MAX_LOG_BYTES
        }),
{
}

/// A line is the time it was logged at, a space, the whole message and one line feed.
pub proof fn lines_hold_their_message(seconds: int, message: Seq<char>)
    ensures
        ({
            let line = line_text(seconds, message);
            let n = timestamp_text(seconds).len() as int;
            &&& line.len() == n + message.len() + 2
            &&& line.take(n) == timestamp_text(seconds)
            &&& line[n] == ' '
            &&& line.subrange(n + 1, n + 1 + message.len()) == message
            &&& line.last() == '\n'
        }),
{
    reveal_strlit(" ");
    reveal_strlit("\n");
    let line = line_text(seconds, message);
    let n = timestamp_text(seconds).len() as int;
    assert(line.take(n) =~= timestamp_text(seconds));
    assert(line.subrange(n + 1, n + 1 + message.len()) =~= message);
}

/// The lines that were written count, and no other. The log is rotated as soon as they
/// reach five megabytes, and starts over only where that worked.
pub proof fn written_lines_count(bytes: int, first: int, second: int, written: bool)
    ensures
        bytes_with(bytes_with(bytes, first, true), second, true) == bytes + first + second,
        bytes_with(bytes, first, false) == bytes,
        rotates(bytes, first, written) <==> written && bytes + first >= 5 * 1024 * 1024,
        bytes_rotated(bytes, true) == 0,
        bytes_rotated(bytes, false) == bytes,
{
}

} // verus!
