//! The proleptic Gregorian calendar, counted in days from 1970-01-01.

use vstd::prelude::*;

verus! {

/// Whether `year` has a 29 February.
pub open spec fn is_leap(year: int) -> bool {
    year % 4 == 0 && (year % 100 != 0 || year % 400 == 0)
}

/// How many days a month has.
pub open spec fn days_in_month(year: int, month: int) -> int {
    if month == 2 {
        if is_leap(year) {
            29
        } else {
            28
        }
    } else if month == 4 || month == 6 || month == 9 || month == 11 {
        30
    } else {
        31
    }
}

/// `year`-`month`-`day` is a date of the calendar.
pub open spec fn is_date(year: int, month: int, day: int) -> bool {
    1 <= month <= 12 && 1 <= day <= days_in_month(year, month)
}

/// Days from 1970-01-01 to the first day of `year`: 365 for every year between,
/// and one more for each leap year.
pub open spec fn days_before_year(year: int) -> int {
    365 * (year - 1970) + leap_years_through(year - 1) - leap_years_through(1969)
}

/// The leap years from year 1 through `year` (counted downwards before year 1).
pub open spec fn leap_years_through(year: int) -> int {
    year / 4 - year / 100 + year / 400
}

/// Days of `year` before the first day of `month`.
pub open spec fn days_before_month(year: int, month: int) -> int
    decreases month,
{
    if month <= 1 {
        0
    } else {
        days_before_month(year, month - 1) + days_in_month(year, month - 1)
    }
}

/// Days from 1970-01-01 to the given date.
pub open spec fn day_number(year: int, month: int, day: int) -> int {
    days_before_year(year) + days_before_month(year, month) + day - 1
}

/// The date after the given one.
pub open spec fn next_date(year: int, month: int, day: int) -> (int, int, int) {
    if day < days_in_month(year, month) {
        (year, month, day + 1)
    } else if month < 12 {
        (year, month + 1, 1)
    } else {
        (year + 1, 1, 1)
    }
}

proof fn month_starts(year: int)
    ensures
        days_before_month(year, 1) == 0,
        days_before_month(year, 2) == 31,
        ({
            let march = days_in_month(year, 2) + 31;
            &&& days_before_month(year, 3) == march
            &&& days_before_month(year, 4) == march + 31
            &&& days_before_month(year, 5) == march + 61
            &&& days_before_month(year, 6) == march + 92
            &&& days_before_month(year, 7) == march + 122
            &&& days_before_month(year, 8) == march + 153
            &&& days_before_month(year, 9) == march + 184
            &&& days_before_month(year, 10) == march + 214
            &&& days_before_month(year, 11) == march + 245
            &&& days_before_month(year, 12) == march + 275
        }),
{
    reveal_with_fuel(days_before_month, 13);
}

/// A year is as long as its months together.
proof fn year_length(year: int)
    ensures
        days_before_year(year + 1) == days_before_year(year) + 365 + (if is_leap(year) {
            1int
        } else {
            0int
        }),
{
}

/// The day after a date has the next number, so that the numbers count the days
/// one by one, and 1970-01-01 has the number 0.
pub proof fn day_numbers_count_days(year: int, month: int, day: int)
    requires
        is_date(year, month, day),
    ensures
        ({
            let (y, m, d) = next_date(year, month, day);
            is_date(y, m, d) && day_number(y, m, d) == day_number(year, month, day) + 1
        }),
        day_number(1970, 1, 1) == 0,
{
    month_starts(year);
    month_starts(year + 1);
    month_starts(1970);
    year_length(year);
}

/// The days of a month before the last lie before the next month.
proof fn month_numbers_grow(year: int, m: int, n: int)
    requires
        1 <= m < n <= 13,
    ensures
        days_before_month(year, m) + days_in_month(year, m) <= days_before_month(year, n),
    decreases n,
{
    if m < n - 1 {
        month_numbers_grow(year, m, n - 1);
    }
}

/// Year starts grow by at least 365 days a year.
proof fn year_numbers_grow(a: int, b: int)
    requires
        a < b,
    ensures
        days_before_year(a + 1) <= days_before_year(b),
    decreases b - a,
{
    if a + 1 < b {
        year_numbers_grow(a, b - 1);
        year_length(b - 1);
    }
}

/// Two dates with the same number are the same date.
pub proof fn day_numbers_are_unique(y1: int, m1: int, d1: int, y2: int, m2: int, d2: int)
    requires
        is_date(y1, m1, d1),
        is_date(y2, m2, d2),
        day_number(y1, m1, d1) == day_number(y2, m2, d2),
    ensures
        y1 == y2 && m1 == m2 && d1 == d2,
{
    month_starts(y1);
    month_starts(y2);
    year_length(y1);
    year_length(y2);
    if y1 < y2 {
        year_numbers_grow(y1, y2);
    } else if y2 < y1 {
        year_numbers_grow(y2, y1);
    } else if m1 < m2 {
        month_numbers_grow(y1, m1, m2);
    } else if m2 < m1 {
        month_numbers_grow(y1, m2, m1);
    }
}

/// A date lies in its year.
proof fn dates_lie_in_their_year(year: int, month: int, day: int)
    requires
        is_date(year, month, day),
    ensures
        days_before_year(year) <= day_number(year, month, day) < days_before_year(year + 1),
{
    month_starts(year);
    year_length(year);
}

/// A date with a lower number is an earlier date.
pub proof fn lower_numbers_are_earlier_dates(y1: int, m1: int, d1: int, y2: int, m2: int, d2: int)
    requires
        is_date(y1, m1, d1),
        is_date(y2, m2, d2),
        day_number(y1, m1, d1) < day_number(y2, m2, d2),
    ensures
        y1 < y2 || (y1 == y2 && (m1 < m2 || (m1 == m2 && d1 < d2))),
{
    dates_lie_in_their_year(y1, m1, d1);
    dates_lie_in_their_year(y2, m2, d2);
    if y2 < y1 {
        year_numbers_grow(y2, y1);
    } else if y1 == y2 && m2 < m1 {
        month_numbers_grow(y1, m2, m1);
    }
}

/// Every day from 1970-01-01 on has a date.
pub proof fn every_day_has_a_date(days: int)
    requires
        0 <= days,
    ensures
        exists|date: (int, int, int)|
            is_date(date.0, date.1, date.2) && #[trigger] day_number(date.0, date.1, date.2)
                == days,
    decreases days,
{
    if days == 0 {
        day_numbers_count_days(1970, 1, 1);
        let date = (1970int, 1int, 1int);
        assert(day_number(date.0, date.1, date.2) == days);
    } else {
        every_day_has_a_date(days - 1);
        let date = choose|date: (int, int, int)|
            is_date(date.0, date.1, date.2) && #[trigger] day_number(date.0, date.1, date.2) == days
                - 1;
        day_numbers_count_days(date.0, date.1, date.2);
        let later = next_date(date.0, date.1, date.2);
        assert(day_number(later.0, later.1, later.2) == days);
    }
}

/// The days from 1970-01-01 to 9999-12-31 lie in years of four digits.
pub proof fn years_have_four_digits(year: int, month: int, day: int)
    requires
        is_date(year, month, day),
        0 <= day_number(year, month, day) < 2_932_897,
    ensures
        1970 <= year <= 9999,
{
    dates_lie_in_their_year(year, month, day);
    assert(days_before_year(1970) == 0);
    assert(days_before_year(10_000) == 2_932_897);
    if year < 1970 {
        year_numbers_grow(year, 1970);
    } else if year > 9999 {
        if year > 10_000 {
            year_numbers_grow(10_000, year);
            year_length(10_000);
        }
    }
}

/// In a cycle of 400 years that begin in March, `day_of_era` falls into year
/// `year_of_era`, on a day that this year has.
proof fn year_of_era_is_right(day_of_era: int, year_of_era: int)
    requires
        0 <= day_of_era < 146_097,
        year_of_era == (day_of_era - day_of_era / 1_460 + day_of_era / 36_524 - day_of_era
            / 146_096) / 365,
    ensures
        0 <= year_of_era <= 399,
        ({
            let day_of_year = day_of_era - (365 * year_of_era + year_of_era / 4 - year_of_era
                / 100);
            &&& 0 <= day_of_year <= 365
            &&& day_of_year == 365 ==> is_leap(year_of_era + 1)
        }),
{
    if day_of_era == 146_096 {
        assert(year_of_era == 399);
    } else {
        let b = day_of_era / 36_524;
        let r = day_of_era % 36_524;
        assert(day_of_era == 36_524 * b + r);
        assert(0 <= b <= 3);
        assert(day_of_era / 146_096 == 0);
        assert(day_of_era / 1_460 == 25 * b + (24 * b + r) / 1_460);
        let q = r / 1_461;
        let s = r % 1_461;
        assert(r == 1_461 * q + s);
        assert(0 <= q <= 24);
        let e: int = if q + s + 24 * b >= 1_460 {
            1
        } else {
            0
        };
        assert((24 * b + r) / 1_460 == q + e);
        let t = if s < 365 {
            0int
        } else if s < 730 {
            1
        } else if s < 1_095 {
            2
        } else {
            3
        };
        assert((s - e) / 365 == t);
        let n = 4 * q + t;
        assert((36_500 * b + 1_460 * q + s - e) / 365 == 100 * b + 4 * q + t);
        assert(year_of_era == 100 * b + n);
        assert(0 <= n <= 99);
        assert(n / 4 == q);
        assert(year_of_era / 4 == 25 * b + q);
        assert(year_of_era / 100 == b);
    }
}

/// In a year that begins in March, `day_of_year` falls into month `month_prime`.
proof fn month_prime_is_right(day_of_year: int, month_prime: int)
    requires
        0 <= day_of_year <= 365,
        month_prime == (5 * day_of_year + 2) / 153,
    ensures
        0 <= month_prime <= 11,
        (153 * month_prime + 2) / 5 <= day_of_year,
        month_prime < 11 ==> day_of_year < (153 * (month_prime + 1) + 2) / 5,
{
}

/// The months from March to December, counted from the first of March.
proof fn month_of_march_year(year: int, month_prime: int, day_of_year: int)
    requires
        0 <= month_prime < 10,
        (153 * month_prime + 2) / 5 <= day_of_year < (153 * (month_prime + 1) + 2) / 5,
    ensures
        days_before_month(year, month_prime + 3) == 31 + days_in_month(year, 2) + (153 * month_prime
            + 2) / 5,
        day_of_year - (153 * month_prime + 2) / 5 < days_in_month(year, month_prime + 3),
{
    month_starts(year);
    if month_prime == 0 {
    } else if month_prime == 1 {
    } else if month_prime == 2 {
    } else if month_prime == 3 {
    } else if month_prime == 4 {
    } else if month_prime == 5 {
    } else if month_prime == 6 {
    } else if month_prime == 7 {
    } else if month_prime == 8 {
    } else {
        assert(month_prime == 9);
    }
}

proof fn leap_years_of_era(era: int, year_of_era: int)
    requires
        0 <= year_of_era <= 399,
    ensures
        leap_years_through(year_of_era + 400 * era) == 97 * era + year_of_era / 4 - year_of_era
            / 100,
{
    let y = year_of_era + 400 * era;
    assert(y / 4 == 100 * era + year_of_era / 4);
    assert(y / 100 == 4 * era + year_of_era / 100);
    assert(y / 400 == era);
}

proof fn leap_repeats(era: int, year: int)
    ensures
        is_leap(year + 400 * era) == is_leap(year),
{
    let y = year + 400 * era;
    assert(y % 4 == year % 4);
    assert(y % 100 == year % 100);
    assert(y % 400 == year % 400);
}

proof fn leap_years_step(year: int)
    ensures
        leap_years_through(year) == leap_years_through(year - 1) + days_in_month(year, 2) - 28,
{
}

proof fn leap_years_before_epoch()
    ensures
        leap_years_through(1969) == 477,
{
}

/// Where the first of March of a year of an era lies, and the first of January
/// that follows it.
proof fn march_starts(era: int, year_of_era: int)
    requires
        0 <= year_of_era <= 399,
    ensures
        ({
            let y = year_of_era + 400 * era;
            let march = 146_097 * era + 365 * year_of_era + year_of_era / 4 - year_of_era / 100
                - 719_468;
            &&& days_before_year(y) + 31 + days_in_month(y, 2) == march
            &&& days_before_year(y + 1) == march + 306
            &&& is_leap(y + 1) == is_leap(year_of_era + 1)
        }),
{
    let y = year_of_era + 400 * era;
    leap_years_of_era(era, year_of_era);
    leap_repeats(era, year_of_era + 1);
    leap_years_step(y);
    leap_years_before_epoch();
    march_sum(
        era,
        year_of_era,
        leap_years_through(y),
        leap_years_through(y - 1),
        year_of_era / 4 - year_of_era / 100,
    );
}

proof fn march_sum(era: int, year_of_era: int, leaps: int, leaps_before: int, short: int)
    requires
        leaps == 97 * era + short,
    ensures
        ({
            let y = year_of_era + 400 * era;
            let march = 146_097 * era + 365 * year_of_era + short - 719_468;
            &&& 365 * (y - 1970) + leaps_before - 477 + 59 + (leaps - leaps_before) == march
            &&& 365 * (y + 1 - 1970) + leaps - 477 == march + 306
        }),
{
}

/// The date that the era, the year, and the day in a year from March give.
proof fn march_date_is_right(era: int, year_of_era: int, day_of_year: int, month_prime: int)
    requires
        0 <= year_of_era <= 399,
        0 <= day_of_year <= 365,
        day_of_year == 365 ==> is_leap(year_of_era + 1),
        month_prime == (5 * day_of_year + 2) / 153,
    ensures
        ({
            let day = day_of_year - (153 * month_prime + 2) / 5 + 1;
            let month = if month_prime < 10 {
                month_prime + 3
            } else {
                month_prime - 9
            };
            let year = year_of_era + 400 * era + (if month <= 2 {
                1int
            } else {
                0
            });
            &&& is_date(year, month, day)
            &&& day_number(year, month, day) == 146_097 * era + 365 * year_of_era + year_of_era
                / 4 - year_of_era / 100 + day_of_year - 719_468
        }),
{
    let y = year_of_era + 400 * era;
    month_prime_is_right(day_of_year, month_prime);
    march_starts(era, year_of_era);
    let day = day_of_year - (153 * month_prime + 2) / 5 + 1;
    if month_prime < 10 {
        month_starts(y);
        month_of_march_year(y, month_prime, day_of_year);
    } else {
        month_starts(y + 1);
        assert(month_prime == 10 ==> 306 <= day_of_year < 337);
        assert(month_prime == 11 ==> 337 <= day_of_year);
    }
}

/// Convert a count of days since 1970-01-01 into a civil (year, month, day).
///
/// Howard Hinnant's `civil_from_days` algorithm, shifted to a 0000-03-01 era
/// so leap years fall at the end of the cycle.
pub fn civil_from_days(days_since_epoch: i64) -> (date: (i64, u32, u32))
    requires
        days_since_epoch <= i64::MAX - 719_468,
    ensures
        is_date(date.0 as int, date.1 as int, date.2 as int),
        day_number(date.0 as int, date.1 as int, date.2 as int) == days_since_epoch,
{
    let z: i64 = days_since_epoch + 719_468;
    let era: i64 = if z >= 0 {
        z / 146_097
    } else {
        -((146_096 - z) / 146_097)
    };
    proof {
        assert(era == z as int / 146_097);
    }
    let day_of_era: u64 = (z - era * 146_097) as u64;
    let year_of_era: u64 = (day_of_era - day_of_era / 1_460 + day_of_era / 36_524 - day_of_era
        / 146_096) / 365;
    proof {
        year_of_era_is_right(day_of_era as int, year_of_era as int);
    }
    let year: i64 = year_of_era as i64 + era * 400;
    let day_of_year: u64 = day_of_era - (365 * year_of_era + year_of_era / 4 - year_of_era / 100);
    let month_prime: u64 = (5 * day_of_year + 2) / 153;
    proof {
        month_prime_is_right(day_of_year as int, month_prime as int);
    }
    let day: u32 = (day_of_year - (153 * month_prime + 2) / 5 + 1) as u32;
    let month: u32 = if month_prime < 10 {
        (month_prime + 3) as u32
    } else {
        (month_prime - 9) as u32
    };
    let shifted: i64 = if month <= 2 {
        year + 1
    } else {
        year
    };
    proof {
        march_date_is_right(
            era as int,
            year_of_era as int,
            day_of_year as int,
            month_prime as int,
        );
    }
    (shifted, month, day)
}

/// Every fourth year is a leap year, but of the years that end in two zeros only every
/// fourth.
pub proof fn leap_years_follow_the_rule(quarter: int)
    ensures
        !is_leap(4 * quarter + 1),
        !is_leap(4 * quarter + 2),
        !is_leap(4 * quarter + 3),
        quarter % 25 != 0 ==> is_leap(4 * quarter),
        quarter % 25 == 0 ==> (is_leap(4 * quarter) <==> quarter % 100 == 0),
{
}

/// The months of a year have 365 days together, and one more in a leap year; it is the
/// second month that has it.
pub proof fn months_make_a_year(year: int)
    ensures
        days_before_month(year, 13) == 365 + (if is_leap(year) { 1int } else { 0 }),
        days_in_month(year, 2) == 28 + (if is_leap(year) { 1int } else { 0 }),
        days_in_month(year, 1) == 31,
        days_in_month(year, 3) == 31,
        days_in_month(year, 4) == 30,
        days_in_month(year, 5) == 31,
        days_in_month(year, 6) == 30,
        days_in_month(year, 7) == 31,
        days_in_month(year, 8) == 31,
        days_in_month(year, 9) == 30,
        days_in_month(year, 10) == 31,
        days_in_month(year, 11) == 30,
        days_in_month(year, 12) == 31,
{
    month_starts(year);
}

/// The calendar repeats every four hundred years, which are 146097 days.
pub proof fn the_calendar_repeats(year: int, month: int, day: int)
    ensures
        day_number(year + 400, month, day) == day_number(year, month, day) + 146_097,
        is_date(year + 400, month, day) == is_date(year, month, day),
        day_number(1970, 1, 1) == 0,
{
    leap_repeats(1, year);
    months_repeat(year, month);
    let y = year - 1;
    assert((y + 400) / 4 == y / 4 + 100);
    assert((y + 400) / 100 == y / 100 + 4);
    assert((y + 400) / 400 == y / 400 + 1);
}

proof fn months_repeat(year: int, month: int)
    ensures
        days_before_month(year + 400, month) == days_before_month(year, month),
    decreases month,
{
    if month > 1 {
        leap_repeats(1, year);
        months_repeat(year, month - 1);
    }
}

} // verus!
