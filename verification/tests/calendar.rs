use agent::calendar::civil_from_days;

#[test]
fn converts_epoch_to_civil_dates() {
    assert_eq!(civil_from_days(0), (1970, 1, 1));
    assert_eq!(civil_from_days(19_723), (2024, 1, 1));
    // 2024 is a leap year: 2024-02-29 is day 19782.
    assert_eq!(civil_from_days(19_782), (2024, 2, 29));
    assert_eq!(civil_from_days(-1), (1969, 12, 31));
}

#[test]
fn counts_every_day_once() {
    let mut days: i64 = -800_000;
    let mut date = civil_from_days(days);
    while days < 800_000 {
        days += 1;
        let next = civil_from_days(days);
        let month_ends = next.2 == 1;
        if month_ends {
            let year_ends = next.1 == 1;
            assert!(date.2 >= 28);
            if year_ends {
                assert_eq!((next.0, date.1, date.2), (date.0 + 1, 12, 31));
            } else {
                assert_eq!((next.0, next.1), (date.0, date.1 + 1));
            }
        } else {
            assert_eq!(next, (date.0, date.1, date.2 + 1));
        }
        date = next;
    }
}

#[test]
fn knows_which_centuries_are_leap_years() {
    assert_eq!(civil_from_days(11_016), (2000, 2, 29));
    assert_eq!(civil_from_days(11_017), (2000, 3, 1));
    assert_eq!(civil_from_days(-25_509), (1900, 2, 28));
    assert_eq!(civil_from_days(-25_508), (1900, 3, 1));
    assert_eq!(civil_from_days(i64::MIN), (-25252734927764585, 6, 7));
}
