use doomsday::day_from_anchor;
use doomsday::day_of_the_week;
use doomsday::is_leap;
use doomsday::leaps;
use doomsday::Day;
use doomsday::Doomsday;
use doomsday::Error;
use doomsday::FIRST_LEAP_YEAR;

// Day of the week (the trick).

#[test]
fn test_day_of_the_week() {
    assert_eq!(Day::Friday, day_of_the_week(1937, 03, 26).unwrap());
    assert_eq!(Day::Saturday, day_of_the_week(2020, 04, 11).unwrap());
}

#[test]
fn test_day_of_the_week_conway() {
    assert_eq!(Day::Tuesday, day_of_the_week(2020, 04, 14).unwrap());
}

#[test]
fn lib_test_day_from_anchor() {
    assert_eq!(Day::Sunday, day_from_anchor(0));
    assert_eq!(Day::Monday, day_from_anchor(1));
    assert_eq!(Day::Friday, day_from_anchor(5));
    assert_eq!(Day::Saturday, day_from_anchor(6));
}

// Leap year functions.

#[test]
fn test_is_leap() {
    assert!(is_leap(1752).unwrap());
    assert!(is_leap(1756).unwrap());
    assert!(is_leap(2020).unwrap());
    assert!(!is_leap(1800).unwrap());
    assert!(!is_leap(1900).unwrap());
    assert!(is_leap(2000).unwrap());
}

#[test]
fn test_leaps() {
    assert_eq!(0, leaps(1752).unwrap());
    assert_eq!(1, leaps(1756).unwrap());
    assert_eq!(60, leaps(2000).unwrap());
    assert_eq!(65, leaps(2020).unwrap());
}

// The leap count never decreases as the year increases.
#[test]
fn test_leaps_non_decreasing() {
    let mut previous = leaps(FIRST_LEAP_YEAR).unwrap();
    for year in FIRST_LEAP_YEAR..2100 {
        let current = leaps(year).unwrap();
        assert!(previous <= current);
        previous = current;
    }
}

// Doomsday functions.

#[test]
fn lib_test_day() {
    assert_eq!(Day::Tuesday, Doomsday(1752).day().unwrap());
    assert_eq!(Day::Sunday, Doomsday(1993).day().unwrap());
    assert_eq!(Day::Saturday, Doomsday(2020).day().unwrap());
}

#[test]
fn test_date() {
    assert_eq!(3, Doomsday(1993).date(doomsday::Month::January).unwrap());
    assert_eq!(4, Doomsday(2020).date(doomsday::Month::January).unwrap());
    assert_eq!(28, Doomsday(1993).date(doomsday::Month::February).unwrap());
    assert_eq!(29, Doomsday(2020).date(doomsday::Month::February).unwrap());
    assert_eq!(0, Doomsday(2000).date(doomsday::Month::March).unwrap());
    assert_eq!(4, Doomsday(2020).date(doomsday::Month::April).unwrap());
    assert_eq!(9, Doomsday(2020).date(doomsday::Month::May).unwrap());
    assert_eq!(6, Doomsday(2020).date(doomsday::Month::June).unwrap());
    assert_eq!(11, Doomsday(2020).date(doomsday::Month::July).unwrap());
    assert_eq!(8, Doomsday(2020).date(doomsday::Month::August).unwrap());
    assert_eq!(5, Doomsday(2020).date(doomsday::Month::September).unwrap());
    assert_eq!(10, Doomsday(2020).date(doomsday::Month::October).unwrap());
    assert_eq!(7, Doomsday(2020).date(doomsday::Month::November).unwrap());
    assert_eq!(12, Doomsday(2020).date(doomsday::Month::December).unwrap());
}

// Failure modes.

#[test]
fn test_year_out_of_range() {
    assert_eq!(Err(Error::OutOfRange(1751)), is_leap(1751));
    assert_eq!(Err(Error::OutOfRange(1751)), leaps(1751));
    assert_eq!(Err(Error::OutOfRange(1751)), day_of_the_week(1751, 1, 1));
    assert_eq!(Err(Error::OutOfRange(0)), is_leap(0));
    // The year is examined before the month ordinal.
    assert_eq!(Err(Error::OutOfRange(1751)), day_of_the_week(1751, 13, 1));
}

#[test]
fn test_month_out_of_range() {
    assert_eq!(Err(Error::InvalidOrdinal(0)), day_of_the_week(2020, 0, 14));
    assert_eq!(Err(Error::InvalidOrdinal(13)), day_of_the_week(2020, 13, 14));
}

// The day of the month is not range-checked: day 0 and days past the end of
// the month are plain modular offsets.
#[test]
fn test_day_offsets_are_modular() {
    // Day 0 of April 2020 is seven days before the 7th.
    assert_eq!(
        day_of_the_week(2020, 04, 0).unwrap(),
        day_of_the_week(2020, 04, 7).unwrap()
    );
    // Day 35 of February wraps around modulo 7 to day 0.
    assert_eq!(
        day_of_the_week(2020, 02, 35).unwrap(),
        day_of_the_week(2020, 02, 0).unwrap()
    );
}

#[test]
fn test_first_leap_year() {
    assert_eq!(1752, FIRST_LEAP_YEAR);
    assert!(is_leap(FIRST_LEAP_YEAR).unwrap());
    assert_eq!(0, leaps(FIRST_LEAP_YEAR).unwrap());
}
