//! Day-of-the-week computation for Gregorian calendar dates, by the doomsday
//! method: every year has a single weekday (its *doomsday*) on which a fixed
//! set of easily remembered anchor dates fall, one per month; the weekday of
//! any date is then an offset from its month's anchor, reduced modulo 7.
//!
//! Years before [`FIRST_LEAP_YEAR`] are not supported: each year-taking
//! function rejects them with [`Error::OutOfRange`].

use vstd::prelude::*;

mod day;
mod doomsday;
mod error;
mod leap;
mod month;

pub use day::Day;
pub use day::day_name;
pub use day::day_of_residue;
pub use day::day_position;
pub use day::day_residue;
pub use day::lemma_day_residue_round_trip;
pub use doomsday::Doomsday;
pub use doomsday::anchor_of;
pub use doomsday::doomsday_day;
pub use doomsday::doomsday_residue;
pub use doomsday::lemma_doomsday_advance;
pub use doomsday::lemma_doomsday_step;
pub use error::Error;
pub use leap::FIRST_LEAP_YEAR;
pub use leap::counted_leap;
pub use leap::is_leap;
pub use leap::leaps;
pub use leap::lemma_leaps_at_epoch;
pub use leap::lemma_leaps_monotone;
pub use leap::lemma_leaps_step;
pub use leap::spec_is_leap;
pub use leap::spec_leaps;
pub use month::Month;
pub use month::lemma_month_ordinal_round_trip;
pub use month::month_name;
pub use month::month_of_ordinal;
pub use month::month_ordinal;

use vstd::arithmetic::div_mod::lemma_add_mod_noop_right;

verus! {

/// The day of the week carried by a date, combining the three residues the
/// doomsday method works from: the position of the year's doomsday within
/// the week, the month's anchor day number, and the 1-based day of the
/// month, summed and reduced modulo 7.
pub open spec fn spec_day_of_the_week(year: int, month: Month, day: int) -> Day
    recommends
        year >= FIRST_LEAP_YEAR,
{
    day_of_residue(
        (day_position(doomsday_day(year)) + anchor_of(year, month) + day) % 7,
    )
}

/// Convert an anchor date to its corresponding day of the week; the free
/// form of [`Day::from_anchor`].
pub fn day_from_anchor(anchor: usize) -> (d: Day)
    ensures
        d == day_of_residue(anchor as int % 7),
{
    Day::from_anchor(anchor)
}

/// Return the day of the week for a given year, month and day, where
/// `month` is the month's 1-based ordinal.
///
/// A year before [`FIRST_LEAP_YEAR`] is rejected with
/// [`Error::OutOfRange`], and a month ordinal outside `1..=12` with
/// [`Error::InvalidOrdinal`]; the year is examined first. The day of the
/// month is not range-checked: the computation is modular arithmetic and is
/// well defined for any day offset, day 0 and days past the month's end
/// included.
pub fn day_of_the_week(year: usize, month: usize, day: usize) -> (r: Result<Day, Error>)
    ensures
        year >= FIRST_LEAP_YEAR && 1 <= month <= 12 ==> r == Ok::<Day, Error>(
            spec_day_of_the_week(year as int, month_of_ordinal(month as int), day as int),
        ),
        year < FIRST_LEAP_YEAR ==> r == Err::<Day, Error>(Error::OutOfRange(year)),
        year >= FIRST_LEAP_YEAR && !(1 <= month <= 12) ==> r == Err::<Day, Error>(
            Error::InvalidOrdinal(month),
        ),
{
    let dd = Doomsday(year);
    let dday = match dd.day() {
        Ok(d) => d,
        Err(e) => {
            return Err(e);
        },
    };
    let m = match Month::from_ordinal(month) {
        Ok(m) => m,
        Err(e) => {
            return Err(e);
        },
    };
    let a = match dd.of(m) {
        Ok(a) => a,
        Err(e) => {
            return Err(e);
        },
    };
    proof {
        lemma_add_mod_noop_right(
            day_position(doomsday_day(year as int)) + anchor_of(year as int, m),
            day as int,
            7,
        );
    }
    Ok(Day::from_anchor(dday.position() + a + day % 7))
}

} // verus!
