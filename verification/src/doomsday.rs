//! The doomsday of a year, and the anchor dates of its months.

use vstd::prelude::*;

use vstd::arithmetic::div_mod::lemma_add_mod_noop;
use vstd::arithmetic::div_mod::lemma_add_mod_noop_right;
use vstd::arithmetic::div_mod::lemma_fundamental_div_mod;
use vstd::arithmetic::div_mod::lemma_fundamental_div_mod_converse;
use vstd::arithmetic::div_mod::lemma_mod_division_less_than_divisor;
use vstd::arithmetic::div_mod::lemma_mod_multiples_basic;
use vstd::arithmetic::div_mod::lemma_mod_multiples_vanish;

use crate::day::Day;
use crate::day::day_of_residue;
use crate::error::Error;
use crate::leap::FIRST_LEAP_YEAR;
use crate::leap::counted_leap;
use crate::leap::lemma_century_divisibility;
use crate::leap::is_leap;
use crate::leap::leaps;
use crate::leap::lemma_leaps_step;
use crate::leap::spec_is_leap;
use crate::leap::spec_leaps;
use crate::month::Month;

verus! {

/// Behold the doomsday of a year.
///
/// Every year has a single **doomsday**, for example `Doomsday(2020)` is
/// `Saturday`. Additionally, each month has a fixed day number on which
/// doomsday lies; for example, in `April` doomsday is always on the 4th.
/// Given these two pieces of information, it is possible to quickly
/// determine the day of any date.
///
/// Years before [`FIRST_LEAP_YEAR`] are not supported: every query on such
/// a year returns [`Error::OutOfRange`].
#[derive(Clone, Copy, Debug)]
pub struct Doomsday(pub usize);

/// The residue of a year's doomsday: the year plus its accumulated leap
/// count, reduced modulo 7.
pub open spec fn doomsday_residue(year: int) -> int
    recommends
        year >= FIRST_LEAP_YEAR,
{
    (year + spec_leaps(year)) % 7
}

/// The day of the week on which a year's doomsday lies.
pub open spec fn doomsday_day(year: int) -> Day
    recommends
        year >= FIRST_LEAP_YEAR,
{
    day_of_residue(doomsday_residue(year))
}

/// The day number within a month on which that month's doomsday anchor
/// lies. Only January and February depend on the year, because they precede
/// the point where a leap day is inserted; March's anchor is day 0, the
/// last day of February.
pub open spec fn anchor_of(year: int, month: Month) -> int
    recommends
        year >= FIRST_LEAP_YEAR,
{
    match month {
        Month::January => if spec_is_leap(year) { 4int } else { 3int },
        Month::February => if spec_is_leap(year) { 29int } else { 28int },
        Month::March => 0,
        Month::April => 4,
        Month::May => 9,
        Month::June => 6,
        Month::July => 11,
        Month::August => 8,
        Month::September => 5,
        Month::October => 10,
        Month::November => 7,
        Month::December => 12,
    }
}

/// Two-letter conveniences.
impl Doomsday {
    /// The day of the week this year's doomsday lies on; short for
    /// [`Doomsday::day`].
    #[inline]
    pub fn on(&self) -> (r: Result<Day, Error>)
        ensures
            self.0 >= FIRST_LEAP_YEAR ==> r == Ok::<Day, Error>(doomsday_day(self.0 as int)),
            self.0 < FIRST_LEAP_YEAR ==> r == Err::<Day, Error>(Error::OutOfRange(self.0)),
    {
        self.day()
    }

    /// The starting doomsday anchor for this month, in this year; short for
    /// [`Doomsday::date`].
    #[inline]
    pub fn of(&self, month: Month) -> (r: Result<usize, Error>)
        ensures
            self.0 >= FIRST_LEAP_YEAR ==> (r matches Ok(a) && a == anchor_of(
                self.0 as int,
                month,
            )),
            self.0 < FIRST_LEAP_YEAR ==> r == Err::<usize, Error>(Error::OutOfRange(self.0)),
    {
        self.date(month)
    }
}

impl Doomsday {
    /// Create a new doomsday for a given year.
    #[inline]
    pub fn new(year: usize) -> (d: Doomsday)
        ensures
            d.0 == year,
    {
        Doomsday(year)
    }

    /// The **day number** of the anchor doomsday in a given month, or
    /// [`Error::OutOfRange`] for a year before the epoch.
    ///
    /// This is the main utility of the crate. Notice how there are really
    /// only a few mnemonics to memorize here:
    ///
    /// - 4/4, 6/6, 8/8, 10/10, and 12/12
    /// - 9 to 5 at 7-Eleven
    /// - The last day of February (twice)
    /// - 3 for three years, then 4 on the fourth.
    pub fn date(&self, month: Month) -> (r: Result<usize, Error>)
        ensures
            self.0 >= FIRST_LEAP_YEAR ==> (r matches Ok(a) && a == anchor_of(
                self.0 as int,
                month,
            )),
            self.0 < FIRST_LEAP_YEAR ==> r == Err::<usize, Error>(Error::OutOfRange(self.0)),
    {
        match is_leap(self.0) {
            Err(e) => Err(e),
            Ok(leap) => Ok(
                match month {
                    // 3 for three years, then 4 on the fourth.
                    Month::January => if leap { 4 } else { 3 },
                    // Always the last day of the month.
                    Month::February => if leap { 29 } else { 28 },
                    // Also the last day of February, interestingly.
                    Month::March => 0,
                    // 4/4
                    Month::April => 4,
                    // 9 to 5 (reversed)
                    Month::May => 9,
                    // 6/6
                    Month::June => 6,
                    // 7-Eleven
                    Month::July => 11,
                    // 8/8
                    Month::August => 8,
                    // 9 to 5
                    Month::September => 5,
                    // 10/10
                    Month::October => 10,
                    // 7-Eleven (reversed)
                    Month::November => 7,
                    // 12/12
                    Month::December => 12,
                },
            ),
        }
    }

    /// The same anchor day number, under the name the mnemonic gives it.
    pub fn anchor(&self, month: Month) -> (r: Result<usize, Error>)
        ensures
            self.0 >= FIRST_LEAP_YEAR ==> (r matches Ok(a) && a == anchor_of(
                self.0 as int,
                month,
            )),
            self.0 < FIRST_LEAP_YEAR ==> r == Err::<usize, Error>(Error::OutOfRange(self.0)),
    {
        self.date(month)
    }

    /// The **day of the week** on which doomsday lies in this year, or
    /// [`Error::OutOfRange`] for a year before the epoch.
    pub fn day(&self) -> (r: Result<Day, Error>)
        ensures
            self.0 >= FIRST_LEAP_YEAR ==> r == Ok::<Day, Error>(doomsday_day(self.0 as int)),
            self.0 < FIRST_LEAP_YEAR ==> r == Err::<Day, Error>(Error::OutOfRange(self.0)),
    {
        match leaps(self.0) {
            Err(e) => Err(e),
            Ok(count) => {
                proof {
                    lemma_mod_division_less_than_divisor(self.0 as int, 7);
                    lemma_mod_division_less_than_divisor(count as int, 7);
                    lemma_add_mod_noop(self.0 as int, count as int, 7);
                }
                Ok(Day::from_anchor(self.0 % 7 + count % 7))
            },
        }
    }
}

/// Stepping the year forward by one advances the doomsday residue by two
/// when the new year adds a day to the leap count, and by one otherwise.
pub proof fn lemma_doomsday_step(year: int)
    requires
        year >= FIRST_LEAP_YEAR,
    ensures
        doomsday_residue(year + 1) == (doomsday_residue(year) + if counted_leap(year + 1) {
            2int
        } else {
            1int
        }) % 7,
{
    let shift: int = if counted_leap(year + 1) { 2 } else { 1 };
    lemma_leaps_step(year);
    assert(year + 1 + spec_leaps(year + 1) == (year + spec_leaps(year)) + shift);
    lemma_add_mod_noop_right(shift, year + spec_leaps(year), 7);
}

/// Wherever the counted years and the calendar leap years agree — that is,
/// everywhere but in a century year not divisible by 400, and in a year 52
/// past a century year unless it is 152 into a 400-year cycle — the
/// doomsday residue advances by two exactly when the new year is a leap
/// year, and by one otherwise. (Because the epoch is not a multiple of 100,
/// the count follows the offset and parts ways with the calendar rule in
/// the excluded years.)
pub proof fn lemma_doomsday_advance(year: int)
    requires
        year >= FIRST_LEAP_YEAR,
        (year + 1) % 100 == 0 ==> (year + 1) % 400 == 0,
        (year + 1) % 100 == 52 ==> (year + 1) % 400 == 152,
    ensures
        doomsday_residue(year + 1) == (doomsday_residue(year) + if spec_is_leap(year + 1) {
            2int
        } else {
            1int
        }) % 7,
{
    lemma_doomsday_step(year);
    lemma_counted_is_leap(year + 1);
}

/// A year is counted by the accumulator exactly when it is a leap year,
/// away from the years where the epoch offset shears the two notions apart.
proof fn lemma_counted_is_leap(year: int)
    requires
        year % 100 == 0 ==> year % 400 == 0,
        year % 100 == 52 ==> year % 400 == 152,
    ensures
        counted_leap(year) == spec_is_leap(year),
{
    let n = year - FIRST_LEAP_YEAR;
    assert(n % 4 == year % 4) by {
        lemma_mod_multiples_vanish(-438, year, 4);
    }
    if year % 100 == 0 {
        // A century year on the 400-year cycle: a leap year, and counted,
        // its offset landing 48 years past a multiple of 100.
        lemma_century_divisibility(year);
        lemma_fundamental_div_mod(year, 100);
        lemma_fundamental_div_mod_converse(n, 100, year / 100 - 18, 48);
    } else if year % 100 == 52 {
        // A year 152 into the 400-year cycle: a leap year, and counted,
        // its offset being a multiple of 400.
        lemma_fundamental_div_mod(year, 100);
        assert(year == 4 * (25 * (year / 100) + 13));
        lemma_mod_multiples_basic(25 * (year / 100) + 13, 4);
        lemma_fundamental_div_mod(year, 400);
        assert(n == 400 * (year / 400 - 4));
        lemma_mod_multiples_basic(year / 400 - 4, 400);
    } else {
        // Elsewhere the offset is not a multiple of 100, so both notions
        // reduce to divisibility by 4, on which year and offset agree.
        assert(n % 100 == (year - 52) % 100) by {
            lemma_mod_multiples_vanish(-17, year - 52, 100);
        }
        assert(n % 100 != 0) by {
            if n % 100 == 0 {
                lemma_fundamental_div_mod(year - 52, 100);
                lemma_fundamental_div_mod_converse(year, 100, (year - 52) / 100, 52);
            }
        }
    }
}

} // verus!
