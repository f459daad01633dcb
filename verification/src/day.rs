//! The seven days of the week, and their correspondence with weekday
//! residues modulo 7.

use vstd::prelude::*;

verus! {

/// A day of the week.
///
/// Each day corresponds to a *residue* in `[0, 6]`: `Sunday` is residue 0 and
/// `Monday` through `Saturday` are residues 1 through 6. The residue is how
/// weekdays take part in the doomsday arithmetic.
#[derive(Clone, Copy, Debug, PartialEq, Eq, PartialOrd, Ord, Structural)]
pub enum Day {
    /// Moon
    Monday,
    /// Mars
    Tuesday,
    /// Mercury
    Wednesday,
    /// Jupiter
    Thursday,
    /// Venus
    Friday,
    /// Saturn
    Saturday,
    /// Sol (the sun itself)
    Sunday,
}

/// The residue of a day: `Sunday` is 0, `Monday` through `Saturday` are
/// 1 through 6.
pub open spec fn day_residue(d: Day) -> int {
    match d {
        Day::Monday => 1,
        Day::Tuesday => 2,
        Day::Wednesday => 3,
        Day::Thursday => 4,
        Day::Friday => 5,
        Day::Saturday => 6,
        Day::Sunday => 0,
    }
}

/// The day with a given residue: the inverse of [`day_residue`].
pub open spec fn day_of_residue(r: int) -> Day
    recommends
        0 <= r < 7,
{
    if r == 1 {
        Day::Monday
    } else if r == 2 {
        Day::Tuesday
    } else if r == 3 {
        Day::Wednesday
    } else if r == 4 {
        Day::Thursday
    } else if r == 5 {
        Day::Friday
    } else if r == 6 {
        Day::Saturday
    } else {
        Day::Sunday
    }
}

/// The zero-based position of a day within the week, `Monday` first:
/// `Monday` is 0 and `Sunday` is 6. This is the order the variants are
/// declared in, and one less (modulo 7) than [`day_residue`].
pub open spec fn day_position(d: Day) -> int {
    match d {
        Day::Monday => 0,
        Day::Tuesday => 1,
        Day::Wednesday => 2,
        Day::Thursday => 3,
        Day::Friday => 4,
        Day::Saturday => 5,
        Day::Sunday => 6,
    }
}

/// The canonical English name of a day.
pub open spec fn day_name(d: Day) -> Seq<char> {
    match d {
        Day::Monday => "Monday"@,
        Day::Tuesday => "Tuesday"@,
        Day::Wednesday => "Wednesday"@,
        Day::Thursday => "Thursday"@,
        Day::Friday => "Friday"@,
        Day::Saturday => "Saturday"@,
        Day::Sunday => "Sunday"@,
    }
}

impl Day {
    /// Convert an anchor date to its corresponding day of the week.
    ///
    /// An anchor date is defined with respect to a year's doomsday; only its
    /// residue modulo 7 matters, so the conversion is total. Residue 0 is
    /// `Sunday`, residues 1 through 6 are `Monday` through `Saturday`.
    pub fn from_anchor(anchor: usize) -> (d: Day)
        ensures
            d == day_of_residue(anchor as int % 7),
    {
        let r = anchor % 7;
        if r == 1 {
            Day::Monday
        } else if r == 2 {
            Day::Tuesday
        } else if r == 3 {
            Day::Wednesday
        } else if r == 4 {
            Day::Thursday
        } else if r == 5 {
            Day::Friday
        } else if r == 6 {
            Day::Saturday
        } else {
            Day::Sunday
        }
    }

    /// The residue of this day, in `[0, 6]`: the value [`Day::from_anchor`]
    /// maps back to this day.
    pub fn to_anchor(&self) -> (r: usize)
        ensures
            r == day_residue(*self),
            0 <= r < 7,
            day_of_residue(r as int) == *self,
    {
        match self {
            Day::Monday => 1,
            Day::Tuesday => 2,
            Day::Wednesday => 3,
            Day::Thursday => 4,
            Day::Friday => 5,
            Day::Saturday => 6,
            Day::Sunday => 0,
        }
    }

    /// The zero-based position of this day within the week, `Monday` first.
    pub fn position(&self) -> (p: usize)
        ensures
            p == day_position(*self),
            0 <= p < 7,
    {
        match self {
            Day::Monday => 0,
            Day::Tuesday => 1,
            Day::Wednesday => 2,
            Day::Thursday => 3,
            Day::Friday => 4,
            Day::Saturday => 5,
            Day::Sunday => 6,
        }
    }

    /// The canonical English name of this day.
    pub fn name(&self) -> (r: &'static str)
        ensures
            r@ == day_name(*self),
    {
        match self {
            Day::Monday => "Monday",
            Day::Tuesday => "Tuesday",
            Day::Wednesday => "Wednesday",
            Day::Thursday => "Thursday",
            Day::Friday => "Friday",
            Day::Saturday => "Saturday",
            Day::Sunday => "Sunday",
        }
    }
}

impl Default for Day {
    /// The default day is `Sunday`, the day of residue 0.
    fn default() -> (d: Day)
        ensures
            d == Day::Sunday,
    {
        Day::Sunday
    }
}

/// Converting a day to its residue and back yields the same day.
pub proof fn lemma_day_residue_round_trip(d: Day)
    ensures
        day_of_residue(day_residue(d)) == d,
{
}

} // verus!
