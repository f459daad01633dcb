//! The twelve months of the year, and their correspondence with 1-based
//! ordinals.

use vstd::prelude::*;

use crate::error::Error;

verus! {

/// A month of the year.
///
/// Each month corresponds to a 1-based *ordinal*: `January` is 1 and
/// `December` is 12. Conversion from an out-of-range ordinal is an error;
/// the set of months is closed, so no fallback exists.
#[derive(Clone, Copy, Debug, PartialEq, Eq, PartialOrd, Ord, Structural)]
pub enum Month {
    /// Janus, beginnings and endings.
    January,
    /// Februus, celebrations of Rome.
    February,
    /// Mars, Roman god of war.
    March,
    /// Aprilis, opening of the flowers.
    April,
    /// Maiores, meaning "major" or older.
    May,
    /// Iuniores, meaning "junior" or the younger.
    June,
    /// Julius, named in 44 BCE, the year of his assassination.
    July,
    /// Augustus, a Roman emperor.
    August,
    /// Septem, meaning seven.
    September,
    /// Octo, meaning eight.
    October,
    /// Novem, meaning nine.
    November,
    /// Decem, meaning ten.
    December,
}

/// The 1-based ordinal of a month: `January` is 1, `December` is 12.
pub open spec fn month_ordinal(m: Month) -> int {
    match m {
        Month::January => 1,
        Month::February => 2,
        Month::March => 3,
        Month::April => 4,
        Month::May => 5,
        Month::June => 6,
        Month::July => 7,
        Month::August => 8,
        Month::September => 9,
        Month::October => 10,
        Month::November => 11,
        Month::December => 12,
    }
}

/// The month with a given 1-based ordinal: the inverse of [`month_ordinal`]
/// on `1..=12`.
pub open spec fn month_of_ordinal(n: int) -> Month
    recommends
        1 <= n <= 12,
{
    if n == 1 {
        Month::January
    } else if n == 2 {
        Month::February
    } else if n == 3 {
        Month::March
    } else if n == 4 {
        Month::April
    } else if n == 5 {
        Month::May
    } else if n == 6 {
        Month::June
    } else if n == 7 {
        Month::July
    } else if n == 8 {
        Month::August
    } else if n == 9 {
        Month::September
    } else if n == 10 {
        Month::October
    } else if n == 11 {
        Month::November
    } else {
        Month::December
    }
}

/// The canonical English name of a month.
pub open spec fn month_name(m: Month) -> Seq<char> {
    match m {
        Month::January => "January"@,
        Month::February => "February"@,
        Month::March => "March"@,
        Month::April => "April"@,
        Month::May => "May"@,
        Month::June => "June"@,
        Month::July => "July"@,
        Month::August => "August"@,
        Month::September => "September"@,
        Month::October => "October"@,
        Month::November => "November"@,
        Month::December => "December"@,
    }
}

impl Month {
    /// The month with a given 1-based ordinal, or [`Error::InvalidOrdinal`]
    /// when the ordinal lies outside `1..=12`.
    pub fn from_ordinal(n: usize) -> (r: Result<Month, Error>)
        ensures
            1 <= n <= 12 ==> r == Ok::<Month, Error>(month_of_ordinal(n as int)),
            !(1 <= n <= 12) ==> r == Err::<Month, Error>(Error::InvalidOrdinal(n)),
    {
        match n {
            1 => Ok(Month::January),
            2 => Ok(Month::February),
            3 => Ok(Month::March),
            4 => Ok(Month::April),
            5 => Ok(Month::May),
            6 => Ok(Month::June),
            7 => Ok(Month::July),
            8 => Ok(Month::August),
            9 => Ok(Month::September),
            10 => Ok(Month::October),
            11 => Ok(Month::November),
            12 => Ok(Month::December),
            _ => Err(Error::InvalidOrdinal(n)),
        }
    }

    /// The 1-based ordinal of this month, in `1..=12`: the value
    /// [`Month::from_ordinal`] maps back to this month.
    pub fn to_ordinal(&self) -> (n: usize)
        ensures
            n == month_ordinal(*self),
            1 <= n <= 12,
            month_of_ordinal(n as int) == *self,
    {
        match self {
            Month::January => 1,
            Month::February => 2,
            Month::March => 3,
            Month::April => 4,
            Month::May => 5,
            Month::June => 6,
            Month::July => 7,
            Month::August => 8,
            Month::September => 9,
            Month::October => 10,
            Month::November => 11,
            Month::December => 12,
        }
    }

    /// The canonical English name of this month.
    pub fn name(&self) -> (r: &'static str)
        ensures
            r@ == month_name(*self),
    {
        match self {
            Month::January => "January",
            Month::February => "February",
            Month::March => "March",
            Month::April => "April",
            Month::May => "May",
            Month::June => "June",
            Month::July => "July",
            Month::August => "August",
            Month::September => "September",
            Month::October => "October",
            Month::November => "November",
            Month::December => "December",
        }
    }
}

/// Converting a month to its ordinal and back yields the same month.
pub proof fn lemma_month_ordinal_round_trip(m: Month)
    ensures
        month_of_ordinal(month_ordinal(m)) == m,
{
}

} // verus!
