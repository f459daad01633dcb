//! The two ways a query can be rejected.

use vstd::prelude::*;

verus! {

/// An input the library refuses to compute on.
///
/// Every failure is surfaced as one of these variants; no function clamps an
/// input, falls back to a default, or panics.
#[derive(Clone, Copy, Debug, PartialEq, Eq, Structural)]
pub enum Error {
    /// A year before the supported epoch. The doomsday method is undefined
    /// for dates preceding the Gregorian transition, so such years are
    /// rejected rather than silently computed on.
    OutOfRange(usize),
    /// A month ordinal outside `1..=12`.
    InvalidOrdinal(usize),
}

} // verus!
