//! Fixed-point field values.

use vstd::prelude::*;

verus! {

/// Number of micro-units in one unit.
pub const MICROS_PER_UNIT: i64 = 1_000_000;

/// Largest whole part that text may denote.
pub const MAX_WHOLE: i64 = 999_999_999_999;

/// Largest magnitude, in micro-units, that text may denote.
pub const MAX_MICROS: i64 = 999_999_999_999_999_999;

/// A field value as the document stores it: a decimal number with six
/// fractional digits, held as a count of millionths.
#[derive(Clone, Copy, Debug, PartialEq, Eq, Structural)]
pub struct RawValue {
    pub micros: i64,
}

impl RawValue {
    /// The value `whole`, with no fractional part.
    pub fn from_whole(whole: i32) -> (v: RawValue)
        ensures
            v.micros == whole * MICROS_PER_UNIT,
    {
        let wide: i64 = whole as i64;
        RawValue { micros: wide * MICROS_PER_UNIT }
    }
}

} // verus!
