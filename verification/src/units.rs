//! Conversion between the level of a colour channel as the user edits it (0 to
//! 255) and the normalised value that the document stores (0 to 1).

use vstd::prelude::*;
use crate::value::RawValue;

verus! {

/// The normalised value of level `level`, in millionths: `level / 255`, rounded
/// to the nearest millionth, halves upwards.
pub open spec fn canonical_micros(level: int) -> int {
    (level * 2_000_000 + 255) / 510
}

/// The level that stands for the normalised value of `micros` millionths:
/// `micros * 255 / 1_000_000`, rounded to the nearest level, halves upwards;
/// values below 0 give level 0, values above 1 give level 255.
pub open spec fn human_level(micros: int) -> int {
    if micros <= 0 {
        0
    } else if micros >= 1_000_000 {
        255
    } else {
        (micros * 510 + 1_000_000) / 2_000_000
    }
}

/// Converts a level entered by the user into the normalised value to store.
pub fn human_to_canonical(channel: u8) -> (v: RawValue)
    ensures
        v.micros == canonical_micros(channel as int),
        0 <= v.micros <= 1_000_000,
{
    let wide: i64 = channel as i64;
    RawValue { micros: (wide * 2_000_000 + 255) / 510 }
}

/// Converts a stored normalised value into the level to display.
pub fn canonical_to_human(v: RawValue) -> (channel: u8)
    ensures
        channel == human_level(v.micros as int),
{
    if v.micros <= 0 {
        0
    } else if v.micros >= 1_000_000 {
        255
    } else {
        let level: i64 = (v.micros * 510 + 1_000_000) / 2_000_000;
        level as u8
    }
}

/// A level survives the way into the document and back: converting it to a
/// normalised value and that value to a level gives the level again.
pub proof fn lemma_level_round_trip(level: int)
    requires
        0 <= level <= 255,
    ensures
        human_level(canonical_micros(level)) == level,
{
}

/// The level chosen for a normalised value is the nearest one: the value lies
/// within half a level of it, and a value
/// half way between two levels goes to the upper one.
pub proof fn lemma_human_level_nearest(micros: int)
    requires
        0 <= micros <= 1_000_000,
    ensures
        0 <= human_level(micros) <= 255,
        -1_000_000 <= 2 * (micros * 255 - human_level(micros) * 1_000_000) < 1_000_000,
{
}

/// A normalised value that is displayed as a level and stored again moves by
/// less than half a level: at most 1961 millionths.
pub proof fn lemma_canonical_round_trip(micros: int)
    requires
        0 <= micros <= 1_000_000,
    ensures
        -1961 <= canonical_micros(human_level(micros)) - micros <= 1961,
{
    lemma_human_level_nearest(micros);
}

/// A stored value that came from a level is restored exactly when it is
/// displayed and stored again.
pub proof fn lemma_canonical_fixed_point(level: int)
    requires
        0 <= level <= 255,
    ensures
        canonical_micros(human_level(canonical_micros(level))) == canonical_micros(level),
{
    lemma_level_round_trip(level);
}

} // verus!
