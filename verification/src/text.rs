//! The text that a display cell shows for a value.

use vstd::prelude::*;
use vstd::string::*;
use crate::value::RawValue;

verus! {

/// The character of the decimal digit `d`.
pub open spec fn digit_char(d: int) -> char {
    (d + 48) as char
}

/// The decimal digits of `n`, without leading zeros; "0" for zero.
pub open spec fn nat_text(n: nat) -> Seq<char>
    decreases n,
{
    if n < 10 {
        seq![digit_char(n as int)]
    } else {
        nat_text(n / 10).push(digit_char((n % 10) as int))
    }
}

/// The last `places` decimal digits of `n`, zeros included.
pub open spec fn padded_text(n: nat, places: nat) -> Seq<char>
    decreases places,
{
    if places == 0 {
        Seq::<char>::empty()
    } else {
        padded_text(n / 10, (places - 1) as nat).push(digit_char((n % 10) as int))
    }
}

/// The digits behind the decimal point of a fraction of `n` parts in
/// `10^places`: `places` digits, without the zeros at the end.
pub open spec fn fraction_text(n: nat, places: nat) -> Seq<char>
    decreases places,
{
    if places == 0 {
        Seq::<char>::empty()
    } else if n % 10 == 0 {
        fraction_text(n / 10, (places - 1) as nat)
    } else {
        padded_text(n, places)
    }
}

/// The text of a value of `micros` millionths: a minus sign if it is negative,
/// the whole part in decimal, and, unless the fraction is zero, a point and the
/// fraction without zeros at its end. So 150 reads "150", one and a half reads
/// "1.5", and minus a quarter reads "-0.25".
pub open spec fn value_text(micros: int) -> Seq<char> {
    let magnitude = if micros < 0 { -micros } else { micros };
    let whole = (magnitude / 1_000_000) as nat;
    let fraction = (magnitude % 1_000_000) as nat;
    let sign = if micros < 0 { seq!['-'] } else { Seq::<char>::empty() };
    let tail = if fraction == 0 {
        Seq::<char>::empty()
    } else {
        seq!['.'] + fraction_text(fraction, 6)
    };
    sign + nat_text(whole) + tail
}

/// The characters of `text`.
pub fn chars_of(text: &str) -> (chars: Vec<char>)
    ensures
        chars@ == text@,
{
    let mut chars: Vec<char> = Vec::new();
    for c in it: text.chars()
        invariant
            chars@ == it.seq().take(it.index() as int),
            it.seq() == text@,
    {
        chars.push(c);
    }
    assert(chars@ =~= text@);
    chars
}

/// The one-character text of the decimal digit `d`.
fn digit_str(d: u8) -> (t: &'static str)
    requires
        d < 10,
    ensures
        t@ == seq![digit_char(d as int)],
{
    proof {
        reveal_strlit("0");
        reveal_strlit("1");
        reveal_strlit("2");
        reveal_strlit("3");
        reveal_strlit("4");
        reveal_strlit("5");
        reveal_strlit("6");
        reveal_strlit("7");
        reveal_strlit("8");
        reveal_strlit("9");
    }
    let t = match d {
        0 => "0",
        1 => "1",
        2 => "2",
        3 => "3",
        4 => "4",
        5 => "5",
        6 => "6",
        7 => "7",
        8 => "8",
        _ => "9",
    };
    assert(t@ =~= seq![digit_char(d as int)]);
    t
}

/// Appends the decimal digits of `n` to `out`.
fn append_nat(out: &mut String, n: u64)
    ensures
        final(out)@ == old(out)@ + nat_text(n as nat),
    decreases n,
{
    if n >= 10 {
        append_nat(out, n / 10);
    }
    out.append(digit_str((n % 10) as u8));
    assert(out@ =~= old(out)@ + nat_text(n as nat));
}

/// Appends the last `places` decimal digits of `n` to `out`.
fn append_padded(out: &mut String, n: u64, places: u8)
    ensures
        final(out)@ == old(out)@ + padded_text(n as nat, places as nat),
    decreases places,
{
    if places > 0 {
        append_padded(out, n / 10, places - 1);
        out.append(digit_str((n % 10) as u8));
    }
    assert(out@ =~= old(out)@ + padded_text(n as nat, places as nat));
}

/// Appends the digits of a fraction of `n` parts in `10^places` to `out`.
fn append_fraction(out: &mut String, n: u64, places: u8)
    ensures
        final(out)@ == old(out)@ + fraction_text(n as nat, places as nat),
    decreases places,
{
    if places == 0 {
        assert(out@ =~= old(out)@ + fraction_text(n as nat, places as nat));
    } else if n % 10 == 0 {
        append_fraction(out, n / 10, places - 1);
    } else {
        append_padded(out, n, places);
    }
}

/// The text that a display cell shows for the stored value `v`.
pub fn format_value(v: RawValue) -> (text: String)
    ensures
        text@ == value_text(v.micros as int),
{
    proof {
        reveal_strlit("-");
        reveal_strlit(".");
    }
    let negative: bool = v.micros < 0;
    let magnitude: u64 = if negative {
        (-(v.micros + 1)) as u64 + 1
    } else {
        v.micros as u64
    };
    let whole: u64 = magnitude / 1_000_000;
    let fraction: u64 = magnitude % 1_000_000;
    let mut text = String::new();
    if negative {
        text.append("-");
    }
    append_nat(&mut text, whole);
    if fraction != 0 {
        text.append(".");
        append_fraction(&mut text, fraction, 6);
    }
    assert(text@ =~= value_text(v.micros as int));
    text
}

/// The text that a display cell shows for the colour level `level`: its
/// decimal digits.
pub fn format_level(level: u8) -> (text: String)
    ensures
        text@ == nat_text(level as nat),
{
    let mut text = String::new();
    append_nat(&mut text, level as u64);
    assert(text@ =~= nat_text(level as nat));
    text
}

/// A whole, non-negative value reads as its whole part alone, so a colour level
/// reads the same whether it is formatted as a level or as a value.
pub proof fn lemma_whole_value_text(whole: nat)
    ensures
        value_text(whole as int * 1_000_000) == nat_text(whole),
{
    assert((whole * 1_000_000) / 1_000_000 == whole);
    assert((whole * 1_000_000) % 1_000_000 == 0);
    assert(value_text(whole as int * 1_000_000) =~= nat_text(whole));
}

} // verus!
