//! Reading a number from the text of an input field.

use vstd::prelude::*;
use crate::error::EditError;
use crate::text::{
    chars_of, digit_char, fraction_text, lemma_whole_value_text, nat_text, padded_text, value_text,
};
use crate::value::{RawValue, MAX_MICROS, MAX_WHOLE};

verus! {

/// White space: the characters that Unicode gives the property White_Space.
pub open spec fn is_space(c: char) -> bool {
    let code = c as int;
    ||| 0x09 <= code <= 0x0D
    ||| code == 0x20
    ||| code == 0x85
    ||| code == 0xA0
    ||| code == 0x1680
    ||| 0x2000 <= code <= 0x200A
    ||| code == 0x2028
    ||| code == 0x2029
    ||| code == 0x202F
    ||| code == 0x205F
    ||| code == 0x3000
}

/// A decimal digit, `0` to `9`.
pub open spec fn is_digit(c: char) -> bool {
    48 <= c as int <= 57
}

/// The number that the digit `c` stands for.
pub open spec fn digit_value(c: char) -> int {
    c as int - 48
}

/// `s` without the white space at its start.
pub open spec fn trim_start(s: Seq<char>) -> Seq<char>
    decreases s.len(),
{
    if s.len() > 0 && is_space(s.first()) {
        trim_start(s.drop_first())
    } else {
        s
    }
}

/// `s` without the white space at its end.
pub open spec fn trim_end(s: Seq<char>) -> Seq<char>
    decreases s.len(),
{
    if s.len() > 0 && is_space(s.last()) {
        trim_end(s.drop_last())
    } else {
        s
    }
}

/// `s` without the white space at its start and at its end.
pub open spec fn trimmed(s: Seq<char>) -> Seq<char> {
    trim_end(trim_start(s))
}

/// Every character of `s` is a digit.
pub open spec fn all_digits(s: Seq<char>) -> bool {
    forall|i: int| 0 <= i < s.len() ==> is_digit(#[trigger] s[i])
}

/// The number that the digits `s` denote in decimal; 0 for no digits.
pub open spec fn digits_value(s: Seq<char>) -> nat
    decreases s.len(),
{
    if s.len() == 0 {
        0
    } else {
        (digits_value(s.drop_last()) * 10 + digit_value(s.last())) as nat
    }
}

/// Ten to the power `n`.
pub open spec fn pow10(n: nat) -> nat
    decreases n,
{
    if n == 0 {
        1
    } else {
        10 * pow10((n - 1) as nat)
    }
}

/// The millionths that the digits `s` behind a decimal point denote: the first
/// six digits count, digits beyond the sixth are dropped.
pub open spec fn fraction_micros(s: Seq<char>) -> nat {
    if s.len() >= 6 {
        digits_value(s.take(6))
    } else {
        digits_value(s) * pow10((6 - s.len()) as nat)
    }
}

/// Whether `s` begins with a sign.
pub open spec fn has_sign(s: Seq<char>) -> bool {
    s.len() > 0 && (s[0] == '-' || s[0] == '+')
}

/// `s` behind its sign, if it has one.
pub open spec fn unsigned_part(s: Seq<char>) -> Seq<char> {
    if has_sign(s) {
        s.drop_first()
    } else {
        s
    }
}

/// The digits before the decimal point of `body`, or all of `body` if it has no
/// point.
pub open spec fn whole_part(body: Seq<char>) -> Seq<char> {
    match body.index_of_first('.') {
        Some(point) => body.take(point),
        None => body,
    }
}

/// What follows the first decimal point of `body`; nothing if it has no point.
pub open spec fn fraction_part(body: Seq<char>) -> Seq<char> {
    match body.index_of_first('.') {
        Some(point) => body.skip(point + 1),
        None => Seq::<char>::empty(),
    }
}

/// The value, in millionths, of a plain decimal number: an optional sign,
/// digits, and optionally a point and more digits, with at least one digit in
/// all and a whole part of at most 999,999,999,999. Anything else is no number.
pub open spec fn plain_number(s: Seq<char>) -> Option<int> {
    let body = unsigned_part(s);
    let whole = whole_part(body);
    let fraction = fraction_part(body);
    if all_digits(whole) && all_digits(fraction) && whole.len() + fraction.len() > 0
        && digits_value(whole) <= MAX_WHOLE {
        let magnitude = digits_value(whole) * 1_000_000 + fraction_micros(fraction);
        if has_sign(s) && s[0] == '-' {
            Some(-magnitude)
        } else {
            Some(magnitude as int)
        }
    } else {
        None
    }
}

/// The value, in millionths, that the text of an input field denotes.
///
/// White space around the text does not count. What is left must be a plain
/// decimal number, and denotes that number. All other text denotes nothing:
/// empty text, text without a digit, text with a sign that is not in front, text
/// with another character in it.
pub open spec fn parse_text(s: Seq<char>) -> Option<int> {
    plain_number(trimmed(s))
}

/// Whether `c` is white space.
fn char_is_space(c: char) -> (b: bool)
    ensures
        b == is_space(c),
{
    let code: u32 = c as u32;
    (0x09 <= code && code <= 0x0D) || code == 0x20 || code == 0x85 || code == 0xA0 || code
        == 0x1680 || (0x2000 <= code && code <= 0x200A) || code == 0x2028 || code == 0x2029
        || code == 0x202F || code == 0x205F || code == 0x3000
}

/// Whether `c` is a decimal digit.
fn char_is_digit(c: char) -> (b: bool)
    ensures
        b == is_digit(c),
{
    let code: u32 = c as u32;
    48 <= code && code <= 57
}

/// The number that the digit `c` stands for.
fn char_digit(c: char) -> (d: u64)
    requires
        is_digit(c),
    ensures
        d == digit_value(c),
        d <= 9,
{
    let code: u32 = c as u32;
    (code - 48) as u64
}

/// The characters of `text`, trimmed of white space at both ends.
fn trimmed_chars(text: &str) -> (t: Vec<char>)
    ensures
        t@ == trimmed(text@),
{
    let all = chars_of(text);
    let n: usize = all.len();
    let mut start: usize = 0;
    assert(all@.skip(0) =~= all@);
    while start < n && char_is_space(all[start])
        invariant
            n == all@.len(),
            start <= n,
            trim_start(all@) == trim_start(all@.skip(start as int)),
        decreases n - start,
    {
        assert(all@.skip(start as int).drop_first() =~= all@.skip(start as int + 1));
        start += 1;
    }
    assert(trim_start(all@) == all@.skip(start as int)) by {
        let rest = all@.skip(start as int);
        if rest.len() > 0 {
            assert(rest.first() == all@[start as int]);
        }
    }
    let mut end: usize = n;
    while end > start && char_is_space(all[end - 1])
        invariant
            n == all@.len(),
            start <= end <= n,
            trim_end(all@.skip(start as int)) == trim_end(all@.subrange(start as int, end as int)),
        decreases end - start,
    {
        assert(all@.subrange(start as int, end as int).drop_last() =~= all@.subrange(
            start as int,
            end as int - 1,
        ));
        end -= 1;
    }
    proof {
        assert(all@.skip(start as int) =~= all@.subrange(start as int, n as int));
        let kept = all@.subrange(start as int, end as int);
        if kept.len() > 0 {
            assert(kept.last() == all@[end as int - 1]);
        }
        assert(trim_end(kept) == kept);
    }
    let mut t: Vec<char> = Vec::new();
    let mut i: usize = start;
    while i < end
        invariant
            start <= i <= end <= all@.len(),
            t@ == all@.subrange(start as int, i as int),
        decreases end - i,
    {
        t.push(all[i]);
        assert(t@ =~= all@.subrange(start as int, i as int + 1));
        i += 1;
    }
    t
}

/// The first powers of ten.
proof fn lemma_pow10_values()
    ensures
        pow10(0) == 1,
        pow10(1) == 10,
        pow10(2) == 100,
        pow10(3) == 1_000,
        pow10(4) == 10_000,
        pow10(5) == 100_000,
        pow10(6) == 1_000_000,
{
    reveal_with_fuel(pow10, 8);
}

/// Ten to a smaller power is no more than ten to a larger one.
proof fn lemma_pow10_monotone(a: nat, b: nat)
    requires
        a <= b,
    ensures
        pow10(a) <= pow10(b),
    decreases b,
{
    if a < b {
        lemma_pow10_monotone(a, (b - 1) as nat);
    }
}

/// Digits without their last are digits.
proof fn lemma_digits_drop_last(s: Seq<char>)
    requires
        all_digits(s),
        s.len() > 0,
    ensures
        all_digits(s.drop_last()),
        is_digit(s.last()),
{
    assert(is_digit(s[s.len() - 1]));
    assert forall|i: int| 0 <= i < s.drop_last().len() implies is_digit(
        #[trigger] s.drop_last()[i],
    ) by {
        assert(s.drop_last()[i] == s[i]);
    }
}

/// Digits with one more digit are digits, and denote ten times as much and the
/// digit.
proof fn lemma_digits_push(s: Seq<char>, c: char)
    requires
        all_digits(s),
        is_digit(c),
    ensures
        all_digits(s.push(c)),
        digits_value(s.push(c)) == digits_value(s) * 10 + digit_value(c),
{
    assert(s.push(c).drop_last() =~= s);
    assert forall|i: int| 0 <= i < s.push(c).len() implies is_digit(#[trigger] s.push(c)[i]) by {
        if i < s.len() {
            assert(s.push(c)[i] == s[i]);
        }
    }
}

/// A number of `n` digits is below ten to the power `n`.
proof fn lemma_digits_bound(s: Seq<char>)
    requires
        all_digits(s),
    ensures
        digits_value(s) < pow10(s.len()),
    decreases s.len(),
{
    if s.len() > 0 {
        lemma_digits_drop_last(s);
        lemma_digits_bound(s.drop_last());
    }
}

/// The digits at the start of a number denote no more than the number.
proof fn lemma_digits_prefix(s: Seq<char>, k: int)
    requires
        all_digits(s),
        0 <= k <= s.len(),
    ensures
        digits_value(s.take(k)) <= digits_value(s),
    decreases s.len(),
{
    if k == s.len() {
        assert(s.take(k) =~= s);
    } else {
        lemma_digits_drop_last(s);
        lemma_digits_prefix(s.drop_last(), k);
        assert(s.drop_last().take(k) =~= s.take(k));
    }
}

/// Where digits are followed by a point, the digits are the whole part and
/// what follows the point is the fraction part.
proof fn lemma_point_found(body: Seq<char>, at: int)
    requires
        0 <= at < body.len(),
        all_digits(body.take(at)),
        body[at] == '.',
    ensures
        whole_part(body) == body.take(at),
        fraction_part(body) == body.skip(at + 1),
{
    body.index_of_first_ensures('.');
    assert(body.contains('.'));
    let point = body.index_of_first('.').unwrap();
    if point < at {
        assert(body.take(at)[point] == body[point]);
        assert(is_digit(body.take(at)[point]));
    }
    assert(point == at);
}

/// Digits alone are their own whole part and have no fraction part.
proof fn lemma_no_point(body: Seq<char>)
    requires
        all_digits(body),
    ensures
        whole_part(body) == body,
        fraction_part(body) == Seq::<char>::empty(),
{
    body.index_of_first_ensures('.');
    if body.contains('.') {
        let point = body.index_of_first('.').unwrap();
        assert(is_digit(body[point]));
    }
}

/// The whole part holds every character up to the first that is no digit,
/// and that character too unless it is a point.
proof fn lemma_whole_part_reaches(body: Seq<char>, at: int)
    requires
        0 <= at <= body.len(),
        all_digits(body.take(at)),
    ensures
        whole_part(body).len() >= at,
        whole_part(body).take(at) == body.take(at),
        at < body.len() && body[at] != '.' ==> whole_part(body).len() > at && whole_part(body)[at]
            == body[at],
{
    body.index_of_first_ensures('.');
    match body.index_of_first('.') {
        Some(point) => {
            if point < at {
                assert(body.take(at)[point] == body[point]);
                assert(is_digit(body.take(at)[point]));
            }
            assert(whole_part(body).take(at) =~= body.take(at));
        },
        None => {
            assert(whole_part(body).take(at) =~= body.take(at));
        },
    }
}

/// Reads the digits of `t` from position `first` on. Returns what they denote
/// and the position behind them, or nothing where they denote more than a whole
/// part may.
fn scan_whole(t: &Vec<char>, first: usize) -> (result: Option<(u64, usize)>)
    requires
        first <= t.len(),
    ensures
        match result {
            Some((value, end)) => {
                &&& first <= end <= t.len()
                &&& all_digits(t@.subrange(first as int, end as int))
                &&& (end < t.len() ==> !is_digit(t@[end as int]))
                &&& value == digits_value(t@.subrange(first as int, end as int))
                &&& value <= MAX_WHOLE
            },
            None => exists|end: int|
                first < end <= t.len() && all_digits(#[trigger] t@.subrange(first as int, end))
                    && digits_value(t@.subrange(first as int, end)) > MAX_WHOLE,
        },
{
    let n: usize = t.len();
    let mut i: usize = first;
    let mut whole: u64 = 0;
    assert(t@.subrange(first as int, first as int) =~= Seq::<char>::empty());
    while i < n && char_is_digit(t[i])
        invariant
            first <= i <= n,
            n == t@.len(),
            all_digits(t@.subrange(first as int, i as int)),
            whole == digits_value(t@.subrange(first as int, i as int)),
            whole <= MAX_WHOLE,
        decreases n - i,
    {
        let next: u64 = whole * 10 + char_digit(t[i]);
        proof {
            let seen = t@.subrange(first as int, i as int);
            lemma_digits_push(seen, t@[i as int]);
            assert(seen.push(t@[i as int]) =~= t@.subrange(first as int, i as int + 1));
        }
        if next > MAX_WHOLE as u64 {
            return None;
        }
        whole = next;
        i += 1;
    }
    Some((whole, i))
}

/// Reads what follows a decimal point: the characters of `t` from position
/// `start` to the end. Returns the millionths they denote, or nothing where one
/// of them is no digit.
fn scan_fraction(t: &Vec<char>, start: usize) -> (result: Option<u64>)
    requires
        start <= t.len(),
    ensures
        match result {
            Some(micros) => all_digits(t@.skip(start as int)) && micros == fraction_micros(
                t@.skip(start as int),
            ) && micros < 1_000_000,
            None => !all_digits(t@.skip(start as int)),
        },
{
    let n: usize = t.len();
    let ghost behind = t@.skip(start as int);
    let mut i: usize = start;
    let mut fraction: u64 = 0;
    assert(behind.take(0) =~= Seq::<char>::empty());
    while i < n
        invariant
            start <= i <= n,
            n == t@.len(),
            behind == t@.skip(start as int),
            all_digits(behind.take(i - start)),
            i - start <= 6 ==> fraction == digits_value(behind.take(i - start)),
            i - start > 6 ==> fraction == digits_value(behind.take(6)),
            fraction <= 999_999,
        decreases n - i,
    {
        if !char_is_digit(t[i]) {
            assert(behind[i - start] == t@[i as int]);
            return None;
        }
        proof {
            let seen = behind.take(i - start);
            lemma_digits_push(seen, t@[i as int]);
            assert(seen.push(t@[i as int]) =~= behind.take(i - start + 1));
            if i - start < 6 {
                lemma_pow10_values();
                lemma_digits_bound(seen);
                lemma_digits_bound(seen.push(t@[i as int]));
                lemma_pow10_monotone(seen.len(), 5);
                lemma_pow10_monotone(seen.len() + 1, 6);
            }
        }
        if i - start < 6 {
            fraction = fraction * 10 + char_digit(t[i]);
        }
        i += 1;
    }
    assert(behind.take(n - start) =~= behind);
    let count: usize = n - start;
    if count < 6 {
        let scale: u64 = match count {
            0 => 1_000_000,
            1 => 100_000,
            2 => 10_000,
            3 => 1_000,
            4 => 100,
            _ => 10,
        };
        proof {
            lemma_pow10_values();
            lemma_fraction_below_unit(behind);
            assert(scale == pow10((6 - count) as nat));
            assert(fraction * scale == digits_value(behind) * pow10((6 - count) as nat));
        }
        fraction = fraction * scale;
    }
    Some(fraction)
}

/// Reads a plain decimal number.
fn parse_plain(t: &Vec<char>) -> (result: Option<i64>)
    ensures
        match result {
            Some(value) => plain_number(t@) == Some(value as int),
            None => plain_number(t@).is_none(),
        },
{
    let n: usize = t.len();
    let signed: bool = n > 0 && (t[0] == '-' || t[0] == '+');
    let negative: bool = n > 0 && t[0] == '-';
    let first: usize = if signed { 1 } else { 0 };
    let ghost body = unsigned_part(t@);
    assert(body =~= t@.skip(first as int));
    let (whole, whole_end) = match scan_whole(t, first) {
        Some(found) => found,
        None => {
            proof {
                let end = choose|end: int|
                    first < end <= t.len() && all_digits(#[trigger] t@.subrange(first as int, end))
                        && digits_value(t@.subrange(first as int, end)) > MAX_WHOLE;
                assert(t@.subrange(first as int, end) =~= body.take(end - first));
                lemma_whole_part_reaches(body, end - first);
                if all_digits(whole_part(body)) {
                    lemma_digits_prefix(whole_part(body), end - first);
                }
            }
            return None;
        },
    };
    let ghost at = whole_end - first;
    assert(t@.subrange(first as int, whole_end as int) =~= body.take(at));
    if whole_end == n {
        proof {
            assert(body.take(at) =~= body);
            lemma_no_point(body);
            lemma_pow10_values();
        }
        if whole_end == first {
            return None;
        }
        let magnitude: u64 = whole * 1_000_000;
        return Some(if negative { -(magnitude as i64) } else { magnitude as i64 });
    }
    assert(body[at] == t@[whole_end as int]);
    if t[whole_end] != '.' {
        proof {
            lemma_whole_part_reaches(body, at);
        }
        return None;
    }
    proof {
        lemma_point_found(body, at);
        assert(body.skip(at + 1) =~= t@.skip(whole_end as int + 1));
    }
    let fraction: u64 = match scan_fraction(t, whole_end + 1) {
        Some(micros) => micros,
        None => {
            return None;
        },
    };
    if whole_end == first && whole_end + 1 == n {
        return None;
    }
    let magnitude: u64 = whole * 1_000_000 + fraction;
    Some(if negative { -(magnitude as i64) } else { magnitude as i64 })
}

/// Reads the number that the text of an input field denotes, as `parse_text`
/// says. Fails with `ParseError` exactly when the text denotes nothing.
pub fn parse_number(text: &str) -> (result: Result<RawValue, EditError>)
    ensures
        match parse_text(text@) {
            Some(micros) => result == Ok::<RawValue, EditError>(RawValue { micros: micros as i64 })
                && -crate::value::MAX_MICROS <= micros <= crate::value::MAX_MICROS,
            None => result == Err::<RawValue, EditError>(EditError::ParseError),
        },
{
    let t = trimmed_chars(text);
    match parse_plain(&t) {
        Some(micros) => {
            proof {
                lemma_plain_number_bound(t@);
            }
            Ok(RawValue { micros })
        },
        None => Err(EditError::ParseError),
    }
}

/// A plain number lies within the largest magnitude that text may denote.
pub proof fn lemma_plain_number_bound(s: Seq<char>)
    ensures
        match plain_number(s) {
            Some(value) => -crate::value::MAX_MICROS <= value <= crate::value::MAX_MICROS,
            None => true,
        },
{
    let fraction = fraction_part(unsigned_part(s));
    if plain_number(s).is_some() {
        lemma_pow10_values();
        if fraction.len() >= 6 {
            assert forall|i: int| 0 <= i < fraction.take(6).len() implies is_digit(
                #[trigger] fraction.take(6)[i],
            ) by {
                assert(fraction.take(6)[i] == fraction[i]);
            }
            lemma_digits_bound(fraction.take(6));
        } else {
            lemma_digits_bound(fraction);
            lemma_fraction_below_unit(fraction);
        }
    }
}

/// Fewer than six digits behind the point denote less than a million
/// millionths.
proof fn lemma_fraction_below_unit(s: Seq<char>)
    requires
        all_digits(s),
        s.len() < 6,
    ensures
        digits_value(s) * pow10((6 - s.len()) as nat) < 1_000_000,
{
    lemma_pow10_values();
    lemma_digits_bound(s);
    let v = digits_value(s);
    let k = s.len();
    if k == 0 {
        assert(v * pow10(6) == v * 1_000_000);
    } else if k == 1 {
        assert(v * pow10(5) == v * 100_000);
    } else if k == 2 {
        assert(v * pow10(4) == v * 10_000);
    } else if k == 3 {
        assert(v * pow10(3) == v * 1_000);
    } else if k == 4 {
        assert(v * pow10(2) == v * 100);
    } else {
        assert(v * pow10(1) == v * 10);
    }
}

/// The decimal text of a number is made of digits and denotes the number.
proof fn lemma_nat_text(n: nat)
    ensures
        nat_text(n).len() >= 1,
        all_digits(nat_text(n)),
        digits_value(nat_text(n)) == n,
    decreases n,
{
    if n < 10 {
        let c = digit_char(n as int);
        assert(is_digit(c));
        assert(Seq::<char>::empty().push(c) =~= seq![c]);
        lemma_digits_push(Seq::<char>::empty(), c);
    } else {
        lemma_nat_text(n / 10);
        let c = digit_char((n % 10) as int);
        assert(is_digit(c));
        lemma_digits_push(nat_text(n / 10), c);
    }
}

/// A number below ten to the power `places`, written with `places` digits,
/// is made of that many digits and denotes the number.
proof fn lemma_padded_text(n: nat, places: nat)
    requires
        n < pow10(places),
    ensures
        padded_text(n, places).len() == places,
        all_digits(padded_text(n, places)),
        digits_value(padded_text(n, places)) == n,
    decreases places,
{
    if places > 0 {
        lemma_padded_text(n / 10, (places - 1) as nat);
        let c = digit_char((n % 10) as int);
        assert(is_digit(c));
        lemma_digits_push(padded_text(n / 10, (places - 1) as nat), c);
    }
}

/// The digits shown for a fraction are at most `places` digits, and with the
/// dropped zeros put back they denote the fraction.
proof fn lemma_fraction_text(n: nat, places: nat)
    requires
        n < pow10(places),
    ensures
        fraction_text(n, places).len() <= places,
        n > 0 ==> fraction_text(n, places).len() >= 1,
        all_digits(fraction_text(n, places)),
        digits_value(fraction_text(n, places)) * pow10(
            (places - fraction_text(n, places).len()) as nat,
        ) == n,
    decreases places,
{
    let shown = fraction_text(n, places);
    if places == 0 {
        assert(pow10(0) == 1);
        assert(shown =~= Seq::<char>::empty());
        assert(digits_value(shown) == 0);
        assert(digits_value(shown) * pow10(0) == 0) by (nonlinear_arith)
            requires
                digits_value(shown) == 0,
        ;
    } else if n % 10 == 0 {
        let shorter = fraction_text(n / 10, (places - 1) as nat);
        assert(shown == shorter);
        lemma_fraction_text(n / 10, (places - 1) as nat);
        let v = digits_value(shorter) as int;
        let x = pow10((places - 1 - shorter.len()) as nat) as int;
        assert(v * x == n / 10);
        assert(pow10((places - shorter.len()) as nat) == 10 * x);
        assert(v * (10 * x) == 10 * (v * x)) by (nonlinear_arith);
        assert(10 * (n / 10) == n);
    } else {
        assert(shown == padded_text(n, places));
        lemma_padded_text(n, places);
        assert(pow10(0) == 1);
        assert(digits_value(shown) * pow10(0) == n) by (nonlinear_arith)
            requires
                digits_value(shown) == n,
                pow10(0) == 1,
        ;
    }
}

/// What a display cell shows for a value reads back as the value.
///
/// For every value within the largest magnitude that text may denote, reading
/// the text that is shown for the value gives the value again.
pub proof fn lemma_shown_value_reads_back(micros: int)
    requires
        -MAX_MICROS <= micros <= MAX_MICROS,
    ensures
        parse_text(value_text(micros)) == Some(micros),
{
    let magnitude = if micros < 0 { -micros } else { micros };
    let whole = (magnitude / 1_000_000) as nat;
    let fraction = (magnitude % 1_000_000) as nat;
    let digits = nat_text(whole);
    let behind = fraction_text(fraction, 6);
    let tail = if fraction == 0 { Seq::<char>::empty() } else { seq!['.'] + behind };
    let body = digits + tail;
    let shown = value_text(micros);
    lemma_pow10_values();
    lemma_nat_text(whole);
    lemma_fraction_text(fraction, 6);
    assert(is_digit(digits[0]));
    assert(body[0] == digits[0]);
    assert(body.take(digits.len() as int) =~= digits);
    if fraction == 0 {
        assert(body =~= digits);
        lemma_no_point(body);
        assert(digits_value(Seq::<char>::empty()) == 0);
        assert(fraction_micros(Seq::<char>::empty()) == 0) by (nonlinear_arith)
            requires
                fraction_micros(Seq::<char>::empty()) == digits_value(Seq::<char>::empty()) * pow10(6),
                digits_value(Seq::<char>::empty()) == 0,
        ;
        assert(is_digit(body.last())) by {
            assert(body.last() == digits[digits.len() - 1]);
        }
    } else {
        assert(body[digits.len() as int] == '.');
        lemma_point_found(body, digits.len() as int);
        assert(body.skip(digits.len() as int + 1) =~= behind);
        if behind.len() == 6 {
            assert(behind.take(6) =~= behind);
            assert(pow10(0) == 1);
            assert(digits_value(behind) * pow10(0) == digits_value(behind)) by (nonlinear_arith)
                requires
                    pow10(0) == 1,
            ;
        } else {
            assert(fraction_micros(behind) == digits_value(behind) * pow10(
                (6 - behind.len()) as nat,
            ));
        }
        assert(fraction_micros(behind) == fraction);
        assert(is_digit(body.last())) by {
            assert(body.last() == behind[behind.len() - 1]);
        }
    }
    if micros < 0 {
        assert(shown =~= seq!['-'] + body);
        assert(shown[0] == '-');
        assert(shown.drop_first() =~= body);
    } else {
        assert(shown =~= body);
    }
    assert(shown.last() == body.last());
    assert(!is_space(shown.first()));
    assert(!is_space(shown.last()));
    assert(trimmed(shown) == shown);
    assert(unsigned_part(shown) == body);
    assert(whole <= MAX_WHOLE);
    assert(plain_number(shown) == Some(micros));
}

/// What a display cell shows for a colour level reads back as the level.
pub proof fn lemma_shown_level_reads_back(level: nat)
    requires
        level <= 255,
    ensures
        parse_text(nat_text(level)) == Some(level as int * 1_000_000),
{
    lemma_whole_value_text(level);
    lemma_shown_value_reads_back(level as int * 1_000_000);
}

/// Text without a digit denotes nothing: empty text, white space, a sign
/// alone, a point alone, letters.
pub proof fn lemma_text_without_digit_is_no_number(s: Seq<char>)
    requires
        forall|i: int| 0 <= i < trimmed(s).len() ==> !is_digit(#[trigger] trimmed(s)[i]),
    ensures
        parse_text(s).is_none(),
{
    let t = trimmed(s);
    let body = unsigned_part(t);
    let whole = whole_part(body);
    let fraction = fraction_part(body);
    body.index_of_first_ensures('.');
    let shift = if has_sign(t) { 1int } else { 0int };
    if whole.len() > 0 {
        assert(whole[0] == body[0]);
        assert(body[0] == t[shift]);
    }
    if fraction.len() > 0 {
        let point = body.index_of_first('.').unwrap();
        assert(fraction[0] == body[point + 1]);
        assert(body[point + 1] == t[point + 1 + shift]);
    }
}

} // verus!
