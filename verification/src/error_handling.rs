//! Telling numbers from what is no number: parsing that says why it failed.

use vstd::prelude::*;
use crate::text::{decimal, signed_decimal};

verus! {

/// Why a text is no `i32`.
#[derive(Clone, Copy, Debug, PartialEq, Eq, Structural)]
pub enum IntErrorKind {
    /// The text is empty.
    Empty,
    /// A character is no digit where a digit has to stand; a sign with
    /// nothing behind it is of this kind too.
    InvalidDigit,
    /// The number is too large for an `i32`.
    PosOverflow,
    /// The number is too small for an `i32`.
    NegOverflow,
}

/// The failure to read an `i32` from a text.
#[derive(Clone, Copy, Debug, PartialEq, Eq, Structural)]
pub struct ParseIntError {
    pub kind: IntErrorKind,
}

/// Whether `c` is one of the digits `0` to `9`.
pub open spec fn is_digit(c: char) -> bool {
    '0' <= c <= '9'
}

/// The number that the digit `c` stands for.
pub open spec fn digit_value(c: char) -> int {
    c as int - '0' as int
}

/// Reads `digits` from left to right as a number in base ten, towards
/// minus infinity if `negative` and towards plus infinity otherwise, and
/// stops at the first character that is no digit or that takes the number
/// out of the range of `i32`.
pub open spec fn read_digits(digits: Seq<char>, negative: bool) -> Result<int, IntErrorKind>
    decreases digits.len(),
{
    if digits.len() == 0 {
        Ok(0)
    } else {
        match read_digits(digits.drop_last(), negative) {
            Err(kind) => Err(kind),
            Ok(before) => {
                let c = digits.last();
                let now = if negative {
                    10 * before - digit_value(c)
                } else {
                    10 * before + digit_value(c)
                };
                if !is_digit(c) {
                    Err(IntErrorKind::InvalidDigit)
                } else if now > i32::MAX {
                    Err(IntErrorKind::PosOverflow)
                } else if now < i32::MIN {
                    Err(IntErrorKind::NegOverflow)
                } else {
                    Ok(now)
                }
            },
        }
    }
}

/// What a text reads as: an optional `+` or `-` and then digits only, at
/// least one of them, that stay within the range of `i32`.
pub open spec fn parsed(text: Seq<char>) -> Result<i32, ParseIntError> {
    let outcome = if text.len() == 0 {
        Err(IntErrorKind::Empty)
    } else if text.len() == 1 && (text[0] == '+' || text[0] == '-') {
        Err(IntErrorKind::InvalidDigit)
    } else if text[0] == '+' {
        read_digits(text.skip(1), false)
    } else if text[0] == '-' {
        read_digits(text.skip(1), true)
    } else {
        read_digits(text, false)
    };
    match outcome {
        Ok(n) => Ok(n as i32),
        Err(kind) => Err(ParseIntError { kind }),
    }
}

/// Once reading has failed, it has failed for every longer text too, and
/// in the same way.
pub proof fn failure_stays(digits: Seq<char>, upto: int, negative: bool)
    requires
        0 <= upto <= digits.len(),
        read_digits(digits.take(upto), negative) is Err,
    ensures
        read_digits(digits, negative) == read_digits(digits.take(upto), negative),
    decreases digits.len(),
{
    if upto < digits.len() {
        assert(digits.drop_last().take(upto) =~= digits.take(upto));
        failure_stays(digits.drop_last(), upto, negative);
    } else {
        assert(digits.take(upto) =~= digits);
    }
}

/// The digits of a number that fits read as that number, or as its
/// negative when read towards minus infinity.
pub proof fn digits_read_back(n: nat, negative: bool)
    requires
        if negative {
            n <= -i32::MIN
        } else {
            n <= i32::MAX
        },
    ensures
        read_digits(decimal(n), negative) == Ok::<int, IntErrorKind>(
            if negative {
                -n
            } else {
                n as int
            },
        ),
    decreases n,
{
    reveal_with_fuel(read_digits, 2);
    if n >= 10 {
        digits_read_back(n / 10, negative);
        assert(decimal(n).drop_last() =~= decimal(n / 10));
    }
}

/// A number written in base ten reads as itself.
pub proof fn written_number_reads_back(n: i32)
    ensures
        parsed(signed_decimal(n as int)) == Ok::<i32, ParseIntError>(n),
{
    let text = signed_decimal(n as int);
    if n < 0 {
        let magnitude = (-n) as nat;
        digits_read_back(magnitude, true);
        assert(text.skip(1) =~= decimal(magnitude));
        assert(decimal(magnitude).len() >= 1) by {
            reveal_with_fuel(decimal, 1);
        }
    } else {
        digits_read_back(n as nat, false);
        assert(is_digit(text[0])) by {
            first_is_a_digit(n as nat);
        }
    }
}

/// A number written in base ten starts with a digit.
proof fn first_is_a_digit(n: nat)
    ensures
        decimal(n).len() >= 1,
        is_digit(decimal(n)[0]),
    decreases n,
{
    if n >= 10 {
        first_is_a_digit(n / 10);
    }
}

/// Reads an `i32` from `text`, or says why there is none.
pub fn parse_i32(text: &str) -> (result: Result<i32, ParseIntError>)
    ensures
        result == parsed(text@),
{
    let mut value: i64 = 0;
    let mut negative = false;
    let mut signed = false;
    let mut first = true;
    let mut any_digit = false;
    for c in it: text.chars()
        invariant
            it.seq() == text@,
            first == (it.index() == 0),
            signed ==> it.index() >= 1 && (text@[0] == '+' || text@[0] == '-'),
            !signed && !first ==> text@[0] != '+' && text@[0] != '-',
            negative == (signed && text@[0] == '-'),
            any_digit == (it.index() > if signed { 1int } else { 0int }),
            i32::MIN <= value <= i32::MAX,
            read_digits(
                text@.subrange(if signed { 1int } else { 0int }, it.index() as int),
                negative,
            ) == Ok::<int, IntErrorKind>(value as int),
    {
        if first && (c == '+' || c == '-') {
            signed = true;
            negative = c == '-';
        } else {
            let ghost start: int = if signed { 1 } else { 0 };
            let ghost here: int = it.index() as int;
            let ghost now = text@.subrange(start, here + 1);
            let ghost rest = text@.skip(start);
            assert(now.drop_last() =~= text@.subrange(start, here));
            assert(rest.take(here + 1 - start) =~= now);
            assert(text@.skip(0) =~= text@);
            if !('0' <= c && c <= '9') {
                proof {
                    failure_stays(rest, here + 1 - start, negative);
                }
                return Err(ParseIntError { kind: IntErrorKind::InvalidDigit });
            }
            let digit: i64 = (c as u32 - '0' as u32) as i64;
            let next: i64 = if negative {
                value * 10 - digit
            } else {
                value * 10 + digit
            };
            if next > i32::MAX as i64 {
                proof {
                    failure_stays(rest, here + 1 - start, negative);
                }
                return Err(ParseIntError { kind: IntErrorKind::PosOverflow });
            }
            if next < i32::MIN as i64 {
                proof {
                    failure_stays(rest, here + 1 - start, negative);
                }
                return Err(ParseIntError { kind: IntErrorKind::NegOverflow });
            }
            value = next;
            any_digit = true;
        }
        first = false;
    }
    if first {
        return Err(ParseIntError { kind: IntErrorKind::Empty });
    }
    if !any_digit {
        return Err(ParseIntError { kind: IntErrorKind::InvalidDigit });
    }
    assert(text@.subrange(if signed { 1int } else { 0int }, text@.len() as int) =~= text@.skip(
        if signed { 1int } else { 0int },
    ));
    assert(text@.skip(0) =~= text@);
    Ok(value as i32)
}

/// The characters of each of `strings`.
pub open spec fn texts_of(strings: Seq<&str>) -> Seq<Seq<char>> {
    strings.map_values(|s: &str| s@)
}

/// The numbers that the texts among `texts` read as, in their order.
pub open spec fn numbers_in(texts: Seq<Seq<char>>) -> Seq<i32>
    decreases texts.len(),
{
    if texts.len() == 0 {
        Seq::empty()
    } else {
        match parsed(texts.last()) {
            Ok(n) => numbers_in(texts.drop_last()).push(n),
            Err(_) => numbers_in(texts.drop_last()),
        }
    }
}

/// The failures of the texts among `texts` that read as no number, in
/// their order.
pub open spec fn failures_in(texts: Seq<Seq<char>>) -> Seq<ParseIntError>
    decreases texts.len(),
{
    if texts.len() == 0 {
        Seq::empty()
    } else {
        match parsed(texts.last()) {
            Ok(_) => failures_in(texts.drop_last()),
            Err(e) => failures_in(texts.drop_last()).push(e),
        }
    }
}

/// Every text is either among the numbers or among the failures.
pub proof fn nothing_is_lost(texts: Seq<Seq<char>>)
    ensures
        numbers_in(texts).len() + failures_in(texts).len() == texts.len(),
    decreases texts.len(),
{
    if texts.len() > 0 {
        nothing_is_lost(texts.drop_last());
    }
}

/// Reads each of `strings` and hands back the numbers apart from the
/// failures, each kind in the order in which it was met.
pub fn partition_parsed(strings: &[&str]) -> (result: (Vec<i32>, Vec<ParseIntError>))
    ensures
        result.0@ == numbers_in(texts_of(strings@)),
        result.1@ == failures_in(texts_of(strings@)),
{
    let ghost texts = texts_of(strings@);
    let mut numbers: Vec<i32> = Vec::new();
    let mut failures: Vec<ParseIntError> = Vec::new();
    let mut i: usize = 0;
    while i < strings.len()
        invariant
            i <= strings@.len(),
            texts == texts_of(strings@),
            numbers@ == numbers_in(texts.take(i as int)),
            failures@ == failures_in(texts.take(i as int)),
        decreases strings@.len() - i,
    {
        assert(texts.take(i + 1).drop_last() =~= texts.take(i as int));
        match parse_i32(strings[i]) {
            Ok(n) => numbers.push(n),
            Err(e) => failures.push(e),
        }
        i = i + 1;
    }
    assert(texts.take(i as int) =~= texts);
    (numbers, failures)
}

} // verus!
