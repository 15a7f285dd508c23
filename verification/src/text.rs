//! Integers as text, in base ten and base sixteen, and texts compared.

use vstd::prelude::*;
use vstd::utf8::encode_utf8_decode_utf8;

verus! {

/// The ten decimal digits, in order.
pub open spec fn decimal_digits() -> Seq<char> {
    seq!['0', '1', '2', '3', '4', '5', '6', '7', '8', '9']
}

/// The sixteen hexadecimal digits with lower-case letters.
pub open spec fn lower_hex_digits() -> Seq<char> {
    decimal_digits() + seq!['a', 'b', 'c', 'd', 'e', 'f']
}

/// The sixteen hexadecimal digits with upper-case letters.
pub open spec fn upper_hex_digits() -> Seq<char> {
    decimal_digits() + seq!['A', 'B', 'C', 'D', 'E', 'F']
}

/// A natural number in base ten, most significant digit first, with no
/// leading zero (zero itself is the single digit `0`).
pub open spec fn decimal(n: nat) -> Seq<char>
    decreases n,
{
    if n < 10 {
        seq![decimal_digits()[n as int]]
    } else {
        decimal(n / 10).push(decimal_digits()[(n % 10) as int])
    }
}

/// The number that a row of decimal digits stands for; a character that is
/// no digit counts as zero.
pub open spec fn decimal_value(digits: Seq<char>) -> nat
    decreases digits.len(),
{
    if digits.len() == 0 {
        0
    } else {
        let last = digits.last();
        let unit = if '0' <= last <= '9' {
            (last as int - '0' as int) as nat
        } else {
            0
        };
        10 * decimal_value(digits.drop_last()) + unit
    }
}

/// Reading back what `decimal` wrote gives the number again, so no two
/// numbers are written alike.
pub proof fn decimal_reads_back(n: nat)
    ensures
        decimal_value(decimal(n)) == n,
        decimal(n).len() >= 1,
    decreases n,
{
    reveal_with_fuel(decimal_value, 2);
    if n >= 10 {
        decimal_reads_back(n / 10);
        assert(decimal(n).drop_last() =~= decimal(n / 10));
    }
}

/// An integer in base ten: a minus sign in front of the magnitude of a
/// negative number, no sign otherwise.
pub open spec fn signed_decimal(n: int) -> Seq<char> {
    if n < 0 {
        seq!['-'] + decimal((-n) as nat)
    } else {
        decimal(n as nat)
    }
}

/// A byte as exactly two digits of base sixteen taken from `digits`.
pub open spec fn hex_pair(digits: Seq<char>, b: u8) -> Seq<char> {
    seq![digits[b as int / 16], digits[b as int % 16]]
}

/// Appends the `d`-th character of an ASCII alphabet to `out`.
fn push_from(out: &mut String, alphabet: &str, d: usize)
    requires
        alphabet.is_ascii(),
        d < alphabet@.len() <= 16,
    ensures
        final(out)@ == old(out)@.push(alphabet@[d as int]),
{
    let one = alphabet.substring_ascii(d, d + 1);
    out.append(one);
}

/// Appends one decimal digit.
fn push_digit(out: &mut String, d: u8)
    requires
        d < 10,
    ensures
        final(out)@ == old(out)@.push(decimal_digits()[d as int]),
{
    proof {
        reveal_strlit("0123456789");
    }
    push_from(out, "0123456789", d as usize);
}

/// Appends `n` in base ten to `out`.
pub fn push_decimal(out: &mut String, n: u64)
    ensures
        final(out)@ == old(out)@ + decimal(n as nat),
    decreases n,
{
    if n >= 10 {
        push_decimal(out, n / 10);
    }
    push_digit(out, (n % 10) as u8);
}

/// Appends the signed number `n` in base ten to `out`.
pub fn push_signed_decimal(out: &mut String, n: i64)
    ensures
        final(out)@ == old(out)@ + signed_decimal(n as int),
{
    if n < 0 {
        proof {
            reveal_strlit("-");
        }
        out.append("-");
        let magnitude: u64 = (-(n as i128)) as u64;
        push_decimal(out, magnitude);
    } else {
        push_decimal(out, n as u64);
    }
}

/// Appends a byte as two lower-case hexadecimal digits.
pub fn push_lower_hex(out: &mut String, b: u8)
    ensures
        final(out)@ == old(out)@ + hex_pair(lower_hex_digits(), b),
{
    proof {
        reveal_strlit("0123456789abcdef");
    }
    push_from(out, "0123456789abcdef", (b / 16) as usize);
    push_from(out, "0123456789abcdef", (b % 16) as usize);
}

/// Appends a byte as two upper-case hexadecimal digits.
pub fn push_upper_hex(out: &mut String, b: u8)
    ensures
        final(out)@ == old(out)@ + hex_pair(upper_hex_digits(), b),
{
    proof {
        reveal_strlit("0123456789ABCDEF");
    }
    push_from(out, "0123456789ABCDEF", (b / 16) as usize);
    push_from(out, "0123456789ABCDEF", (b % 16) as usize);
}

/// Tells whether two texts hold the same characters.
pub fn same_text(a: &str, b: &str) -> (same: bool)
    ensures
        same == (a@ == b@),
{
    let x = a.as_bytes();
    let y = b.as_bytes();
    proof {
        encode_utf8_decode_utf8(a@);
        encode_utf8_decode_utf8(b@);
    }
    if x.len() != y.len() {
        return false;
    }
    let mut i: usize = 0;
    while i < x.len()
        invariant
            i <= x@.len() == y@.len(),
            forall|k: int| 0 <= k < i ==> x@[k] == y@[k],
            a@ == b@ ==> x@ == y@,
        decreases x@.len() - i,
    {
        if x[i] != y[i] {
            return false;
        }
        i = i + 1;
    }
    assert(x@ =~= y@);
    true
}

} // verus!
