//! Plain functions, methods and functions taken as arguments.

use vstd::prelude::*;
use crate::text::{decimal, push_decimal, push_signed_decimal, signed_decimal};

verus! {

/// Whether `rhs` divides `lhs`. Nothing is divisible by zero.
pub open spec fn divides(lhs: nat, rhs: nat) -> bool {
    rhs != 0 && lhs % rhs == 0
}

/// Tells whether `lhs` is a multiple of `rhs`; a zero divisor gives `false`.
pub fn is_divisible_by(lhs: u32, rhs: u32) -> (r: bool)
    ensures
        r == divides(lhs as nat, rhs as nat),
{
    if rhs == 0 {
        return false;
    }
    lhs % rhs == 0
}

/// What is said for `n` in the counting game: `fizzbuzz` for a multiple of
/// fifteen, `fizz` for another multiple of three, `buzz` for another
/// multiple of five, and the number itself otherwise.
pub open spec fn fizzbuzz_line(n: nat) -> Seq<char> {
    if divides(n, 15) {
        "fizzbuzz"@
    } else if divides(n, 3) {
        "fizz"@
    } else if divides(n, 5) {
        "buzz"@
    } else {
        decimal(n)
    }
}

/// The line of the counting game for `n`.
pub fn fizzbuzz(n: u32) -> (line: String)
    ensures
        line@ == fizzbuzz_line(n as nat),
{
    if is_divisible_by(n, 15) {
        "fizzbuzz".to_owned()
    } else if is_divisible_by(n, 3) {
        "fizz".to_owned()
    } else if is_divisible_by(n, 5) {
        "buzz".to_owned()
    } else {
        let mut line = String::new();
        push_decimal(&mut line, n as u64);
        line
    }
}

/// The lines of the counting game for 1, 2, and so on up to `n`.
pub fn fizzbuzz_to(n: u32) -> (lines: Vec<String>)
    ensures
        lines.len() == n,
        forall|i: int| 0 <= i < n ==> (#[trigger] lines[i])@ == fizzbuzz_line((i + 1) as nat),
{
    let mut lines: Vec<String> = Vec::new();
    let mut said: u32 = 0;
    while said < n
        invariant
            said <= n,
            lines.len() == said,
            forall|i: int| 0 <= i < said ==> (#[trigger] lines[i])@ == fizzbuzz_line((i + 1) as nat),
        decreases n - said,
    {
        said = said + 1;
        lines.push(fizzbuzz(said));
    }
    lines
}

/// The first hundred lines of the counting game.
pub fn section01() -> (lines: Vec<String>)
    ensures
        lines.len() == 100,
        forall|i: int| 0 <= i < 100 ==> (#[trigger] lines[i])@ == fizzbuzz_line((i + 1) as nat),
{
    fizzbuzz_to(100)
}

/// Two numbers, each in a box of its own.
pub struct Pair(pub Box<i32>, pub Box<i32>);

/// What a pair says when it is taken apart.
pub open spec fn farewell(first: int, second: int) -> Seq<char> {
    "Destroying Pair("@ + signed_decimal(first) + ", "@ + signed_decimal(second) + ")"@
}

impl Pair {
    /// Takes the pair apart for good and reports what was in it.
    pub fn destroy(self) -> (report: String)
        ensures
            report@ == farewell(*self.0 as int, *self.1 as int),
    {
        let Pair(first, second) = self;
        let mut report = "Destroying Pair(".to_owned();
        push_signed_decimal(&mut report, *first as i64);
        report.append(", ");
        push_signed_decimal(&mut report, *second as i64);
        report.append(")");
        report
    }
}

/// Calls `f` once.
pub fn apply<F>(f: F) where F: FnOnce()
    requires
        f.requires(()),
    ensures
        f.ensures((), ()),
{
    f();
}

/// Calls `f` on three and hands back what it returns.
pub fn apply_to_3<F>(f: F) -> (r: i32) where F: Fn(i32) -> i32
    requires
        f.requires((3,)),
    ensures
        f.ensures((3,), r),
{
    f(3)
}

/// Returns the unit value and does nothing else.
pub fn some_fn() {
    ()
}

/// The sum of the odd numbers below `upto`.
pub open spec fn odd_sum(upto: nat) -> nat
    decreases upto,
{
    if upto == 0 {
        0
    } else {
        let last = (upto - 1) as nat;
        odd_sum(last) + if last % 2 == 1 { last } else { 0 }
    }
}

/// The sum of the odd numbers below `upto` is the square of half of `upto`.
pub proof fn odd_sum_is_a_square(upto: nat)
    ensures
        odd_sum(upto) == (upto / 2) * (upto / 2),
    decreases upto,
{
    if upto > 0 {
        let last = (upto - 1) as nat;
        let h = last / 2;
        let half = upto / 2;
        odd_sum_is_a_square(last);
        if last % 2 == 1 {
            assert(half * half == h * h + 2 * h + 1) by (nonlinear_arith)
                requires
                    half == h + 1,
            ;
        }
    } else {
        assert(upto / 2 == 0);
    }
}

/// The sum of the odd numbers below `upto` fits in a `u32` exactly when
/// `upto` is at most 131071.
pub proof fn odd_sum_fits(upto: nat)
    ensures
        odd_sum(upto) <= u32::MAX <==> upto <= 131_071,
{
    odd_sum_is_a_square(upto);
    let half = upto / 2;
    if half <= 65_535 {
        assert(half * half <= 65_535 * 65_535) by (nonlinear_arith)
            requires
                half <= 65_535,
        ;
    } else {
        assert(half * half >= 65_536 * 65_536) by (nonlinear_arith)
            requires
                half >= 65_536,
        ;
    }
}

/// The sum of the odd numbers below a bound grows with the bound.
pub proof fn odd_sum_grows(lower: nat, upper: nat)
    requires
        lower <= upper,
    ensures
        odd_sum(lower) <= odd_sum(upper),
    decreases upper,
{
    if lower < upper {
        odd_sum_grows(lower, (upper - 1) as nat);
    }
}

/// Adds up the odd numbers below `upto`. The sum has to fit in a `u32`,
/// which it does for every `upto` up to 131071 and for no other.
pub fn sum_odd_numbers(upto: u32) -> (acc: u32)
    requires
        odd_sum(upto as nat) <= u32::MAX,
    ensures
        acc == odd_sum(upto as nat),
{
    let mut acc: u32 = 0;
    let mut i: u32 = 0;
    while i < upto
        invariant
            i <= upto,
            acc == odd_sum(i as nat),
            odd_sum(upto as nat) <= u32::MAX,
        decreases upto - i,
    {
        proof {
            odd_sum_grows((i + 1) as nat, upto as nat);
        }
        if i % 2 == 1 {
            acc = acc + i;
        }
        i = i + 1;
    }
    acc
}

} // verus!
