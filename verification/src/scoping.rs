//! References handed in and handed back.

use vstd::prelude::*;
use crate::text::{push_signed_decimal, signed_decimal};

verus! {

/// The line that names the function `name` and shows the number `x`.
pub open spec fn labelled(name: Seq<char>, x: int) -> Seq<char> {
    "`"@ + name + "`: "@ + signed_decimal(x)
}

/// Builds the line for `name` and `x`.
fn label(name: &str, x: i32) -> (line: String)
    ensures
        line@ == labelled(name@, x as int),
{
    let mut line = "`".to_owned();
    line.append(name);
    line.append("`: ");
    push_signed_decimal(&mut line, x as i64);
    line
}

/// Shows a borrowed number, with the lifetime left to the compiler.
pub fn elided_input(x: &i32) -> (line: String)
    ensures
        line@ == labelled("elided_input"@, *x as int),
{
    label("elided_input", *x)
}

/// Shows a borrowed number, with the lifetime written out.
pub fn annotated_input<'a>(x: &'a i32) -> (line: String)
    ensures
        line@ == labelled("annotated_input"@, *x as int),
{
    label("annotated_input", *x)
}

/// Hands the reference back, with the lifetime left to the compiler.
pub fn elided_pass(x: &i32) -> (same: &i32)
    ensures
        same == x,
{
    x
}

/// Hands the reference back, with the lifetime written out.
pub fn annotated_pass<'a>(x: &'a i32) -> (same: &'a i32)
    ensures
        same == x,
{
    x
}

} // verus!
