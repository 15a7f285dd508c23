//! Tuples and slices.

use vstd::prelude::*;
use vstd::utf8::encode_utf8;
use crate::text::{decimal, push_decimal, push_signed_decimal, signed_decimal};

verus! {

/// Swaps the two halves of a pair.
pub fn reverse(pair: (i32, bool)) -> (swapped: (bool, i32))
    ensures
        swapped == (pair.1, pair.0),
{
    let (integer, boolean) = pair;
    (boolean, integer)
}

/// Swaps the two halves of a pair, reading them by position.
pub fn reverse_alt(pair: (i32, bool)) -> (swapped: (bool, i32))
    ensures
        swapped == (pair.1, pair.0),
{
    (pair.1, pair.0)
}

/// Whether a comma directly followed by a space starts at place `i` of `text`.
pub open spec fn separator_at(text: Seq<char>, i: int) -> bool {
    0 <= i && i + 1 < text.len() && text[i] == ',' && text[i + 1] == ' '
}

/// The number of separators that start before place `end` of `text`.
pub open spec fn separators_before(text: Seq<char>, end: int) -> nat
    decreases end,
{
    if end <= 0 {
        0
    } else {
        separators_before(text, end - 1) + if separator_at(text, end - 1) { 1nat } else { 0nat }
    }
}

/// No more separators start before `end` than there are places before it,
/// and none starts at the last place of the text.
pub proof fn separators_are_few(text: Seq<char>, end: int)
    requires
        0 <= end <= text.len(),
    ensures
        separators_before(text, end) <= end,
        end == text.len() && end > 0 ==> separators_before(text, end) <= end - 1,
    decreases end,
{
    if end > 0 {
        separators_are_few(text, end - 1);
    }
}

/// A text has no more characters than its UTF-8 form has bytes.
proof fn chars_are_no_more_than_bytes(chars: Seq<char>)
    ensures
        chars.len() <= encode_utf8(chars).len(),
    decreases chars.len(),
{
    if chars.len() > 0 {
        chars_are_no_more_than_bytes(chars.drop_first());
    }
}

/// The number of fields of a tuple, counted in its debug rendering `text`:
/// one more than the number of `", "` in it. A field that itself holds a
/// comma and a space is counted as several.
pub fn get_tuple_length(text: &str) -> (fields: usize)
    ensures
        fields == separators_before(text@, text@.len() as int) + 1,
{
    let bytes = text.as_bytes().len();
    proof {
        chars_are_no_more_than_bytes(text@);
    }
    let mut count: usize = 0;
    let mut after_comma = false;
    for c in it: text.chars()
        invariant
            it.seq() == text@,
            text@.len() <= bytes,
            count == separators_before(text@, it.index() - 1),
            count <= it.index(),
            after_comma == (it.index() > 0 && text@[it.index() - 1] == ','),
    {
        if after_comma && c == ' ' {
            count = count + 1;
        }
        after_comma = c == ',';
    }
    proof {
        separators_are_few(text@, text@.len() as int);
    }
    count + 1
}

/// The first line of the report on a slice that starts with `first`.
pub open spec fn first_element_line(first: int) -> Seq<char> {
    "first element of the slice: "@ + signed_decimal(first)
}

/// The second line of the report on a slice of `len` elements.
pub open spec fn element_count_line(len: nat) -> Seq<char> {
    "the slice has "@ + decimal(len) + " elements"@
}

/// Reports on a slice in two lines: its first element, then its length.
/// The slice must not be empty.
pub fn analyze_slice(slice: &[i32]) -> (report: Vec<String>)
    requires
        slice@.len() > 0,
    ensures
        report.len() == 2,
        report[0]@ == first_element_line(slice@[0] as int),
        report[1]@ == element_count_line(slice@.len()),
{
    let mut first = "first element of the slice: ".to_owned();
    push_signed_decimal(&mut first, slice[0] as i64);
    let mut count = "the slice has ".to_owned();
    push_decimal(&mut count, slice.len() as u64);
    count.append(" elements");
    let mut report: Vec<String> = Vec::new();
    report.push(first);
    report.push(count);
    report
}

/// What is said of place `i` of `xs`: the place and what stands there, or
/// that the place lies beyond the end.
pub open spec fn place_line(xs: Seq<i32>, i: nat) -> Seq<char> {
    if i < xs.len() {
        decimal(i) + ": "@ + signed_decimal(xs[i as int] as int)
    } else {
        "Slow down! "@ + decimal(i) + " is to far!"@
    }
}

/// Looks at place `i` of `xs`, which may lie beyond its end.
pub fn look_at(xs: &[i32], i: usize) -> (line: String)
    ensures
        line@ == place_line(xs@, i as nat),
{
    let mut line = String::new();
    match xs.get(i) {
        Some(xval) => {
            push_decimal(&mut line, i as u64);
            line.append(": ");
            push_signed_decimal(&mut line, *xval as i64);
        },
        None => {
            line.append("Slow down! ");
            push_decimal(&mut line, i as u64);
            line.append(" is to far!");
        },
    }
    line
}

} // verus!
