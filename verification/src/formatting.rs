//! Types that show themselves as text.

use vstd::prelude::*;
use crate::text::{
    decimal, hex_pair, lower_hex_digits, push_decimal, push_lower_hex, push_signed_decimal,
    push_upper_hex, signed_decimal, upper_hex_digits,
};

verus! {

/// A colour as its red, green and blue parts.
#[derive(Debug)]
pub struct Color {
    pub red: u8,
    pub green: u8,
    pub blue: u8,
}

/// The three parts of a colour in base ten, separated by commas.
pub open spec fn parts_text(c: Color) -> Seq<char> {
    decimal(c.red as nat) + ", "@ + decimal(c.green as nat) + ", "@ + decimal(c.blue as nat)
}

/// A colour's six hexadecimal digits: two for each of red, green and blue.
pub open spec fn hex_text(digits: Seq<char>, c: Color) -> Seq<char> {
    hex_pair(digits, c.red) + hex_pair(digits, c.green) + hex_pair(digits, c.blue)
}

/// A colour written as `RGB (r, g, b) 0xRRGGBB`, the hexadecimal digits in
/// upper case.
pub open spec fn color_text(c: Color) -> Seq<char> {
    "RGB ("@ + parts_text(c) + ") 0x"@ + hex_text(upper_hex_digits(), c)
}

/// A colour written as `RGB( r, g, b 0xrrggbb`, the hexadecimal digits in
/// lower case.
pub open spec fn color_text_lower(c: Color) -> Seq<char> {
    "RGB( "@ + parts_text(c) + " 0x"@ + hex_text(lower_hex_digits(), c)
}

impl Color {
    /// Appends the three parts in base ten, separated by commas.
    fn push_parts(&self, out: &mut String)
        ensures
            final(out)@ == old(out)@ + parts_text(*self),
    {
        push_decimal(out, self.red as u64);
        out.append(", ");
        push_decimal(out, self.green as u64);
        out.append(", ");
        push_decimal(out, self.blue as u64);
    }

    /// The colour as `RGB (r, g, b) 0xRRGGBB`.
    pub fn to_string(&self) -> (text: String)
        ensures
            text@ == color_text(*self),
    {
        let mut text = "RGB (".to_owned();
        self.push_parts(&mut text);
        text.append(") 0x");
        push_upper_hex(&mut text, self.red);
        push_upper_hex(&mut text, self.green);
        push_upper_hex(&mut text, self.blue);
        text
    }

    /// The colour as `RGB( r, g, b 0xrrggbb`.
    pub fn to_string_lower(&self) -> (text: String)
        ensures
            text@ == color_text_lower(*self),
    {
        let mut text = "RGB( ".to_owned();
        self.push_parts(&mut text);
        text.append(" 0x");
        push_lower_hex(&mut text, self.red);
        push_lower_hex(&mut text, self.green);
        push_lower_hex(&mut text, self.blue);
        text
    }
}

/// A number that shows itself as its digits.
#[derive(Debug)]
pub struct DebugPrintable(pub i32);

impl DebugPrintable {
    /// The number in base ten.
    pub fn to_string(&self) -> (text: String)
        ensures
            text@ == signed_decimal(self.0 as int),
    {
        let mut text = String::new();
        push_signed_decimal(&mut text, self.0 as i64);
        text
    }
}

/// Two numbers, meant as the ends of a range.
#[derive(Debug)]
pub struct MinMax(pub i64, pub i64);

/// The two ends in base ten with a space between them.
pub open spec fn min_max_text(m: MinMax) -> Seq<char> {
    signed_decimal(m.0 as int) + " "@ + signed_decimal(m.1 as int)
}

impl MinMax {
    /// The two ends, separated by a space.
    pub fn to_string(&self) -> (text: String)
        ensures
            text@ == min_max_text(*self),
    {
        let mut text = String::new();
        push_signed_decimal(&mut text, self.0);
        text.append(" ");
        push_signed_decimal(&mut text, self.1);
        text
    }
}

} // verus!
