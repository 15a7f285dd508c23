//! Conversions between a plain integer and types built on one.

use vstd::prelude::*;
use vstd::std_specs::convert::{FromSpecImpl, TryFromSpecImpl};
use crate::text::{push_signed_decimal, signed_decimal};

verus! {

/// A number in a wrapper of its own.
#[derive(Debug)]
pub struct Number {
    pub value: i32,
}

impl From<i32> for Number {
    fn from(item: i32) -> (number: Number) {
        Number { value: item }
    }
}

impl FromSpecImpl<i32> for Number {
    open spec fn obeys_from_spec() -> bool {
        true
    }

    /// The number that holds `item`.
    open spec fn from_spec(item: i32) -> Number {
        Number { value: item }
    }
}

/// An integer known to be even when it was made by `try_from`.
#[derive(Debug, PartialEq, Eq, Structural)]
pub struct EvenNumber(pub i32);

impl TryFrom<i32> for EvenNumber {
    type Error = ();

    fn try_from(value: i32) -> (result: Result<EvenNumber, ()>) {
        if value % 2 == 0 {
            Ok(EvenNumber(value))
        } else {
            Err(())
        }
    }
}

impl TryFromSpecImpl<i32> for EvenNumber {
    open spec fn obeys_try_from_spec() -> bool {
        true
    }

    /// An even `value` is wrapped as it is; an odd one is refused.
    open spec fn try_from_spec(value: i32) -> Result<EvenNumber, ()> {
        if value as int % 2 == 0 {
            Ok(EvenNumber(value))
        } else {
            Err(())
        }
    }
}

/// A circle, known by its radius.
#[derive(Debug)]
pub struct Circle {
    pub radius: i32,
}

/// The words for a circle of the given radius.
pub open spec fn circle_text(radius: int) -> Seq<char> {
    "Circle of radius "@ + signed_decimal(radius)
}

impl Circle {
    /// The circle in words: `"Circle of radius 6"`.
    pub fn to_string(&self) -> (text: String)
        ensures
            text@ == circle_text(self.radius as int),
    {
        let mut text = "Circle of radius ".to_owned();
        push_signed_decimal(&mut text, self.radius as i64);
        text
    }
}

} // verus!
