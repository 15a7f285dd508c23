//! Types made by hand: enums with and without data, a singly linked list,
//! and a named constant.

use vstd::prelude::*;
use crate::text::{decimal, push_decimal, push_signed_decimal, signed_decimal};

verus! {

/// What is known of a person: a trade, a measure, or a name with a height.
pub enum Person {
    Engineer,
    Scientist,
    Height(i32),
    Weight(i32),
    Info { name: String, height: i32 },
}

/// What is said of a person.
pub open spec fn person_line(p: Person) -> Seq<char> {
    match p {
        Person::Engineer => "is an engineer"@,
        Person::Scientist => "is an scientist"@,
        Person::Height(h) => "has a height of "@ + signed_decimal(h as int),
        Person::Weight(w) => "has a weight of "@ + signed_decimal(w as int),
        Person::Info { name, height } => name@ + " is "@ + signed_decimal(height as int)
            + " tall"@,
    }
}

/// Says what is known of `p`, in one line.
pub fn inspect(p: Person) -> (line: String)
    ensures
        line@ == person_line(p),
{
    match p {
        Person::Engineer => "is an engineer".to_owned(),
        Person::Scientist => "is an scientist".to_owned(),
        Person::Height(h) => {
            let mut line = "has a height of ".to_owned();
            push_signed_decimal(&mut line, h as i64);
            line
        },
        Person::Weight(w) => {
            let mut line = "has a weight of ".to_owned();
            push_signed_decimal(&mut line, w as i64);
            line
        },
        Person::Info { name, height } => {
            let mut line = name;
            line.append(" is ");
            push_signed_decimal(&mut line, height as i64);
            line.append(" tall");
            line
        },
    }
}

/// Looks at five people in turn: one known by weight, one by height, Dave
/// with his height, a scientist and an engineer.
pub fn section02() -> (lines: Vec<String>)
    ensures
        lines.len() == 5,
        lines[0]@ == "has a weight of 18"@,
        lines[1]@ == "has a height of 10"@,
        lines[2]@ == "Dave is 28 tall"@,
        lines[3]@ == "is an scientist"@,
        lines[4]@ == "is an engineer"@,
{
    let person = Person::Weight(18);
    let amira = Person::Height(10);
    let dave = Person::Info { name: "Dave".to_owned(), height: 28 };
    let rebecca = Person::Scientist;
    let rohan = Person::Engineer;

    proof {
        reveal_with_fuel(decimal, 2);
        reveal_strlit("has a weight of ");
        reveal_strlit("has a weight of 18");
        reveal_strlit("has a height of ");
        reveal_strlit("has a height of 10");
        reveal_strlit("Dave");
        reveal_strlit(" is ");
        reveal_strlit(" tall");
        reveal_strlit("Dave is 28 tall");
    }
    let mut lines: Vec<String> = Vec::new();
    lines.push(inspect(person));
    lines.push(inspect(amira));
    lines.push(inspect(dave));
    lines.push(inspect(rebecca));
    lines.push(inspect(rohan));
    lines
}

/// How well off someone is.
#[derive(Clone, Copy, Debug, PartialEq, Eq, Structural)]
pub enum Status {
    Rich,
    Poor,
}

impl Status {
    /// The name of the variant.
    pub fn name(&self) -> (name: &'static str)
        ensures
            name@ == match *self {
                Status::Rich => "Rich"@,
                Status::Poor => "Poor"@,
            },
    {
        match self {
            Status::Rich => "Rich",
            Status::Poor => "Poor",
        }
    }
}

/// What someone does for a living.
#[derive(Clone, Copy, Debug, PartialEq, Eq, Structural)]
pub enum Work {
    Civilian,
    Soldier,
}

impl Work {
    /// The name of the variant.
    pub fn name(&self) -> (name: &'static str)
        ensures
            name@ == match *self {
                Work::Civilian => "Civilian"@,
                Work::Soldier => "Soldier"@,
            },
    {
        match self {
            Work::Civilian => "Civilian",
            Work::Soldier => "Soldier",
        }
    }
}

/// The first three numbers, by name.
#[derive(Clone, Copy, Debug, PartialEq, Eq, Structural)]
pub enum Number {
    Zero,
    One,
    Two,
}

impl Number {
    /// The number named: 0, 1 or 2.
    pub fn value(&self) -> (value: i32)
        ensures
            value == match *self {
                Number::Zero => 0i32,
                Number::One => 1i32,
                Number::Two => 2i32,
            },
    {
        match self {
            Number::Zero => 0,
            Number::One => 1,
            Number::Two => 2,
        }
    }
}

/// The three primary colours of light.
#[derive(Clone, Copy, Debug, PartialEq, Eq, Structural)]
pub enum Color {
    Red,
    Green,
    Blue,
}

impl Color {
    /// The colour as a 24-bit code: `0xff0000` for red, `0x00ff00` for
    /// green, `0x0000ff` for blue.
    pub fn code(&self) -> (code: i32)
        ensures
            code == match *self {
                Color::Red => 0xff0000i32,
                Color::Green => 0x00ff00i32,
                Color::Blue => 0x0000ffi32,
            },
    {
        match self {
            Color::Red => 0xff0000,
            Color::Green => 0x00ff00,
            Color::Blue => 0x0000ff,
        }
    }
}

/// The language all of this is written in.
pub const LANGUAGE: &'static str = "Rust";

/// Numbers above this count as big.
pub const THRESHOLD: i32 = 10;

/// Tells whether `n` is above the threshold.
pub fn is_big(n: i32) -> (big: bool)
    ensures
        big == (n > THRESHOLD),
{
    n > THRESHOLD
}

/// A singly linked list of `u32`: a head followed by the rest, or nothing.
pub enum List {
    /// An element and the list that follows it.
    Cons(u32, Box<List>),
    /// The end of the list.
    Nil,
}

/// The elements of `list` from its front to its end.
pub open spec fn elements(list: List) -> Seq<u32>
    decreases list,
{
    match list {
        List::Cons(head, tail) => seq![head] + elements(*tail),
        List::Nil => Seq::empty(),
    }
}

impl View for List {
    type V = Seq<u32>;

    open spec fn view(&self) -> Seq<u32> {
        elements(*self)
    }
}

/// The elements of `items` in base ten, each followed by a comma and a
/// space, and `end` after the last of them.
pub open spec fn listing(items: Seq<u32>, end: Seq<char>) -> Seq<char>
    decreases items.len(),
{
    if items.len() == 0 {
        end
    } else {
        decimal(items[0] as nat) + ", "@ + listing(items.drop_first(), end)
    }
}

impl List {
    /// The empty list.
    pub fn new() -> (list: List)
        ensures
            list == List::Nil,
            list@ == Seq::<u32>::empty(),
    {
        List::Nil
    }

    /// Puts `elem` in front of the list.
    pub fn prepend(self, elem: u32) -> (list: List)
        ensures
            list == List::Cons(elem, Box::new(self)),
            list@ == seq![elem] + self@,
    {
        List::Cons(elem, Box::new(self))
    }

    /// The number of elements.
    pub fn len(&self) -> (n: u32)
        requires
            self@.len() <= u32::MAX,
        ensures
            n == self@.len(),
        decreases self,
    {
        match self {
            List::Cons(_, tail) => 1 + tail.len(),
            List::Nil => 0,
        }
    }

    /// Appends the elements to `out`, each followed by `", "`, then `end`.
    fn write(&self, out: &mut String, end: &str)
        ensures
            final(out)@ == old(out)@ + listing(self@, end@),
        decreases self,
    {
        match self {
            List::Cons(head, tail) => {
                push_decimal(out, *head as u64);
                out.append(", ");
                tail.write(out, end);
                assert(self@.drop_first() =~= tail@);
            },
            List::Nil => {
                out.append(end);
            },
        }
    }

    /// The list as text: `"3, 2, 1, Nil"` for the list of 3, 2 and 1.
    pub fn stringify(&self) -> (text: String)
        ensures
            text@ == listing(self@, "Nil"@),
    {
        let mut text = String::new();
        self.write(&mut text, "Nil");
        text
    }

    /// The list as text with a loud ending: `"3, 2, 1, NIL!"`.
    pub fn stringfy(&self) -> (text: String)
        ensures
            text@ == listing(self@, "NIL!"@),
    {
        let mut text = String::new();
        self.write(&mut text, "NIL!");
        text
    }
}

} // verus!
