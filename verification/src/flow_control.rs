//! Branches and matches: what is said of a value, by the shape it has.

use vstd::prelude::*;
use crate::text::{decimal, push_decimal, push_signed_decimal, same_text, signed_decimal};

verus! {

/// Whether `n` lies strictly between minus ten and ten.
pub open spec fn is_small(n: int) -> bool {
    -10 < n < 10
}

/// A small number times ten; half of any other, rounded towards zero.
pub open spec fn rescaled(n: int) -> int {
    if is_small(n) {
        10 * n
    } else if n >= 0 {
        n / 2
    } else {
        -((-n) / 2)
    }
}

/// Makes a small number ten times as large and halves any other.
pub fn rescale(n: i32) -> (r: i32)
    ensures
        r == rescaled(n as int),
{
    if n < 10 && n > -10 {
        n * 10
    } else {
        n / 2
    }
}

/// What is said of the sign of `n`.
pub open spec fn sign_words(n: int) -> Seq<char> {
    if n < 0 {
        " is negative"@
    } else if n > 0 {
        " is positive"@
    } else {
        " is zero"@
    }
}

/// What is said of the size of `n`.
pub open spec fn size_words(n: int) -> Seq<char> {
    if is_small(n) {
        ", and is a small number, increase ten-fold"@
    } else {
        ", and is a big number, reduce by two"@
    }
}

/// Reports on `n` in two lines: its sign and size, then what it is
/// rescaled to.
pub fn rescale_report(n: i32) -> (lines: Vec<String>)
    ensures
        lines.len() == 2,
        lines[0]@ == signed_decimal(n as int) + sign_words(n as int) + size_words(n as int),
        lines[1]@ == signed_decimal(n as int) + " -> "@ + signed_decimal(rescaled(n as int)),
{
    let mut first = String::new();
    push_signed_decimal(&mut first, n as i64);
    if n < 0 {
        first.append(" is negative");
    } else if n > 0 {
        first.append(" is positive");
    } else {
        first.append(" is zero");
    }
    if n < 10 && n > -10 {
        first.append(", and is a small number, increase ten-fold");
    } else {
        first.append(", and is a big number, reduce by two");
    }

    let mut second = String::new();
    push_signed_decimal(&mut second, n as i64);
    second.append(" -> ");
    push_signed_decimal(&mut second, rescale(n) as i64);

    let mut lines: Vec<String> = Vec::new();
    lines.push(first);
    lines.push(second);
    lines
}

/// What is said at `count` when counting aloud: the word for three, the
/// digits of any other number.
pub open spec fn count_words(count: nat) -> Seq<char> {
    if count == 3 {
        "three"@
    } else {
        decimal(count)
    }
}

/// Counts aloud from one to five and then says that it is enough.
pub fn count_to_five() -> (lines: Vec<String>)
    ensures
        lines.len() == 6,
        forall|i: int| 0 <= i < 5 ==> (#[trigger] lines[i])@ == count_words((i + 1) as nat),
        lines[5]@ == "okay, enough!"@,
{
    let mut lines: Vec<String> = Vec::new();
    let mut count: u32 = 0;
    loop
        invariant_except_break
            count < 5,
            lines.len() == count,
        invariant
            forall|i: int|
                0 <= i < 5 && i < lines.len() ==> (#[trigger] lines[i])@ == count_words(
                    (i + 1) as nat,
                ),
        ensures
            lines.len() == 6,
            lines[5]@ == "okay, enough!"@,
        decreases 5 - count,
    {
        count += 1;
        if count == 3 {
            lines.push("three".to_owned());
            continue;
        }
        let mut line = String::new();
        push_decimal(&mut line, count as u64);
        lines.push(line);
        if count == 5 {
            lines.push("okay, enough!".to_owned());
            break;
        }
    }
    lines
}

/// Counts up to ten and hands back twice that.
pub fn twice_the_tenth() -> (result: i32)
    ensures
        result == 20,
{
    let mut counter: i32 = 0;
    loop
        invariant_except_break
            0 <= counter < 10,
        ensures
            counter == 10,
        decreases 10 - counter,
    {
        counter += 1;
        if counter == 10 {
            break ;
        }
    }
    counter * 2
}

/// What is said in a round that starts at `i`.
pub open spec fn round_words(i: int) -> Seq<char> {
    if i > 9 {
        "greater than 9, quit!"@
    } else {
        "`i` is `"@ + signed_decimal(i) + "`. try again"@
    }
}

/// The number of rounds played from `start`: one for each number from
/// `start` up to nine, and the round that ends it.
pub open spec fn rounds_from(start: int) -> nat {
    if start > 9 {
        1
    } else {
        (11 - start) as nat
    }
}

/// Plays round after round from `start`, raising the number by one each
/// time, until a round starts above nine; hands back what was said.
pub fn play_rounds(start: i32) -> (lines: Vec<String>)
    ensures
        lines.len() == rounds_from(start as int),
        forall|k: int|
            0 <= k < lines.len() ==> (#[trigger] lines[k])@ == round_words(start + k),
{
    let mut lines: Vec<String> = Vec::new();
    let mut i = start;
    while i <= 9
        invariant
            start <= i,
            start <= 9 ==> i <= 10,
            start > 9 ==> i == start,
            lines.len() == i - start,
            forall|k: int|
                0 <= k < lines.len() ==> (#[trigger] lines[k])@ == round_words(start + k),
        decreases 10 - i,
    {
        let mut line = "`i` is `".to_owned();
        push_signed_decimal(&mut line, i as i64);
        line.append("`. try again");
        lines.push(line);
        i = i + 1;
    }
    lines.push("greater than 9, quit!".to_owned());
    lines
}

/// Tells whether `name` is the one name that gets a welcome of its own.
pub fn is_rustacean(name: &str) -> (r: bool)
    ensures
        r == (name@ == "Ferris"@),
{
    same_text(name, "Ferris")
}

/// The greeting for `name`.
pub open spec fn greeting(name: Seq<char>) -> Seq<char> {
    if name == "Ferris"@ {
        "There is a rustacean among us!"@
    } else {
        "hello "@ + name
    }
}

/// Greets `name`: a welcome of its own for Ferris, a plain hello for
/// anyone else.
pub fn greet(name: &str) -> (line: String)
    ensures
        line@ == greeting(name@),
{
    if is_rustacean(name) {
        "There is a rustacean among us!".to_owned()
    } else {
        let mut line = "hello ".to_owned();
        line.append(name);
        line
    }
}

/// What a name is replaced by: a welcome for Ferris, a bare hello for
/// anyone else.
pub fn relabel(name: &str) -> (label: &'static str)
    ensures
        label@ == if name@ == "Ferris"@ {
            "there is a rustacean among us!"@
        } else {
            "hello"@
        },
{
    if is_rustacean(name) {
        "there is a rustacean among us!"
    } else {
        "hello"
    }
}

/// What is said of a number: one is itself, the primes up to eleven are
/// prime, thirteen to nineteen are teens.
pub open spec fn number_words(n: int) -> Seq<char> {
    if n == 1 {
        "one"@
    } else if n == 2 || n == 3 || n == 5 || n == 7 || n == 11 {
        "prime nubmer"@
    } else if 13 <= n <= 19 {
        "teen"@
    } else {
        "ain't special"@
    }
}

/// Says what kind of number `n` is.
pub fn describe_number(n: i32) -> (words: &'static str)
    ensures
        words@ == number_words(n as int),
{
    match n {
        1 => "one",
        2 | 3 | 5 | 7 | 11 => "prime nubmer",
        13..=19 => "teen",
        _ => "ain't special",
    }
}

/// A truth value as a number: 1 for true, 0 for false.
pub fn to_binary(b: bool) -> (bit: i32)
    ensures
        bit == if b { 1i32 } else { 0i32 },
{
    match b {
        false => 0,
        true => 1,
    }
}

/// What is said of a pair: of its second half when the first is zero, of
/// its first half when the second is zero.
pub open spec fn pair_words(pair: (i32, i32)) -> Seq<char> {
    if pair.0 == 0 {
        "first is `0` and `y` is "@ + signed_decimal(pair.1 as int)
    } else if pair.1 == 0 {
        "`x` is "@ + signed_decimal(pair.0 as int) + ", and the last is `0`"@
    } else {
        "it doesn't matter"@
    }
}

/// Says what matters of a pair.
pub fn describe_pair(pair: (i32, i32)) -> (line: String)
    ensures
        line@ == pair_words(pair),
{
    match pair {
        (0, y) => {
            let mut line = "first is `0` and `y` is ".to_owned();
            push_signed_decimal(&mut line, y as i64);
            line
        },
        (x, 0) => {
            let mut line = "`x` is ".to_owned();
            push_signed_decimal(&mut line, x as i64);
            line.append(", and the last is `0`");
            line
        },
        _ => "it doesn't matter".to_owned(),
    }
}

/// What is said of a triple, by its first and last parts.
pub open spec fn triple_words(triple: (i32, i32, i32)) -> Seq<char> {
    if triple.0 == 0 {
        "first is `0`, `y` is "@ + signed_decimal(triple.1 as int) + ", `z` is "@
            + signed_decimal(triple.2 as int)
    } else if triple.0 == 1 {
        "first is `1`, and the rest doesn't matter"@
    } else if triple.2 == 2 {
        "last is `2`, and the rest doesn't matter"@
    } else if triple.0 == 3 && triple.2 == 4 {
        "frist is `3`, last is `4`, and the rest doesn't matter"@
    } else {
        "it doesn't matter"@
    }
}

/// Says what matters of a triple.
pub fn describe_triple(triple: (i32, i32, i32)) -> (line: String)
    ensures
        line@ == triple_words(triple),
{
    match triple {
        (0, y, z) => {
            let mut line = "first is `0`, `y` is ".to_owned();
            push_signed_decimal(&mut line, y as i64);
            line.append(", `z` is ");
            push_signed_decimal(&mut line, z as i64);
            line
        },
        (1, ..) => "first is `1`, and the rest doesn't matter".to_owned(),
        (.., 2) => "last is `2`, and the rest doesn't matter".to_owned(),
        (3, .., 4) => "frist is `3`, last is `4`, and the rest doesn't matter".to_owned(),
        _ => "it doesn't matter".to_owned(),
    }
}

/// What is said of three numbers in a row, by the first of them.
pub open spec fn array_words(a: Seq<i32>) -> Seq<char> {
    if a[0] == 0 {
        "array[0] = 0, array[1] = "@ + signed_decimal(a[1] as int) + ", array[2] = "@
            + signed_decimal(a[2] as int)
    } else if a[0] == 1 {
        "array[0] = , array[2] = "@ + signed_decimal(a[2] as int)
            + ", and array[1] was ignored."@
    } else if a[0] == -1 {
        "array[0] = -1, array[1] = "@ + signed_decimal(a[1] as int)
            + ", and all the other ones were ignored"@
    } else if a[0] == 3 {
        "array[0] = 3, array[1] = "@ + signed_decimal(a[1] as int)
            + ", and the other elements were ["@ + signed_decimal(a[2] as int) + "]"@
    } else {
        "array[0] = "@ + signed_decimal(a[0] as int) + ", middle =["@ + signed_decimal(
            a[1] as int,
        ) + "], array[2] = "@ + signed_decimal(a[2] as int)
    }
}

/// Says what matters of an array of three.
pub fn describe_array(array: [i32; 3]) -> (line: String)
    ensures
        line@ == array_words(array@),
{
    let first = array[0];
    let second = array[1];
    let third = array[2];
    let mut line = String::new();
    if first == 0 {
        line.append("array[0] = 0, array[1] = ");
        push_signed_decimal(&mut line, second as i64);
        line.append(", array[2] = ");
        push_signed_decimal(&mut line, third as i64);
    } else if first == 1 {
        line.append("array[0] = , array[2] = ");
        push_signed_decimal(&mut line, third as i64);
        line.append(", and array[1] was ignored.");
    } else if first == -1 {
        line.append("array[0] = -1, array[1] = ");
        push_signed_decimal(&mut line, second as i64);
        line.append(", and all the other ones were ignored");
    } else if first == 3 {
        line.append("array[0] = 3, array[1] = ");
        push_signed_decimal(&mut line, second as i64);
        line.append(", and the other elements were [");
        push_signed_decimal(&mut line, third as i64);
        line.append("]");
    } else {
        line.append("array[0] = ");
        push_signed_decimal(&mut line, first as i64);
        line.append(", middle =[");
        push_signed_decimal(&mut line, second as i64);
        line.append("], array[2] = ");
        push_signed_decimal(&mut line, third as i64);
    }
    line
}

/// A colour, by name or by its parts in one of several colour models.
pub enum Color {
    Red,
    Blue,
    Green,
    RGB(u32, u32, u32),
    HSV(u32, u32, u32),
    HSL(u32, u32, u32),
    CMY(u32, u32, u32),
    CMYK(u32, u32, u32, u32),
}

/// Three numbers, each after the words that name it.
pub open spec fn three_parts(
    a: Seq<char>,
    x: u32,
    b: Seq<char>,
    y: u32,
    c: Seq<char>,
    z: u32,
) -> Seq<char> {
    a + decimal(x as nat) + b + decimal(y as nat) + c + decimal(z as nat)
}

/// What is said of a colour: its name, or its parts.
pub open spec fn color_words(color: Color) -> Seq<char> {
    match color {
        Color::Red => "Red"@,
        Color::Blue => "Blue"@,
        Color::Green => "Green"@,
        Color::RGB(r, g, b) => three_parts("R: "@, r, ", G:"@, g, ", B:"@, b),
        Color::HSV(h, s, v) => three_parts("H: "@, h, ", S:"@, s, ", V:"@, v),
        Color::HSL(h, s, l) => three_parts("H: "@, h, ", S:"@, s, ", L:"@, l),
        Color::CMY(c, m, y) => three_parts("C: "@, c, ", M:"@, m, ", Y:"@, y),
        Color::CMYK(c, m, y, k) => three_parts("C: "@, c, ", M:"@, m, ", Y:"@, y) + ", K:"@
            + decimal(k as nat),
    }
}

/// Builds the text of three numbers, each after the words that name it.
fn write_parts(a: &str, x: u32, b: &str, y: u32, c: &str, z: u32) -> (line: String)
    ensures
        line@ == three_parts(a@, x, b@, y, c@, z),
{
    let mut line = a.to_owned();
    push_decimal(&mut line, x as u64);
    line.append(b);
    push_decimal(&mut line, y as u64);
    line.append(c);
    push_decimal(&mut line, z as u64);
    line
}

impl Color {
    /// Says which colour this is.
    pub fn describe(&self) -> (line: String)
        ensures
            line@ == color_words(*self),
    {
        match self {
            Color::Red => "Red".to_owned(),
            Color::Blue => "Blue".to_owned(),
            Color::Green => "Green".to_owned(),
            Color::RGB(r, g, b) => write_parts("R: ", *r, ", G:", *g, ", B:", *b),
            Color::HSV(h, s, v) => write_parts("H: ", *h, ", S:", *s, ", V:", *v),
            Color::HSL(h, s, l) => write_parts("H: ", *h, ", S:", *s, ", L:", *l),
            Color::CMY(c, m, y) => write_parts("C: ", *c, ", M:", *m, ", Y:", *y),
            Color::CMYK(c, m, y, k) => {
                let mut line = write_parts("C: ", *c, ", M:", *m, ", Y:", *y);
                line.append(", K:");
                push_decimal(&mut line, *k as u64);
                line
            },
        }
    }
}

/// A pair and a number.
pub struct Foo {
    pub x: (u32, u32),
    pub y: u32,
}

/// Whether anything is said of `foo`: its pair starts with one or ends
/// with two, or its number is two.
pub open spec fn foo_is_known(foo: Foo) -> bool {
    foo.x.0 == 1 || foo.y == 2 || foo.x.1 == 2
}

/// What is said of a `Foo` of which something is said.
pub open spec fn foo_words(foo: Foo) -> Seq<char> {
    if foo.x.0 == 1 {
        "first of x is 1, b = "@ + decimal(foo.x.1 as nat) + ", y = "@ + decimal(foo.y as nat)
    } else if foo.y == 2 {
        "y is 2, x is ("@ + decimal(foo.x.0 as nat) + ", "@ + decimal(foo.x.1 as nat) + ")"@
    } else {
        "second of x is 2, a = "@ + decimal(foo.x.0 as nat) + ", we don't care of y"@
    }
}

/// Says what matters of `foo`, which has to be one of which something is
/// said.
pub fn describe_foo(foo: Foo) -> (line: String)
    requires
        foo_is_known(foo),
    ensures
        line@ == foo_words(foo),
{
    let Foo { x: (a, b), y } = foo;
    let mut line = String::new();
    if a == 1 {
        line.append("first of x is 1, b = ");
        push_decimal(&mut line, b as u64);
        line.append(", y = ");
        push_decimal(&mut line, y as u64);
    } else if y == 2 {
        line.append("y is 2, x is (");
        push_decimal(&mut line, a as u64);
        line.append(", ");
        push_decimal(&mut line, b as u64);
        line.append(")");
    } else {
        line.append("second of x is 2, a = ");
        push_decimal(&mut line, a as u64);
        line.append(", we don't care of y");
    }
    line
}

/// A temperature in one of two scales.
pub enum Temperature {
    Celsius(i32),
    Fahrenheit(i32),
}

/// What is said of a temperature: whether it is above 20 degrees
/// Celsius, or above 70 degrees Fahrenheit.
pub open spec fn temperature_words(t: Temperature) -> Seq<char> {
    match t {
        Temperature::Celsius(c) => signed_decimal(c as int) + if c > 20 {
            "C is above 20 celsius"@
        } else {
            "C is below 20 celsius"@
        },
        Temperature::Fahrenheit(f) => signed_decimal(f as int) + if f > 70 {
            "F is above 70 fahrenheit"@
        } else {
            "F is below 70 fahrenheit"@
        },
    }
}

impl Temperature {
    /// Says whether it is warm.
    pub fn describe(&self) -> (line: String)
        ensures
            line@ == temperature_words(*self),
    {
        let mut line = String::new();
        match self {
            Temperature::Celsius(t) => {
                push_signed_decimal(&mut line, *t as i64);
                if *t > 20 {
                    line.append("C is above 20 celsius");
                } else {
                    line.append("C is below 20 celsius");
                }
            },
            Temperature::Fahrenheit(t) => {
                push_signed_decimal(&mut line, *t as i64);
                if *t > 70 {
                    line.append("F is above 70 fahrenheit");
                } else {
                    line.append("F is below 70 fahrenheit");
                }
            },
        }
        line
    }
}

/// Says whether a byte is zero or positive; it is never anything else.
pub fn describe_byte(number: u8) -> (words: &'static str)
    ensures
        words@ == if number == 0 {
            "zero"@
        } else {
            "positive"@
        },
{
    if number == 0 {
        "zero"
    } else {
        "positive"
    }
}

/// The age that is asked about.
pub fn age() -> (years: u32)
    ensures
        years == 15,
{
    15
}

/// The number that is asked about.
pub fn some_number() -> (number: Option<u32>)
    ensures
        number == Some(48u32),
{
    Some(48)
}

/// What someone of `n` years says of themselves.
pub open spec fn age_words(n: nat) -> Seq<char> {
    if n == 0 {
        "are you kidding?"@
    } else if n <= 12 {
        "I'm a child of age "@ + decimal(n)
    } else if n <= 19 {
        "I'm a teens of age "@ + decimal(n)
    } else {
        "I'm an adult of age "@ + decimal(n)
    }
}

/// Says which time of life an age of `n` years belongs to.
pub fn describe_age(n: u32) -> (line: String)
    ensures
        line@ == age_words(n as nat),
{
    let mut line = String::new();
    match n {
        0 => {
            line.append("are you kidding?");
        },
        1..=12 => {
            line.append("I'm a child of age ");
            push_decimal(&mut line, n as u64);
        },
        13..=19 => {
            line.append("I'm a teens of age ");
            push_decimal(&mut line, n as u64);
        },
        _ => {
            line.append("I'm an adult of age ");
            push_decimal(&mut line, n as u64);
        },
    }
    line
}

/// What is said of a number that may be missing.
pub open spec fn answer_words(number: Option<u32>) -> Seq<char> {
    match number {
        Some(n) => if n == 49 {
            "The answer: "@ + decimal(n as nat)
        } else if 1 <= n <= 48 {
            "smaller: "@ + decimal(n as nat)
        } else {
            "not interesting.. "@ + decimal(n as nat)
        },
        None => "What the..Fxxk"@,
    }
}

/// Says how `number` stands to forty-nine.
pub fn describe_answer(number: Option<u32>) -> (line: String)
    ensures
        line@ == answer_words(number),
{
    let mut line = String::new();
    match number {
        Some(n) => {
            if n == 49 {
                line.append("The answer: ");
            } else if 1 <= n && n <= 48 {
                line.append("smaller: ");
            } else {
                line.append("not interesting.. ");
            }
            push_decimal(&mut line, n as u64);
        },
        None => {
            line.append("What the..Fxxk");
        },
    }
    line
}

} // verus!
