use lessons::flow_control::{
    age, count_to_five, describe_age, describe_answer, describe_array, describe_byte,
    describe_foo, describe_number, describe_pair, describe_triple, greet, is_rustacean,
    play_rounds, relabel, rescale, rescale_report, some_number, to_binary, twice_the_tenth,
    Color, Foo, Temperature,
};

#[test]
fn five_is_positive_and_small() {
    assert_eq!(
        rescale_report(5),
        vec!["5 is positive, and is a small number, increase ten-fold", "5 -> 50"]
    );
}

#[test]
fn reports_on_other_numbers() {
    assert_eq!(
        rescale_report(0),
        vec!["0 is zero, and is a small number, increase ten-fold", "0 -> 0"]
    );
    assert_eq!(
        rescale_report(-7),
        vec!["-7 is negative, and is a small number, increase ten-fold", "-7 -> -70"]
    );
    assert_eq!(
        rescale_report(-11),
        vec!["-11 is negative, and is a big number, reduce by two", "-11 -> -5"]
    );
    assert_eq!(
        rescale_report(10),
        vec!["10 is positive, and is a big number, reduce by two", "10 -> 5"]
    );
}

#[test]
fn rescale_rounds_towards_zero() {
    assert_eq!(rescale(9), 90);
    assert_eq!(rescale(-9), -90);
    assert_eq!(rescale(10), 5);
    assert_eq!(rescale(-10), -5);
    assert_eq!(rescale(11), 5);
    assert_eq!(rescale(-11), -5);
    assert_eq!(rescale(i32::MIN), -1073741824);
    assert_eq!(rescale(i32::MAX), 1073741823);
}

#[test]
fn ferris_is_greeted_apart() {
    assert!(is_rustacean("Ferris"));
    assert!(!is_rustacean("Bob"));
    assert_eq!(greet("Bob"), "hello Bob");
    assert_eq!(greet("Frank"), "hello Frank");
    assert_eq!(greet("Ferris"), "There is a rustacean among us!");
    assert_eq!(relabel("Bob"), "hello");
    assert_eq!(relabel("Ferris"), "there is a rustacean among us!");
}

#[test]
fn nineteen_is_a_teen() {
    assert_eq!(describe_number(19), "teen");
    assert_eq!(describe_number(13), "teen");
    assert_eq!(describe_number(1), "one");
    assert_eq!(describe_number(2), "prime nubmer");
    assert_eq!(describe_number(11), "prime nubmer");
    assert_eq!(describe_number(12), "ain't special");
    assert_eq!(describe_number(20), "ain't special");
    assert_eq!(describe_number(-1), "ain't special");
}

#[test]
fn truth_is_one() {
    assert_eq!(to_binary(true), 1);
    assert_eq!(to_binary(false), 0);
}

#[test]
fn pairs_are_told_by_their_zero() {
    assert_eq!(describe_pair((2, 2)), "it doesn't matter");
    assert_eq!(describe_pair((0, -2)), "first is `0` and `y` is -2");
    assert_eq!(describe_pair((2, 0)), "`x` is 2, and the last is `0`");
    assert_eq!(describe_pair((0, 0)), "first is `0` and `y` is 0");
}

#[test]
fn triples_are_told_by_their_ends() {
    assert_eq!(describe_triple((0, -2, 3)), "first is `0`, `y` is -2, `z` is 3");
    assert_eq!(describe_triple((1, 5, 2)), "first is `1`, and the rest doesn't matter");
    assert_eq!(describe_triple((7, 5, 2)), "last is `2`, and the rest doesn't matter");
    assert_eq!(
        describe_triple((3, 5, 4)),
        "frist is `3`, last is `4`, and the rest doesn't matter"
    );
    assert_eq!(describe_triple((3, 5, 5)), "it doesn't matter");
}

#[test]
fn arrays_are_told_by_their_first_element() {
    assert_eq!(describe_array([4, 2, 3]), "array[0] = 4, middle =[2], array[2] = 3");
    assert_eq!(describe_array([1, -2, 6]), "array[0] = , array[2] = 6, and array[1] was ignored.");
    assert_eq!(
        describe_array([-1, 2, 6]),
        "array[0] = -1, array[1] = 2, and all the other ones were ignored"
    );
    assert_eq!(
        describe_array([3, 2, 5]),
        "array[0] = 3, array[1] = 2, and the other elements were [5]"
    );
    assert_eq!(describe_array([0, 8, 9]), "array[0] = 0, array[1] = 8, array[2] = 9");
}

#[test]
fn colours_are_told_by_their_parts() {
    assert_eq!(Color::CMYK(56, 234, 23, 135).describe(), "C: 56, M:234, Y:23, K:135");
    assert_eq!(Color::RGB(122, 17, 40).describe(), "R: 122, G:17, B:40");
    assert_eq!(Color::HSV(1, 2, 3).describe(), "H: 1, S:2, V:3");
    assert_eq!(Color::HSL(1, 2, 3).describe(), "H: 1, S:2, L:3");
    assert_eq!(Color::CMY(1, 2, 3).describe(), "C: 1, M:2, Y:3");
    assert_eq!(Color::Red.describe(), "Red");
    assert_eq!(Color::Blue.describe(), "Blue");
    assert_eq!(Color::Green.describe(), "Green");
}

#[test]
fn foo_is_told_by_what_is_fixed() {
    assert_eq!(
        describe_foo(Foo { x: (2, 2), y: 3 }),
        "second of x is 2, a = 2, we don't care of y"
    );
    assert_eq!(describe_foo(Foo { x: (1, 2), y: 3 }), "first of x is 1, b = 2, y = 3");
    assert_eq!(describe_foo(Foo { x: (1, 2), y: 2 }), "first of x is 1, b = 2, y = 2");
    assert_eq!(describe_foo(Foo { x: (2, 2), y: 2 }), "y is 2, x is (2, 2)");
}

#[test]
fn temperatures_are_warm_or_not() {
    assert_eq!(Temperature::Fahrenheit(69).describe(), "69F is below 70 fahrenheit");
    assert_eq!(Temperature::Fahrenheit(77).describe(), "77F is above 70 fahrenheit");
    assert_eq!(Temperature::Fahrenheit(70).describe(), "70F is below 70 fahrenheit");
    assert_eq!(Temperature::Celsius(24).describe(), "24C is above 20 celsius");
    assert_eq!(Temperature::Celsius(19).describe(), "19C is below 20 celsius");
    assert_eq!(Temperature::Celsius(-5).describe(), "-5C is below 20 celsius");
}

#[test]
fn bytes_are_never_negative() {
    assert_eq!(describe_byte(4), "positive");
    assert_eq!(describe_byte(0), "zero");
    assert_eq!(describe_byte(255), "positive");
}

#[test]
fn the_age_is_fifteen() {
    assert_eq!(age(), 15);
    assert_eq!(describe_age(age()), "I'm a teens of age 15");
}

#[test]
fn ages_fall_into_four_groups() {
    assert_eq!(describe_age(0), "are you kidding?");
    assert_eq!(describe_age(1), "I'm a child of age 1");
    assert_eq!(describe_age(12), "I'm a child of age 12");
    assert_eq!(describe_age(13), "I'm a teens of age 13");
    assert_eq!(describe_age(19), "I'm a teens of age 19");
    assert_eq!(describe_age(20), "I'm an adult of age 20");
}

#[test]
fn the_number_is_forty_eight() {
    assert_eq!(some_number(), Some(48));
    assert_eq!(describe_answer(some_number()), "smaller: 48");
}

#[test]
fn answers_are_told_by_forty_nine() {
    assert_eq!(describe_answer(Some(49)), "The answer: 49");
    assert_eq!(describe_answer(Some(1)), "smaller: 1");
    assert_eq!(describe_answer(Some(0)), "not interesting.. 0");
    assert_eq!(describe_answer(Some(50)), "not interesting.. 50");
    assert_eq!(describe_answer(None), "What the..Fxxk");
}

#[test]
fn counting_says_three_as_a_word() {
    assert_eq!(count_to_five(), vec!["1", "2", "three", "4", "5", "okay, enough!"]);
}

#[test]
fn twice_ten_is_twenty() {
    assert_eq!(twice_the_tenth(), 20);
}

#[test]
fn rounds_from_zero_end_after_nine() {
    assert_eq!(
        play_rounds(0),
        vec![
            "`i` is `0`. try again",
            "`i` is `1`. try again",
            "`i` is `2`. try again",
            "`i` is `3`. try again",
            "`i` is `4`. try again",
            "`i` is `5`. try again",
            "`i` is `6`. try again",
            "`i` is `7`. try again",
            "`i` is `8`. try again",
            "`i` is `9`. try again",
            "greater than 9, quit!",
        ]
    );
}

#[test]
fn rounds_from_elsewhere() {
    assert_eq!(play_rounds(9), vec!["`i` is `9`. try again", "greater than 9, quit!"]);
    assert_eq!(play_rounds(10), vec!["greater than 9, quit!"]);
    assert_eq!(play_rounds(i32::MAX), vec!["greater than 9, quit!"]);
    let lines = play_rounds(-2);
    assert_eq!(lines.len(), 13);
    assert_eq!(lines[0], "`i` is `-2`. try again");
    assert_eq!(lines[12], "greater than 9, quit!");
}
