use lessons::functions::{
    apply, apply_to_3, fizzbuzz, fizzbuzz_to, is_divisible_by, section01, some_fn,
    sum_odd_numbers, Pair,
};

#[test]
fn nothing_is_divisible_by_zero() {
    assert!(!is_divisible_by(0, 0));
    assert!(!is_divisible_by(15, 0));
}

#[test]
fn multiples_are_divisible() {
    assert!(is_divisible_by(15, 3));
    assert!(is_divisible_by(15, 5));
    assert!(is_divisible_by(0, 7));
    assert!(!is_divisible_by(16, 3));
    assert!(is_divisible_by(u32::MAX, 1));
}

#[test]
fn fizzbuzz_says_the_right_word() {
    assert_eq!(fizzbuzz(1), "1");
    assert_eq!(fizzbuzz(3), "fizz");
    assert_eq!(fizzbuzz(5), "buzz");
    assert_eq!(fizzbuzz(15), "fizzbuzz");
    assert_eq!(fizzbuzz(98), "98");
    assert_eq!(fizzbuzz(0), "fizzbuzz");
    assert_eq!(fizzbuzz(u32::MAX), "fizzbuzz");
    assert_eq!(fizzbuzz(4294967294), "4294967294");
}

#[test]
fn fizzbuzz_to_counts_from_one() {
    assert_eq!(fizzbuzz_to(0), Vec::<String>::new());
    assert_eq!(fizzbuzz_to(5), vec!["1", "2", "fizz", "4", "buzz"]);
}

#[test]
fn section01_is_the_first_hundred() {
    let lines = section01();
    assert_eq!(lines.len(), 100);
    assert_eq!(lines[0], "1");
    assert_eq!(lines[14], "fizzbuzz");
    assert_eq!(lines[98], "fizz");
    assert_eq!(lines[99], "buzz");
    assert_eq!(lines, fizzbuzz_to(100));
}

#[test]
fn destroyed_pair_reports_both_numbers() {
    assert_eq!(Pair(Box::new(1), Box::new(2)).destroy(), "Destroying Pair(1, 2)");
    assert_eq!(
        Pair(Box::new(i32::MIN), Box::new(i32::MAX)).destroy(),
        "Destroying Pair(-2147483648, 2147483647)"
    );
}

#[test]
fn apply_calls_the_function_once() {
    let mut farewell = String::from("goodbye");
    let diary = || {
        farewell.push_str("!!!");
    };
    apply(diary);
    assert_eq!(farewell, "goodbye!!!");
}

#[test]
fn apply_to_3_hands_over_three() {
    let double = |x| 2 * x;
    assert_eq!(apply_to_3(double), 6);
    assert_eq!(apply_to_3(|x| x), 3);
}

#[test]
fn some_fn_returns_unit() {
    let unit: () = some_fn();
    assert_eq!(unit, ());
}

#[test]
fn odd_numbers_below_nine_sum_to_sixteen() {
    assert_eq!(sum_odd_numbers(9), 16);
}

#[test]
fn odd_sums_are_squares() {
    assert_eq!(sum_odd_numbers(0), 0);
    assert_eq!(sum_odd_numbers(1), 0);
    assert_eq!(sum_odd_numbers(2), 1);
    assert_eq!(sum_odd_numbers(10), 25);
    assert_eq!(sum_odd_numbers(11), 25);
    assert_eq!(sum_odd_numbers(131071), 65535 * 65535);
}
