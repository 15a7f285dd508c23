use lessons::custom_types::{
    inspect, is_big, section02, Color, List, Number, Person, Status, Work, LANGUAGE, THRESHOLD,
};

#[test]
fn list_of_three_has_length_three() {
    let mut list = List::new();
    list = list.prepend(1);
    list = list.prepend(2);
    list = list.prepend(3);
    assert_eq!(list.len(), 3);
}

#[test]
fn list_renders_front_to_back() {
    let list = List::new().prepend(1).prepend(2).prepend(3);
    assert_eq!(list.stringify(), "3, 2, 1, Nil");
    assert_eq!(list.stringfy(), "3, 2, 1, NIL!");
}

#[test]
fn empty_list_renders_its_end_only() {
    let list = List::new();
    assert_eq!(list.len(), 0);
    assert_eq!(list.stringify(), "Nil");
    assert_eq!(list.stringfy(), "NIL!");
}

#[test]
fn prepend_puts_the_element_in_front() {
    let list = List::new().prepend(7);
    assert!(matches!(&list, List::Cons(7, tail) if matches!(**tail, List::Nil)));
    let list = list.prepend(u32::MAX);
    assert_eq!(list.len(), 2);
    assert_eq!(list.stringify(), "4294967295, 7, Nil");
}

#[test]
fn long_list_is_counted_in_full() {
    let mut list = List::new();
    for i in 0..1000 {
        list = list.prepend(i);
    }
    assert_eq!(list.len(), 1000);
}

#[test]
fn inspect_says_one_line_for_each_kind_of_person() {
    assert_eq!(inspect(Person::Engineer), "is an engineer");
    assert_eq!(inspect(Person::Scientist), "is an scientist");
    assert_eq!(inspect(Person::Height(10)), "has a height of 10");
    assert_eq!(inspect(Person::Weight(18)), "has a weight of 18");
    assert_eq!(
        inspect(Person::Info { name: String::from("Dave"), height: 28 }),
        "Dave is 28 tall"
    );
    assert_eq!(inspect(Person::Height(-3)), "has a height of -3");
}

#[test]
fn section02_looks_at_five_people() {
    assert_eq!(
        section02(),
        vec![
            "has a weight of 18",
            "has a height of 10",
            "Dave is 28 tall",
            "is an scientist",
            "is an engineer",
        ]
    );
}

#[test]
fn variants_know_their_names() {
    assert_eq!(Status::Poor.name(), "Poor");
    assert_eq!(Status::Rich.name(), "Rich");
    assert_eq!(Work::Civilian.name(), "Civilian");
    assert_eq!(Work::Soldier.name(), "Soldier");
}

#[test]
fn numbers_and_colours_have_codes() {
    assert_eq!(Number::Zero.value(), 0);
    assert_eq!(Number::One.value(), 1);
    assert_eq!(Number::Two.value(), 2);
    assert_eq!(format!("{:06x}", Color::Red.code()), "ff0000");
    assert_eq!(format!("{:06x}", Color::Green.code()), "00ff00");
    assert_eq!(format!("{:06x}", Color::Blue.code()), "0000ff");
}

#[test]
fn sixteen_is_big_and_ten_is_not() {
    assert_eq!(THRESHOLD, 10);
    assert_eq!(LANGUAGE, "Rust");
    assert!(is_big(16));
    assert!(is_big(11));
    assert!(!is_big(10));
    assert!(!is_big(-16));
}
