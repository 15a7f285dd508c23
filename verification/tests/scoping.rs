use lessons::scoping::{annotated_input, annotated_pass, elided_input, elided_pass};

#[test]
fn inputs_are_shown_under_the_name_of_the_function() {
    let x = 3;
    assert_eq!(elided_input(&x), "`elided_input`: 3");
    assert_eq!(annotated_input(&x), "`annotated_input`: 3");
    assert_eq!(elided_input(&-12), "`elided_input`: -12");
}

#[test]
fn references_come_back_as_they_went() {
    let x = 3;
    assert_eq!(*elided_pass(&x), 3);
    assert_eq!(*annotated_pass(&x), 3);
    assert!(std::ptr::eq(elided_pass(&x), &x));
    assert!(std::ptr::eq(annotated_pass(&x), &x));
}
