use lessons::formatting::{Color, DebugPrintable, MinMax};

#[test]
fn colours_show_parts_and_upper_case_code() {
    assert_eq!(
        Color { red: 128, green: 255, blue: 90 }.to_string(),
        "RGB (128, 255, 90) 0x80FF5A"
    );
    assert_eq!(Color { red: 0, green: 3, blue: 254 }.to_string(), "RGB (0, 3, 254) 0x0003FE");
    assert_eq!(Color { red: 0, green: 0, blue: 0 }.to_string(), "RGB (0, 0, 0) 0x000000");
}

#[test]
fn colours_show_parts_and_lower_case_code() {
    assert_eq!(
        Color { red: 128, green: 255, blue: 90 }.to_string_lower(),
        "RGB( 128, 255, 90 0x80ff5a"
    );
    assert_eq!(Color { red: 0, green: 3, blue: 254 }.to_string_lower(), "RGB( 0, 3, 254 0x0003fe");
    assert_eq!(Color { red: 0, green: 0, blue: 0 }.to_string_lower(), "RGB( 0, 0, 0 0x000000");
}

#[test]
fn printable_number_shows_its_digits() {
    assert_eq!(DebugPrintable(5).to_string(), "5");
    assert_eq!(DebugPrintable(7).to_string(), "7");
    assert_eq!(DebugPrintable(i32::MIN).to_string(), "-2147483648");
    assert_eq!(format!("{:?}", DebugPrintable(7)), "DebugPrintable(7)");
}

#[test]
fn range_shows_both_ends() {
    assert_eq!(MinMax(0, 14).to_string(), "0 14");
    assert_eq!(MinMax(-100, 100).to_string(), "-100 100");
    assert_eq!(MinMax(-10, 10).to_string(), "-10 10");
    assert_eq!(format!("{:?}", MinMax(0, 14)), "MinMax(0, 14)");
}
