use microwave::decimal::{push_decimal, push_digits};

fn decimal(value: i32) -> String {
    let mut text = String::new();
    push_decimal(&mut text, value);
    text
}

#[test]
fn decimal_text_of_integers() {
    assert_eq!(decimal(0), "0");
    assert_eq!(decimal(7), "7");
    assert_eq!(decimal(10), "10");
    assert_eq!(decimal(123), "123");
    assert_eq!(decimal(-1), "-1");
    assert_eq!(decimal(-3001), "-3001");
    assert_eq!(decimal(1_000_000), "1000000");
    assert_eq!(decimal(i32::MAX), "2147483647");
    assert_eq!(decimal(i32::MIN), "-2147483648");
}

#[test]
fn decimal_text_agrees_with_display() {
    for value in [-100_000, -99, -10, -9, 9, 19, 90, 99, 100, 101, 4096, 65_535, 987_654_321] {
        assert_eq!(decimal(value), value.to_string());
    }
}

#[test]
fn digits_are_appended() {
    let mut text = "Code ".to_string();
    push_digits(&mut text, 4_294_967_295);
    assert_eq!(text, "Code 4294967295");
    push_digits(&mut text, 0);
    assert_eq!(text, "Code 42949672950");
}
