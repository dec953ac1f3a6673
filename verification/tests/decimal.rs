use ipc_bridge::decimal::{decimal, push_decimal};

#[test]
fn decimal_of_zero_is_one_digit() {
    assert_eq!(decimal(0), "0");
}

#[test]
fn decimal_of_single_digits() {
    assert_eq!(decimal(1), "1");
    assert_eq!(decimal(9), "9");
}

#[test]
fn decimal_has_no_leading_zero() {
    assert_eq!(decimal(10), "10");
    assert_eq!(decimal(100), "100");
    assert_eq!(decimal(1005), "1005");
}

#[test]
fn decimal_of_largest_suffix() {
    assert_eq!(decimal(u32::MAX), "4294967295");
}

#[test]
fn decimal_agrees_with_the_standard_formatting() {
    let mut n: u32 = 1;
    for _ in 0..40 {
        assert_eq!(decimal(n), n.to_string());
        n = n.wrapping_mul(2654435761).wrapping_add(12345);
    }
}

#[test]
fn push_decimal_appends_to_what_is_there() {
    let mut text = String::from("app-");
    push_decimal(&mut text, 3735928559);
    assert_eq!(text, "app-3735928559");
    push_decimal(&mut text, 0);
    assert_eq!(text, "app-37359285590");
}
