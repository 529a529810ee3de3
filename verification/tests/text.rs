use okcvm_desktop::utils::text::{decimal_string, push_decimal, push_signed_decimal};

#[test]
fn decimal_of_small_and_large_numbers() {
    assert_eq!(decimal_string(0), "0");
    assert_eq!(decimal_string(7), "7");
    assert_eq!(decimal_string(10), "10");
    assert_eq!(decimal_string(8080), "8080");
    assert_eq!(decimal_string(65535), "65535");
    assert_eq!(decimal_string(u64::MAX), "18446744073709551615");
}

#[test]
fn decimal_is_appended() {
    let mut text = String::from("port ");
    push_decimal(&mut text, 49152);
    assert_eq!(text, "port 49152");
}

#[test]
fn signed_decimal_carries_its_sign() {
    let mut text = String::new();
    push_signed_decimal(&mut text, -1);
    assert_eq!(text, "-1");
    let mut text = String::new();
    push_signed_decimal(&mut text, 0);
    assert_eq!(text, "0");
    let mut text = String::new();
    push_signed_decimal(&mut text, i32::MIN);
    assert_eq!(text, "-2147483648");
    let mut text = String::new();
    push_signed_decimal(&mut text, i32::MAX);
    assert_eq!(text, "2147483647");
}

#[test]
fn decimal_agrees_with_the_standard_formatting() {
    let mut n: u64 = 0;
    while n < 70000 {
        assert_eq!(decimal_string(n), format!("{}", n));
        n += 37;
    }
}
