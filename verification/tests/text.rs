use auth_pipeline::text::decimal_string;
use auth_pipeline::text::push_decimal;
use auth_pipeline::text::same_text;

#[test]
fn decimal_of_small_numbers() {
    assert_eq!(decimal_string(0), "0");
    assert_eq!(decimal_string(7), "7");
    assert_eq!(decimal_string(9), "9");
    assert_eq!(decimal_string(10), "10");
    assert_eq!(decimal_string(99), "99");
    assert_eq!(decimal_string(100), "100");
    assert_eq!(decimal_string(1905), "1905");
}

#[test]
fn decimal_of_the_largest_number() {
    assert_eq!(decimal_string(usize::MAX), usize::MAX.to_string());
}

#[test]
fn decimal_agrees_with_the_standard_rendering() {
    let mut n: usize = 1;
    for _ in 0..19 {
        assert_eq!(decimal_string(n), n.to_string());
        assert_eq!(decimal_string(n - 1), (n - 1).to_string());
        n *= 10;
    }
}

#[test]
fn push_decimal_appends() {
    let mut out = String::from("n = ");
    push_decimal(&mut out, 42);
    push_decimal(&mut out, 0);
    assert_eq!(out, "n = 420");
}

#[test]
fn same_text_compares_contents() {
    assert!(same_text("", ""));
    assert!(same_text("aud", "aud"));
    assert!(!same_text("aud", "auD"));
    assert!(!same_text("aud", "au"));
    assert!(!same_text("au", "aud"));
    assert!(!same_text("", "a"));
    assert!(same_text("ключ", "ключ"));
    assert!(!same_text("ключ", "клюк"));
}
