use vanity_search::text::decimal_string;
use vanity_search::text::push_byte_list;
use vanity_search::text::push_decimal;

#[test]
fn decimal_of_small_and_large_numbers() {
    assert_eq!(decimal_string(0), "0");
    assert_eq!(decimal_string(9), "9");
    assert_eq!(decimal_string(10), "10");
    assert_eq!(decimal_string(120), "120");
    assert_eq!(decimal_string(1_000_000), "1000000");
    assert_eq!(decimal_string(u64::MAX), "18446744073709551615");
}

#[test]
fn decimal_agrees_with_std() {
    let mut n: u64 = 1;
    for _ in 0..40 {
        assert_eq!(decimal_string(n), format!("{}", n));
        assert_eq!(decimal_string(n - 1), format!("{}", n - 1));
        n = n.wrapping_mul(3).wrapping_add(7);
    }
}

#[test]
fn decimal_is_appended_to_what_is_there() {
    let mut text = String::from("n = ");
    push_decimal(&mut text, 42);
    assert_eq!(text, "n = 42");
}

#[test]
fn byte_lists_read_as_debug_output() {
    let mut empty = String::new();
    push_byte_list(&mut empty, &[]);
    assert_eq!(empty, "[]");
    let mut one = String::new();
    push_byte_list(&mut one, &[7]);
    assert_eq!(one, "[7]");
    let mut three = String::new();
    push_byte_list(&mut three, &[1, 20, 255]);
    assert_eq!(three, "[1, 20, 255]");
    let bytes: Vec<u8> = (0..=255u8).collect();
    let mut all = String::new();
    push_byte_list(&mut all, &bytes);
    assert_eq!(all, format!("{:?}", bytes));
}
