use geo_to_3d::decimal::{
    append_decimal, append_hundredths, append_padded, append_signed, decimal_len,
};

#[test]
fn decimal_is_appended_after_what_is_there() {
    let mut out = String::from("n=");
    append_decimal(&mut out, 0);
    append_decimal(&mut out, 7);
    append_decimal(&mut out, 1_230);
    append_decimal(&mut out, u32::MAX);
    assert_eq!(out, "n=0712304294967295");
}

#[test]
fn length_counts_the_digits() {
    assert_eq!(decimal_len(0), 1);
    assert_eq!(decimal_len(9), 1);
    assert_eq!(decimal_len(10), 2);
    assert_eq!(decimal_len(99), 2);
    assert_eq!(decimal_len(100), 3);
    assert_eq!(decimal_len(999_999_999), 9);
    assert_eq!(decimal_len(1_000_000_000), 10);
    assert_eq!(decimal_len(u32::MAX), 10);
}

#[test]
fn padding_fills_up_to_the_width_and_never_cuts() {
    let mut out = String::new();
    append_padded(&mut out, 6, 3);
    out.push('|');
    append_padded(&mut out, 45, 2);
    out.push('|');
    append_padded(&mut out, 1_234, 3);
    out.push('|');
    append_padded(&mut out, 0, 0);
    out.push('|');
    append_padded(&mut out, 5, 4);
    out.push('|');
    append_padded(&mut out, u32::MAX, 12);
    assert_eq!(out, "006|45|1234|0|0005|004294967295");
}

#[test]
fn signed_numbers_count_their_sign_in_the_width() {
    let mut out = String::new();
    append_signed(&mut out, -6, 2);
    out.push('|');
    append_signed(&mut out, -6, 4);
    out.push('|');
    append_signed(&mut out, 6, 4);
    out.push('|');
    append_signed(&mut out, i32::MIN, 0);
    out.push('|');
    append_signed(&mut out, i32::MAX, 12);
    assert_eq!(out, "-6|  -6|   6|-2147483648|  2147483647");
}

#[test]
fn hundredths_always_have_two_decimals() {
    let mut out = String::new();
    append_hundredths(&mut out, 0, 0);
    out.push('|');
    append_hundredths(&mut out, 5, 0);
    out.push('|');
    append_hundredths(&mut out, -5, 6);
    out.push('|');
    append_hundredths(&mut out, 150, 6);
    out.push('|');
    append_hundredths(&mut out, 5_999, 6);
    out.push('|');
    append_hundredths(&mut out, -123_456, 6);
    out.push('|');
    append_hundredths(&mut out, i32::MIN, 0);
    assert_eq!(out, "0.00|0.05| -0.05|  1.50| 59.99|-1234.56|-21474836.48");
}
