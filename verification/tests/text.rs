use deposit_cw20::text::decimal_text;

#[test]
fn zero_is_one_digit() {
    assert_eq!(decimal_text(0), "0");
}

#[test]
fn numerals_have_no_leading_zero() {
    assert_eq!(decimal_text(7), "7");
    assert_eq!(decimal_text(9), "9");
    assert_eq!(decimal_text(10), "10");
    assert_eq!(decimal_text(100), "100");
    assert_eq!(decimal_text(1999999), "1999999");
    assert_eq!(decimal_text(1234567890), "1234567890");
}

#[test]
fn the_largest_amount_has_thirty_nine_digits() {
    assert_eq!(decimal_text(u128::MAX), "340282366920938463463374607431768211455");
    assert_eq!(decimal_text(u128::MAX), u128::MAX.to_string());
}
