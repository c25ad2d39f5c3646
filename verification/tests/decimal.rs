use custom_types::decimal::{decimal, push_decimal};

#[test]
fn zero_is_a_single_digit() {
    assert_eq!(decimal(0), "0");
}

#[test]
fn single_digits() {
    let expected = ["0", "1", "2", "3", "4", "5", "6", "7", "8", "9"];
    for (value, text) in expected.iter().enumerate() {
        assert_eq!(decimal(value as i64), *text);
    }
}

#[test]
fn digits_come_most_significant_first() {
    assert_eq!(decimal(1234567890), "1234567890");
    assert_eq!(decimal(10), "10");
    assert_eq!(decimal(100), "100");
    assert_eq!(decimal(907), "907");
}

#[test]
fn negative_numbers_start_with_a_minus_sign() {
    assert_eq!(decimal(-1), "-1");
    assert_eq!(decimal(-10), "-10");
    assert_eq!(decimal(-4096), "-4096");
}

#[test]
fn greatest_value() {
    assert_eq!(decimal(i64::MAX), "9223372036854775807");
}

#[test]
fn least_value() {
    assert_eq!(decimal(i64::MIN), "-9223372036854775808");
    assert_eq!(decimal(i64::MIN + 1), "-9223372036854775807");
}

#[test]
fn value_beyond_thirty_two_bits() {
    assert_eq!(decimal(42944967296), "42944967296");
}

#[test]
fn agrees_with_the_standard_rendering_near_zero() {
    for value in -2000i64..=2000 {
        assert_eq!(decimal(value), value.to_string());
    }
}

#[test]
fn agrees_with_the_standard_rendering_at_powers_of_ten() {
    let mut power: i64 = 1;
    for _ in 0..18 {
        power *= 10;
        for value in [power - 1, power, power + 1, -power + 1, -power, -power - 1] {
            assert_eq!(decimal(value), value.to_string());
        }
    }
}

#[test]
fn numeral_reads_back_as_the_value() {
    for value in [0i64, 7, -7, 1000, -1000, 99999, i64::MAX, i64::MIN] {
        assert_eq!(decimal(value).parse::<i64>(), Ok(value));
    }
}

#[test]
fn push_keeps_what_was_there() {
    let mut text = String::from("x=");
    push_decimal(&mut text, -35);
    assert_eq!(text, "x=-35");
    push_decimal(&mut text, 0);
    assert_eq!(text, "x=-350");
}
