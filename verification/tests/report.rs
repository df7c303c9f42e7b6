use hypoloop::report::{append_digits, append_integer, append_millionths};

fn digits(n: u128) -> String {
    let mut out = String::new();
    append_digits(&mut out, n);
    out
}

fn integer(value: i128) -> String {
    let mut out = String::new();
    append_integer(&mut out, value);
    out
}

fn millionths(value: i128) -> String {
    let mut out = String::new();
    append_millionths(&mut out, value);
    out
}

#[test]
fn digits_of_small_and_large_numbers() {
    assert_eq!(digits(0), "0");
    assert_eq!(digits(7), "7");
    assert_eq!(digits(10), "10");
    assert_eq!(digits(4443), "4443");
    assert_eq!(digits(1234567890), "1234567890");
    assert_eq!(digits(u128::MAX), u128::MAX.to_string());
}

#[test]
fn digits_are_appended_to_what_is_there() {
    let mut out = String::from("x = ");
    append_digits(&mut out, 42);
    append_digits(&mut out, 0);
    assert_eq!(out, "x = 420");
}

#[test]
fn integer_text_has_a_sign_only_below_zero() {
    assert_eq!(integer(0), "0");
    assert_eq!(integer(15), "15");
    assert_eq!(integer(-15), "-15");
    assert_eq!(integer(i128::MAX), i128::MAX.to_string());
    assert_eq!(integer(i128::MIN), i128::MIN.to_string());
}

#[test]
fn millionths_without_a_rest_have_no_point() {
    assert_eq!(millionths(0), "0");
    assert_eq!(millionths(2_000_000), "2");
    assert_eq!(millionths(-3_000_000), "-3");
    assert_eq!(millionths(40_000_000), "40");
}

#[test]
fn millionths_drop_the_zeros_at_the_end() {
    assert_eq!(millionths(40_000), "0.04");
    assert_eq!(millionths(50_000), "0.05");
    assert_eq!(millionths(40_063_800), "40.0638");
    assert_eq!(millionths(1_500_000), "1.5");
    assert_eq!(millionths(1), "0.000001");
    assert_eq!(millionths(999_999), "0.999999");
    assert_eq!(millionths(100_000), "0.1");
    assert_eq!(millionths(1_000_001), "1.000001");
    assert_eq!(millionths(10_010_000), "10.01");
}

#[test]
fn millionths_below_zero() {
    assert_eq!(millionths(-40_000), "-0.04");
    assert_eq!(millionths(-1_500_000), "-1.5");
    assert_eq!(millionths(-1), "-0.000001");
    assert_eq!(millionths(i128::MIN), "-170141183460469231731687303715884.105728");
    assert_eq!(millionths(i128::MAX), "170141183460469231731687303715884.105727");
}
