use ballot_bot::decimal::render_signed;
use ballot_bot::decimal::render_unsigned;

#[test]
fn unsigned_single_digits() {
    let expected = ["0", "1", "2", "3", "4", "5", "6", "7", "8", "9"];
    for (n, text) in expected.iter().enumerate() {
        assert_eq!(render_unsigned(n as u128), *text);
    }
}

#[test]
fn unsigned_carries_into_more_digits() {
    assert_eq!(render_unsigned(10), "10");
    assert_eq!(render_unsigned(99), "99");
    assert_eq!(render_unsigned(100), "100");
    assert_eq!(render_unsigned(1_000_000), "1000000");
    assert_eq!(render_unsigned(9_007_199_254_740_993), "9007199254740993");
}

#[test]
fn unsigned_keeps_inner_and_trailing_zeros() {
    assert_eq!(render_unsigned(101), "101");
    assert_eq!(render_unsigned(1_020_300), "1020300");
}

#[test]
fn unsigned_largest_value() {
    assert_eq!(render_unsigned(u128::MAX), "340282366920938463463374607431768211455");
    assert_eq!(render_unsigned(u64::MAX as u128), "18446744073709551615");
}

#[test]
fn unsigned_agrees_with_std() {
    let mut n: u128 = 1;
    while n < u128::MAX / 7 {
        assert_eq!(render_unsigned(n), n.to_string());
        assert_eq!(render_unsigned(n - 1), (n - 1).to_string());
        n = n * 7 + 3;
    }
}

#[test]
fn signed_at_and_above_zero() {
    assert_eq!(render_signed(0), "0");
    assert_eq!(render_signed(7), "7");
    assert_eq!(render_signed(42), "42");
    assert_eq!(render_signed(i128::MAX), "170141183460469231731687303715884105727");
}

#[test]
fn signed_below_zero() {
    assert_eq!(render_signed(-1), "-1");
    assert_eq!(render_signed(-10), "-10");
    assert_eq!(render_signed(-9_223_372_036_854_775_808), "-9223372036854775808");
}

#[test]
fn signed_smallest_value() {
    assert_eq!(render_signed(i128::MIN), "-170141183460469231731687303715884105728");
}

#[test]
fn signed_agrees_with_std() {
    let mut v: i128 = 1;
    while v < i128::MAX / 11 {
        assert_eq!(render_signed(v), v.to_string());
        assert_eq!(render_signed(-v), (-v).to_string());
        v = v * 11 + 5;
    }
}

#[test]
fn signed_numerals_read_back() {
    for v in [-1000i128, -12, -1, 0, 1, 9, 10, 11, 12345, i128::MIN, i128::MAX] {
        let text = render_signed(v);
        assert_eq!(text.parse::<i128>().unwrap(), v);
    }
}
