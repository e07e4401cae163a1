use indexer_example::decimal::decimal;

#[test]
fn zero_is_written_as_one_digit() {
    assert_eq!(decimal(0), "0");
}

#[test]
fn single_digits_are_written_as_themselves() {
    let expected = ["0", "1", "2", "3", "4", "5", "6", "7", "8", "9"];
    for (n, text) in expected.iter().enumerate() {
        assert_eq!(decimal(n as u128), *text);
    }
}

#[test]
fn numerals_have_no_leading_zeros() {
    assert_eq!(decimal(10), "10");
    assert_eq!(decimal(100), "100");
    assert_eq!(decimal(1009), "1009");
    assert_eq!(decimal(12345), "12345");
}

#[test]
fn largest_values_are_written_in_full() {
    assert_eq!(decimal(u64::MAX as u128), "18446744073709551615");
    assert_eq!(decimal(u128::MAX), "340282366920938463463374607431768211455");
}

#[test]
fn numerals_agree_with_the_standard_formatting() {
    let mut n: u128 = 1;
    while n < u128::MAX / 7 {
        assert_eq!(decimal(n), format!("{}", n));
        assert_eq!(decimal(n - 1), format!("{}", n - 1));
        n = n * 7 + 3;
    }
}

#[test]
fn numerals_read_back_as_the_number() {
    for n in [0u128, 7, 42, 999, 1000, 65535, 4294967296] {
        let text = decimal(n);
        let mut value: u128 = 0;
        for c in text.chars() {
            value = value * 10 + c.to_digit(10).expect("a decimal digit") as u128;
        }
        assert_eq!(value, n);
    }
}
