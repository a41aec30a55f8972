use polyfill_pages::magnitude::humanize;

#[test]
fn numbers_below_one_thousand_are_written_in_full() {
    assert_eq!(humanize(0), "0");
    assert_eq!(humanize(7), "7");
    assert_eq!(humanize(10), "10");
    assert_eq!(humanize(42), "42");
    assert_eq!(humanize(100), "100");
    assert_eq!(humanize(999), "999");
}

#[test]
fn every_number_below_one_thousand_equals_its_decimal_notation() {
    for n in 0..1000u64 {
        assert_eq!(humanize(n), n.to_string());
    }
}

#[test]
fn four_digit_numbers_show_the_second_digit_unless_it_is_zero() {
    for n in 1000..10_000u64 {
        let digits = n.to_string();
        let first = &digits[0..1];
        let second = &digits[1..2];
        let expected = if second == "0" {
            format!("{} thousand", first)
        } else {
            format!("{}.{} thousand", first, second)
        };
        assert_eq!(humanize(n), expected);
    }
}

#[test]
fn thousands_are_truncated_never_rounded() {
    assert_eq!(humanize(1000), "1 thousand");
    assert_eq!(humanize(1500), "1.5 thousand");
    assert_eq!(humanize(1050), "1 thousand");
    assert_eq!(humanize(1999), "1.9 thousand");
    assert_eq!(humanize(9999), "9.9 thousand");
}

#[test]
fn lead_has_one_to_three_digits() {
    assert_eq!(humanize(12_345), "12.3 thousand");
    assert_eq!(humanize(10_999), "10.9 thousand");
    assert_eq!(humanize(20_000), "20 thousand");
    assert_eq!(humanize(123_456), "123.4 thousand");
    assert_eq!(humanize(999_999), "999.9 thousand");
    assert_eq!(humanize(100_000), "100 thousand");
}

#[test]
fn millions() {
    assert_eq!(humanize(1_234_567), "1.2 million");
    assert_eq!(humanize(1_000_000), "1 million");
    assert_eq!(humanize(3_000_000), "3 million");
    assert_eq!(humanize(12_345_678), "12.3 million");
    assert_eq!(humanize(123_456_789), "123.4 million");
}

#[test]
fn each_magnitude_has_its_name() {
    assert_eq!(humanize(1_000), "1 thousand");
    assert_eq!(humanize(1_000_000), "1 million");
    assert_eq!(humanize(1_000_000_000), "1 billion");
    assert_eq!(humanize(1_000_000_000_000), "1 trillion");
    assert_eq!(humanize(1_000_000_000_000_000), "1 quadrillion");
    assert_eq!(humanize(1_000_000_000_000_000_000), "1 quintillion");
}

#[test]
fn billions_to_quintillions() {
    assert_eq!(humanize(2_300_000_000), "2.3 billion");
    assert_eq!(humanize(45_600_000_000), "45.6 billion");
    assert_eq!(humanize(789_012_345_678), "789 billion");
    assert_eq!(humanize(7_890_123_456_789), "7.8 trillion");
    assert_eq!(humanize(12_345_678_901_234_567), "12.3 quadrillion");
    assert_eq!(humanize(999_999_999_999_999_999), "999.9 quadrillion");
}

#[test]
fn the_largest_number() {
    assert_eq!(humanize(u64::MAX), "18.4 quintillion");
    assert_eq!(humanize(10_000_000_000_000_000_000), "10 quintillion");
}

#[test]
fn the_same_number_is_always_written_alike() {
    for n in [0u64, 999, 1000, 1_234_567, u64::MAX] {
        assert_eq!(humanize(n), humanize(n));
    }
}
