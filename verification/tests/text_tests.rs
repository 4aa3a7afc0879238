use river_dreams::text::{number_length, str_eq, starts_with, substring, to_decimal, two_digits};

#[test]
fn number_length_of_zero_is_one() {
    assert_eq!(number_length(0), 1);
}

#[test]
fn number_length_of_9999_is_four() {
    assert_eq!(number_length(9999), 4);
}

#[test]
fn number_length_is_never_zero() {
    for n in [0u64, 1, 9, 10, 99, 100, 12345, u64::MAX] {
        assert!(number_length(n) >= 1);
    }
}

#[test]
fn number_length_counts_digits() {
    assert_eq!(number_length(5), 1);
    assert_eq!(number_length(10), 2);
    assert_eq!(number_length(100), 3);
    assert_eq!(number_length(255), 3);
    assert_eq!(number_length(u64::MAX), 20);
}

#[test]
fn to_decimal_renders_digits() {
    assert_eq!(to_decimal(0), "0");
    assert_eq!(to_decimal(7), "7");
    assert_eq!(to_decimal(42), "42");
    assert_eq!(to_decimal(9999), "9999");
    assert_eq!(to_decimal(1000000), "1000000");
}

#[test]
fn two_digits_pads_with_zero() {
    assert_eq!(two_digits(0), "00");
    assert_eq!(two_digits(5), "05");
    assert_eq!(two_digits(10), "10");
    assert_eq!(two_digits(23), "23");
    assert_eq!(two_digits(59), "59");
}

#[test]
fn str_eq_compares_characters() {
    assert!(str_eq("", ""));
    assert!(str_eq("main", "main"));
    assert!(!str_eq("main", "mains"));
    assert!(!str_eq("main", "mbin"));
    assert!(str_eq("日本", "日本"));
}

#[test]
fn starts_with_compares_prefixes() {
    assert!(starts_with("refs/heads/main", "refs/heads/"));
    assert!(starts_with("abc", ""));
    assert!(!starts_with("ab", "abc"));
    assert!(!starts_with("refs/tags/v1", "refs/heads/"));
}

#[test]
fn substring_copies_a_range() {
    assert_eq!(substring("abcdef", 1, 4), "bcd");
    assert_eq!(substring("abcdef", 0, 0), "");
    assert_eq!(substring("abcdef", 0, 6), "abcdef");
}
