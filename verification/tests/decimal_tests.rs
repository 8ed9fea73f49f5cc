use metaledger::decimal::{parse_dec, u64_to_dec};

#[test]
fn numeral_of_small_numbers() {
    assert_eq!(u64_to_dec(0), "0");
    assert_eq!(u64_to_dec(7), "7");
    assert_eq!(u64_to_dec(10), "10");
    assert_eq!(u64_to_dec(407), "407");
    assert_eq!(u64_to_dec(18446744073709551615), "18446744073709551615");
}

#[test]
fn parse_round_trips() {
    for n in [0u64, 1, 9, 10, 99, 100, 12345, 18446744073709551615] {
        assert_eq!(parse_dec(u64_to_dec(n).as_str()), Some(n));
    }
}

#[test]
fn parse_rejects_bad_numerals() {
    assert_eq!(parse_dec(""), None);
    assert_eq!(parse_dec("x"), None);
    assert_eq!(parse_dec("12a"), None);
    assert_eq!(parse_dec("-3"), None);
    // One past the largest value that fits.
    assert_eq!(parse_dec("18446744073709551616"), None);
}

#[test]
fn parse_accepts_leading_zeros() {
    assert_eq!(parse_dec("007"), Some(7));
}
