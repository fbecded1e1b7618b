use song_library::seconds::parse_seconds;

#[test]
fn plain_digits_are_read() {
    assert_eq!(parse_seconds("42"), Some(42));
    assert_eq!(parse_seconds("0"), Some(0));
    assert_eq!(parse_seconds("213"), Some(213));
}

#[test]
fn leading_zeros_do_not_count() {
    assert_eq!(parse_seconds("007"), Some(7));
    assert_eq!(parse_seconds("0000000000000000000000000000012"), Some(12));
}

#[test]
fn one_plus_sign_may_lead() {
    assert_eq!(parse_seconds("+5"), Some(5));
    assert_eq!(parse_seconds("++5"), None);
    assert_eq!(parse_seconds("5+"), None);
}

#[test]
fn nothing_to_read_is_no_number() {
    assert_eq!(parse_seconds(""), None);
    assert_eq!(parse_seconds("+"), None);
}

#[test]
fn anything_but_digits_is_refused() {
    assert_eq!(parse_seconds("-5"), None);
    assert_eq!(parse_seconds(" 5"), None);
    assert_eq!(parse_seconds("5 "), None);
    assert_eq!(parse_seconds("4.2"), None);
    assert_eq!(parse_seconds("1e3"), None);
    assert_eq!(parse_seconds("12s"), None);
    assert_eq!(parse_seconds("\u{663}"), None);
    assert_eq!(parse_seconds("1\u{663}"), None);
}

#[test]
fn the_largest_value_fits_and_the_next_does_not() {
    assert_eq!(parse_seconds("18446744073709551615"), Some(u64::MAX));
    assert_eq!(parse_seconds("18446744073709551616"), None);
    assert_eq!(parse_seconds("18446744073709551620"), None);
    assert_eq!(parse_seconds("99999999999999999999"), None);
    assert_eq!(parse_seconds("184467440737095516150"), None);
    assert_eq!(parse_seconds("+18446744073709551615"), Some(u64::MAX));
}

#[test]
fn too_large_a_value_with_a_bad_tail_is_refused() {
    assert_eq!(parse_seconds("99999999999999999999999x"), None);
}

#[test]
fn reading_agrees_with_the_standard_library() {
    let samples = [
        "", "+", "-", "0", "1", "+1", "-1", "00", "+00", "42", "4 2", "42\n", "0x10", "١٢", "９",
        "18446744073709551615", "18446744073709551616", "+18446744073709551616", "1_000", "3600",
        "+-3", "   ", "12345678901234567890", "23456789012345678901",
    ];
    for sample in samples {
        assert_eq!(parse_seconds(sample), sample.parse::<u64>().ok(), "on {:?}", sample);
    }
}
