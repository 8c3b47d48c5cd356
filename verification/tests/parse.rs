use guessing_game::parse::parse_guess;

#[test]
fn plain_number() {
    assert_eq!(parse_guess("50"), Some(50));
    assert_eq!(parse_guess("0"), Some(0));
    assert_eq!(parse_guess("7"), Some(7));
}

#[test]
fn surrounding_whitespace_is_trimmed() {
    assert_eq!(parse_guess(" 50 "), Some(50));
    assert_eq!(parse_guess("50\n"), Some(50));
    assert_eq!(parse_guess("\t50\r\n"), Some(50));
    assert_eq!(parse_guess("  100  "), Some(100));
}

#[test]
fn empty_or_blank_is_rejected() {
    assert_eq!(parse_guess(""), None);
    assert_eq!(parse_guess("   "), None);
    assert_eq!(parse_guess("\n"), None);
}

#[test]
fn non_numeric_is_rejected() {
    assert_eq!(parse_guess("abc"), None);
    assert_eq!(parse_guess("12a"), None);
    assert_eq!(parse_guess("a12"), None);
    assert_eq!(parse_guess("1 2"), None);
    assert_eq!(parse_guess("-5"), None);
    assert_eq!(parse_guess("+5"), None);
}

#[test]
fn leading_zeros_are_digits() {
    assert_eq!(parse_guess("007"), Some(7));
    assert_eq!(parse_guess("000"), Some(0));
}

#[test]
fn overflow_is_rejected() {
    assert_eq!(parse_guess("4294967295"), Some(u32::MAX));
    assert_eq!(parse_guess("4294967296"), None);
    assert_eq!(parse_guess("99999999999999999999"), None);
}
