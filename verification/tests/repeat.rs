use zero_pass::{parse_repeat, Error};

#[test]
fn empty_input_means_one_repetition() {
    assert_eq!(parse_repeat("").unwrap(), 1);
}

#[test]
fn plain_numbers_are_read() {
    assert_eq!(parse_repeat("1").unwrap(), 1);
    assert_eq!(parse_repeat("7").unwrap(), 7);
    assert_eq!(parse_repeat("42").unwrap(), 42);
    assert_eq!(parse_repeat("255").unwrap(), 255);
    assert_eq!(parse_repeat("0").unwrap(), 0);
    assert_eq!(parse_repeat("007").unwrap(), 7);
}

#[test]
fn non_numeric_input_is_an_error_not_a_fallback() {
    assert!(matches!(parse_repeat("abc"), Err(Error::InvalidRepeat)));
    assert!(matches!(parse_repeat("1a"), Err(Error::InvalidRepeat)));
    assert!(matches!(parse_repeat(" 2"), Err(Error::InvalidRepeat)));
    assert!(matches!(parse_repeat("-1"), Err(Error::InvalidRepeat)));
    assert!(matches!(parse_repeat("2.5"), Err(Error::InvalidRepeat)));
}

#[test]
fn numbers_above_a_byte_are_errors() {
    assert!(matches!(parse_repeat("256"), Err(Error::InvalidRepeat)));
    assert!(matches!(
        parse_repeat("99999999999999999999"),
        Err(Error::InvalidRepeat)
    ));
}
