use rcli::duration::{
    chars_of, current_timestamp_sec, instant_plus, parse_decimal, parse_duration,
    parse_str_to_timestamp, timestamp_after, DurationError,
};
use rcli::jwt::Claims;

#[test]
fn test_parse_str_to_timestamp_should_works() {
    let timestamp1 = parse_str_to_timestamp("60s").unwrap();
    let timestamp2 = current_timestamp_sec() + 60;
    assert_eq!(timestamp1, timestamp2);

    let timestamp1 = parse_str_to_timestamp("1m").unwrap();
    let timestamp2 = current_timestamp_sec() + 60;
    assert_eq!(timestamp1, timestamp2);

    let timestamp1 = parse_str_to_timestamp("1h").unwrap();
    let timestamp2 = current_timestamp_sec() + 60 * 60;
    assert_eq!(timestamp1, timestamp2);

    let timestamp1 = parse_str_to_timestamp("1d").unwrap();
    let timestamp2 = current_timestamp_sec() + 24 * 60 * 60;
    assert_eq!(timestamp1, timestamp2);
}

#[test]
fn test_parse_str_to_timestamp_should_err() {
    let Err(err) = parse_str_to_timestamp("fjsdaflasdj") else {
        panic!(r#"parse_str_to_timestamp("fjsdaflasdj") should error but got None"#)
    };
    assert_eq!(err.message(), "Unsupported format: j");

    let Err(err) = parse_str_to_timestamp("") else {
        panic!(r#"parse_str_to_timestamp("") should error but got None"#)
    };
    assert_eq!(err.message(), "Empty duration")
}

#[test]
fn duration_units() {
    assert_eq!(parse_duration("1s"), Ok(1));
    assert_eq!(parse_duration("90s"), Ok(90));
    assert_eq!(parse_duration("2m"), Ok(120));
    assert_eq!(parse_duration("3h"), Ok(10800));
    assert_eq!(parse_duration("14d"), Ok(1209600));
    assert_eq!(parse_duration("0d"), Ok(0));
    assert_eq!(parse_duration("-5m"), Ok(-300));
    assert_eq!(parse_duration("+5m"), Ok(300));
    assert_eq!(parse_duration("007s"), Ok(7));
}

#[test]
fn duration_repeated_unit_is_trimmed() {
    assert_eq!(parse_duration("5dd"), Ok(432000));
    assert_eq!(parse_duration("5sss"), Ok(5));
    assert_eq!(parse_duration("5ds"), Err(DurationError::InvalidDigit));
}

#[test]
fn duration_errors() {
    assert_eq!(parse_duration(""), Err(DurationError::Empty));
    assert_eq!(parse_duration("5"), Err(DurationError::UnsupportedUnit('5')));
    assert_eq!(parse_duration("5w"), Err(DurationError::UnsupportedUnit('w')));
    assert_eq!(parse_duration("5é"), Err(DurationError::UnsupportedUnit('é')));
    assert_eq!(parse_duration("s"), Err(DurationError::EmptyNumber));
    assert_eq!(parse_duration("ddd"), Err(DurationError::EmptyNumber));
    assert_eq!(parse_duration("+s"), Err(DurationError::InvalidDigit));
    assert_eq!(parse_duration("-s"), Err(DurationError::InvalidDigit));
    assert_eq!(parse_duration("1 s"), Err(DurationError::InvalidDigit));
    assert_eq!(parse_duration("1.5h"), Err(DurationError::InvalidDigit));
    assert_eq!(parse_duration("9223372036854775808s"), Err(DurationError::TooLarge));
    assert_eq!(parse_duration("-9223372036854775809s"), Err(DurationError::TooSmall));
    assert_eq!(parse_duration("99999999999999999999xs"), Err(DurationError::TooLarge));
    assert_eq!(parse_duration("9223372036854775807s"), Ok(i64::MAX));
    assert_eq!(parse_duration("-9223372036854775808s"), Ok(i64::MIN));
    assert_eq!(parse_duration("9223372036854775807m"), Err(DurationError::OutOfRange));
    assert_eq!(parse_duration("-9223372036854775808d"), Err(DurationError::OutOfRange));
}

#[test]
fn decimal_reads_as_the_standard_parser() {
    for text in [
        "", "+", "-", "0", "-0", "+0", "12", "-12", "+12", "1x", "x1", "--1", "+-1", " 1", "1 ",
        "９", "9223372036854775807", "9223372036854775808", "-9223372036854775808",
        "-9223372036854775809", "00000000000000000000000001", "123456789012345678901234567890",
        "-123456789012345678901234567890", "99999999999999999999a", "a99999999999999999999",
    ] {
        let chars: Vec<char> = text.chars().collect();
        let expected = text.parse::<i64>();
        let got = parse_decimal(&chars);
        assert_eq!(got.ok(), expected.clone().ok(), "{:?}", text);
        if let (Err(got), Err(expected)) = (got, expected) {
            assert_eq!(got.message(), expected.to_string(), "{:?}", text);
        }
    }
}

#[test]
fn timestamp_after_adds_to_the_instant() {
    assert_eq!(timestamp_after(1_700_000_000, "60s"), Ok(1_700_000_060));
    assert_eq!(timestamp_after(1_700_000_000, "1d"), Ok(1_700_086_400));
    assert_eq!(timestamp_after(-10, "-1h"), Ok(-3610));
    assert_eq!(timestamp_after(i64::MAX, "1s"), Err(DurationError::OutOfRange));
    assert_eq!(timestamp_after(i64::MIN, "-1s"), Err(DurationError::OutOfRange));
    assert_eq!(timestamp_after(i64::MAX, "0s"), Ok(i64::MAX));
    assert_eq!(timestamp_after(5, "x"), Err(DurationError::UnsupportedUnit('x')));
    assert_eq!(instant_plus(1, 2), Ok(3));
    assert_eq!(instant_plus(i64::MIN, -1), Err(DurationError::OutOfRange));
}

#[test]
fn duration_error_messages() {
    assert_eq!(DurationError::Empty.message(), "Empty duration");
    assert_eq!(DurationError::UnsupportedUnit('j').message(), "Unsupported format: j");
    assert_eq!(DurationError::EmptyNumber.message(), "cannot parse integer from empty string");
    assert_eq!(DurationError::InvalidDigit.message(), "invalid digit found in string");
    assert_eq!(DurationError::TooLarge.message(), "number too large to fit in target type");
    assert_eq!(DurationError::TooSmall.message(), "number too small to fit in target type");
    assert!(!DurationError::OutOfRange.message().is_empty());
}

#[test]
fn chars_of_keeps_every_character() {
    assert_eq!(chars_of(""), Vec::<char>::new());
    assert_eq!(chars_of("5é日"), vec!['5', 'é', '日']);
}

#[test]
fn current_timestamp_is_the_clock() {
    let before = std::time::SystemTime::now()
        .duration_since(std::time::UNIX_EPOCH)
        .unwrap()
        .as_secs() as i64;
    let now = current_timestamp_sec();
    assert!(before <= now && now <= before + 2);
}

#[test]
fn claims_issued_for_a_lifetime() {
    let claims = Claims::issued_at(Some("abc".into()), None, "5s", 1000, 1001).unwrap();
    assert_eq!(claims.aud.as_deref(), Some("abc"));
    assert_eq!(claims.sub, None);
    assert_eq!(claims.iat, 1000);
    assert_eq!(claims.exp, 1006);
    assert_eq!(
        Claims::issued_at(None, None, "5y", 0, 0).err(),
        Some(DurationError::UnsupportedUnit('y'))
    );
    let before = current_timestamp_sec();
    let claims = Claims::issue(None, Some("sub.sasdf".into()), "5s").unwrap();
    let after = current_timestamp_sec();
    assert!(before + 5 <= claims.exp && claims.exp <= after + 5);
    assert!(before <= claims.iat && claims.iat <= after);
    assert_eq!(Claims::issue(None, None, "1x").err(), Some(DurationError::UnsupportedUnit('x')));
    assert!(claims.outlives(claims.iat));
    assert!(!claims.outlives(claims.iat + 6));
    assert_eq!(Claims::issue(None, None, "").err(), Some(DurationError::Empty));
}
