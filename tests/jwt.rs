use rcli::{parse_duration, Claims, DurationError};

#[test]
fn durations_in_each_unit() {
    assert_eq!(parse_duration("14d"), Ok(14 * 86400));
    assert_eq!(parse_duration("3h"), Ok(3 * 3600));
    assert_eq!(parse_duration("30m"), Ok(1800));
    assert_eq!(parse_duration("45s"), Ok(45));
    assert_eq!(parse_duration("0s"), Ok(0));
    assert_eq!(parse_duration("+5m"), Ok(300));
}

#[test]
fn bad_durations() {
    assert_eq!(parse_duration(""), Err(DurationError::TooShort));
    assert_eq!(parse_duration("d"), Err(DurationError::TooShort));
    assert_eq!(parse_duration("xd"), Err(DurationError::InvalidNumber));
    assert_eq!(parse_duration("+d"), Err(DurationError::InvalidNumber));
    assert_eq!(parse_duration("-1d"), Err(DurationError::InvalidNumber));
    assert_eq!(parse_duration("10w"), Err(DurationError::InvalidUnit));
    assert_eq!(parse_duration("99999999999999999999s"), Err(DurationError::InvalidNumber));
    assert_eq!(parse_duration("18446744073709551615s"), Ok(u64::MAX));
    assert_eq!(parse_duration("18446744073709551615m"), Err(DurationError::Overflow));
}

#[test]
fn claims_expire_after_the_duration() {
    let c = Claims::expiring("acme", "device1", "1h", 1000).unwrap();
    assert_eq!(c.sub, "acme");
    assert_eq!(c.aud, "device1");
    assert_eq!(c.exp, 4600);
    assert!(matches!(Claims::expiring("a", "b", "1x", 0), Err(DurationError::InvalidUnit)));
    assert!(matches!(Claims::expiring("a", "b", "1s", u64::MAX), Err(DurationError::Overflow)));
}
