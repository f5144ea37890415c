use snowflake_id::config::parse_machine_id;

#[test]
fn parses_plain_number() {
    assert_eq!(parse_machine_id(b"5"), 5);
    assert_eq!(parse_machine_id(b"0"), 0);
    assert_eq!(parse_machine_id(b"1023"), 1023);
}

#[test]
fn parses_leading_plus() {
    assert_eq!(parse_machine_id(b"+5"), 5);
    assert_eq!(parse_machine_id(b"+1023"), 1023);
}

#[test]
fn parses_leading_zeros() {
    assert_eq!(parse_machine_id(b"005"), 5);
    assert_eq!(parse_machine_id(b"+0007"), 7);
}

#[test]
fn full_range_boundary() {
    assert_eq!(parse_machine_id(b"65535"), 65535);
    assert_eq!(parse_machine_id(b"65536"), 0);
    assert_eq!(parse_machine_id(b"99999999999999999999"), 0);
}

#[test]
fn empty_defaults_to_zero() {
    assert_eq!(parse_machine_id(b""), 0);
    assert_eq!(parse_machine_id(b"+"), 0);
}

#[test]
fn garbage_defaults_to_zero() {
    assert_eq!(parse_machine_id(b"abc"), 0);
    assert_eq!(parse_machine_id(b"12a"), 0);
    assert_eq!(parse_machine_id(b"a12"), 0);
    assert_eq!(parse_machine_id(b"-5"), 0);
    assert_eq!(parse_machine_id(b"1 2"), 0);
    assert_eq!(parse_machine_id(b"++1"), 0);
}
