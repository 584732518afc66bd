use diesel_connection::capacity::{parse_max_connections, DEFAULT_MAX_CONNECTIONS};

#[test]
fn default_capacity_is_twenty() {
    assert_eq!(DEFAULT_MAX_CONNECTIONS, 20);
}

#[test]
fn parses_plain_decimal() {
    assert_eq!(parse_max_connections("20"), Some(20));
    assert_eq!(parse_max_connections("0"), Some(0));
    assert_eq!(parse_max_connections("7"), Some(7));
    assert_eq!(parse_max_connections("1234567890"), Some(1_234_567_890));
}

#[test]
fn accepts_a_leading_plus() {
    assert_eq!(parse_max_connections("+5"), Some(5));
    assert_eq!(parse_max_connections("+0"), Some(0));
}

#[test]
fn accepts_leading_zeros() {
    assert_eq!(parse_max_connections("0020"), Some(20));
    assert_eq!(parse_max_connections("000000000000004294967295"), Some(u32::MAX));
}

#[test]
fn accepts_the_largest_value_and_refuses_the_next() {
    assert_eq!(parse_max_connections("4294967295"), Some(u32::MAX));
    assert_eq!(parse_max_connections("4294967296"), None);
    assert_eq!(parse_max_connections("99999999999999999999999999"), None);
}

#[test]
fn refuses_what_is_no_literal() {
    assert_eq!(parse_max_connections(""), None);
    assert_eq!(parse_max_connections("+"), None);
    assert_eq!(parse_max_connections("-"), None);
    assert_eq!(parse_max_connections("-1"), None);
    assert_eq!(parse_max_connections("-0"), None);
    assert_eq!(parse_max_connections("++1"), None);
    assert_eq!(parse_max_connections("1+"), None);
    assert_eq!(parse_max_connections(" 20"), None);
    assert_eq!(parse_max_connections("20 "), None);
    assert_eq!(parse_max_connections("2 0"), None);
    assert_eq!(parse_max_connections("20\n"), None);
    assert_eq!(parse_max_connections("twenty"), None);
    assert_eq!(parse_max_connections("0x14"), None);
    assert_eq!(parse_max_connections("1e3"), None);
    assert_eq!(parse_max_connections("1_000"), None);
    assert_eq!(parse_max_connections("20.0"), None);
}

#[test]
fn refuses_digits_outside_ascii() {
    assert_eq!(parse_max_connections("\u{ff12}\u{ff10}"), None);
    assert_eq!(parse_max_connections("2\u{0660}"), None);
    assert_eq!(parse_max_connections("\u{00e9}"), None);
}

#[test]
fn agrees_with_the_standard_parser() {
    let samples = vec![
        "", "+", "-", "0", "00", "+0", "-0", "1", "+1", "-1", "20", "020", "+020", "++20", "20+",
        " 20", "20 ", "4294967295", "4294967296", "+4294967295", "42949672950", "429496729",
        "9999999999", "18446744073709551616", "a", "2a", "a2", "1.5", "\u{ff11}", "١٢٣",
    ];
    for text in samples {
        assert_eq!(parse_max_connections(text), text.parse::<u32>().ok(), "on {:?}", text);
    }
}
