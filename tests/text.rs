use solscan_mcp::text::{format_i64, format_u64, parse_i64, same_text};
use solscan_mcp::Failure;

#[test]
fn formats_integers_in_decimal() {
    assert_eq!(format_i64(0), "0");
    assert_eq!(format_i64(7), "7");
    assert_eq!(format_i64(-15), "-15");
    assert_eq!(format_i64(1234567890), "1234567890");
    assert_eq!(format_i64(i64::MAX), "9223372036854775807");
    assert_eq!(format_i64(i64::MIN), "-9223372036854775808");
    assert_eq!(format_u64(u64::MAX), "18446744073709551615");
}

#[test]
fn parses_decimal_integers() {
    assert_eq!(parse_i64("0"), Some(0));
    assert_eq!(parse_i64("-0"), Some(0));
    assert_eq!(parse_i64("007"), Some(7));
    assert_eq!(parse_i64("-15"), Some(-15));
    assert_eq!(parse_i64("9223372036854775807"), Some(i64::MAX));
    assert_eq!(parse_i64("-9223372036854775808"), Some(i64::MIN));
}

#[test]
fn rejects_text_that_is_not_an_i64() {
    assert_eq!(parse_i64(""), None);
    assert_eq!(parse_i64("-"), None);
    assert_eq!(parse_i64("+1"), None);
    assert_eq!(parse_i64("1a"), None);
    assert_eq!(parse_i64(" 1"), None);
    assert_eq!(parse_i64("9223372036854775808"), None);
    assert_eq!(parse_i64("-9223372036854775809"), None);
    assert_eq!(parse_i64("99999999999999999999999"), None);
}

#[test]
fn compares_text_by_characters() {
    assert!(same_text("", ""));
    assert!(same_text("page", "page"));
    assert!(!same_text("page", "page_size"));
    assert!(!same_text("from", "flow"));
    assert!(same_text("héllo", "héllo"));
}

#[test]
fn failure_messages() {
    let f = Failure::MissingParameter { key: "tx".to_string() };
    assert_eq!(f.message(), "missing required parameter: tx");
    let f = Failure::LimitExceeded { key: "address".to_string(), limit: 20, actual: 21 };
    assert_eq!(f.message(), "too many values for address: 21 (at most 20)");
    let f = Failure::DecodeError { message: "eof".to_string() };
    assert_eq!(f.message(), "JSON parsing error: eof");
    let f = Failure::UpstreamError { status: 403, body: "forbidden".to_string() };
    assert_eq!(f.message(), "HTTP 403: forbidden");
}

