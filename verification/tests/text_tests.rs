use binance_connector::error::{Error, FailureKind, TransportFailure};
use binance_connector::text::{
    i64_to_string, join2, parse_bool, parse_u32, parse_u64, same_text, u64_to_string,
};

#[test]
fn decimal_notation_of_unsigned_numbers() {
    assert_eq!(u64_to_string(0), "0");
    assert_eq!(u64_to_string(7), "7");
    assert_eq!(u64_to_string(10), "10");
    assert_eq!(u64_to_string(1000), "1000");
    assert_eq!(u64_to_string(u64::MAX), "18446744073709551615");
}

#[test]
fn decimal_notation_of_signed_numbers() {
    assert_eq!(i64_to_string(0), "0");
    assert_eq!(i64_to_string(-1121), "-1121");
    assert_eq!(i64_to_string(1640000000000), "1640000000000");
    assert_eq!(i64_to_string(i64::MIN), "-9223372036854775808");
    assert_eq!(i64_to_string(i64::MAX), "9223372036854775807");
}

#[test]
fn unsigned_numbers_are_read_as_std_reads_them() {
    let cases = [
        "0", "60", "+60", "007", "18446744073709551615", "18446744073709551616", "", "+", "-0",
        " 1", "1 ", "1_000", "12a", "++1", "99999999999999999999999",
    ];
    for text in cases {
        assert_eq!(parse_u64(text), text.parse::<u64>().ok(), "text {:?}", text);
        assert_eq!(parse_u32(text), text.parse::<u32>().ok(), "text {:?}", text);
    }
    assert_eq!(parse_u32("4294967295"), Some(u32::MAX));
    assert_eq!(parse_u32("4294967296"), None);
    assert_eq!(parse_u64("4294967296"), Some(4294967296));
}

#[test]
fn truth_values_are_read_as_std_reads_them() {
    for text in ["true", "false", "True", "1", "", " true", "yes"] {
        assert_eq!(parse_bool(text), text.parse::<bool>().ok(), "text {:?}", text);
    }
}

#[test]
fn texts_are_compared_and_joined() {
    assert!(same_text("abc", "abc"));
    assert!(!same_text("abc", "abd"));
    assert!(!same_text("abc", "ab"));
    assert_eq!(join2("ab", "cd"), "abcd");
    assert_eq!(join2("", ""), "");
}

#[test]
fn error_texts() {
    let http = Error::HttpError(TransportFailure {
        kind: FailureKind::Timeout,
        message: "operation timed out".to_string(),
    });
    assert_eq!(http.to_string(), "HTTP request failed: operation timed out");
    assert_eq!(
        Error::ApiError { code: -1121, msg: "Invalid symbol.".to_string() }.to_string(),
        "Binance API error -1121: Invalid symbol."
    );
    assert_eq!(
        Error::RateLimitExceeded { retry_after_seconds: 60 }.to_string(),
        "Rate limit exceeded, retry after 60s"
    );
    assert_eq!(Error::InvalidSymbol("X".to_string()).to_string(), "Invalid symbol: X");
    assert_eq!(Error::InvalidInterval("2m".to_string()).to_string(), "Invalid interval: 2m");
    assert_eq!(Error::Timeout(10).to_string(), "Network timeout after 10s");
    assert_eq!(
        Error::DeserializationError("bad".to_string()).to_string(),
        "Deserialization error: bad"
    );
    assert_eq!(Error::ConfigError("bad".to_string()).to_string(), "Configuration error: bad");
    assert_eq!(Error::WebSocketError("gone".to_string()).to_string(), "WebSocket error: gone");
    assert_eq!(Error::WebSocketClosed.to_string(), "WebSocket connection closed");
    assert_eq!(
        Error::InvalidDateRange { start: "a".to_string(), end: "b".to_string() }.to_string(),
        "Invalid date range: start=a, end=b"
    );
}

#[test]
fn retryable_errors() {
    let http = Error::HttpError(TransportFailure {
        kind: FailureKind::Other,
        message: String::new(),
    });
    assert!(http.is_retryable());
    assert!(Error::Timeout(1).is_retryable());
    assert!(Error::RateLimitExceeded { retry_after_seconds: 1 }.is_retryable());
    assert!(Error::WebSocketClosed.is_retryable());
    assert!(!Error::ApiError { code: 1, msg: String::new() }.is_retryable());
    assert!(!Error::InvalidSymbol(String::new()).is_retryable());
    assert!(!Error::InvalidInterval(String::new()).is_retryable());
    assert!(!Error::DeserializationError(String::new()).is_retryable());
    assert!(!Error::ConfigError(String::new()).is_retryable());
    assert!(!Error::WebSocketError(String::new()).is_retryable());
    assert!(
        !Error::InvalidDateRange { start: String::new(), end: String::new() }.is_retryable()
    );
    assert!(Error::RateLimitExceeded { retry_after_seconds: 1 }.is_rate_limit());
    assert!(!Error::Timeout(1).is_rate_limit());
    assert!(!Error::WebSocketClosed.is_rate_limit());
}
