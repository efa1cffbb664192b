use file_times::codec::encode_seconds;
use file_times::codec::js_timestamp_to_rs_timestamp;
use file_times::error::TimeError;

#[test]
fn decodes_ten_digit_string_as_whole_seconds() {
    assert_eq!(js_timestamp_to_rs_timestamp("1700000000"), Ok((1700000000, 0)));
    assert_eq!(js_timestamp_to_rs_timestamp("1234567890"), Ok((1234567890, 0)));
    assert_eq!(js_timestamp_to_rs_timestamp("9999999999"), Ok((9999999999, 0)));
}

#[test]
fn decodes_ten_digit_string_with_leading_zeros() {
    assert_eq!(js_timestamp_to_rs_timestamp("0000000001"), Ok((1, 0)));
    assert_eq!(js_timestamp_to_rs_timestamp("0000000000"), Ok((0, 0)));
}

#[test]
fn decodes_thirteen_digit_string_as_millis() {
    assert_eq!(
        js_timestamp_to_rs_timestamp("1700000000123"),
        Ok((1700000000, 123_000_000))
    );
    assert_eq!(js_timestamp_to_rs_timestamp("1700000000000"), Ok((1700000000, 0)));
    assert_eq!(
        js_timestamp_to_rs_timestamp("9999999999999"),
        Ok((9999999999, 999_000_000))
    );
}

#[test]
fn rejects_strings_of_other_lengths() {
    for s in ["", "1", "170000000", "17000000001", "170000000012", "17000000000123", "1700000000123456"] {
        assert_eq!(js_timestamp_to_rs_timestamp(s), Err(TimeError::InvalidTimestamp), "{}", s);
    }
}

#[test]
fn rejects_non_digit_characters() {
    for s in ["17000a0000", "-700000000", "1700000000x23", "170000000012 ", " 700000000"] {
        assert_eq!(js_timestamp_to_rs_timestamp(s), Err(TimeError::InvalidTimestamp), "{}", s);
    }
}

#[test]
fn encodes_seconds_as_decimal_string() {
    assert_eq!(encode_seconds(1700000000), "1700000000");
    assert_eq!(encode_seconds(0), "0");
    assert_eq!(encode_seconds(7), "7");
    assert_eq!(encode_seconds(10), "10");
    assert_eq!(encode_seconds(18446744073709551615), "18446744073709551615");
}

#[test]
fn ten_digit_round_trip_preserves_the_string() {
    for s in ["1700000000", "1234567890", "9999999999"] {
        let (secs, nanos) = js_timestamp_to_rs_timestamp(s).unwrap();
        assert_eq!(nanos, 0);
        assert_eq!(encode_seconds(secs), s);
    }
}

#[test]
fn thirteen_digit_round_trip_discards_the_millis() {
    let (secs, nanos) = js_timestamp_to_rs_timestamp("1700000000123").unwrap();
    assert_eq!(nanos, 123_000_000);
    assert_eq!(encode_seconds(secs), "1700000000");
}

#[test]
fn error_messages_name_the_kind() {
    assert_eq!(
        TimeError::InvalidTimestamp.message(),
        "invalid timestamp: expected a 10 or 13 digit epoch string"
    );
    assert_eq!(TimeError::TimeConversionError.message(), "time predates the Unix epoch");
    assert_eq!(TimeError::PathOpenError.message(), "could not open the path");
    assert_eq!(
        TimeError::TimeApplicationError.message(),
        "could not apply the requested file times"
    );
}
