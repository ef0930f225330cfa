use google_cloud_storage::google::protobuf::{FieldMask, Timestamp};
use google_cloud_storage::serde::into_string::{self, Decimal, DecimalError};
use google_cloud_storage::serde::optional_crc32c::{self, ChecksumError};
use google_cloud_storage::serde::optional_timestamp::{self, TimestampError};
use google_cloud_storage::serde::{is_default, optional_field_mask};

#[test]
fn integers_are_written_in_decimal() {
    assert_eq!(into_string::serialize(&115258717311i64), "115258717311");
    assert_eq!(into_string::serialize(&1i64), "1");
    assert_eq!(into_string::serialize(&0i64), "0");
    assert_eq!(into_string::serialize(&-7i64), "-7");
    assert_eq!(into_string::serialize(&i64::MAX), "9223372036854775807");
    assert_eq!(into_string::serialize(&i64::MIN), "-9223372036854775808");
    assert_eq!(into_string::serialize(&u64::MAX), "18446744073709551615");
    assert_eq!(into_string::serialize(&10u64), "10");
    assert_eq!(into_string::serialize(&i32::MAX), "2147483647");
    assert_eq!(into_string::serialize(&-100i32), "-100");
}

#[test]
fn integers_are_read_from_decimal() {
    assert_eq!(into_string::deserialize::<i64>("115258717311"), Ok(115258717311));
    assert_eq!(into_string::deserialize::<i64>("1"), Ok(1));
    assert_eq!(into_string::deserialize::<i64>("+12"), Ok(12));
    assert_eq!(into_string::deserialize::<i64>("-12"), Ok(-12));
    assert_eq!(into_string::deserialize::<i64>("-0"), Ok(0));
    assert_eq!(into_string::deserialize::<i64>("0007"), Ok(7));
    assert_eq!(into_string::deserialize::<i64>("9223372036854775807"), Ok(i64::MAX));
    assert_eq!(into_string::deserialize::<i64>("-9223372036854775808"), Ok(i64::MIN));
    assert_eq!(into_string::deserialize::<u64>("18446744073709551615"), Ok(u64::MAX));
    assert_eq!(into_string::deserialize::<u64>("+0"), Ok(0));
    assert_eq!(into_string::deserialize::<i32>("-2147483648"), Ok(i32::MIN));
    assert_eq!(into_string::deserialize::<i32>("2147483647"), Ok(i32::MAX));
}

#[test]
fn texts_that_are_no_integer_are_refused() {
    assert_eq!(into_string::deserialize::<i64>(""), Err(DecimalError::Empty));
    for text in ["-", "+", " 1", "1 ", "1.0", "0x10", "١", "--1", "1-", "12a"] {
        assert_eq!(into_string::deserialize::<i64>(text), Err(DecimalError::InvalidDigit), "{}", text);
    }
    assert_eq!(into_string::deserialize::<u64>("-1"), Err(DecimalError::InvalidDigit));
    assert_eq!(into_string::deserialize::<u64>("-0"), Err(DecimalError::InvalidDigit));
}

#[test]
fn integers_out_of_range_are_refused() {
    assert_eq!(
        into_string::deserialize::<i64>("9223372036854775808"),
        Err(DecimalError::PosOverflow)
    );
    assert_eq!(
        into_string::deserialize::<i64>("-9223372036854775809"),
        Err(DecimalError::NegOverflow)
    );
    assert_eq!(
        into_string::deserialize::<i64>("99999999999999999999999999"),
        Err(DecimalError::PosOverflow)
    );
    assert_eq!(
        into_string::deserialize::<i64>("-99999999999999999999999999"),
        Err(DecimalError::NegOverflow)
    );
    assert_eq!(
        into_string::deserialize::<u64>("18446744073709551616"),
        Err(DecimalError::PosOverflow)
    );
    assert_eq!(into_string::deserialize::<i32>("2147483648"), Err(DecimalError::PosOverflow));
    assert_eq!(into_string::deserialize::<i32>("-2147483649"), Err(DecimalError::NegOverflow));
}

#[test]
fn decimal_round_trips() {
    for value in [0i64, 1, -1, 9, 10, 99, 100, 1500357863879418, i64::MAX, i64::MIN] {
        assert_eq!(i64::from_decimal(&value.to_decimal()), Ok(value));
        assert_eq!(value.to_decimal(), value.to_string());
    }
    for value in [0u64, 9, 10, 18446744073709551615] {
        assert_eq!(u64::from_decimal(&value.to_decimal()), Ok(value));
        assert_eq!(value.to_decimal(), value.to_string());
    }
    for value in [0i32, -1, i32::MIN, i32::MAX] {
        assert_eq!(i32::from_decimal(&value.to_decimal()), Ok(value));
        assert_eq!(value.to_decimal(), value.to_string());
    }
}

#[test]
fn checksums_are_written_as_base64() {
    assert_eq!(optional_crc32c::serialize(&Some(1714892481)), Some("ZjcuwQ==".to_string()));
    assert_eq!(optional_crc32c::serialize(&Some(2403284288)), Some("jz81QA==".to_string()));
    assert_eq!(optional_crc32c::serialize(&Some(0)), Some("AAAAAA==".to_string()));
    assert_eq!(optional_crc32c::serialize(&Some(u32::MAX)), Some("/////w==".to_string()));
    assert_eq!(optional_crc32c::serialize(&None), None);
}

#[test]
fn checksums_are_read_from_base64() {
    assert_eq!(optional_crc32c::deserialize(Some("ZjcuwQ==")), Ok(Some(1714892481)));
    assert_eq!(optional_crc32c::deserialize(Some("jz81QA==")), Ok(Some(2403284288)));
    assert_eq!(optional_crc32c::deserialize(Some("/////w==")), Ok(Some(u32::MAX)));
    assert_eq!(optional_crc32c::deserialize(None), Ok(None));
}

#[test]
fn texts_that_are_no_checksum_are_refused() {
    assert_eq!(optional_crc32c::deserialize(Some("not base64!")), Err(ChecksumError::Encoding));
    assert_eq!(optional_crc32c::deserialize(Some("Zjcu wQ==")), Err(ChecksumError::Encoding));
    assert_eq!(optional_crc32c::deserialize(Some("")), Err(ChecksumError::Length));
    assert_eq!(optional_crc32c::deserialize(Some("AAAA")), Err(ChecksumError::Length));
    assert_eq!(optional_crc32c::deserialize(Some("AAAAAAA=")), Err(ChecksumError::Length));
}

#[test]
fn timestamps_are_written_as_rfc_3339() {
    let written = |seconds, nanos| optional_timestamp::serialize(&Some(Timestamp { seconds, nanos }));
    assert_eq!(written(1500357863, 761_000000), Ok(Some("2017-07-18T06:04:23.761Z".to_string())));
    assert_eq!(written(1502378886, 445_000000), Ok(Some("2017-08-10T15:28:06.445Z".to_string())));
    assert_eq!(written(0, 0), Ok(Some("1970-01-01T00:00:00Z".to_string())));
    assert_eq!(written(-1, 1), Ok(Some("1969-12-31T23:59:59.000000001Z".to_string())));
    assert_eq!(optional_timestamp::serialize(&None), Ok(None));
}

#[test]
fn timestamps_without_a_text_are_refused() {
    let written = |seconds, nanos| optional_timestamp::serialize(&Some(Timestamp { seconds, nanos }));
    assert_eq!(written(0, -1), Err(TimestampError::OutOfRange));
    assert_eq!(written(i64::MAX, 0), Err(TimestampError::OutOfRange));
    assert_eq!(written(0, 2_000_000_000), Err(TimestampError::OutOfRange));
}

#[test]
fn timestamps_are_read_from_rfc_3339() {
    assert_eq!(
        optional_timestamp::deserialize(Some("2017-07-18T06:04:23.761Z")),
        Ok(Some(Timestamp { seconds: 1500357863, nanos: 761_000000 }))
    );
    assert_eq!(
        optional_timestamp::deserialize(Some("2017-07-18T08:04:23+02:00")),
        Ok(Some(Timestamp { seconds: 1500357863, nanos: 0 }))
    );
    assert_eq!(
        optional_timestamp::deserialize(Some("1970-01-01T00:00:00Z")),
        Ok(Some(Timestamp { seconds: 0, nanos: 0 }))
    );
    assert_eq!(optional_timestamp::deserialize(None), Ok(None));
}

#[test]
fn texts_that_are_no_timestamp_are_refused() {
    for text in ["", "yesterday", "1500357863", "2017-13-01T00:00:00Z"] {
        assert_eq!(optional_timestamp::deserialize(Some(text)), Err(TimestampError::Format), "{}", text);
    }
}

#[test]
fn field_masks_never_travel_in_a_body() {
    let mask = Some(FieldMask { paths: vec!["name".to_string()] });
    assert_eq!(optional_field_mask::serialize(&mask), None);
    assert_eq!(optional_field_mask::serialize(&None), None);
    assert_eq!(optional_field_mask::deserialize(Some("name")), None);
    assert_eq!(optional_field_mask::deserialize(None), None);
}

#[test]
fn defaults_are_recognised() {
    assert!(is_default(&0i64));
    assert!(!is_default(&1i64));
    assert!(is_default(&String::new()));
    assert!(!is_default(&"x".to_string()));
    assert!(is_default(&false));
    assert!(!is_default(&true));
    assert!(is_default(&0i32));
}
