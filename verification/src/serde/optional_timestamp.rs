//! Points in time, which travel as RFC 3339 text.

use crate::google::protobuf::Timestamp;
use vstd::prelude::*;

verus! {

/// The RFC 3339 text, in UTC and with as many fractional digits as the value
/// needs, of the instant that `chrono::DateTime::from_timestamp` makes of the two
/// numbers; `None` where it makes none.
pub uninterp spec fn instant_text(seconds: i64, nanos: u32) -> Option<Seq<char>>;

/// The seconds and the nanoseconds beyond them of the instant that `chrono` reads
/// from `text`; `None` where it reads none.
pub uninterp spec fn text_instant(text: Seq<char>) -> Option<(i64, u32)>;

/// `chrono::DateTime::from_timestamp`, then `DateTime::to_rfc3339_opts` with
/// `SecondsFormat::AutoSi` and `Z` for the offset.
#[verifier::external_body]
fn format_instant(seconds: i64, nanos: u32) -> (text: Option<String>)
    ensures
        match text {
            Some(written) => instant_text(seconds, nanos) == Some(written@),
            None => instant_text(seconds, nanos) is None,
        },
{
    let instant = chrono::DateTime::from_timestamp(seconds, nanos)?;
    Some(instant.to_rfc3339_opts(chrono::SecondsFormat::AutoSi, true))
}

/// `str::parse` at `chrono::DateTime<FixedOffset>`, then `DateTime::timestamp` and
/// `DateTime::timestamp_subsec_nanos`.
#[verifier::external_body]
fn parse_instant(text: &str) -> (instant: Option<(i64, u32)>)
    ensures
        instant == text_instant(text@),
{
    let instant = text.parse::<chrono::DateTime<chrono::FixedOffset>>().ok()?;
    Some((instant.timestamp(), instant.timestamp_subsec_nanos()))
}

/// Why a point in time has no text, or a text stands for no point in time.
#[derive(Clone, Copy, Debug, PartialEq, Eq, Structural)]
pub enum TimestampError {
    /// The nanoseconds are negative, or the calendar does not reach the instant.
    OutOfRange,
    /// The text is not RFC 3339.
    Format,
}

/// The text of a point in time.
pub open spec fn written_spec(value: Timestamp) -> Result<Seq<char>, TimestampError> {
    if value.nanos < 0 {
        Err(TimestampError::OutOfRange)
    } else {
        match instant_text(value.seconds, value.nanos as u32) {
            Some(text) => Ok(text),
            None => Err(TimestampError::OutOfRange),
        }
    }
}

/// The point in time that a text stands for.
pub open spec fn read_spec(text: Seq<char>) -> Result<Timestamp, TimestampError> {
    match text_instant(text) {
        None => Err(TimestampError::Format),
        Some((seconds, nanos)) => if nanos <= i32::MAX {
            Ok(Timestamp { seconds, nanos: nanos as i32 })
        } else {
            Err(TimestampError::OutOfRange)
        },
    }
}

/// The text that stands for a point in time in a JSON body.
pub fn serialize(value: &Option<Timestamp>) -> (written: Result<Option<String>, TimestampError>)
    ensures
        match *value {
            Some(instant) => match written {
                Ok(text) => text matches Some(found) && written_spec(instant) == Ok::<
                    Seq<char>,
                    TimestampError,
                >(found@),
                Err(error) => written_spec(instant) == Err::<Seq<char>, TimestampError>(error),
            },
            None => written matches Ok(text) && text is None,
        },
{
    match value {
        None => Ok(None),
        Some(instant) => {
            if instant.nanos < 0 {
                return Err(TimestampError::OutOfRange);
            }
            match format_instant(instant.seconds, instant.nanos as u32) {
                Some(text) => Ok(Some(text)),
                None => Err(TimestampError::OutOfRange),
            }
        },
    }
}

/// The point in time that a text of a JSON body stands for.
pub fn deserialize(written: Option<&str>) -> (value: Result<Option<Timestamp>, TimestampError>)
    ensures
        match written {
            Some(text) => match value {
                Ok(read) => read matches Some(instant) && read_spec(text@) == Ok::<
                    Timestamp,
                    TimestampError,
                >(instant),
                Err(error) => read_spec(text@) == Err::<Timestamp, TimestampError>(error),
            },
            None => value == Ok::<Option<Timestamp>, TimestampError>(None),
        },
{
    match written {
        None => Ok(None),
        Some(text) => match parse_instant(text) {
            None => Err(TimestampError::Format),
            Some((seconds, nanos)) => {
                if nanos > 0x7FFF_FFFF {
                    Err(TimestampError::OutOfRange)
                } else {
                    Ok(Some(Timestamp { seconds, nanos: nanos as i32 }))
                }
            },
        },
    }
}

} // verus!
