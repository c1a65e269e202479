//! Points in time as the API writes them.

use super::snowflake::Snowflake;
use crate::json::{Json, JsonValue, ToJson};
use vstd::prelude::*;

verus! {

/// A point in time with the offset from UTC that it was written with.
#[derive(Debug, Clone, Copy)]
pub struct Timestamp {
    /// Whole seconds since the Unix epoch.
    pub secs: i64,
    /// Nanoseconds since the last whole second.
    pub nanos: u32,
    /// The offset of the local time from UTC, in seconds east.
    pub offset: i32,
}

/// The date and time that `chrono` reads from a text: seconds since the
/// Unix epoch, nanoseconds and the offset in seconds east of UTC. `None`
/// where it refuses the text.
pub uninterp spec fn rfc3339_read(text: Seq<char>) -> Option<(i64, u32, i32)>;

/// The RFC 3339 text that `chrono` writes for a point in time. `None` where
/// the numbers are no point in time for it.
pub uninterp spec fn rfc3339_written(secs: i64, nanos: u32, offset: i32) -> Option<Seq<char>>;

/// Reads a date and time.
///
/// Wraps `FromStr` of `chrono::DateTime<FixedOffset>`, which takes RFC 3339
/// in a relaxed form. Of what it read the result holds `timestamp`,
/// `timestamp_subsec_nanos` and the offset's `local_minus_utc`.
#[verifier::external_body]
fn read_rfc3339(text: &str) -> (r: Option<(i64, u32, i32)>)
    ensures
        r == rfc3339_read(text@),
{
    let at = text.parse::<chrono::DateTime<chrono::FixedOffset>>().ok()?;
    Some((at.timestamp(), at.timestamp_subsec_nanos(), at.offset().local_minus_utc()))
}

/// Writes a date and time.
///
/// Wraps `chrono::DateTime::to_rfc3339`, on the point in time that
/// `DateTime::from_timestamp` makes of seconds and nanoseconds, in the zone
/// that `FixedOffset::east_opt` makes of the offset. `None` where either
/// refuses its numbers.
#[verifier::external_body]
fn write_rfc3339(secs: i64, nanos: u32, offset: i32) -> (r: Option<String>)
    ensures
        match r {
            Some(text) => rfc3339_written(secs, nanos, offset) == Some(text@),
            None => rfc3339_written(secs, nanos, offset) is None,
        },
{
    let zone = chrono::FixedOffset::east_opt(offset)?;
    Some(chrono::DateTime::from_timestamp(secs, nanos)?.with_timezone(&zone).to_rfc3339())
}

impl Timestamp {
    /// The moment at which a snowflake was made, in UTC: its milliseconds
    /// split into whole seconds and nanoseconds.
    pub open spec fn of_snowflake(id: u64) -> Timestamp {
        let ms = id as int / 0x40_0000 + 1420070400000;
        Timestamp { secs: (ms / 1000) as i64, nanos: ((ms % 1000) * 1_000_000) as u32, offset: 0 }
    }

    /// The moment at which a snowflake was made, in UTC.
    pub fn from_snowflake(value: Snowflake) -> (r: Self)
        ensures
            r == Self::of_snowflake(value@),
    {
        let ms: u128 = value.timestamp();
        let secs: u128 = ms / 1000;
        let millis: u128 = ms % 1000;
        Timestamp { secs: secs as i64, nanos: (millis * 1_000_000) as u32, offset: 0 }
    }

    /// Reads a timestamp from RFC 3339 text; `None` where `chrono` refuses
    /// the text.
    pub fn parse(text: &str) -> (r: Option<Self>)
        ensures
            match rfc3339_read(text@) {
                Some((secs, nanos, offset)) => r == Some(Timestamp { secs, nanos, offset }),
                None => r is None,
            },
    {
        match read_rfc3339(text) {
            Some((secs, nanos, offset)) => Some(Timestamp { secs, nanos, offset }),
            None => None,
        }
    }

    /// The timestamp as RFC 3339 text; `None` where the numbers are no
    /// point in time for `chrono`.
    pub fn to_string(&self) -> (r: Option<String>)
        ensures
            match r {
                Some(text) => rfc3339_written(self.secs, self.nanos, self.offset) == Some(text@),
                None => rfc3339_written(self.secs, self.nanos, self.offset) is None,
            },
    {
        write_rfc3339(self.secs, self.nanos, self.offset)
    }
}

impl ToJson for Timestamp {
    /// A timestamp stands on the wire as its RFC 3339 text, and as `null`
    /// where its numbers are no point in time.
    open spec fn json_of(&self) -> JsonValue {
        JsonValue::text_or_null(rfc3339_written(self.secs, self.nanos, self.offset))
    }

    fn to_json(&self) -> (r: Json) {
        match self.to_string() {
            Some(text) => Json::Text(text),
            None => Json::Null,
        }
    }
}

} // verus!
