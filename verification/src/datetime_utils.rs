//! Timestamps of the proving platform. They come as text without a time zone
//! and are read as UTC. Reading the text is the work of `chrono`.
use vstd::prelude::*;
use crate::json::{json_model, Json};

verus! {

/// The layout of a platform timestamp: year, month, day, the letter `T`, hour,
/// minute, second.
pub const TIMESTAMP_FORMAT: &'static str = "%Y-%m-%dT%H:%M:%S";

/// Every instant lies strictly between minus and plus this many seconds from
/// the Unix epoch, so that the seconds between any two instants fit in 64
/// bits. The dates that `chrono` reads lie far inside.
pub const INSTANT_LIMIT: i64 = 0x4000_0000_0000_0000;

/// What `chrono` makes of a text under a format: the seconds from the Unix
/// epoch to the date and time it reads, taken as UTC, or `None` where it turns
/// the text down.
pub uninterp spec fn naive_utc_seconds(text: Seq<char>, format: Seq<char>) -> Option<i64>;

/// Calls `chrono::NaiveDateTime::parse_from_str`, takes the date and time it
/// reads as UTC (`DateTime::from_naive_utc_and_offset`) and hands back its
/// `timestamp`. The contract only names the outcome: it is
/// `naive_utc_seconds` of the text and the format.
#[verifier::external_body]
fn parse_naive_utc(text: &str, format: &str) -> (r: Option<i64>)
    ensures
        r == naive_utc_seconds(text@, format@),
{
    match chrono::NaiveDateTime::parse_from_str(text, format) {
        Ok(naive) => Some(
            chrono::DateTime::<chrono::Utc>::from_naive_utc_and_offset(naive, chrono::Utc)
                .timestamp(),
        ),
        Err(_) => None,
    }
}

/// An instant in UTC, to the second.
#[derive(Clone, Copy, Debug, PartialEq, Eq)]
pub struct UtcInstant {
    secs: i64,
}

impl View for UtcInstant {
    type V = int;

    /// The seconds from the Unix epoch to this instant.
    closed spec fn view(&self) -> int {
        self.secs as int
    }
}

impl UtcInstant {
    #[verifier::type_invariant]
    closed spec fn in_range(self) -> bool {
        -INSTANT_LIMIT < self.secs < INSTANT_LIMIT
    }

    /// The instant that lies `secs` seconds from the Unix epoch, if it lies
    /// within the limit.
    pub fn from_timestamp(secs: i64) -> (r: Option<UtcInstant>)
        ensures
            r is Some <==> -INSTANT_LIMIT < secs < INSTANT_LIMIT,
            r matches Some(instant) ==> instant@ == secs,
    {
        if -INSTANT_LIMIT < secs && secs < INSTANT_LIMIT {
            Some(UtcInstant { secs })
        } else {
            None
        }
    }

    /// The seconds from the Unix epoch to this instant.
    pub fn timestamp(&self) -> (secs: i64)
        ensures
            secs == self@,
            -INSTANT_LIMIT < secs < INSTANT_LIMIT,
    {
        proof {
            use_type_invariant(self);
        }
        self.secs
    }

    /// The seconds from `earlier` to this instant; negative where `earlier`
    /// is in fact the later of the two.
    pub fn seconds_since(&self, earlier: &UtcInstant) -> (secs: i64)
        ensures
            secs == self@ - earlier@,
    {
        proof {
            use_type_invariant(self);
            use_type_invariant(earlier);
        }
        self.secs - earlier.secs
    }
}

/// The instant that a platform timestamp names, in seconds from the Unix
/// epoch: what `chrono` reads in the text under the platform's layout, as
/// long as it lies within the limit.
pub open spec fn instant_of(text: Seq<char>) -> Option<int> {
    match naive_utc_seconds(text, TIMESTAMP_FORMAT@) {
        Some(secs) => if -INSTANT_LIMIT < secs < INSTANT_LIMIT {
            Some(secs as int)
        } else {
            None
        },
        None => None,
    }
}

/// Reads a platform timestamp, such as `2024-01-15T10:30:00`, as an instant in
/// UTC.
pub fn parse_timestamp(text: &str) -> (r: Option<UtcInstant>)
    ensures
        r is Some <==> instant_of(text@) is Some,
        r matches Some(instant) ==> instant_of(text@) == Some(instant@),
{
    match parse_naive_utc(text, TIMESTAMP_FORMAT) {
        Some(secs) => UtcInstant::from_timestamp(secs),
        None => None,
    }
}

/// What an optional timestamp field holds: nothing for `null`, an instant for
/// a string that names one, and no reading at all (`None`) for anything else.
pub open spec fn datetime_of(field: Json) -> Option<Option<int>> {
    match field {
        Json::Null => Some(None),
        Json::Text(text) => match instant_of(text) {
            Some(secs) => Some(Some(secs)),
            None => None,
        },
        _ => None,
    }
}

/// A timestamp field that is neither `null` nor a string in the platform's
/// layout.
#[derive(Clone, Copy, Debug, PartialEq, Eq, Structural)]
pub struct InvalidDatetime;

/// Reads an optional timestamp field: `null` is an absent timestamp, a string
/// must name an instant in the platform's layout, anything else is refused.
pub fn deserialize_datetime(field: &serde_json::Value) -> (r: Result<
    Option<UtcInstant>,
    InvalidDatetime,
>)
    ensures
        match r {
            Ok(Some(instant)) => datetime_of(json_model(*field)) == Some(Some(instant@)),
            Ok(None) => datetime_of(json_model(*field)) == Some(None::<int>),
            Err(_) => datetime_of(json_model(*field)) is None,
        },
{
    if crate::json::is_null(field) {
        return Ok(None);
    }
    match crate::json::as_str(field) {
        None => Err(InvalidDatetime),
        Some(text) => match parse_timestamp(text) {
            Some(instant) => Ok(Some(instant)),
            None => Err(InvalidDatetime),
        },
    }
}

} // verus!
