//! Reading points in time out of texts, which the `chrono` crate does;
//! nothing of that is proved here.

use chrono::{DateTime, NaiveDate, NaiveDateTime, NaiveTime};
use vstd::prelude::*;

verus! {

/// The seconds since the epoch of the date and time that `text` writes in
/// the format `format`, read without regard to any offset it names. `None`
/// where `text` is not of that format.
pub uninterp spec fn timestamp_of(text: Seq<char>, format: Seq<char>) -> Option<i64>;

/// Reads `text` with `NaiveDateTime::parse_from_str` and counts the seconds
/// with `NaiveDateTime::and_utc` and `DateTime::timestamp`. The contract
/// claims only that the outcome is a function of the two texts.
#[verifier::external_body]
pub(crate) fn parse_timestamp(text: &str, format: &str) -> (out: Option<i64>)
    ensures
        out == timestamp_of(text@, format@),
{
    NaiveDateTime::parse_from_str(text, format).ok().map(|t| t.and_utc().timestamp())
}

/// The seconds since the epoch of midnight on the day that `text` writes in
/// the format `format`. `None` where `text` is not of that format.
pub uninterp spec fn date_timestamp_of(text: Seq<char>, format: Seq<char>) -> Option<i64>;

/// Reads `text` with `NaiveDate::parse_from_str`, takes midnight of that day
/// with `NaiveDate::and_time` and counts the seconds with
/// `NaiveDateTime::and_utc` and `DateTime::timestamp`. The contract claims
/// only that the outcome is a function of the two texts.
#[verifier::external_body]
pub(crate) fn parse_date(text: &str, format: &str) -> (out: Option<i64>)
    ensures
        out == date_timestamp_of(text@, format@),
{
    NaiveDate::parse_from_str(text, format).ok().map(
        |d| d.and_time(NaiveTime::MIN).and_utc().timestamp(),
    )
}

/// The seconds since the epoch of the point in time that `text` writes as
/// RFC 3339 does. `None` where `text` is not written so.
pub uninterp spec fn rfc3339_timestamp(text: Seq<char>) -> Option<i64>;

/// Reads `text` with `DateTime::parse_from_rfc3339` and counts the seconds
/// with `DateTime::timestamp`. The contract claims only that the outcome is
/// a function of the text.
#[verifier::external_body]
pub(crate) fn parse_rfc3339(text: &str) -> (out: Option<i64>)
    ensures
        out == rfc3339_timestamp(text@),
{
    DateTime::parse_from_rfc3339(text).ok().map(|t| t.timestamp())
}

} // verus!
