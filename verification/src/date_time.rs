//! Instants as clients see them: RFC 3339 texts in the service's time zone.

use crate::text::opt_text;
use chrono::{DateTime, FixedOffset};
use vstd::prelude::*;

verus! {

/// The offset of the service's time zone from UTC, in seconds: eight hours
/// east.
pub const LOCAL_OFFSET_SECONDS: i32 = 28800;

/// An instant: seconds since the epoch in UTC, and the nanoseconds within
/// the second.
#[derive(Debug, Clone, Copy, PartialEq, Eq, Structural)]
pub struct Instant {
    pub seconds: i64,
    pub nanos: u32,
}

/// The RFC 3339 text of an instant at an offset from UTC, as `chrono`
/// writes it; `None` where `chrono` has no such offset or instant.
pub uninterp spec fn rfc3339_text(instant: Instant, offset_seconds: i32) -> Option<Seq<char>>;

/// The instant an RFC 3339 text stands for, as `chrono` reads it; `None`
/// for a text that is none.
pub uninterp spec fn rfc3339_instant(text: Seq<char>) -> Option<Instant>;

/// Makes the offset with `FixedOffset::east_opt` and the instant with
/// `DateTime::from_timestamp`, moves the instant to the offset with
/// `DateTime::with_timezone` and writes it with `DateTime::to_rfc3339`. The
/// contract claims that the text depends on the arguments alone.
#[verifier::external_body]
fn write_rfc3339(instant: Instant, offset_seconds: i32) -> (r: Option<String>)
    ensures
        opt_text(r) == rfc3339_text(instant, offset_seconds),
{
    let zone = FixedOffset::east_opt(offset_seconds)?;
    let utc = DateTime::from_timestamp(instant.seconds, instant.nanos)?;
    Some(utc.with_timezone(&zone).to_rfc3339())
}

/// Reads a text with `DateTime::parse_from_rfc3339` and hands out the
/// instant as `DateTime::timestamp` and `DateTime::timestamp_subsec_nanos`
/// give it. The contract claims that the instant depends on the text alone.
#[verifier::external_body]
fn read_rfc3339(text: &str) -> (r: Option<Instant>)
    ensures
        r == rfc3339_instant(text@),
{
    match DateTime::parse_from_rfc3339(text) {
        Ok(t) => Some(Instant { seconds: t.timestamp(), nanos: t.timestamp_subsec_nanos() }),
        Err(_) => None,
    }
}

/// Writes an instant as clients see it: in RFC 3339, eight hours east of
/// UTC.
pub fn utc_to_local(instant: Instant) -> (text: Option<String>)
    ensures
        opt_text(text) == rfc3339_text(instant, LOCAL_OFFSET_SECONDS),
{
    write_rfc3339(instant, LOCAL_OFFSET_SECONDS)
}

/// Reads an instant from the RFC 3339 text a client sent, whatever offset
/// it is written at.
pub fn local_to_utc(text: &str) -> (instant: Option<Instant>)
    ensures
        instant == rfc3339_instant(text@),
{
    read_rfc3339(text)
}

} // verus!
