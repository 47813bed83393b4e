//! The identifiers and timestamps that records carry.
//!
//! Both are made of values of outside crates. The library creates them,
//! carries them through and writes them out as text; it never looks inside
//! one.

use vstd::prelude::*;
use chrono::{DateTime, FixedOffset, Local, NaiveDateTime};
use uuid::Uuid;

verus! {

/// `uuid::Uuid`: an identifier.
#[verifier::external_type_specification]
#[verifier::external_body]
pub struct ExUuid(uuid::Uuid);

/// `chrono::NaiveDateTime`: a date and a time of day, without a time zone.
#[verifier::external_type_specification]
#[verifier::external_body]
pub struct ExNaiveDateTime(chrono::NaiveDateTime);

/// `chrono::FixedOffset`: an offset of local time from UTC.
#[verifier::external_type_specification]
#[verifier::external_body]
pub struct ExFixedOffset(chrono::FixedOffset);

/// The text in which `Uuid` displays itself: hyphenated, in lower case.
pub uninterp spec fn uuid_text(id: Uuid) -> Seq<char>;

/// The RFC 3339 text that `DateTime::to_rfc3339` writes for the time in UTC
/// and the offset of local time: the local date and time, then the offset.
pub uninterp spec fn rfc3339_text(utc: NaiveDateTime, offset: FixedOffset) -> Seq<char>;

/// A point in time together with the local offset from UTC at that time: the
/// two parts of a `chrono::DateTime<Local>`.
#[derive(Debug, Clone, Copy)]
pub struct Timestamp {
    /// The date and time in UTC.
    pub utc: NaiveDateTime,
    /// The offset of local time from UTC.
    pub offset: FixedOffset,
}

/// The text of the timestamp where there is one, and the empty text where
/// there is none.
pub open spec fn optional_text(at: Option<Timestamp>) -> Seq<char> {
    match at {
        Some(at) => at.rfc3339(),
        None => Seq::empty(),
    }
}

impl Timestamp {
    /// The timestamp as RFC 3339 text with its offset.
    pub open spec fn rfc3339(self) -> Seq<char> {
        rfc3339_text(self.utc, self.offset)
    }

    /// The timestamp as RFC 3339 text with its offset.
    pub fn text(&self) -> (text: String)
        ensures
            text@ == self.rfc3339(),
    {
        time_text(self)
    }
}

/// Draws a random identifier with `Uuid::new_v4`. Nothing is said of the
/// identifier that comes back. The call fails only where the system has no
/// random source to draw from.
#[verifier::external_body]
pub(crate) fn fresh_id() -> Uuid {
    Uuid::new_v4()
}

/// Reads the clock with `Local::now` and takes the time apart with
/// `DateTime::naive_utc` and `DateTime::offset`. Nothing is said of the time
/// that comes back. The call fails only where the system's clock stands
/// before 1970.
#[verifier::external_body]
pub(crate) fn current_time() -> Timestamp {
    let now = Local::now();
    Timestamp { utc: now.naive_utc(), offset: *now.offset() }
}

/// The identifier as text, written by `Uuid`'s `Display`. The text is the one
/// that `uuid_text` names for the identifier.
#[verifier::external_body]
pub(crate) fn id_text(id: &Uuid) -> (text: String)
    ensures
        text@ == uuid_text(*id),
{
    id.to_string()
}

/// The timestamp as RFC 3339 text with its offset, put together by
/// `DateTime::from_naive_utc_and_offset` and written by
/// `DateTime::to_rfc3339`. The text is the one that `rfc3339_text` names for
/// the two parts.
#[verifier::external_body]
pub(crate) fn time_text(at: &Timestamp) -> (text: String)
    ensures
        text@ == rfc3339_text(at.utc, at.offset),
{
    DateTime::<FixedOffset>::from_naive_utc_and_offset(at.utc, at.offset).to_rfc3339()
}

} // verus!
