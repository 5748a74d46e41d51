//! Readings of the wall clock and of the monotonic clock. The wall clock
//! is that of the `time` crate; the monotonic clock is `std`'s. No reading
//! can be predicted, so a reading comes with a claim only where every
//! reading meets it.

use std::time::Instant;
use time::format_description::well_known::Rfc3339;
use time::OffsetDateTime;
use vstd::prelude::*;
use vstd::string::StringExecFns;

verus! {

/// A date and time of the `time` crate, opaque to proofs.
#[verifier::external_type_specification]
#[verifier::external_body]
pub struct ExOffsetDateTime(OffsetDateTime);

/// A reading of `std`'s monotonic clock, opaque to proofs.
#[verifier::external_type_specification]
#[verifier::external_body]
pub struct ExInstant(Instant);

/// The calendar fields of a moment, at second resolution.
#[derive(Clone, Copy, Debug, PartialEq, Eq, Structural)]
pub struct CalendarStamp {
    pub year: i32,
    pub month: u8,
    pub day: u8,
    pub hour: u8,
    pub minute: u8,
    pub second: u8,
}

impl CalendarStamp {
    /// Whether every field but the year lies in the range that a calendar
    /// gives it.
    pub open spec fn in_range(&self) -> bool {
        &&& 1 <= self.month <= 12
        &&& 1 <= self.day <= 31
        &&& self.hour < 24
        &&& self.minute < 60
        &&& self.second < 60
    }
}

/// The timestamp that stands in when the current moment cannot be
/// written down.
pub open spec fn epoch_text() -> Seq<char> {
    "1970-01-01T00:00:00Z"@
}

/// The timestamp of a record: the formatted moment, or the epoch when
/// formatting failed.
pub open spec fn timestamp_text(formatted: Option<String>) -> Seq<char> {
    match formatted {
        Some(text) => text@,
        None => epoch_text(),
    }
}

/// Whether `c` is a decimal digit.
pub open spec fn is_digit(c: char) -> bool {
    '0' <= c <= '9'
}

/// Whether `text` begins with a date and a time of day in the form
/// `YYYY-MM-DDTHH:MM:SS`.
pub open spec fn date_time_prefix(text: Seq<char>) -> bool {
    &&& text.len() >= 19
    &&& is_digit(text[0]) && is_digit(text[1]) && is_digit(text[2]) && is_digit(text[3])
    &&& text[4] == '-'
    &&& is_digit(text[5]) && is_digit(text[6])
    &&& text[7] == '-'
    &&& is_digit(text[8]) && is_digit(text[9])
    &&& text[10] == 'T'
    &&& is_digit(text[11]) && is_digit(text[12])
    &&& text[13] == ':'
    &&& is_digit(text[14]) && is_digit(text[15])
    &&& text[16] == ':'
    &&& is_digit(text[17]) && is_digit(text[18])
}

/// Whether `text` ends with an offset from UTC: `Z` for none, or a sign
/// with hours and minutes as `+HH:MM` or `-HH:MM`.
pub open spec fn zone_suffix(text: Seq<char>) -> bool {
    let n = text.len() as int;
    ||| n >= 1 && text[n - 1] == 'Z'
    ||| {
        &&& n >= 6
        &&& (text[n - 6] == '+' || text[n - 6] == '-')
        &&& is_digit(text[n - 5]) && is_digit(text[n - 4])
        &&& text[n - 3] == ':'
        &&& is_digit(text[n - 2]) && is_digit(text[n - 1])
    }
}

/// Whether `text` has the shape of an RFC 3339 timestamp: date and time
/// of day first, an offset from UTC last, and between them nothing or a
/// fraction of the second.
pub open spec fn timestamp_shaped(text: Seq<char>) -> bool {
    text.len() >= 20 && date_time_prefix(text) && zone_suffix(text)
}

/// The moment to stamp a record with: the local one where there is one,
/// and the UTC one otherwise.
pub open spec fn preferred(local: Option<OffsetDateTime>, utc: OffsetDateTime) -> OffsetDateTime {
    match local {
        Some(moment) => moment,
        None => utc,
    }
}

/// Calls `OffsetDateTime::now_utc`, the current moment in UTC. Nothing is
/// claimed of it.
#[verifier::external_body]
pub(crate) fn utc_now() -> (moment: OffsetDateTime) {
    OffsetDateTime::now_utc()
}

/// Calls `OffsetDateTime::now_local`, the current moment in the local
/// offset, which fails where that offset cannot be determined. Nothing is
/// claimed of the outcome.
#[verifier::external_body]
pub(crate) fn local_now() -> (moment: Option<OffsetDateTime>) {
    OffsetDateTime::now_local().ok()
}

/// Calls `OffsetDateTime::format` with the RFC 3339 description, which
/// fails for a year outside 0..=9999 or an offset with seconds. Where it
/// succeeds it writes the year in four digits, month, day, hour, minute
/// and second in two digits each, with `-`, `T` and `:` between them,
/// then the fraction of the second if there is one, and last `Z` or the
/// offset as a sign, two digits, `:` and two digits. No more than that
/// shape is claimed of the text.
#[verifier::external_body]
pub(crate) fn rfc3339_of(moment: &OffsetDateTime) -> (text: Option<String>)
    ensures
        text matches Some(written) ==> timestamp_shaped(written@),
{
    moment.format(&Rfc3339).ok()
}

/// Reads the calendar fields of a moment with `to_calendar_date` and
/// `to_hms`. The `time` crate keeps the month within 1..=12, the day
/// within 1..=31, the hour below 24, and minute and second below 60.
#[verifier::external_body]
pub(crate) fn calendar_of(moment: &OffsetDateTime) -> (stamp: CalendarStamp)
    ensures
        stamp.in_range(),
{
    let (year, month, day) = moment.to_calendar_date();
    let (hour, minute, second) = moment.to_hms();
    CalendarStamp { year, month: u8::from(month), day, hour, minute, second }
}

/// Calls `Instant::now`, a reading of the monotonic clock. Nothing is
/// claimed of it.
#[verifier::external_body]
pub(crate) fn monotonic_now() -> (reading: Instant) {
    Instant::now()
}

/// Calls `Instant::elapsed`, the time that has passed since `reading`.
/// Nothing is claimed of it.
#[verifier::external_body]
pub(crate) fn elapsed_since(reading: &Instant) -> (elapsed: core::time::Duration) {
    reading.elapsed()
}

/// Calls `Duration::as_millis`, the whole milliseconds of a duration.
/// Nothing is claimed of the number.
#[verifier::external_body]
pub(crate) fn whole_millis(duration: &core::time::Duration) -> (millis: u128) {
    duration.as_millis()
}

/// The timestamp of a record, given the outcome of formatting the
/// current moment.
pub fn timestamp_or_epoch(formatted: Option<String>) -> (text: String)
    ensures
        text@ == timestamp_text(formatted),
{
    match formatted {
        Some(text) => text,
        None => String::from_str("1970-01-01T00:00:00Z"),
    }
}

/// Chooses between a reading in the local offset, if it could be had,
/// and a reading in UTC.
pub fn prefer_local(local: Option<OffsetDateTime>, utc: OffsetDateTime) -> (moment: OffsetDateTime)
    ensures
        moment == preferred(local, utc),
{
    match local {
        Some(moment) => moment,
        None => utc,
    }
}

/// The current moment: in the local offset where that can be determined,
/// in UTC where it cannot.
pub fn current_moment() -> (moment: OffsetDateTime) {
    let local = local_now();
    let utc = utc_now();
    prefer_local(local, utc)
}

/// The epoch, written as a timestamp, has the shape of one.
pub proof fn lemma_epoch_is_shaped()
    ensures
        timestamp_shaped(epoch_text()),
{
    reveal_strlit("1970-01-01T00:00:00Z");
}

/// The timestamp of the current moment in RFC 3339 form, local time
/// preferred. Never fails: a moment that cannot be formatted is written
/// as the epoch, so that the result has the shape of a timestamp
/// whatever the clock and the formatter did.
pub fn timestamp_now() -> (text: String)
    ensures
        timestamp_shaped(text@),
{
    let moment = current_moment();
    let formatted = rfc3339_of(&moment);
    proof {
        lemma_epoch_is_shaped();
    }
    timestamp_or_epoch(formatted)
}

/// The calendar fields of the current moment in UTC.
pub fn utc_stamp_now() -> (stamp: CalendarStamp)
    ensures
        stamp.in_range(),
{
    let moment = utc_now();
    calendar_of(&moment)
}

/// The whole milliseconds that have passed since `reading`.
pub fn millis_since(reading: &Instant) -> (millis: u128) {
    let elapsed = elapsed_since(reading);
    whole_millis(&elapsed)
}

} // verus!
