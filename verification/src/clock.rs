//! The wall clock and the calendar, both read through the `time` crate.

use vstd::prelude::*;

verus! {

/// A moment as a datagram carries it: the calendar date and time of day in
/// the sender's offset from UTC, and that offset.
#[derive(Debug, Clone, Copy, PartialEq, Eq, Hash)]
pub struct Timestamp {
    pub year: i32,
    pub ordinal: u16,
    pub hour: u8,
    pub minute: u8,
    pub second: u8,
    pub nanosecond: u32,
    pub offset_hours: i8,
    pub offset_minutes: i8,
    pub offset_seconds: i8,
}

/// The instant that the `time` crate gives to a date by year and day of the
/// year, a time of day and an offset from UTC, in nanoseconds since the Unix
/// epoch; `None` where it refuses one of the components.
pub uninterp spec fn unix_nanos_of(
    year: i32,
    ordinal: u16,
    hour: u8,
    minute: u8,
    second: u8,
    nanosecond: u32,
    offset_hours: i8,
    offset_minutes: i8,
    offset_seconds: i8,
) -> Option<i128>;

impl Timestamp {
    /// The instant that this timestamp denotes, if it denotes one.
    pub open spec fn instant(self) -> Option<i128> {
        unix_nanos_of(
            self.year,
            self.ordinal,
            self.hour,
            self.minute,
            self.second,
            self.nanosecond,
            self.offset_hours,
            self.offset_minutes,
            self.offset_seconds,
        )
    }

    /// Builds the moment with `Date::from_ordinal_date`, `Date::with_hms_nano`,
    /// `UtcOffset::from_hms` and `PrimitiveDateTime::assume_offset` of the
    /// `time` crate and reads it back with `unix_timestamp_nanos`. The result
    /// depends on the nine components alone; `None` when one of the three
    /// constructors refuses its components.
    #[verifier::external_body]
    pub(crate) fn unix_nanos(&self) -> (r: Option<i128>)
        ensures
            r == unix_nanos_of(
                self.year,
                self.ordinal,
                self.hour,
                self.minute,
                self.second,
                self.nanosecond,
                self.offset_hours,
                self.offset_minutes,
                self.offset_seconds,
            ),
    {
        let date = time::Date::from_ordinal_date(self.year, self.ordinal).ok()?;
        let at = date.with_hms_nano(self.hour, self.minute, self.second, self.nanosecond).ok()?;
        let offset = time::UtcOffset::from_hms(
            self.offset_hours,
            self.offset_minutes,
            self.offset_seconds,
        ).ok()?;
        Some(at.assume_offset(offset).unix_timestamp_nanos())
    }
}

/// Reads the current instant with `time::OffsetDateTime::now_utc` and hands it
/// back as `unix_timestamp_nanos` gives it: nanoseconds since the Unix epoch.
/// Nothing is claimed of the value: two readings may differ in either
/// direction. The crate gives up only where the system clock lies beyond
/// the last date of its calendar.
#[verifier::external_body]
pub(crate) fn utc_now_nanos() -> (now: i128) {
    time::OffsetDateTime::now_utc().unix_timestamp_nanos()
}

/// Reads the current moment with `time::OffsetDateTime::now_utc` and takes it
/// apart with the getters of `OffsetDateTime` and `UtcOffset`. Whatever the
/// clock says, the moment is in UTC, and its components are ones that the
/// crate accepts back.
#[verifier::external_body]
pub(crate) fn utc_now_timestamp() -> (ts: Timestamp)
    ensures
        ts.instant() is Some,
        ts.offset_hours == 0 && ts.offset_minutes == 0 && ts.offset_seconds == 0,
{
    let now = time::OffsetDateTime::now_utc();
    Timestamp {
        year: now.year(),
        ordinal: now.ordinal(),
        hour: now.hour(),
        minute: now.minute(),
        second: now.second(),
        nanosecond: now.nanosecond(),
        offset_hours: now.offset().whole_hours(),
        offset_minutes: now.offset().minutes_past_hour(),
        offset_seconds: now.offset().seconds_past_minute(),
    }
}

} // verus!
