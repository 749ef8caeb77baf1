//! The wall clock: what a tick of the host carries.
//!
//! The time of a tick comes as an `OffsetDateTime` of the `time` crate. What
//! is said here of that crate's functions is taken from its documentation and
//! believed, not proved.

use vstd::prelude::*;

verus! {

/// A date and time with an offset from UTC, as the `time` crate holds it.
/// Nothing of its inside is known here.
#[verifier::external_type_specification]
#[verifier::external_body]
pub struct ExOffsetDateTime(time::OffsetDateTime);

/// The clock hour that `now` shows in its stored offset: what
/// `time::OffsetDateTime::hour` returns for it.
pub uninterp spec fn clock_hour(now: time::OffsetDateTime) -> u8;

/// The minute within the hour that `now` shows in its stored offset: what
/// `time::OffsetDateTime::minute` returns for it.
pub uninterp spec fn clock_minute(now: time::OffsetDateTime) -> u8;

/// `time::OffsetDateTime::hour` gives the clock hour in the stored offset.
/// Believed of it: it reads the value and nothing else, so the same value
/// gives the same hour, and the hour lies in `0..24`, as its documentation
/// says.
pub assume_specification[ time::OffsetDateTime::hour ](now: time::OffsetDateTime) -> (hour: u8)
    ensures
        hour == clock_hour(now),
        hour < 24,
;

/// `time::OffsetDateTime::minute` gives the minute within the hour in the
/// stored offset. Believed of it: it reads the value and nothing else, so the
/// same value gives the same minute, and the minute lies in `0..60`, as its
/// documentation says.
pub assume_specification[ time::OffsetDateTime::minute ](now: time::OffsetDateTime) -> (minute:
    u8)
    ensures
        minute == clock_minute(now),
        minute < 60,
;

/// The hour and the minute that `now` shows on a wall clock, in its stored
/// offset. Both lie on the dial.
pub fn time_of_day(now: time::OffsetDateTime) -> (reading: (usize, usize))
    ensures
        reading.0 == clock_hour(now),
        reading.1 == clock_minute(now),
        reading.0 < 24,
        reading.1 < 60,
{
    (now.hour() as usize, now.minute() as usize)
}

} // verus!
