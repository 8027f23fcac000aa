//! The clock, read through `chrono`, in whole seconds since the epoch.

use chrono::Utc;
use vstd::prelude::*;

verus! {

/// The seconds of ten days.
pub const TEN_DAYS: i64 = 864_000;

/// The seconds of one day.
pub const ONE_DAY: i64 = 86_400;

/// Every instant within this many seconds of the epoch, before it or after
/// it, lies inside the calendar of `chrono`, which runs from the year -262143
/// to the year 262142: the span is a little over 253 thousand years.
pub const CALENDAR_SPAN: i64 = 8_000_000_000_000;

/// The earliest reference time: ten days before it the calendar still holds.
pub const EARLIEST_REFERENCE: i64 = TEN_DAYS - CALENDAR_SPAN;

/// The latest reference time: twenty days after it the calendar still holds.
pub const LATEST_REFERENCE: i64 = CALENDAR_SPAN - 2 * TEN_DAYS;

/// A reference time around which windows can be laid out inside the calendar.
pub open spec fn valid_reference(reference: int) -> bool {
    EARLIEST_REFERENCE <= reference <= LATEST_REFERENCE
}

/// A reference time that a reading of the clock gives: a valid one that is
/// not before the epoch.
pub open spec fn present_reference(reference: int) -> bool {
    0 <= reference <= LATEST_REFERENCE
}

/// `chrono::Utc::now`, as `DateTime::timestamp` gives it. `now` fails for a
/// clock set before the epoch, so what comes back is never negative.
#[verifier::external_body]
fn utc_now_timestamp() -> (seconds: i64)
    ensures
        seconds >= 0,
{
    Utc::now().timestamp()
}

/// The reference time for a clock reading: the reading itself where it is a
/// valid reference, and else the valid reference that is nearest to it.
pub fn reference_for(reading: i64) -> (reference: i64)
    ensures
        valid_reference(reference as int),
        valid_reference(reading as int) ==> reference == reading,
        reading > LATEST_REFERENCE ==> reference == LATEST_REFERENCE,
        reading < EARLIEST_REFERENCE ==> reference == EARLIEST_REFERENCE,
{
    if reading > LATEST_REFERENCE {
        LATEST_REFERENCE
    } else if reading < EARLIEST_REFERENCE {
        EARLIEST_REFERENCE
    } else {
        reading
    }
}

/// The present moment as a reference time.
pub fn reference_time() -> (reference: i64)
    ensures
        present_reference(reference as int),
{
    reference_for(utc_now_timestamp())
}

} // verus!
