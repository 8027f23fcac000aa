//! Three instants in consecutive windows of time: one in the ten days before
//! a reference time, one in the ten days from it, one in the ten days after
//! those. They tell a past period from the current one and from the next.

use crate::clock::{present_reference, valid_reference, TEN_DAYS};
use crate::fakers::datetime_between;
use vstd::prelude::*;

verus! {

/// `instant` lies in the window that starts at `start` and ends before
/// `start + TEN_DAYS`, a whole number of minutes from its start.
pub open spec fn in_window(start: int, instant: int) -> bool {
    &&& start <= instant < start + TEN_DAYS
    &&& (instant - start) % 60 == 0
}

/// The three instants lie in the three consecutive windows around `reference`.
pub open spec fn in_windows(reference: int, dates: (i64, i64, i64)) -> bool {
    &&& in_window(reference - TEN_DAYS, dates.0 as int)
    &&& in_window(reference, dates.1 as int)
    &&& in_window(reference + TEN_DAYS, dates.2 as int)
}

/// The three instants lie in the windows around some reference time that a
/// reading of the clock gives.
pub open spec fn windowed(dates: (i64, i64, i64)) -> bool {
    exists|reference: int| present_reference(reference) && #[trigger] in_windows(reference, dates)
}

/// Each instant is earlier than the next.
pub open spec fn consecutive(dates: (i64, i64, i64)) -> bool {
    dates.0 < dates.1 < dates.2
}

/// The windows do not overlap and follow one another, so instants drawn from
/// them are in order, whatever was drawn.
pub proof fn lemma_windows_keep_order(reference: int, dates: (i64, i64, i64))
    requires
        in_windows(reference, dates),
    ensures
        consecutive(dates),
        dates.0 < reference <= dates.1,
        dates.1 < reference + TEN_DAYS <= dates.2,
{
}

/// Draws one instant from each of the three windows around `reference`.
pub fn consecutive_windows(reference: i64) -> (dates: (i64, i64, i64))
    requires
        valid_reference(reference as int),
    ensures
        in_windows(reference as int, dates),
        consecutive(dates),
{
    let past = datetime_between(reference - TEN_DAYS, reference);
    let current = datetime_between(reference, reference + TEN_DAYS);
    let future = datetime_between(reference + TEN_DAYS, reference + 2 * TEN_DAYS);
    (past, current, future)
}

} // verus!
