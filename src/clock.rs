//! The time of day that a frame shows, as plain values.

use chrono::Timelike;
use vstd::prelude::*;

verus! {

/// A moment: seconds since the Unix epoch, and the local hour, minute and
/// second that it reads as.
#[derive(Clone, Copy, Debug, PartialEq, Eq, Structural)]
pub struct ClockTime {
    pub timestamp: i64,
    pub hour: u32,
    pub minute: u32,
    pub second: u32,
}

impl ClockTime {
    /// The components lie on a 24-hour clock face.
    pub open spec fn wf(&self) -> bool {
        &&& self.hour < 24
        &&& self.minute < 60
        &&& self.second < 60
    }

    /// Whether the components lie on a 24-hour clock face.
    pub fn is_valid(&self) -> (r: bool)
        ensures
            r == self.wf(),
    {
        self.hour < 24 && self.minute < 60 && self.second < 60
    }
}

/// Relies on chrono's `Local::now`, `DateTime::timestamp` and `Timelike`:
/// the current local time, whose hour lies in 0..=23 and whose minute and
/// second lie in 0..=59 (a leap second shows in the nanoseconds only).
#[verifier::external_body]
pub(crate) fn local_now() -> (r: ClockTime)
    ensures
        r.wf(),
{
    let now = chrono::Local::now();
    ClockTime {
        timestamp: now.timestamp(),
        hour: now.hour(),
        minute: now.minute(),
        second: now.second(),
    }
}

} // verus!
