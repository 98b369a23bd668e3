use vstd::prelude::*;

use chrono::{Datelike, Timelike};

verus! {

/// Raw calendar fields of one UTC instant, exactly as the time source
/// hands them out.
#[derive(Debug, Clone, Copy, PartialEq, Eq, Structural)]
pub struct UtcParts {
    pub year: i32,
    pub month: u32,
    pub day: u32,
    pub hour: u32,
    pub minute: u32,
    pub second: u32,
    pub millis: u32,
}

/// One UTC instant with fields normalised for rendering: every field is in
/// its calendar range and milliseconds never exceed 999.
#[derive(Debug, Clone, Copy, PartialEq, Eq, Structural)]
pub struct UtcStamp {
    pub year: u32,
    pub month: u32,
    pub day: u32,
    pub hour: u32,
    pub minute: u32,
    pub second: u32,
    pub millis: u32,
}

impl UtcStamp {
    /// Every field is in its calendar range.
    pub open spec fn wf(self) -> bool {
        &&& 1 <= self.month <= 12
        &&& 1 <= self.day <= 31
        &&& self.hour <= 23
        &&& self.minute <= 59
        &&& self.second <= 59
        &&& self.millis <= 999
    }

    pub fn new(year: u32, month: u32, day: u32, hour: u32, minute: u32, second: u32, millis: u32) -> (s:
        UtcStamp)
        requires
            1 <= month <= 12,
            1 <= day <= 31,
            hour <= 23,
            minute <= 59,
            second <= 59,
            millis <= 999,
        ensures
            s == (UtcStamp { year, month, day, hour, minute, second, millis }),
            s.wf(),
    {
        UtcStamp { year, month, day, hour, minute, second, millis }
    }
}

/// Relies on chrono's `Utc::now`, on `Datelike::year` / `month` / `day`, on
/// `Timelike::hour` / `minute` / `second`, and on
/// `DateTime::timestamp_subsec_millis`, for the calendar fields of the
/// current UTC time.  The ranges are the ones chrono documents: months run
/// 1 to 12, days 1 to 31, hours below 24, minutes and seconds below 60, and
/// milliseconds below 2000 (above 999 only during a leap second).
#[verifier::external_body]
pub(crate) fn utc_now_parts() -> (r: UtcParts)
    ensures
        1 <= r.month <= 12,
        1 <= r.day <= 31,
        r.hour <= 23,
        r.minute <= 59,
        r.second <= 59,
        r.millis <= 1999,
{
    let t = chrono::Utc::now();
    UtcParts {
        year: t.year(),
        month: t.month(),
        day: t.day(),
        hour: t.hour(),
        minute: t.minute(),
        second: t.second(),
        millis: t.timestamp_subsec_millis(),
    }
}

/// Relies on chrono's `Utc::now` and `DateTime::timestamp_millis` for the
/// current UTC time in milliseconds since the Unix epoch.  Nothing is
/// promised of the value: callers state what holds whatever comes back.
#[verifier::external_body]
pub(crate) fn utc_now_millis() -> (r: i64) {
    chrono::Utc::now().timestamp_millis()
}

/// The current UTC time, normalised: a leap-second millisecond count is
/// clamped to 999 and a negative year to 0, so the result always renders.
pub fn utc_now_stamp() -> (s: UtcStamp)
    ensures
        s.wf(),
{
    let p = utc_now_parts();
    let year: u32 = if p.year < 0 {
        0
    } else {
        p.year as u32
    };
    let millis: u32 = if p.millis > 999 {
        999
    } else {
        p.millis
    };
    UtcStamp::new(year, p.month, p.day, p.hour, p.minute, p.second, millis)
}

} // verus!
