//! Reading the current UTC time as the plain components the output layout
//! renders.

use vstd::prelude::*;

use crate::event::Timestamp;

verus! {

/// Relies on chrono's `Utc::now` and its `Datelike`/`Timelike` accessors:
/// the month is 1 to 12, the day of month 1 to 31, the hour at most 23,
/// the minute and second at most 59, and the microseconds within the
/// second below 2,000,000 (values of 1,000,000 and above stand for a leap
/// second). The year carries no documented bound.
#[verifier::external_body]
fn clock_parts() -> (p: (i32, u32, u32, u32, u32, u32, u32))
    ensures
        1 <= p.1 <= 12,
        1 <= p.2 <= 31,
        p.3 <= 23,
        p.4 <= 59,
        p.5 <= 59,
        p.6 < 2000000,
{
    let now = chrono::Utc::now();
    (
        chrono::Datelike::year(&now),
        chrono::Datelike::month(&now),
        chrono::Datelike::day(&now),
        chrono::Timelike::hour(&now),
        chrono::Timelike::minute(&now),
        chrono::Timelike::second(&now),
        now.timestamp_subsec_micros(),
    )
}

/// The current UTC time, normalized to the fixed output layout: a year
/// outside the four-digit range is clamped to it, and a leap-second
/// microsecond count is folded back into the displayed second.
pub fn now_timestamp() -> (t: Timestamp)
    ensures
        t.wf(),
{
    let (year, month, day, hour, minute, second, micros) = clock_parts();
    let year_clamped: u16 = if year < 0 {
        0u16
    } else if year > 9999 {
        9999u16
    } else {
        year as u16
    };
    let micros_folded: u32 = if micros >= 1000000 {
        micros - 1000000
    } else {
        micros
    };
    Timestamp {
        year: year_clamped,
        month: month as u8,
        day: day as u8,
        hour: hour as u8,
        minute: minute as u8,
        second: second as u8,
        micros: micros_folded,
    }
}

} // verus!
