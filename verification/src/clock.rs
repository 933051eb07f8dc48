//! The session clock: the stop time that names an output file comes from
//! the system's UTC clock, read through chrono.

use vstd::prelude::*;
use chrono::Datelike;
use chrono::Timelike;
use crate::session::Timestamp;

verus! {

/// Relies on chrono's `Utc::now` and its `Datelike`/`Timelike` accessors:
/// `month()` is 1 to 12, `day()` 1 to 31, `hour()` 0 to 23, `minute()` 0
/// to 59 and `second()` 0 to 59 (a leap second is carried in the
/// nanosecond field, not here). The year is whatever the clock says.
#[verifier::external_body]
fn utc_now_parts() -> (r: (i32, u32, u32, u32, u32, u32))
    ensures
        1 <= r.1 <= 12,
        1 <= r.2 <= 31,
        r.3 < 24,
        r.4 < 60,
        r.5 < 60,
{
    let now = chrono::Utc::now();
    (now.year(), now.month(), now.day(), now.hour(), now.minute(), now.second())
}

/// The current UTC time as a stop timestamp, or `None` in a year the
/// four-digit file name cannot carry.
pub fn current_timestamp() -> (r: Option<Timestamp>)
    ensures
        (r matches Some(t) ==> t.well_formed()),
{
    let (year, month, day, hour, minute, second) = utc_now_parts();
    if year < 0 || year > 9999 {
        return None;
    }
    Timestamp::new(
        year as u16,
        month as u8,
        day as u8,
        hour as u8,
        minute as u8,
        second as u8,
    )
}

} // verus!
