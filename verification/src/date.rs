//! Calendar view of an observation timestamp. The record carries Unix
//! seconds; the date label needs day, month and year, and that conversion
//! is delegated to chrono through the one trusted call of this crate.

use vstd::prelude::*;
use chrono::Datelike;

verus! {

/// A civil calendar date, the only thing the dashboard reads of time.
#[derive(Clone, Copy, Debug, PartialEq, Eq, Structural)]
pub struct CivilDate {
    pub year: i32,
    pub month: u8,
    pub day: u8,
}

/// The (year, month, day) in the proleptic Gregorian calendar, UTC, of a
/// count of Unix seconds; the name stands for what chrono computes.
pub uninterp spec fn civil_of(secs: int) -> (int, int, int);

/// Relies on chrono's `DateTime::from_timestamp` and the `Datelike`
/// accessors: the civil date is a function of the timestamp alone; the
/// documentation puts `month` in 1..=12 and `day` in 1..=31, makes the
/// conversion total for timestamps many millennia past the year 9999,
/// and counts non-negative seconds forward from 1970-01-01.
#[verifier::external_body]
pub fn civil_from_unix(secs: i64) -> (r: Option<CivilDate>)
    ensures
        r matches Some(d) ==> {
            &&& (d.year as int, d.month as int, d.day as int) == civil_of(secs as int)
            &&& 1 <= d.month <= 12
            &&& 1 <= d.day <= 31
            &&& (secs >= 0 ==> d.year >= 1970)
        },
        0 <= secs <= 253402300799 ==> r is Some,
{
    match chrono::DateTime::<chrono::Utc>::from_timestamp(secs, 0) {
        None => None,
        Some(t) => {
            let month = t.month();
            let day = t.day();
            if month >= 1 && month <= 12 && day >= 1 && day <= 31 {
                Some(CivilDate { year: t.year(), month: month as u8, day: day as u8 })
            } else {
                None
            }
        },
    }
}

} // verus!
