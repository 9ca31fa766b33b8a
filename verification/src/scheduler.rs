//! The periodic scheduler's arithmetic: the delay that aligns the
//! first wake to the next quarter-hour wall-clock boundary, and the
//! current instant for a sweep.  The host drives the timer loop and
//! calls `run_sweep` once per wake.

use vstd::prelude::*;
use chrono::{Datelike, Timelike};
use crate::time::Instant;

verus! {

/// The scheduler's wake interval in seconds.
pub const WAKE_INTERVAL_SECONDS: u32 = 900;

/// Seconds from the given wall-clock position until the next
/// quarter-hour boundary (:00, :15, :30 or :45): always positive,
/// never more than a whole interval, and landing exactly on a
/// boundary.
pub fn seconds_until_next_quarter(minute: u32, second: u32) -> (r: u32)
    requires
        minute < 60,
        second < 60,
    ensures
        1 <= r <= WAKE_INTERVAL_SECONDS,
        (minute * 60 + second + r) % (WAKE_INTERVAL_SECONDS as int) == 0,
{
    let next_quarter: u32 = if minute < 15 {
        15
    } else if minute < 30 {
        30
    } else if minute < 45 {
        45
    } else {
        60
    };
    (next_quarter - minute) * 60 - second
}

/// The evaluator's tolerance covers exactly one wake interval, so
/// every quarter-hour boundary crossing is seen by at least one sweep
/// and the window never spans two extra wakes.
pub proof fn lemma_tolerance_matches_interval()
    ensures
        crate::evaluator::TOLERANCE_MINUTES as int * 60 == WAKE_INTERVAL_SECONDS as int,
{
}

/// Relies on `chrono::Local::now` with the `Datelike` and `Timelike`
/// accessors: the current local calendar fields, within the ranges
/// chrono documents (month 1-12, day 1-31, hour below 24, minute and
/// second below 60).
#[verifier::external_body]
pub(crate) fn local_now_fields() -> (r: (i32, u32, u32, u32, u32, u32))
    ensures
        1 <= r.1 <= 12,
        1 <= r.2 <= 31,
        r.3 < 24,
        r.4 < 60,
        r.5 < 60,
{
    let now = chrono::Local::now();
    (now.year(), now.month(), now.day(), now.hour(), now.minute(), now.second())
}

/// The current local instant, when the current year lies on the
/// engine's timeline.
pub fn now_instant() -> (r: Option<Instant>)
    ensures
        r matches Some(i) ==> i.wf(),
{
    let (y, m, d, h, mi, _s) = local_now_fields();
    if y < 1 || y > 9999 {
        return None;
    }
    Instant::from_civil(y as u32, m, d, h, mi)
}

/// The delay, in seconds, that the host should sleep before the first
/// sweep so that every installation wakes on the same quarter-hour
/// boundaries.
pub fn alignment_delay_seconds() -> (r: u32)
    ensures
        1 <= r <= WAKE_INTERVAL_SECONDS,
{
    let (_y, _m, _d, _h, mi, s) = local_now_fields();
    seconds_until_next_quarter(mi, s)
}

} // verus!
