use crate::sample::{uptime_between, uptime_seconds_between, TICKS_PER_SECOND};
use vstd::prelude::*;

verus! {

/// Seconds from 1601-01-01 (the tick counters' epoch) to 1970-01-01.
pub const EPOCH_DIFFERENCE_SECS: u64 = 11644473600;

/// Relies on `SystemTime::now().duration_since(UNIX_EPOCH)`: the whole
/// seconds and the nanoseconds of the current second (`subsec_nanos` is
/// below one billion), or `None` for a clock set before 1970.
#[verifier::external_body]
fn unix_time_now() -> (r: Option<(u64, u32)>)
    ensures
        r is Some ==> (r->0).1 < 1_000_000_000,
{
    match std::time::SystemTime::now().duration_since(std::time::UNIX_EPOCH) {
        Ok(d) => Some((d.as_secs(), d.subsec_nanos())),
        Err(_) => None,
    }
}

/// Ticks (100 ns) since 1601 of a Unix time, saturating at the largest tick count.
pub open spec fn filetime_of(secs: u64, nanos: u32) -> int {
    let t = (secs + EPOCH_DIFFERENCE_SECS) * TICKS_PER_SECOND + nanos / 100;
    if t > u64::MAX {
        u64::MAX as int
    } else {
        t
    }
}

/// Converts a Unix time (seconds and nanoseconds) to ticks since 1601.
pub fn filetime_from_unix(secs: u64, nanos: u32) -> (r: u64)
    ensures
        r as int == filetime_of(secs, nanos),
{
    let base: u128 = secs as u128 + EPOCH_DIFFERENCE_SECS as u128;
    assert(base * 10_000_000 <= 0x2_0000_0000_0000_0000 * 10_000_000) by (nonlinear_arith)
        requires
            base <= 0x2_0000_0000_0000_0000,
    ;
    let t: u128 = base * (TICKS_PER_SECOND as u128) + (nanos / 100) as u128;
    if t > u64::MAX as u128 {
        u64::MAX
    } else {
        t as u64
    }
}

/// The current time in ticks (100 ns) since 1601.
pub fn get_current_filetime() -> (r: u64)
    ensures
        r >= EPOCH_DIFFERENCE_SECS * TICKS_PER_SECOND,
{
    let (secs, nanos) = match unix_time_now() {
        Some(t) => t,
        None => (0, 0),
    };
    filetime_from_unix(secs, nanos)
}

/// Whole seconds a process created at `start_time` (ticks since 1601) has
/// been running, by the clock read now.
pub fn calculate_uptime_seconds(start_time: u64) -> (r: u64)
    ensures
        exists|now: u64| now >= EPOCH_DIFFERENCE_SECS * TICKS_PER_SECOND && r as int == uptime_between(now, start_time),
{
    let now = get_current_filetime();
    uptime_seconds_between(now, start_time)
}

} // verus!
