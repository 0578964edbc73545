use crate::cpu::{sat_sub, ProcessCpuSnapshot};
use crate::entry::{ProcessEntry, ProcessInfo};
use crate::priority::Priority;
use vstd::prelude::*;

verus! {

/// Ticks of the operating system's clock (100 ns) in one second.
pub const TICKS_PER_SECOND: u64 = 10_000_000;

/// Cumulative disk counters of a process, kept between refresh cycles.
#[derive(Debug, Clone, Copy, PartialEq, Eq, Structural)]
pub struct DiskIoSnapshot {
    pub read_bytes: u64,
    pub write_bytes: u64,
}

/// What the providers reported for one process in one refresh cycle. A
/// query that failed is represented by its zero or absent value.
#[derive(Debug, Clone)]
pub struct ProcessSample {
    pub info: ProcessInfo,
    /// CPU time counters, absent where they could not be read.
    pub cpu: Option<ProcessCpuSnapshot>,
    /// Working set in bytes (0 where unreadable).
    pub memory_bytes: u64,
    /// Cumulative bytes read (0 where unreadable).
    pub disk_read_bytes: u64,
    /// Cumulative bytes written (0 where unreadable).
    pub disk_write_bytes: u64,
    /// Priority class (`Unknown` where unreadable).
    pub priority: Priority,
    /// Open handle count (0 where unreadable).
    pub handle_count: u32,
    /// Full executable path, absent where unreadable.
    pub path: Option<String>,
    /// Creation time in ticks since 1601, absent where unreadable.
    pub start_time: Option<u64>,
}

/// Bytes per second between two readings of a cumulative counter taken
/// `elapsed_ms` apart; 0 without a previous reading or without elapsed
/// time, and never negative when the counter went down.
pub open spec fn disk_rate(prev: Option<u64>, cur: u64, elapsed_ms: u64) -> int {
    match prev {
        None => 0,
        Some(p) => if elapsed_ms == 0 {
            0
        } else {
            let r = sat_sub(cur as int, p as int) * 1000 / (elapsed_ms as int);
            if r > u64::MAX {
                u64::MAX as int
            } else {
                r
            }
        },
    }
}

/// Computes `disk_rate`.
pub fn compute_disk_rate(prev: Option<u64>, cur: u64, elapsed_ms: u64) -> (r: u64)
    ensures
        r as int == disk_rate(prev, cur, elapsed_ms),
        prev is Some && cur < prev->0 ==> r == 0,
{
    match prev {
        None => 0,
        Some(p) => {
            if elapsed_ms == 0 {
                return 0;
            }
            let delta: u128 = if cur >= p {
                (cur - p) as u128
            } else {
                0
            };
            let r = delta * 1000 / (elapsed_ms as u128);
            if r > u64::MAX as u128 {
                u64::MAX
            } else {
                r as u64
            }
        },
    }
}

/// Whole seconds from `start` to `now` (both in ticks), 0 where `now` is not later.
pub open spec fn uptime_between(now: u64, start: u64) -> int {
    if now > start {
        (now - start) / (TICKS_PER_SECOND as int)
    } else {
        0
    }
}

/// Computes `uptime_between`.
pub fn uptime_seconds_between(now: u64, start: u64) -> (r: u64)
    ensures
        r as int == uptime_between(now, start),
{
    if now > start {
        (now - start) / TICKS_PER_SECOND
    } else {
        0
    }
}

/// The entry made of a sample, given its CPU figure and disk rates.
pub open spec fn entry_of(
    s: ProcessSample,
    cpu_usage: u32,
    read_rate: u64,
    write_rate: u64,
    now: u64,
) -> ProcessEntry {
    ProcessEntry {
        info: s.info,
        cpu_usage,
        memory_bytes: s.memory_bytes,
        disk_read: s.disk_read_bytes,
        disk_write: s.disk_write_bytes,
        disk_read_rate: read_rate,
        disk_write_rate: write_rate,
        priority: s.priority,
        thread_count: s.info.thread_count,
        start_time: s.start_time,
        uptime_seconds: match s.start_time {
            Some(st) => uptime_between(now, st) as u64,
            None => 0,
        },
        path: s.path,
        handle_count: s.handle_count,
        tree_depth: 0,
    }
}

} // verus!
