use std::collections::HashMap;
use vstd::prelude::*;

verus! {

broadcast use vstd::std_specs::hash::group_hash_axioms;

/// Usage figures are hundredths of a percent of the whole machine:
/// `FULL_USAGE` stands for 100.00%.
pub const FULL_USAGE: u32 = 10000;

/// Cumulative system-wide CPU time counters (kernel time includes idle time).
#[derive(Debug, Clone, Copy, PartialEq, Eq, Structural)]
pub struct SystemCpuSnapshot {
    pub idle_time: u64,
    pub kernel_time: u64,
    pub user_time: u64,
}

/// Cumulative CPU time counters of one process.
#[derive(Debug, Clone, Copy, PartialEq, Eq, Structural)]
pub struct ProcessCpuSnapshot {
    pub kernel_time: u64,
    pub user_time: u64,
}

impl ProcessCpuSnapshot {
    /// The snapshot recorded for a process whose counters could not be read.
    pub fn zero() -> (r: ProcessCpuSnapshot)
        ensures
            r.kernel_time == 0 && r.user_time == 0,
    {
        ProcessCpuSnapshot { kernel_time: 0, user_time: 0 }
    }
}

/// `a - b`, or 0 where `b` exceeds `a`.
pub open spec fn sat_sub(a: int, b: int) -> int {
    if a >= b {
        a - b
    } else {
        0
    }
}

/// Ticks elapsed on all cores between two system snapshots.
pub open spec fn system_total_delta(prev: SystemCpuSnapshot, cur: SystemCpuSnapshot) -> int {
    sat_sub(cur.kernel_time as int, prev.kernel_time as int) + sat_sub(
        cur.user_time as int,
        prev.user_time as int,
    )
}

/// Busy share of the machine between two system snapshots, in hundredths of a percent.
pub open spec fn system_usage(prev: SystemCpuSnapshot, cur: SystemCpuSnapshot) -> int {
    let total = system_total_delta(prev, cur);
    let busy = sat_sub(total, sat_sub(cur.idle_time as int, prev.idle_time as int));
    if total == 0 {
        0
    } else {
        busy * FULL_USAGE / total
    }
}

/// CPU time a process used between two snapshots (0 where the counters went down).
pub open spec fn process_ticks(prev: ProcessCpuSnapshot, cur: ProcessCpuSnapshot) -> int {
    sat_sub(cur.kernel_time + cur.user_time, prev.kernel_time + prev.user_time)
}

/// Share of the machine that a process used while `system_delta` ticks
/// elapsed, in hundredths of a percent rounded up (so that any use shows),
/// clamped to full usage.
pub open spec fn process_usage(
    prev: ProcessCpuSnapshot,
    cur: ProcessCpuSnapshot,
    system_delta: int,
) -> int {
    let scaled = process_ticks(prev, cur) * FULL_USAGE;
    let share = scaled / system_delta + if scaled % system_delta > 0 {
        1int
    } else {
        0int
    };
    if system_delta <= 0 {
        0
    } else if share > FULL_USAGE {
        FULL_USAGE as int
    } else {
        share
    }
}

/// Keeps the previous counter snapshots that usage figures are computed against.
#[derive(Debug)]
pub struct CpuTracker {
    prev_system: Option<SystemCpuSnapshot>,
    system_delta: u128,
    prev_processes: HashMap<u32, ProcessCpuSnapshot>,
}

impl CpuTracker {
    /// The last system snapshot seen, if any.
    pub closed spec fn previous_system(&self) -> Option<SystemCpuSnapshot> {
        self.prev_system
    }

    /// Ticks that elapsed on the machine during the current refresh cycle.
    pub closed spec fn cycle_ticks(&self) -> int {
        self.system_delta as int
    }

    /// The last snapshot seen of each tracked process.
    pub closed spec fn seen_processes(&self) -> Map<u32, ProcessCpuSnapshot> {
        self.prev_processes@
    }

    /// A tracker that has seen nothing yet.
    pub fn new() -> (r: CpuTracker)
        ensures
            r.previous_system() is None,
            r.cycle_ticks() == 0,
            r.seen_processes() == Map::<u32, ProcessCpuSnapshot>::empty(),
    {
        CpuTracker { prev_system: None, system_delta: 0, prev_processes: HashMap::new() }
    }

    /// Records a fresh system snapshot (`None` where it could not be read) and
    /// returns the busy share of the machine since the previous one, in
    /// hundredths of a percent; 0 on the first snapshot or when no tick elapsed.
    pub fn get_system_cpu_usage(&mut self, current: Option<SystemCpuSnapshot>) -> (r: u32)
        ensures
            r <= FULL_USAGE,
            final(self).seen_processes() == old(self).seen_processes(),
            match (old(self).previous_system(), current) {
                (Some(prev), Some(cur)) => {
                    &&& r as int == system_usage(prev, cur)
                    &&& final(self).cycle_ticks() == system_total_delta(prev, cur)
                },
                _ => r == 0 && final(self).cycle_ticks() == 0,
            },
            final(self).previous_system() == match current {
                Some(cur) => Some(cur),
                None => old(self).previous_system(),
            },
    {
        let cur = match current {
            Some(c) => c,
            None => {
                self.system_delta = 0;
                return 0;
            },
        };
        let prev = match self.prev_system {
            Some(p) => p,
            None => {
                self.prev_system = Some(cur);
                self.system_delta = 0;
                return 0;
            },
        };
        let kernel_delta = cur.kernel_time.saturating_sub(prev.kernel_time) as u128;
        let user_delta = cur.user_time.saturating_sub(prev.user_time) as u128;
        let idle_delta = cur.idle_time.saturating_sub(prev.idle_time) as u128;
        let total = kernel_delta + user_delta;
        let busy = if total >= idle_delta {
            total - idle_delta
        } else {
            0
        };
        self.prev_system = Some(cur);
        self.system_delta = total;
        if total == 0 {
            return 0;
        }
        let usage = busy * 10000 / total;
        assert(usage <= 10000) by (nonlinear_arith)
            requires
                usage as int == (busy as int) * 10000 / (total as int),
                busy <= total,
                total > 0,
        ;
        usage as u32
    }

    /// Records a fresh snapshot of process `pid` (`None` where it could not be
    /// read, which records a zero snapshot) and returns the share of the
    /// machine that the process used during the current cycle, in hundredths
    /// of a percent. A pid seen for the first time yields 0.
    pub fn get_process_cpu_usage(&mut self, pid: u32, current: Option<ProcessCpuSnapshot>) -> (r:
        u32)
        ensures
            r <= FULL_USAGE,
            !old(self).seen_processes().contains_key(pid) ==> r == 0,
            current is None ==> r == 0,
            old(self).seen_processes().contains_key(pid) && current is Some ==> r as int
                == process_usage(
                old(self).seen_processes()[pid],
                current->0,
                old(self).cycle_ticks(),
            ),
            old(self).seen_processes().contains_key(pid) && current is Some && process_ticks(
                old(self).seen_processes()[pid],
                current->0,
            ) > 0 && old(self).cycle_ticks() > 0 ==> r > 0,
            final(self).seen_processes() == old(self).seen_processes().insert(
                pid,
                match current {
                    Some(c) => c,
                    None => ProcessCpuSnapshot::zero_spec(),
                },
            ),
            final(self).previous_system() == old(self).previous_system(),
            final(self).cycle_ticks() == old(self).cycle_ticks(),
    {
        let prev = match self.prev_processes.get(&pid) {
            Some(p) => Some(*p),
            None => None,
        };
        let cur = match current {
            Some(c) => c,
            None => ProcessCpuSnapshot::zero(),
        };
        self.prev_processes.insert(pid, cur);
        let prev = match prev {
            Some(p) => p,
            None => return 0,
        };
        if current.is_none() || self.system_delta == 0 {
            return 0;
        }
        let cur_total = cur.kernel_time as u128 + cur.user_time as u128;
        let prev_total = prev.kernel_time as u128 + prev.user_time as u128;
        let used = if cur_total >= prev_total {
            cur_total - prev_total
        } else {
            0
        };
        let system_delta = self.system_delta;
        if used >= system_delta {
            assert((used as int * 10000) / (system_delta as int) >= 10000) by (nonlinear_arith)
                requires
                    used >= system_delta,
                    system_delta > 0,
            ;
            return 10000;
        }
        let scaled = used * 10000;
        let usage = scaled / system_delta + if scaled % system_delta > 0 {
            1
        } else {
            0
        };
        assert(usage <= 10000) by (nonlinear_arith)
            requires
                usage as int == scaled as int / system_delta as int + if scaled % system_delta > 0 {
                    1int
                } else {
                    0int
                },
                scaled == used * 10000,
                used < system_delta,
                system_delta > 0,
        ;
        assert(used > 0 ==> usage > 0) by (nonlinear_arith)
            requires
                usage as int == scaled as int / system_delta as int + if scaled % system_delta > 0 {
                    1int
                } else {
                    0int
                },
                scaled == used * 10000,
                system_delta > 0,
        ;
        usage as u32
    }

    /// Forgets the snapshots of processes that are not in `active_pids`.
    pub fn cleanup_stale_processes(&mut self, active_pids: &[u32])
        ensures
            forall|pid: u32| #[trigger]
                final(self).seen_processes().contains_key(pid) <==> old(self).seen_processes().contains_key(pid)
                    && active_pids@.contains(pid),
            forall|pid: u32| #[trigger]
                final(self).seen_processes().contains_key(pid) ==> final(self).seen_processes()[pid] == old(
                    self,
                ).seen_processes()[pid],
            final(self).previous_system() == old(self).previous_system(),
            final(self).cycle_ticks() == old(self).cycle_ticks(),
    {
        let mut kept: HashMap<u32, ProcessCpuSnapshot> = HashMap::new();
        let mut i: usize = 0;
        while i < active_pids.len()
            invariant
                i <= active_pids@.len(),
                forall|pid: u32| #[trigger]
                    kept@.contains_key(pid) <==> self.prev_processes@.contains_key(pid)
                        && active_pids@.subrange(0, i as int).contains(pid),
                forall|pid: u32| #[trigger]
                    kept@.contains_key(pid) ==> kept@[pid] == self.prev_processes@[pid],
            decreases active_pids@.len() - i,
        {
            let pid = active_pids[i];
            match self.prev_processes.get(&pid) {
                Some(s) => {
                    kept.insert(pid, *s);
                },
                None => {},
            }
            assert forall|p: u32|
                active_pids@.subrange(0, i + 1).contains(p) <==> (active_pids@.subrange(
                    0,
                    i as int,
                ).contains(p) || p == pid) by {
                if active_pids@.subrange(0, i + 1).contains(p) {
                    let j = choose|j: int|
                        0 <= j < i + 1 && #[trigger] active_pids@.subrange(0, i + 1)[j] == p;
                    if j < i {
                        assert(active_pids@.subrange(0, i as int)[j] == p);
                    }
                }
                if p == pid {
                    assert(active_pids@.subrange(0, i + 1)[i as int] == p);
                }
                if active_pids@.subrange(0, i as int).contains(p) {
                    let j = choose|j: int|
                        0 <= j < i && #[trigger] active_pids@.subrange(0, i as int)[j] == p;
                    assert(active_pids@.subrange(0, i + 1)[j] == p);
                }
            }
            i += 1;
        }
        assert(active_pids@.subrange(0, active_pids@.len() as int) == active_pids@);
        self.prev_processes = kept;
    }
}

impl ProcessCpuSnapshot {
    /// The snapshot `zero` returns.
    pub open spec fn zero_spec() -> ProcessCpuSnapshot {
        ProcessCpuSnapshot { kernel_time: 0, user_time: 0 }
    }
}

} // verus!
