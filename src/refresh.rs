use crate::cpu::{
    process_usage, system_total_delta, system_usage, ProcessCpuSnapshot, SystemCpuSnapshot,
    FULL_USAGE,
};
use crate::entry::{all_flat, contains_pid, ProcessEntry};
use crate::sample::{
    compute_disk_rate, disk_rate, entry_of, uptime_seconds_between, DiskIoSnapshot, ProcessSample,
};
use crate::sort::sorted_by;
use crate::state::{App, StatusMessage};
use crate::view_mode::ViewMode;
use std::collections::HashMap;
use vstd::prelude::*;

verus! {

broadcast use vstd::std_specs::hash::group_hash_axioms;

/// Some sample among the first `n` has pid `pid`.
pub open spec fn pid_among(samples: Seq<ProcessSample>, n: int, pid: u32) -> bool {
    exists|j: int| 0 <= j < n && #[trigger] samples[j].info.pid == pid
}

/// No two samples share a pid.
pub open spec fn unique_sample_pids(samples: Seq<ProcessSample>) -> bool {
    forall|i: int, j: int|
        0 <= i < samples.len() && 0 <= j < samples.len() && i != j ==> #[trigger] samples[i].info.pid
            != #[trigger] samples[j].info.pid
}

/// The CPU figure a sample gets against the tracker state before the refresh.
pub open spec fn expected_cpu(
    seen: Map<u32, ProcessCpuSnapshot>,
    ticks: int,
    s: ProcessSample,
) -> int {
    if seen.contains_key(s.info.pid) && s.cpu is Some {
        process_usage(seen[s.info.pid], s.cpu->0, ticks)
    } else {
        0
    }
}

/// The previous disk counters kept for `pid`, if any.
pub open spec fn prev_disk(m: Map<u32, DiskIoSnapshot>, pid: u32, read: bool) -> Option<u64> {
    if m.contains_key(pid) {
        Some(
            if read {
                m[pid].read_bytes
            } else {
                m[pid].write_bytes
            },
        )
    } else {
        None
    }
}

/// `built` holds one entry per sample, in order, with CPU figures within
/// range and disk rates from the previous disk counters; where pids are
/// unique, each CPU figure is the one the tracker gives.
pub open spec fn refreshed_entries(
    seen: Map<u32, ProcessCpuSnapshot>,
    ticks: int,
    disk: Map<u32, DiskIoSnapshot>,
    samples: Seq<ProcessSample>,
    elapsed_ms: u64,
    now: u64,
    built: Seq<ProcessEntry>,
) -> bool {
    &&& built.len() == samples.len()
    &&& forall|i: int|
        0 <= i < built.len() ==> #[trigger] built[i] == entry_of(
            samples[i],
            built[i].cpu_usage,
            built[i].disk_read_rate,
            built[i].disk_write_rate,
            now,
        ) && built[i].cpu_usage <= FULL_USAGE
    &&& unique_sample_pids(samples) ==> forall|i: int|
        0 <= i < built.len() ==> #[trigger] built[i].cpu_usage as int == expected_cpu(
            seen,
            ticks,
            samples[i],
        )
    &&& forall|i: int|
        0 <= i < built.len() ==> {
            &&& #[trigger] built[i].disk_read_rate as int == disk_rate(
                prev_disk(disk, samples[i].info.pid, true),
                samples[i].disk_read_bytes,
                elapsed_ms,
            )
            &&& built[i].disk_write_rate as int == disk_rate(
                prev_disk(disk, samples[i].info.pid, false),
                samples[i].disk_write_bytes,
                elapsed_ms,
            )
        }
}

/// The disk counters kept after a refresh: one per sampled pid.
pub open spec fn disk_kept(samples: Seq<ProcessSample>, m: Map<u32, DiskIoSnapshot>) -> bool {
    &&& forall|p: u32| #[trigger] m.contains_key(p) <==> pid_among(samples, samples.len() as int, p)
    &&& unique_sample_pids(samples) ==> forall|j: int|
        0 <= j < samples.len() ==> m[#[trigger] samples[j].info.pid] == (DiskIoSnapshot {
            read_bytes: samples[j].disk_read_bytes,
            write_bytes: samples[j].disk_write_bytes,
        })
}

impl App {
    fn build_entries(&mut self, samples: &Vec<ProcessSample>, elapsed_ms: u64, now: u64) -> (r: (
        Vec<ProcessEntry>,
        HashMap<u32, DiskIoSnapshot>,
    ))
        ensures
            refreshed_entries(
                old(self).cpu_tracker.seen_processes(),
                old(self).cpu_tracker.cycle_ticks(),
                old(self).previous_disk(),
                samples@,
                elapsed_ms,
                now,
                r.0@,
            ),
            disk_kept(samples@, r.1@),
            final(self).cpu_tracker.cycle_ticks() == old(self).cpu_tracker.cycle_ticks(),
            final(self).cpu_tracker.previous_system() == old(self).cpu_tracker.previous_system(),
            final(self).processes == old(self).processes,
            final(self).filtered_processes == old(self).filtered_processes,
            final(self).prev_disk_io == old(self).prev_disk_io,
            final(self).selected_index == old(self).selected_index,
            final(self).scroll_offset == old(self).scroll_offset,
            final(self).system_cpu == old(self).system_cpu,
            final(self).error_message == old(self).error_message,
            final(self).sort_column == old(self).sort_column,
            final(self).sort_ascending == old(self).sort_ascending,
            final(self).filter == old(self).filter,
            final(self).view_mode == old(self).view_mode,
            final(self).pending_kill == old(self).pending_kill,
            final(self).refresh_interval_ms == old(self).refresh_interval_ms,
            final(self).detail_view_pid == old(self).detail_view_pid,
            final(self).detail_view_name == old(self).detail_view_name,
            final(self).detail_scroll_offset == old(self).detail_scroll_offset,
            final(self).tree_view_mode == old(self).tree_view_mode,
            final(self).affinity == old(self).affinity,
            final(self).help_scroll_offset == old(self).help_scroll_offset,
            final(self).suspended == old(self).suspended,
            final(self).pending_control == old(self).pending_control,
    {
        let ghost tracker0 = self.cpu_tracker;
        let mut entries: Vec<ProcessEntry> = Vec::new();
        let mut disk: HashMap<u32, DiskIoSnapshot> = HashMap::new();
        let mut i: usize = 0;
        while i < samples.len()
            invariant
                i <= samples@.len(),
                entries@.len() == i,
                self.cpu_tracker.cycle_ticks() == tracker0.cycle_ticks(),
                self.cpu_tracker.previous_system() == tracker0.previous_system(),
                self.prev_disk_io == old(self).prev_disk_io,
                self.processes == old(self).processes,
                self.filtered_processes == old(self).filtered_processes,
                self.selected_index == old(self).selected_index,
                self.scroll_offset == old(self).scroll_offset,
                self.system_cpu == old(self).system_cpu,
                self.error_message == old(self).error_message,
                self.sort_column == old(self).sort_column,
                self.sort_ascending == old(self).sort_ascending,
                self.filter == old(self).filter,
                self.view_mode == old(self).view_mode,
                self.pending_kill == old(self).pending_kill,
                self.refresh_interval_ms == old(self).refresh_interval_ms,
                self.detail_view_pid == old(self).detail_view_pid,
                self.detail_view_name == old(self).detail_view_name,
                self.detail_scroll_offset == old(self).detail_scroll_offset,
                self.tree_view_mode == old(self).tree_view_mode,
                self.affinity == old(self).affinity,
                self.help_scroll_offset == old(self).help_scroll_offset,
                self.suspended == old(self).suspended,
                self.pending_control == old(self).pending_control,
                tracker0 == old(self).cpu_tracker,
                forall|p: u32|
                    !pid_among(samples@, i as int, p) ==> (#[trigger] self.cpu_tracker.seen_processes().contains_key(p)
                        == tracker0.seen_processes().contains_key(p)) && (
                    self.cpu_tracker.seen_processes().contains_key(p) ==> self.cpu_tracker.seen_processes()[p]
                        == tracker0.seen_processes()[p]),
                forall|p: u32| #[trigger] disk@.contains_key(p) <==> pid_among(samples@, i as int, p),
                unique_sample_pids(samples@) ==> forall|j: int|
                    0 <= j < i ==> disk@[#[trigger] samples@[j].info.pid] == (DiskIoSnapshot {
                        read_bytes: samples@[j].disk_read_bytes,
                        write_bytes: samples@[j].disk_write_bytes,
                    }),
                forall|j: int|
                    0 <= j < i ==> #[trigger] entries@[j] == entry_of(
                        samples@[j],
                        entries@[j].cpu_usage,
                        entries@[j].disk_read_rate,
                        entries@[j].disk_write_rate,
                        now,
                    ) && entries@[j].cpu_usage <= FULL_USAGE,
                unique_sample_pids(samples@) ==> forall|j: int|
                    0 <= j < i ==> #[trigger] entries@[j].cpu_usage as int == expected_cpu(
                        tracker0.seen_processes(),
                        tracker0.cycle_ticks(),
                        samples@[j],
                    ),
                forall|j: int|
                    0 <= j < i ==> {
                        &&& #[trigger] entries@[j].disk_read_rate as int == disk_rate(
                            prev_disk(old(self).prev_disk_io@, samples@[j].info.pid, true),
                            samples@[j].disk_read_bytes,
                            elapsed_ms,
                        )
                        &&& entries@[j].disk_write_rate as int == disk_rate(
                            prev_disk(old(self).prev_disk_io@, samples@[j].info.pid, false),
                            samples@[j].disk_write_bytes,
                            elapsed_ms,
                        )
                    },
            decreases samples@.len() - i,
        {
            let s = &samples[i];
            let pid = s.info.pid;
            proof {
                if unique_sample_pids(samples@) {
                    assert(!pid_among(samples@, i as int, pid)) by {
                        if pid_among(samples@, i as int, pid) {
                            let j = choose|j: int| 0 <= j < i && #[trigger] samples@[j].info.pid == pid;
                            assert(samples@[j].info.pid != samples@[i as int].info.pid);
                        }
                    }
                }
            }
            let ghost pre = self.cpu_tracker;
            let cpu_usage = self.cpu_tracker.get_process_cpu_usage(pid, s.cpu);
            proof {
                if unique_sample_pids(samples@) {
                    assert(pre.seen_processes().contains_key(pid) == tracker0.seen_processes().contains_key(pid));
                    assert(cpu_usage as int == expected_cpu(
                        tracker0.seen_processes(),
                        tracker0.cycle_ticks(),
                        samples@[i as int],
                    ));
                }
            }
            let (prev_read, prev_write) = match self.prev_disk_io.get(&pid) {
                Some(p) => (Some(p.read_bytes), Some(p.write_bytes)),
                None => (None, None),
            };
            let read_rate = compute_disk_rate(prev_read, s.disk_read_bytes, elapsed_ms);
            let write_rate = compute_disk_rate(prev_write, s.disk_write_bytes, elapsed_ms);
            let uptime_seconds = match s.start_time {
                Some(st) => uptime_seconds_between(now, st),
                None => 0,
            };
            let path = match &s.path {
                Some(p) => Some(p.clone()),
                None => None,
            };
            let entry = ProcessEntry {
                info: s.info.duplicate(),
                cpu_usage,
                memory_bytes: s.memory_bytes,
                disk_read: s.disk_read_bytes,
                disk_write: s.disk_write_bytes,
                disk_read_rate: read_rate,
                disk_write_rate: write_rate,
                priority: s.priority,
                thread_count: s.info.thread_count,
                start_time: s.start_time,
                uptime_seconds,
                path,
                handle_count: s.handle_count,
                tree_depth: 0,
            };
            let ghost disk_before = disk@;
            disk.insert(
                pid,
                DiskIoSnapshot { read_bytes: s.disk_read_bytes, write_bytes: s.disk_write_bytes },
            );
            entries.push(entry);
            proof {
                assert forall|p: u32|
                    pid_among(samples@, i + 1, p) <==> (pid_among(samples@, i as int, p) || p
                        == pid) by {
                    if pid_among(samples@, i + 1, p) {
                        let j = choose|j: int| 0 <= j < i + 1 && #[trigger] samples@[j].info.pid == p;
                        if j < i {
                            assert(pid_among(samples@, i as int, p));
                        }
                    }
                    if p == pid {
                        assert(samples@[i as int].info.pid == p);
                    }
                    if pid_among(samples@, i as int, p) {
                        let j = choose|j: int| 0 <= j < i && #[trigger] samples@[j].info.pid == p;
                        assert(samples@[j].info.pid == p);
                    }
                }
                if unique_sample_pids(samples@) {
                    assert forall|j: int| 0 <= j < i + 1 implies disk@[#[trigger] samples@[j].info.pid]
                        == (DiskIoSnapshot {
                        read_bytes: samples@[j].disk_read_bytes,
                        write_bytes: samples@[j].disk_write_bytes,
                    }) by {
                        if j < i {
                            assert(samples@[j].info.pid != samples@[i as int].info.pid);
                        }
                    }
                }
                assert(entries@[i as int] == entry);
            }
            i += 1;
        }
        (entries, disk)
    }
}


/// What a refresh does to the detail view: when the viewed process is not
/// among `entries`, the detail view (and the affinity editor over it)
/// closes back to the process list and `ProcessGone` is reported;
/// otherwise the mode, the detail view and the status line stay as they were.
pub open spec fn detail_follows(before: App, after: App, entries: Seq<ProcessEntry>) -> bool {
    if before.detail_view_pid is Some && !(exists|k: int|
        0 <= k < entries.len() && #[trigger] entries[k].info.pid == before.detail_view_pid->0) {
        &&& after.view_mode == ViewMode::ProcessList
        &&& after.detail_view_pid is None
        &&& after.detail_view_name is None
        &&& after.detail_scroll_offset == 0
        &&& after.affinity is None
        &&& after.error_message == Some(StatusMessage::ProcessGone)
    } else {
        &&& after.view_mode == before.view_mode
        &&& after.detail_view_pid == before.detail_view_pid
        &&& after.detail_view_name == before.detail_view_name
        &&& after.detail_scroll_offset == before.detail_scroll_offset
        &&& after.affinity == before.affinity
        &&& after.error_message == before.error_message
    }
}

impl App {
    /// One refresh cycle. `system` is the machine's CPU counters (absent
    /// where unreadable), `samples` the enumeration with each process's
    /// readings, or why enumeration failed, `elapsed_ms` the time
    /// since the previous cycle and `now` the clock in ticks since 1601.
    ///
    /// The system figure is always updated. A failed enumeration reports
    /// `EnumerationFailed` with its reason and leaves the entries as they were. Otherwise the
    /// entries are rebuilt from the samples, disk counters are kept for the
    /// next cycle, the CPU tracker forgets pids that are gone, the entries
    /// are sorted and the displayed list rebuilt, and a detail view whose
    /// process vanished is closed.
    pub fn refresh(
        &mut self,
        elapsed_ms: u64,
        now: u64,
        system: Option<SystemCpuSnapshot>,
        samples: Result<Vec<ProcessSample>, String>,
    )
        requires
            old(self).wf(),
        ensures
            final(self).wf(),
            final(self).system_cpu <= FULL_USAGE,
            match (old(self).cpu_tracker.previous_system(), system) {
                (Some(prev), Some(cur)) => final(self).system_cpu as int == system_usage(prev, cur),
                _ => final(self).system_cpu == 0,
            },
            match (old(self).cpu_tracker.previous_system(), system) {
                (Some(prev), Some(cur)) => final(self).cpu_tracker.cycle_ticks()
                    == system_total_delta(prev, cur),
                _ => final(self).cpu_tracker.cycle_ticks() == 0,
            },
            samples is Err ==> {
                &&& final(self).error_message == Some(
                    StatusMessage::EnumerationFailed { reason: samples->Err_0 },
                )
                &&& final(self).processes == old(self).processes
                &&& final(self).filtered_processes == old(self).filtered_processes
                &&& final(self).selected_index == old(self).selected_index
                &&& final(self).previous_disk() == old(self).previous_disk()
                &&& final(self).cpu_tracker.seen_processes() == old(self).cpu_tracker.seen_processes()
                &&& final(self).view_mode == old(self).view_mode
                &&& final(self).detail_view_pid == old(self).detail_view_pid
            },
            samples is Ok ==> {
                let ss = samples->Ok_0@;
                &&& exists|built: Seq<ProcessEntry>|
                    refreshed_entries(
                        old(self).cpu_tracker.seen_processes(),
                        final(self).cpu_tracker.cycle_ticks(),
                        old(self).previous_disk(),
                        ss,
                        elapsed_ms,
                        now,
                        built,
                    ) && final(self).processes@.to_multiset() == built.to_multiset()
                &&& sorted_by(final(self).sort_column, final(self).sort_ascending, final(self).processes@)
                &&& final(self).display_current()
                &&& disk_kept(ss, final(self).previous_disk())
                &&& forall|p: u32| #[trigger] final(self).cpu_tracker.seen_processes().contains_key(p)
                    ==> pid_among(ss, ss.len() as int, p)
                &&& detail_follows(*old(self), *final(self), final(self).processes@)
            },
            final(self).sort_column == old(self).sort_column,
            final(self).sort_ascending == old(self).sort_ascending,
            final(self).filter == old(self).filter,
            final(self).tree_view_mode == old(self).tree_view_mode,
            final(self).suspended@ == old(self).suspended@,
            final(self).pending_control == old(self).pending_control,
    {
        self.system_cpu = self.cpu_tracker.get_system_cpu_usage(system);
        let samples = match samples {
            Ok(s) => s,
            Err(reason) => {
                self.error_message = Some(StatusMessage::EnumerationFailed { reason });
                return;
            },
        };
        let (entries, disk) = self.build_entries(&samples, elapsed_ms, now);
        let ghost built = entries@;
        self.processes = entries;
        self.prev_disk_io = disk;
        assert(all_flat(self.processes@));
        self.sort_processes();
        self.apply_filter();
        let mut active: Vec<u32> = Vec::new();
        let mut i: usize = 0;
        while i < samples.len()
            invariant
                i <= samples@.len(),
                active@.len() == i,
                forall|j: int| 0 <= j < i ==> #[trigger] active@[j] == samples@[j].info.pid,
            decreases samples@.len() - i,
        {
            active.push(samples[i].info.pid);
            i += 1;
        }
        self.cpu_tracker.cleanup_stale_processes(active.as_slice());
        proof {
            assert forall|p: u32| #[trigger] self.cpu_tracker.seen_processes().contains_key(p)
                implies pid_among(samples@, samples@.len() as int, p) by {
                assert(active@.contains(p));
                let j = choose|j: int| 0 <= j < active@.len() && active@[j] == p;
                assert(samples@[j].info.pid == p);
            }
        }
        self.close_vanished_detail();
        proof {
            assert(self.processes@.to_multiset() == built.to_multiset());
            assert(refreshed_entries(
                old(self).cpu_tracker.seen_processes(),
                self.cpu_tracker.cycle_ticks(),
                old(self).previous_disk(),
                samples@,
                elapsed_ms,
                now,
                built,
            ));
        }
    }

    /// Leaves the detail view (and the affinity editor over it) when its
    /// process is no longer among the entries.
    fn close_vanished_detail(&mut self)
        requires
            old(self).wf(),
        ensures
            final(self).wf(),
            final(self).processes == old(self).processes,
            final(self).filtered_processes == old(self).filtered_processes,
            final(self).selected_index == old(self).selected_index,
            final(self).cpu_tracker == old(self).cpu_tracker,
            final(self).prev_disk_io == old(self).prev_disk_io,
            final(self).system_cpu == old(self).system_cpu,
            final(self).sort_column == old(self).sort_column,
            final(self).sort_ascending == old(self).sort_ascending,
            final(self).filter == old(self).filter,
            final(self).tree_view_mode == old(self).tree_view_mode,
            final(self).suspended == old(self).suspended,
            final(self).pending_control == old(self).pending_control,
            detail_follows(*old(self), *final(self), old(self).processes@),
    {
        let pid = match self.detail_view_pid {
            Some(p) => p,
            None => return,
        };
        if contains_pid(&self.processes, pid) {
            return;
        }
        self.error_message = Some(StatusMessage::ProcessGone);
        self.view_mode = ViewMode::ProcessList;
        self.detail_view_pid = None;
        self.detail_view_name = None;
        self.detail_scroll_offset = 0;
        self.affinity = None;
        self.pending_kill = None;
    }
}

} // verus!
