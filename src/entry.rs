use crate::priority::Priority;
use vstd::prelude::*;

verus! {

/// Identity of a process as the enumeration provider reports it.
#[derive(Debug, Clone)]
pub struct ProcessInfo {
    pub pid: u32,
    pub parent_pid: u32,
    pub thread_count: u32,
    pub base_priority: i32,
    pub name: String,
}

impl ProcessInfo {
    /// A copy of this record, field for field.
    pub fn duplicate(&self) -> (r: ProcessInfo)
        ensures
            r == *self,
    {
        ProcessInfo {
            pid: self.pid,
            parent_pid: self.parent_pid,
            thread_count: self.thread_count,
            base_priority: self.base_priority,
            name: self.name.clone(),
        }
    }
}

/// A process record together with the figures derived for it in one
/// refresh cycle.
#[derive(Debug, Clone)]
pub struct ProcessEntry {
    pub info: ProcessInfo,
    /// Share of the whole machine's CPU time, in hundredths of a percent.
    pub cpu_usage: u32,
    /// Working set in bytes.
    pub memory_bytes: u64,
    /// Cumulative bytes read since the process started.
    pub disk_read: u64,
    /// Cumulative bytes written since the process started.
    pub disk_write: u64,
    /// Bytes read per second during the last cycle.
    pub disk_read_rate: u64,
    /// Bytes written per second during the last cycle.
    pub disk_write_rate: u64,
    pub priority: Priority,
    pub thread_count: u32,
    /// Creation time, in 100 ns ticks since 1601, where it could be read.
    pub start_time: Option<u64>,
    pub uptime_seconds: u64,
    /// Full executable path, absent where access was denied.
    pub path: Option<String>,
    pub handle_count: u32,
    /// Depth in the tree view; 0 in the flat view.
    pub tree_depth: usize,
}

impl ProcessEntry {
    /// A copy of this entry, field for field.
    pub fn duplicate(&self) -> (r: ProcessEntry)
        ensures
            r == *self,
    {
        let path = match &self.path {
            Some(p) => Some(p.clone()),
            None => None,
        };
        ProcessEntry {
            info: self.info.duplicate(),
            cpu_usage: self.cpu_usage,
            memory_bytes: self.memory_bytes,
            disk_read: self.disk_read,
            disk_write: self.disk_write,
            disk_read_rate: self.disk_read_rate,
            disk_write_rate: self.disk_write_rate,
            priority: self.priority,
            thread_count: self.thread_count,
            start_time: self.start_time,
            uptime_seconds: self.uptime_seconds,
            path,
            handle_count: self.handle_count,
            tree_depth: self.tree_depth,
        }
    }

    /// This entry with its tree depth replaced.
    pub open spec fn at_depth(self, depth: usize) -> ProcessEntry {
        ProcessEntry { tree_depth: depth, ..self }
    }
}

/// No two entries share a pid.
pub open spec fn unique_pids(s: Seq<ProcessEntry>) -> bool {
    forall|i: int, j: int|
        0 <= i < s.len() && 0 <= j < s.len() && i != j ==> #[trigger] s[i].info.pid
            != #[trigger] s[j].info.pid
}

/// Every entry is at tree depth 0.
pub open spec fn all_flat(s: Seq<ProcessEntry>) -> bool {
    forall|k: int| 0 <= k < s.len() ==> #[trigger] s[k].tree_depth == 0
}

/// Reordering keeps every entry at depth 0.
pub proof fn lemma_flat_perm(a: Seq<ProcessEntry>, b: Seq<ProcessEntry>)
    requires
        a.to_multiset() == b.to_multiset(),
        all_flat(a),
    ensures
        all_flat(b),
{
    assert forall|k: int| 0 <= k < b.len() implies #[trigger] b[k].tree_depth == 0 by {
        vstd::seq_lib::to_multiset_contains(b, b[k]);
        vstd::seq_lib::to_multiset_contains(a, b[k]);
        assert(b.contains(b[k]));
        let j = choose|j: int| 0 <= j < a.len() && a[j] == b[k];
    }
}

/// Whether some entry has pid `pid`.
pub fn contains_pid(entries: &Vec<ProcessEntry>, pid: u32) -> (r: bool)
    ensures
        r == exists|k: int| 0 <= k < entries@.len() && #[trigger] entries@[k].info.pid == pid,
{
    let mut k: usize = 0;
    while k < entries.len()
        invariant
            k <= entries@.len(),
            forall|j: int| 0 <= j < k ==> #[trigger] entries@[j].info.pid != pid,
        decreases entries@.len() - k,
    {
        if entries[k].info.pid == pid {
            return true;
        }
        k += 1;
    }
    false
}

/// A copy of every entry, in order.
pub fn duplicate_all(entries: &Vec<ProcessEntry>) -> (r: Vec<ProcessEntry>)
    ensures
        r@ == entries@,
{
    let mut r: Vec<ProcessEntry> = Vec::new();
    let mut i: usize = 0;
    while i < entries.len()
        invariant
            i <= entries@.len(),
            r@ == entries@.subrange(0, i as int),
        decreases entries@.len() - i,
    {
        r.push(entries[i].duplicate());
        i += 1;
    }
    assert(entries@.subrange(0, entries@.len() as int) == entries@);
    r
}

} // verus!
