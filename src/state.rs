use crate::affinity::AffinityEditState;
use crate::cli::{Args, DEFAULT_REFRESH_MS};
use crate::cpu::CpuTracker;
use crate::entry::{all_flat, lemma_flat_perm, unique_pids, ProcessEntry};
use crate::error::{AffinityError, PriorityError, ProcessError};
use crate::priority::Priority;
use crate::sample::DiskIoSnapshot;
use crate::sort::{lemma_toggle_direction_twice, sort_entries, sorted_by, spec_next, SortColumn};
use crate::suspend::{init_suspended_pids, SuspendedPids};
use crate::tree::{
    build_process_tree, filter_entries, filtered, flatten_depths, is_root, siblings_in_order,
    subtree_complete, tree_shaped,
};
use crate::view_mode::ViewMode;
use std::collections::HashMap;
use vstd::prelude::*;

verus! {

broadcast use vstd::std_specs::hash::group_hash_axioms;

/// The status line: the latest report for the operator.
#[derive(Debug, Clone)]
#[allow(inconsistent_fields)]
pub enum StatusMessage {
    /// The process list could not be enumerated; the previous list stays.
    EnumerationFailed { reason: String },
    /// Asks the operator to confirm killing a process.
    KillPrompt { name: String, pid: u32 },
    Terminated { name: String, pid: u32 },
    TerminateFailed { name: String, pid: u32, error: ProcessError },
    /// The process is already at the highest priority; nothing was changed.
    AlreadyAtMaximum { name: String },
    /// The process is already at the lowest priority; nothing was changed.
    AlreadyAtMinimum { name: String },
    PriorityChanged { name: String, from: Priority, to: Priority },
    PriorityFailed { raising: bool, error: PriorityError },
    Suspended { name: String, pid: u32 },
    Resumed { name: String, pid: u32 },
    SuspendFailed { error: ProcessError },
    /// The affinity of the process could not be read.
    AffinityUnreadable,
    /// Toggling would have left no core selected; the core stays selected.
    LastCoreKept,
    AffinitySet { cores: u32 },
    AffinityFailed { error: AffinityError },
    /// The process in detail view is gone.
    ProcessGone,
    Exported { count: usize, path: String },
    ExportFailed { reason: String },
}

/// A provider call that the engine asks its caller to perform.
#[derive(Debug, Clone, Copy, PartialEq, Eq, Structural)]
pub enum ControlRequest {
    Terminate { pid: u32 },
    Suspend { pid: u32 },
    Resume { pid: u32 },
    /// `raising` tells a step up from a step down.
    SetPriority { pid: u32, from: Priority, to: Priority, raising: bool },
    SetAffinity { pid: u32, mask: u64 },
}

/// A provider call handed out and not yet answered, with the name of its target.
#[derive(Debug, Clone)]
pub struct PendingControl {
    pub request: ControlRequest,
    pub name: String,
}

/// The target of a kill awaiting confirmation.
#[derive(Debug, Clone)]
pub struct PendingKill {
    pub pid: u32,
    pub name: String,
}

/// `i` moved into `0..len` (0 for an empty list).
pub open spec fn clamp_index(i: usize, len: nat) -> usize {
    if i < len {
        i
    } else if len == 0 {
        0
    } else {
        (len - 1) as usize
    }
}

/// `shown` is what the list view shows of `source`: in tree mode a tree
/// listing holding every root and, below the depth cap, every child of each
/// row, with roots and siblings in name order; otherwise the entries at
/// depth 0, in order.
pub open spec fn displays(tree: bool, source: Seq<ProcessEntry>, shown: Seq<ProcessEntry>) -> bool {
    if tree {
        &&& tree_shaped(source, shown)
        &&& forall|k: int| 0 <= k < shown.len() ==> subtree_complete(source, shown, k)
        &&& siblings_in_order(shown, 0, shown.len() as int)
        &&& forall|i: int|
            0 <= i < source.len() && is_root(source, #[trigger] source[i]) ==> exists|k: int|
                0 <= k < shown.len() && shown[k] == source[i].at_depth(0)
    } else {
        &&& shown.len() == source.len()
        &&& forall|k: int| 0 <= k < shown.len() ==> #[trigger] shown[k] == source[k].at_depth(0)
    }
}

/// The entry under the selection, if the displayed list has one there.
pub open spec fn selected_entry(app: App) -> Option<ProcessEntry> {
    if app.selected_index < app.filtered_processes@.len() {
        Some(app.filtered_processes@[app.selected_index as int])
    } else {
        None
    }
}

/// The engine: process entries, their ordering and filtering, the view
/// modes and the bookkeeping of control operations.
pub struct App {
    /// Every entry of the last refresh, in sort order.
    pub processes: Vec<ProcessEntry>,
    /// The displayed list: the filtered entries, flat or as a tree.
    pub filtered_processes: Vec<ProcessEntry>,
    pub cpu_tracker: CpuTracker,
    pub selected_index: usize,
    pub scroll_offset: usize,
    /// Busy share of the machine, in hundredths of a percent.
    pub system_cpu: u32,
    /// Latest status report; cleared on the next key press.
    pub error_message: Option<StatusMessage>,
    pub sort_column: SortColumn,
    /// Reverses the column's own order.
    pub sort_ascending: bool,
    pub filter: String,
    pub view_mode: ViewMode,
    /// Present exactly while a kill awaits confirmation.
    pub pending_kill: Option<PendingKill>,
    /// Disk counters of the previous refresh, by pid.
    pub prev_disk_io: HashMap<u32, DiskIoSnapshot>,
    pub refresh_interval_ms: u64,
    /// The process in detail view (also while its affinity is edited).
    pub detail_view_pid: Option<u32>,
    pub detail_view_name: Option<String>,
    pub detail_scroll_offset: usize,
    pub tree_view_mode: bool,
    /// Present exactly while the affinity editor is open.
    pub affinity: Option<AffinityEditState>,
    pub help_scroll_offset: usize,
    /// The pids this engine has suspended.
    pub suspended: SuspendedPids,
    /// The provider call handed out and not yet answered.
    pub pending_control: Option<PendingControl>,
}

impl App {
    /// The disk counters kept from the previous refresh, by pid.
    pub open spec fn previous_disk(&self) -> Map<u32, DiskIoSnapshot> {
        self.prev_disk_io@
    }

    /// The per-mode state matches the active mode, and the selection lies
    /// within the displayed list.
    pub open spec fn wf(&self) -> bool {
        &&& (self.view_mode == ViewMode::ConfirmKill) == (self.pending_kill is Some)
        &&& (self.view_mode == ViewMode::Affinity) == (self.affinity is Some)
        &&& (self.view_mode == ViewMode::DetailView || self.view_mode == ViewMode::Affinity) == (
        self.detail_view_pid is Some)
        &&& self.detail_view_pid is Some == self.detail_view_name is Some
        &&& self.affinity is Some ==> self.affinity->0.wf()
        &&& self.selected_index == clamp_index(self.selected_index, self.filtered_processes@.len())
        &&& all_flat(self.processes@)
    }

    /// The displayed list follows from the entries, the filter and the tree flag.
    pub open spec fn display_current(&self) -> bool {
        displays(
            self.tree_view_mode,
            filtered(self.filter@, self.processes@),
            self.filtered_processes@,
        )
    }

    /// A fresh engine with the default configuration and nothing sampled yet.
    pub fn new() -> (r: App)
        ensures
            r.wf(),
            r.display_current(),
            r.processes@.len() == 0,
            r.view_mode == ViewMode::ProcessList,
            r.sort_column == SortColumn::Cpu,
            !r.sort_ascending,
            !r.tree_view_mode,
            r.filter@.len() == 0,
            r.refresh_interval_ms == DEFAULT_REFRESH_MS,
            r.suspended@ == Set::<u32>::empty(),
            r.cpu_tracker.seen_processes() == Map::<u32, crate::cpu::ProcessCpuSnapshot>::empty(),
            r.previous_disk() == Map::<u32, DiskIoSnapshot>::empty(),
            r.error_message is None,
            r.pending_control is None,
    {
        App {
            processes: Vec::new(),
            filtered_processes: Vec::new(),
            cpu_tracker: CpuTracker::new(),
            selected_index: 0,
            scroll_offset: 0,
            system_cpu: 0,
            error_message: None,
            sort_column: SortColumn::Cpu,
            sort_ascending: false,
            filter: String::new(),
            view_mode: ViewMode::initial(),
            pending_kill: None,
            prev_disk_io: HashMap::new(),
            refresh_interval_ms: DEFAULT_REFRESH_MS,
            detail_view_pid: None,
            detail_view_name: None,
            detail_scroll_offset: 0,
            tree_view_mode: false,
            affinity: None,
            help_scroll_offset: 0,
            suspended: init_suspended_pids(),
            pending_control: None,
        }
    }

    /// A fresh engine configured from start-up options.
    pub fn with_args(args: &Args) -> (r: App)
        ensures
            r.wf(),
            r.display_current(),
            r.refresh_interval_ms == args.refresh,
            r.sort_column == args.sort,
            r.sort_ascending == args.ascending,
            r.tree_view_mode == args.tree,
            r.filter@ == match args.filter {
                Some(f) => f@,
                None => Seq::<char>::empty(),
            },
            r.view_mode == ViewMode::ProcessList,
            r.processes@.len() == 0,
    {
        let mut app = App::new();
        app.refresh_interval_ms = args.refresh;
        app.sort_column = args.sort;
        app.sort_ascending = args.ascending;
        app.tree_view_mode = args.tree;
        match &args.filter {
            Some(f) => {
                app.filter = f.clone();
            },
            None => {},
        }
        app
    }

    /// Rebuilds the displayed list from the entries, the filter and the tree
    /// flag, and brings the selection back into range.
    pub fn apply_filter(&mut self)
        ensures
            final(self).display_current(),
            old(self).filter@.len() == 0 && !old(self).tree_view_mode && all_flat(old(self).processes@)
                ==> final(self).filtered_processes@ == final(self).processes@,
            final(self).selected_index == clamp_index(
                old(self).selected_index,
                final(self).filtered_processes@.len(),
            ),
            final(self).processes == old(self).processes,
            final(self).filter == old(self).filter,
            final(self).tree_view_mode == old(self).tree_view_mode,
            final(self).view_mode == old(self).view_mode,
            final(self).pending_kill == old(self).pending_kill,
            final(self).affinity == old(self).affinity,
            final(self).detail_view_pid == old(self).detail_view_pid,
            final(self).detail_view_name == old(self).detail_view_name,
            final(self).sort_column == old(self).sort_column,
            final(self).sort_ascending == old(self).sort_ascending,
            final(self).suspended@ == old(self).suspended@,
            final(self).pending_control == old(self).pending_control,
            final(self).error_message == old(self).error_message,
            final(self).cpu_tracker == old(self).cpu_tracker,
            final(self).previous_disk() == old(self).previous_disk(),
            final(self).refresh_interval_ms == old(self).refresh_interval_ms,
            final(self).scroll_offset == old(self).scroll_offset,
            final(self).system_cpu == old(self).system_cpu,
            final(self).detail_scroll_offset == old(self).detail_scroll_offset,
            final(self).help_scroll_offset == old(self).help_scroll_offset,
    {
        let f = filter_entries(&self.processes, self.filter.as_str());
        if self.tree_view_mode {
            self.filtered_processes = build_process_tree(&f);
        } else {
            let mut flat = f;
            flatten_depths(&mut flat);
            self.filtered_processes = flat;
            proof {
                if self.filter@.len() == 0 && all_flat(self.processes@) {
                    assert(f@ == self.processes@);
                    assert forall|k: int| 0 <= k < self.processes@.len() implies self.filtered_processes@[k]
                        == self.processes@[k] by {
                        assert(self.processes@[k].tree_depth == 0);
                        assert(self.filtered_processes@[k] == f@[k].at_depth(0));
                    }
                    assert(self.filtered_processes@ =~= self.processes@);
                }
            }
        }
        self.clamp_selection();
    }

    pub(crate) fn clamp_selection(&mut self)
        ensures
            final(self).selected_index == clamp_index(
                old(self).selected_index,
                old(self).filtered_processes@.len(),
            ),
            final(self).processes == old(self).processes,
            final(self).filtered_processes == old(self).filtered_processes,
            final(self).filter == old(self).filter,
            final(self).tree_view_mode == old(self).tree_view_mode,
            final(self).view_mode == old(self).view_mode,
            final(self).pending_kill == old(self).pending_kill,
            final(self).affinity == old(self).affinity,
            final(self).detail_view_pid == old(self).detail_view_pid,
            final(self).detail_view_name == old(self).detail_view_name,
            final(self).sort_column == old(self).sort_column,
            final(self).sort_ascending == old(self).sort_ascending,
            final(self).suspended == old(self).suspended,
            final(self).pending_control == old(self).pending_control,
            final(self).error_message == old(self).error_message,
            final(self).cpu_tracker == old(self).cpu_tracker,
            final(self).prev_disk_io == old(self).prev_disk_io,
            final(self).refresh_interval_ms == old(self).refresh_interval_ms,
            final(self).scroll_offset == old(self).scroll_offset,
            final(self).system_cpu == old(self).system_cpu,
            final(self).detail_scroll_offset == old(self).detail_scroll_offset,
            final(self).help_scroll_offset == old(self).help_scroll_offset,
    {
        let len = self.filtered_processes.len();
        if self.selected_index >= len {
            self.selected_index = if len == 0 {
                0
            } else {
                len - 1
            };
        }
    }

    /// Orders the entries by the current column and direction.
    pub(crate) fn sort_processes(&mut self)
        ensures
            final(self).processes@.to_multiset() == old(self).processes@.to_multiset(),
            sorted_by(old(self).sort_column, old(self).sort_ascending, final(self).processes@),
            all_flat(old(self).processes@) ==> all_flat(final(self).processes@),
            final(self).filtered_processes == old(self).filtered_processes,
            final(self).selected_index == old(self).selected_index,
            final(self).filter == old(self).filter,
            final(self).tree_view_mode == old(self).tree_view_mode,
            final(self).view_mode == old(self).view_mode,
            final(self).pending_kill == old(self).pending_kill,
            final(self).affinity == old(self).affinity,
            final(self).detail_view_pid == old(self).detail_view_pid,
            final(self).detail_view_name == old(self).detail_view_name,
            final(self).sort_column == old(self).sort_column,
            final(self).sort_ascending == old(self).sort_ascending,
            final(self).suspended == old(self).suspended,
            final(self).pending_control == old(self).pending_control,
            final(self).error_message == old(self).error_message,
            final(self).cpu_tracker == old(self).cpu_tracker,
            final(self).prev_disk_io == old(self).prev_disk_io,
            final(self).refresh_interval_ms == old(self).refresh_interval_ms,
            final(self).scroll_offset == old(self).scroll_offset,
            final(self).system_cpu == old(self).system_cpu,
            final(self).detail_scroll_offset == old(self).detail_scroll_offset,
            final(self).help_scroll_offset == old(self).help_scroll_offset,
    {
        let mut procs: Vec<ProcessEntry> = Vec::new();
        std::mem::swap(&mut procs, &mut self.processes);
        self.processes = sort_entries(procs, self.sort_column, self.sort_ascending);
        proof {
            if all_flat(old(self).processes@) {
                lemma_flat_perm(old(self).processes@, self.processes@);
            }
        }
    }

    /// Moves to the next sort column, re-sorts and rebuilds the displayed list.
    pub fn cycle_sort(&mut self)
        requires
            old(self).wf(),
        ensures
            final(self).wf(),
            final(self).error_message == old(self).error_message,
            final(self).display_current(),
            final(self).sort_column == spec_next(old(self).sort_column),
            final(self).sort_ascending == old(self).sort_ascending,
            final(self).processes@.to_multiset() == old(self).processes@.to_multiset(),
            sorted_by(final(self).sort_column, final(self).sort_ascending, final(self).processes@),
            final(self).view_mode == old(self).view_mode,
    {
        self.sort_column = self.sort_column.next();
        self.sort_processes();
        self.apply_filter();
    }

    /// Reverses the sort direction, re-sorts and rebuilds the displayed list.
    pub fn toggle_sort_order(&mut self)
        requires
            old(self).wf(),
        ensures
            final(self).wf(),
            final(self).error_message == old(self).error_message,
            final(self).display_current(),
            final(self).sort_column == old(self).sort_column,
            final(self).sort_ascending == !old(self).sort_ascending,
            final(self).processes@.to_multiset() == old(self).processes@.to_multiset(),
            sorted_by(final(self).sort_column, final(self).sort_ascending, final(self).processes@),
            final(self).view_mode == old(self).view_mode,
            final(self).filter == old(self).filter,
            final(self).tree_view_mode == old(self).tree_view_mode,
    {
        self.sort_ascending = !self.sort_ascending;
        self.sort_processes();
        self.apply_filter();
    }

    /// Switches between the flat and the tree view; the selection returns to the top.
    pub fn toggle_tree_view(&mut self)
        requires
            old(self).wf(),
        ensures
            final(self).wf(),
            final(self).error_message == old(self).error_message,
            final(self).display_current(),
            final(self).tree_view_mode == !old(self).tree_view_mode,
            final(self).selected_index == 0,
            final(self).scroll_offset == 0,
            final(self).processes == old(self).processes,
            final(self).view_mode == old(self).view_mode,
    {
        self.tree_view_mode = !self.tree_view_mode;
        self.selected_index = 0;
        self.scroll_offset = 0;
        self.apply_filter();
    }
}


impl Default for App {
    fn default() -> (r: App)
        ensures
            r.wf(),
            r.display_current(),
            r.processes@.len() == 0,
            r.view_mode == ViewMode::ProcessList,
    {
        App::new()
    }
}

/// The state `after` is what `toggle_sort_order` makes of `before`, as its
/// contract describes it.
pub open spec fn sort_toggled(before: App, after: App) -> bool {
    &&& after.sort_column == before.sort_column
    &&& after.sort_ascending == !before.sort_ascending
    &&& after.processes@.to_multiset() == before.processes@.to_multiset()
    &&& sorted_by(after.sort_column, after.sort_ascending, after.processes@)
}

/// Reversing the sort direction twice gives back the sorted order the
/// entries had before, when their pids are unique.
pub proof fn lemma_toggle_sort_order_twice(a0: App, a1: App, a2: App)
    requires
        unique_pids(a0.processes@),
        sorted_by(a0.sort_column, a0.sort_ascending, a0.processes@),
        sort_toggled(a0, a1),
        sort_toggled(a1, a2),
    ensures
        a2.processes@ == a0.processes@,
        a2.sort_ascending == a0.sort_ascending,
{
    lemma_toggle_direction_twice(
        a0.sort_column,
        a0.sort_ascending,
        a0.processes@,
        a0.processes@,
        a1.processes@,
        a2.processes@,
    );
}

} // verus!
