use crate::affinity::{
    checked_affinity_mask, core_selected, count_cores, is_core_in_mask, set_bits_below,
    spec_checked_mask, spec_toggle_core, toggle_core, AffinityEditState, CpuAffinity,
};
use crate::entry::ProcessEntry;
use crate::error::{AffinityError, PriorityError, ProcessError};
use crate::priority::{spec_lower, spec_raise};
use crate::state::{selected_entry, App, ControlRequest, PendingControl, PendingKill, StatusMessage};
use crate::suspend::{
    is_process_suspended, is_system_pid, record_suspend_outcome, toggle_suspend, SuspendRequest,
};
use crate::view_mode::ViewMode;
use vstd::prelude::*;

verus! {

impl App {
    /// Asks for confirmation to kill the selected process. Only from the
    /// process list, and only when the displayed list is not empty;
    /// otherwise nothing changes.
    pub fn request_kill(&mut self)
        requires
            old(self).wf(),
        ensures
            final(self).wf(),
            old(self).view_mode != ViewMode::ProcessList || selected_entry(*old(self)) is None
                ==> *final(self) == *old(self),
            old(self).view_mode == ViewMode::ProcessList && selected_entry(*old(self)) is Some ==> {
                let e = selected_entry(*old(self))->0;
                *final(self) == (App {
                    view_mode: ViewMode::ConfirmKill,
                    pending_kill: Some(PendingKill { pid: e.info.pid, name: e.info.name }),
                    error_message: Some(
                        StatusMessage::KillPrompt { name: e.info.name, pid: e.info.pid },
                    ),
                    ..*old(self)
                })
            },
    {
        if !self.view_mode.is_process_list() || self.selected_index >= self.filtered_processes.len() {
            return;
        }
        let e = &self.filtered_processes[self.selected_index];
        let pid = e.info.pid;
        let name = e.info.name.clone();
        self.pending_kill = Some(PendingKill { pid, name: name.clone() });
        self.view_mode = ViewMode::ConfirmKill;
        self.error_message = Some(StatusMessage::KillPrompt { name, pid });
    }

    /// The operator confirmed the kill: back to the process list, and the
    /// termination of the target is requested (system pids are refused).
    pub fn confirm_kill(&mut self) -> (r: Option<ControlRequest>)
        requires
            old(self).wf(),
        ensures
            final(self).wf(),
            old(self).pending_kill is None ==> *final(self) == *old(self) && r is None,
            old(self).pending_kill is Some ==> {
                let k = old(self).pending_kill->0;
                if is_system_pid(k.pid) {
                    r is None && *final(self) == (App {
                        view_mode: ViewMode::ProcessList,
                        pending_kill: None,
                        error_message: Some(
                            StatusMessage::TerminateFailed {
                                name: k.name,
                                pid: k.pid,
                                error: ProcessError::SystemProcess,
                            },
                        ),
                        ..*old(self)
                    })
                } else {
                    r == Some(ControlRequest::Terminate { pid: k.pid }) && *final(self) == (App {
                        view_mode: ViewMode::ProcessList,
                        pending_kill: None,
                        pending_control: Some(
                            PendingControl {
                                request: ControlRequest::Terminate { pid: k.pid },
                                name: k.name,
                            },
                        ),
                        ..*old(self)
                    })
                }
            },
    {
        let k = match self.pending_kill.take() {
            Some(k) => k,
            None => return None,
        };
        self.view_mode = ViewMode::ProcessList;
        if k.pid == 0 || k.pid == 4 {
            self.error_message = Some(
                StatusMessage::TerminateFailed {
                    name: k.name,
                    pid: k.pid,
                    error: ProcessError::SystemProcess,
                },
            );
            return None;
        }
        let request = ControlRequest::Terminate { pid: k.pid };
        self.pending_control = Some(PendingControl { request, name: k.name });
        Some(request)
    }

    /// The answer of the terminate provider to the pending kill.
    pub fn finish_kill(&mut self, outcome: Result<(), ProcessError>)
        requires
            old(self).wf(),
        ensures
            final(self).wf(),
            match old(self).pending_control {
                Some(PendingControl { request: ControlRequest::Terminate { pid }, name }) => *final(self)
                    == (App {
                    pending_control: None,
                    error_message: Some(
                        match outcome {
                            Ok(()) => StatusMessage::Terminated { name, pid },
                            Err(error) => StatusMessage::TerminateFailed { name, pid, error },
                        },
                    ),
                    ..*old(self)
                }),
                _ => *final(self) == *old(self),
            },
    {
        let pending = match self.pending_control.take() {
            Some(p) => p,
            None => return,
        };
        match pending.request {
            ControlRequest::Terminate { pid } => {
                self.error_message = Some(
                    match outcome {
                        Ok(()) => StatusMessage::Terminated { name: pending.name, pid },
                        Err(error) => StatusMessage::TerminateFailed {
                            name: pending.name,
                            pid,
                            error,
                        },
                    },
                );
            },
            _ => {
                self.pending_control = Some(pending);
            },
        }
    }

    /// The operator declined the kill: back to the process list, nothing else changes.
    pub fn cancel_kill(&mut self)
        requires
            old(self).wf(),
        ensures
            final(self).wf(),
            final(self).error_message == old(self).error_message,
            old(self).view_mode == ViewMode::ConfirmKill ==> *final(self) == (App {
                view_mode: ViewMode::ProcessList,
                pending_kill: None,
                ..*old(self)
            }),
            old(self).view_mode != ViewMode::ConfirmKill ==> *final(self) == *old(self),
            final(self).processes == old(self).processes,
            final(self).filtered_processes == old(self).filtered_processes,
            final(self).pending_control == old(self).pending_control,
    {
        if self.view_mode.is_confirm_kill() {
            self.view_mode = ViewMode::ProcessList;
            self.pending_kill = None;
        }
    }

    /// Asks to move the selected process one priority step up. At the top
    /// of the ladder nothing is requested and `AlreadyAtMaximum` is reported.
    pub fn raise_priority(&mut self) -> (r: Option<ControlRequest>)
        requires
            old(self).wf(),
        ensures
            final(self).wf(),
            selected_entry(*old(self)) is None ==> *final(self) == *old(self) && r is None,
            selected_entry(*old(self)) is Some ==> {
                let e = selected_entry(*old(self))->0;
                let to = spec_raise(e.priority);
                if to == e.priority {
                    r is None && *final(self) == (App {
                        error_message: Some(StatusMessage::AlreadyAtMaximum { name: e.info.name }),
                        ..*old(self)
                    })
                } else {
                    let req = ControlRequest::SetPriority {
                        pid: e.info.pid,
                        from: e.priority,
                        to,
                        raising: true,
                    };
                    r == Some(req) && *final(self) == (App {
                        pending_control: Some(PendingControl { request: req, name: e.info.name }),
                        ..*old(self)
                    })
                }
            },
    {
        if self.selected_index >= self.filtered_processes.len() {
            return None;
        }
        let e = &self.filtered_processes[self.selected_index];
        let from = e.priority;
        let to = from.raise();
        if to == from {
            self.error_message = Some(StatusMessage::AlreadyAtMaximum { name: e.info.name.clone() });
            return None;
        }
        let request = ControlRequest::SetPriority { pid: e.info.pid, from, to, raising: true };
        self.pending_control = Some(PendingControl { request, name: e.info.name.clone() });
        Some(request)
    }

    /// Asks to move the selected process one priority step down. At the
    /// bottom of the ladder nothing is requested and `AlreadyAtMinimum` is reported.
    pub fn lower_priority(&mut self) -> (r: Option<ControlRequest>)
        requires
            old(self).wf(),
        ensures
            final(self).wf(),
            selected_entry(*old(self)) is None ==> *final(self) == *old(self) && r is None,
            selected_entry(*old(self)) is Some ==> {
                let e = selected_entry(*old(self))->0;
                let to = spec_lower(e.priority);
                if to == e.priority {
                    r is None && *final(self) == (App {
                        error_message: Some(StatusMessage::AlreadyAtMinimum { name: e.info.name }),
                        ..*old(self)
                    })
                } else {
                    let req = ControlRequest::SetPriority {
                        pid: e.info.pid,
                        from: e.priority,
                        to,
                        raising: false,
                    };
                    r == Some(req) && *final(self) == (App {
                        pending_control: Some(PendingControl { request: req, name: e.info.name }),
                        ..*old(self)
                    })
                }
            },
    {
        if self.selected_index >= self.filtered_processes.len() {
            return None;
        }
        let e = &self.filtered_processes[self.selected_index];
        let from = e.priority;
        let to = from.lower();
        if to == from {
            self.error_message = Some(StatusMessage::AlreadyAtMinimum { name: e.info.name.clone() });
            return None;
        }
        let request = ControlRequest::SetPriority { pid: e.info.pid, from, to, raising: false };
        self.pending_control = Some(PendingControl { request, name: e.info.name.clone() });
        Some(request)
    }

    /// The answer of the priority provider to the pending priority change.
    pub fn finish_priority(&mut self, outcome: Result<(), PriorityError>)
        requires
            old(self).wf(),
        ensures
            final(self).wf(),
            match old(self).pending_control {
                Some(
                    PendingControl { request: ControlRequest::SetPriority { pid, from, to, raising }, name },
                ) => *final(self) == (App {
                    pending_control: None,
                    error_message: Some(
                        match outcome {
                            Ok(()) => StatusMessage::PriorityChanged { name, from, to },
                            Err(error) => StatusMessage::PriorityFailed { raising, error },
                        },
                    ),
                    ..*old(self)
                }),
                _ => *final(self) == *old(self),
            },
    {
        let pending = match self.pending_control.take() {
            Some(p) => p,
            None => return,
        };
        match pending.request {
            ControlRequest::SetPriority { pid, from, to, raising } => {
                self.error_message = Some(
                    match outcome {
                        Ok(()) => StatusMessage::PriorityChanged { name: pending.name, from, to },
                        Err(error) => StatusMessage::PriorityFailed { raising, error },
                    },
                );
            },
            _ => {
                self.pending_control = Some(pending);
            },
        }
    }

    /// Asks to suspend the selected process, or to resume it where this
    /// engine suspended it; system pids are refused with a report.
    pub fn toggle_suspend(&mut self) -> (r: Option<ControlRequest>)
        requires
            old(self).wf(),
        ensures
            final(self).wf(),
            selected_entry(*old(self)) is None ==> *final(self) == *old(self) && r is None,
            selected_entry(*old(self)) is Some ==> {
                let e = selected_entry(*old(self))->0;
                let pid = e.info.pid;
                if is_system_pid(pid) {
                    r is None && *final(self) == (App {
                        error_message: Some(
                            StatusMessage::SuspendFailed { error: ProcessError::SystemProcess },
                        ),
                        ..*old(self)
                    })
                } else {
                    let req = if old(self).suspended@.contains(pid) {
                        ControlRequest::Resume { pid }
                    } else {
                        ControlRequest::Suspend { pid }
                    };
                    r == Some(req) && *final(self) == (App {
                        pending_control: Some(PendingControl { request: req, name: e.info.name }),
                        ..*old(self)
                    })
                }
            },
    {
        if self.selected_index >= self.filtered_processes.len() {
            return None;
        }
        let e = &self.filtered_processes[self.selected_index];
        let pid = e.info.pid;
        match toggle_suspend(&self.suspended, pid) {
            Err(error) => {
                self.error_message = Some(StatusMessage::SuspendFailed { error });
                None
            },
            Ok(SuspendRequest::Suspend) => {
                let request = ControlRequest::Suspend { pid };
                self.pending_control = Some(PendingControl { request, name: e.info.name.clone() });
                Some(request)
            },
            Ok(SuspendRequest::Resume) => {
                let request = ControlRequest::Resume { pid };
                self.pending_control = Some(PendingControl { request, name: e.info.name.clone() });
                Some(request)
            },
        }
    }

    /// The answer of the suspend or resume provider to the pending toggle:
    /// on success the suspended set follows it and `Suspended` or `Resumed`
    /// is reported; on failure the set is unchanged and the error reported.
    pub fn finish_suspend(&mut self, outcome: Result<(), ProcessError>)
        requires
            old(self).wf(),
        ensures
            final(self).wf(),
            match old(self).pending_control {
                Some(PendingControl { request: ControlRequest::Suspend { pid }, name }) => {
                    &&& *final(self) == (App {
                        pending_control: None,
                        suspended: final(self).suspended,
                        error_message: Some(
                            match outcome {
                                Ok(()) => StatusMessage::Suspended { name, pid },
                                Err(error) => StatusMessage::SuspendFailed { error },
                            },
                        ),
                        ..*old(self)
                    })
                    &&& final(self).suspended@ == match outcome {
                        Ok(()) => old(self).suspended@.insert(pid),
                        Err(_) => old(self).suspended@,
                    }
                },
                Some(PendingControl { request: ControlRequest::Resume { pid }, name }) => {
                    &&& *final(self) == (App {
                        pending_control: None,
                        suspended: final(self).suspended,
                        error_message: Some(
                            match outcome {
                                Ok(()) => StatusMessage::Resumed { name, pid },
                                Err(error) => StatusMessage::SuspendFailed { error },
                            },
                        ),
                        ..*old(self)
                    })
                    &&& final(self).suspended@ == match outcome {
                        Ok(()) => old(self).suspended@.remove(pid),
                        Err(_) => old(self).suspended@,
                    }
                },
                _ => *final(self) == *old(self),
            },
    {
        let pending = match self.pending_control.take() {
            Some(p) => p,
            None => return,
        };
        let (pid, request) = match pending.request {
            ControlRequest::Suspend { pid } => (pid, SuspendRequest::Suspend),
            ControlRequest::Resume { pid } => (pid, SuspendRequest::Resume),
            _ => {
                self.pending_control = Some(pending);
                return;
            },
        };
        match record_suspend_outcome(&mut self.suspended, pid, request, outcome) {
            Ok(true) => {
                self.error_message = Some(StatusMessage::Suspended { name: pending.name, pid });
            },
            Ok(false) => {
                self.error_message = Some(StatusMessage::Resumed { name: pending.name, pid });
            },
            Err(error) => {
                self.error_message = Some(StatusMessage::SuspendFailed { error });
            },
        }
    }

    /// The list an export writes: the displayed list, or every entry where
    /// nothing is displayed and no filter is set.
    pub fn export_source(&self) -> (r: &Vec<ProcessEntry>)
        ensures
            self.filtered_processes@.len() == 0 && self.filter@.len() == 0 ==> r == &self.processes,
            !(self.filtered_processes@.len() == 0 && self.filter@.len() == 0) ==> r
                == &self.filtered_processes,
    {
        if self.filtered_processes.len() == 0 && self.filter.as_str().is_empty() {
            &self.processes
        } else {
            &self.filtered_processes
        }
    }

    /// Whether this engine has suspended `pid`.
    pub fn is_process_suspended(&self, pid: u32) -> (r: bool)
        ensures
            r == self.suspended@.contains(pid),
    {
        is_process_suspended(&self.suspended, pid)
    }
}


impl App {
    /// Opens the affinity editor over the detail view, given the process's
    /// current affinity (absent where it could not be read) and the
    /// machine's core count. The cursor starts on core 0.
    pub fn open_affinity_dialog(&mut self, current: Option<CpuAffinity>, total_cores: u32)
        requires
            old(self).wf(),
        ensures
            final(self).wf(),
            old(self).view_mode != ViewMode::DetailView ==> *final(self) == *old(self),
            old(self).view_mode == ViewMode::DetailView && (current is None || current->0.process_mask
                == 0) ==> *final(self) == (App {
                error_message: Some(StatusMessage::AffinityUnreadable),
                ..*old(self)
            }),
            old(self).view_mode == ViewMode::DetailView && current is Some && current->0.process_mask
                != 0 ==> {
                &&& final(self).view_mode == ViewMode::Affinity
                &&& final(self).affinity == Some(
                    AffinityEditState {
                        pid: old(self).detail_view_pid->0,
                        name: old(self).detail_view_name->0,
                        mask: current->0.process_mask,
                        system_mask: current->0.system_mask,
                        total_cores,
                        selected_core: 0,
                    },
                )
                &&& final(self).detail_view_pid == old(self).detail_view_pid
            },
    {
        if !self.view_mode.is_detail_view() {
            return;
        }
        let (pid, name) = match (&self.detail_view_pid, &self.detail_view_name) {
            (Some(p), Some(n)) => (*p, n.clone()),
            _ => return,
        };
        let aff = match current {
            Some(a) => a,
            None => {
                self.error_message = Some(StatusMessage::AffinityUnreadable);
                return;
            },
        };
        if aff.process_mask == 0 {
            self.error_message = Some(StatusMessage::AffinityUnreadable);
            return;
        }
        self.affinity = Some(
            AffinityEditState {
                pid,
                name,
                mask: aff.process_mask,
                system_mask: aff.system_mask,
                total_cores,
                selected_core: 0,
            },
        );
        self.view_mode = ViewMode::Affinity;
    }

    /// Closes the affinity editor without applying, back to the detail view.
    pub fn close_affinity_dialog(&mut self)
        requires
            old(self).wf(),
        ensures
            final(self).wf(),
            old(self).view_mode == ViewMode::Affinity ==> *final(self) == (App {
                view_mode: ViewMode::DetailView,
                affinity: None,
                ..*old(self)
            }),
            old(self).view_mode != ViewMode::Affinity ==> *final(self) == *old(self),
    {
        if self.view_mode.is_affinity() {
            self.view_mode = ViewMode::DetailView;
            self.affinity = None;
        }
    }

    /// Toggles the core under the cursor. The last selected core cannot be
    /// deselected: it stays selected and `LastCoreKept` is reported.
    pub fn toggle_affinity_core(&mut self)
        requires
            old(self).wf(),
        ensures
            final(self).wf(),
            final(self).view_mode == old(self).view_mode,
            old(self).affinity is None ==> *final(self) == *old(self),
            old(self).affinity is Some ==> {
                let a = old(self).affinity->0;
                let core = a.selected_core as u64;
                if a.selected_core < a.total_cores && core < 64 {
                    let t = spec_toggle_core(a.mask, core);
                    &&& final(self).affinity == Some(AffinityEditState { mask: t.0, ..a })
                    &&& final(self).affinity->0.mask != 0
                    &&& (t.1 <==> a.mask == (1u64 << core))
                    &&& t.1 ==> final(self).affinity->0.mask == a.mask
                        && final(self).error_message == Some(StatusMessage::LastCoreKept)
                    &&& !t.1 ==> final(self).error_message == old(self).error_message
                } else {
                    *final(self) == *old(self)
                }
            },
    {
        let mut a = match self.affinity.take() {
            Some(a) => a,
            None => return,
        };
        if a.selected_core < a.total_cores && a.selected_core < 64 {
            let (mask, refused) = toggle_core(a.mask, a.selected_core as u64);
            a.mask = mask;
            if refused {
                self.error_message = Some(StatusMessage::LastCoreKept);
            }
        }
        self.affinity = Some(a);
    }

    /// Selects every core of the machine.
    pub fn select_all_cores(&mut self)
        requires
            old(self).wf(),
        ensures
            final(self).wf(),
            final(self).error_message == old(self).error_message,
            final(self).view_mode == old(self).view_mode,
            old(self).affinity is None || old(self).affinity->0.total_cores == 0 ==> *final(self)
                == *old(self),
            old(self).affinity is Some && old(self).affinity->0.total_cores > 0 ==> {
                let a = old(self).affinity->0;
                final(self).affinity == Some(
                    AffinityEditState {
                        mask: if a.total_cores >= 64 {
                            u64::MAX
                        } else {
                            ((1u64 << a.total_cores as u64) - 1) as u64
                        },
                        ..a
                    },
                )
            },
    {
        let mut a = match self.affinity.take() {
            Some(a) => a,
            None => return,
        };
        if a.total_cores > 0 {
            if a.total_cores >= 64 {
                a.mask = u64::MAX;
            } else {
                let t = a.total_cores as u64;
                let bit = 1u64 << t;
                assert(bit > 1) by (bit_vector)
                    requires
                        bit == 1u64 << t,
                        0 < t < 64,
                ;
                a.mask = bit - 1;
            }
        }
        self.affinity = Some(a);
    }

    /// Selects core 0 alone.
    pub fn select_single_core(&mut self)
        requires
            old(self).wf(),
        ensures
            final(self).wf(),
            final(self).error_message == old(self).error_message,
            old(self).affinity is None ==> *final(self) == *old(self),
            old(self).affinity is Some ==> final(self).affinity == Some(
                AffinityEditState { mask: 1, ..old(self).affinity->0 },
            ),
    {
        let mut a = match self.affinity.take() {
            Some(a) => a,
            None => return,
        };
        a.mask = 1;
        self.affinity = Some(a);
    }

    /// Moves the cursor one core left.
    pub fn affinity_move_left(&mut self)
        requires
            old(self).wf(),
        ensures
            final(self).wf(),
            final(self).error_message == old(self).error_message,
            old(self).affinity is None ==> *final(self) == *old(self),
            old(self).affinity is Some ==> final(self).affinity == Some(
                AffinityEditState {
                    selected_core: if old(self).affinity->0.selected_core > 0 {
                        (old(self).affinity->0.selected_core - 1) as u32
                    } else {
                        0
                    },
                    ..old(self).affinity->0
                },
            ),
    {
        let mut a = match self.affinity.take() {
            Some(a) => a,
            None => return,
        };
        if a.selected_core > 0 {
            a.selected_core -= 1;
        }
        self.affinity = Some(a);
    }

    /// Moves the cursor one core right, stopping at the last core.
    pub fn affinity_move_right(&mut self)
        requires
            old(self).wf(),
        ensures
            final(self).wf(),
            final(self).error_message == old(self).error_message,
            old(self).affinity is None ==> *final(self) == *old(self),
            old(self).affinity is Some ==> final(self).affinity == Some(
                AffinityEditState {
                    selected_core: if old(self).affinity->0.selected_core + 1 < old(self).affinity->0.total_cores {
                        (old(self).affinity->0.selected_core + 1) as u32
                    } else {
                        old(self).affinity->0.selected_core
                    },
                    ..old(self).affinity->0
                },
            ),
    {
        let mut a = match self.affinity.take() {
            Some(a) => a,
            None => return,
        };
        if a.total_cores > 0 && a.selected_core < a.total_cores - 1 {
            a.selected_core += 1;
        }
        self.affinity = Some(a);
    }

    /// Whether core `core` is selected in the editor.
    pub fn is_core_selected(&self, core: usize) -> (r: bool)
        ensures
            self.affinity is None ==> !r,
            self.affinity is Some && core < 64 ==> r == core_selected(
                self.affinity->0.mask,
                core as u64,
            ),
            core >= 64 ==> !r,
    {
        match &self.affinity {
            Some(a) => is_core_in_mask(a.mask, core as u64),
            None => false,
        }
    }

    /// Asks to apply the edited selection: refused with a report when it is
    /// empty, names a system pid, or shares no core with the machine;
    /// otherwise the provider is asked to set the selection narrowed to the
    /// machine's cores.
    pub fn apply_affinity(&mut self) -> (r: Option<ControlRequest>)
        requires
            old(self).wf(),
        ensures
            final(self).wf(),
            final(self).view_mode == old(self).view_mode,
            final(self).affinity == old(self).affinity,
            old(self).affinity is None ==> *final(self) == *old(self) && r is None,
            old(self).affinity is Some ==> {
                let a = old(self).affinity->0;
                match spec_checked_mask(a.pid, a.mask, a.system_mask) {
                    Err(error) => r is None && final(self).error_message == Some(
                        StatusMessage::AffinityFailed { error },
                    ) && final(self).pending_control == old(self).pending_control,
                    Ok(mask) => r == Some(ControlRequest::SetAffinity { pid: a.pid, mask })
                        && final(self).pending_control == Some(
                        PendingControl {
                            request: ControlRequest::SetAffinity { pid: a.pid, mask },
                            name: a.name,
                        },
                    ) && final(self).error_message == old(self).error_message,
                }
            },
    {
        let (pid, name, mask, system_mask) = match &self.affinity {
            Some(a) => (a.pid, a.name.clone(), a.mask, a.system_mask),
            None => return None,
        };
        match checked_affinity_mask(pid, mask, system_mask) {
            Err(error) => {
                self.error_message = Some(StatusMessage::AffinityFailed { error });
                None
            },
            Ok(valid) => {
                let request = ControlRequest::SetAffinity { pid, mask: valid };
                self.pending_control = Some(PendingControl { request, name });
                Some(request)
            },
        }
    }

    /// The answer of the affinity provider to the pending change: on success
    /// the number of cores set is reported and the editor closes back to the
    /// detail view; on failure the error is reported and the editor stays.
    pub fn finish_affinity(&mut self, outcome: Result<(), AffinityError>)
        requires
            old(self).wf(),
        ensures
            final(self).wf(),
            match old(self).pending_control {
                Some(PendingControl { request: ControlRequest::SetAffinity { pid, mask }, name }) => {
                    &&& final(self).pending_control is None
                    &&& match outcome {
                        Ok(()) => {
                            &&& final(self).error_message == Some(
                                StatusMessage::AffinitySet {
                                    cores: set_bits_below(mask, 64).len() as u32,
                                },
                            )
                            &&& old(self).view_mode == ViewMode::Affinity ==> final(self).view_mode
                                == ViewMode::DetailView && final(self).affinity is None
                            &&& old(self).view_mode != ViewMode::Affinity ==> final(self).view_mode
                                == old(self).view_mode
                        },
                        Err(error) => final(self).error_message == Some(
                            StatusMessage::AffinityFailed { error },
                        ) && final(self).view_mode == old(self).view_mode && final(self).affinity
                            == old(self).affinity,
                    }
                },
                _ => *final(self) == *old(self),
            },
    {
        let pending = match self.pending_control.take() {
            Some(p) => p,
            None => return,
        };
        match pending.request {
            ControlRequest::SetAffinity { pid: _, mask } => {
                match outcome {
                    Ok(()) => {
                        let cores = count_cores(mask);
                        self.error_message = Some(StatusMessage::AffinitySet { cores });
                        self.close_affinity_dialog();
                    },
                    Err(error) => {
                        self.error_message = Some(StatusMessage::AffinityFailed { error });
                    },
                }
            },
            _ => {
                self.pending_control = Some(pending);
            },
        }
    }
}

} // verus!
