use crate::affinity::{spec_checked_mask, spec_toggle_core, AffinityEditState};
use crate::error::ProcessError;
use crate::navigation::{faster_interval, sat_sub_usize, slower_interval, DETAIL_VISIBLE_LINES};
use crate::priority::{spec_lower, spec_raise};
use crate::sort::{sorted_by, spec_next};
use crate::state::{selected_entry, App, ControlRequest, PendingControl, PendingKill, StatusMessage};
use crate::suspend::is_system_pid;
use crate::view_mode::ViewMode;
use vstd::prelude::*;

verus! {

/// A key press, as the engine distinguishes them.
#[derive(Debug, Clone, Copy, PartialEq, Eq, Structural)]
pub enum Key {
    Char(char),
    /// A character typed with Control held.
    Ctrl(char),
    Enter,
    Esc,
    Backspace,
    Up,
    Down,
    Left,
    Right,
    PageUp,
    PageDown,
    Home,
    End,
    /// Any other key.
    Other,
}

/// What a key asks the engine to do in the current mode.
#[derive(Debug, Clone, Copy, PartialEq, Eq, Structural)]
pub enum Command {
    Quit,
    RequestKill,
    ConfirmKill,
    CancelKill,
    ToggleSuspend,
    RaisePriority,
    LowerPriority,
    CycleSort,
    ToggleSortOrder,
    ToggleTree,
    Export,
    SlowerRefresh,
    FasterRefresh,
    BeginFilter,
    EndFilter,
    FilterPush(char),
    FilterPop,
    ClearFilter,
    ShowHelp,
    CloseHelp,
    OpenDetail,
    CloseDetail,
    KillFromDetail,
    OpenAffinity,
    DetailUp,
    DetailDown,
    DetailPageUp,
    DetailPageDown,
    DetailTop,
    DetailBottom,
    MoveUp,
    MoveDown,
    PageUp,
    PageDown,
    JumpStart,
    JumpEnd,
    CloseAffinity,
    ApplyAffinity,
    ToggleCore,
    AllCores,
    SingleCore,
    CoreLeft,
    CoreRight,
    Nothing,
}

/// The key bindings of each mode.
pub open spec fn key_command(mode: ViewMode, key: Key) -> Command {
    match mode {
        ViewMode::Help => Command::CloseHelp,
        ViewMode::ConfirmKill => match key {
            Key::Char(c) => if c == 'y' || c == 'Y' {
                Command::ConfirmKill
            } else if c == 'n' || c == 'N' {
                Command::CancelKill
            } else {
                Command::Nothing
            },
            Key::Esc => Command::CancelKill,
            _ => Command::Nothing,
        },
        ViewMode::FilterInput => match key {
            Key::Esc => Command::EndFilter,
            Key::Enter => Command::EndFilter,
            Key::Backspace => Command::FilterPop,
            Key::Char(c) => Command::FilterPush(c),
            _ => Command::Nothing,
        },
        ViewMode::Affinity => match key {
            Key::Esc => Command::CloseAffinity,
            Key::Enter => Command::ApplyAffinity,
            Key::Char(c) => if c == ' ' {
                Command::ToggleCore
            } else if c == 'a' || c == 'A' {
                Command::AllCores
            } else if c == '1' {
                Command::SingleCore
            } else {
                Command::Nothing
            },
            Key::Left => Command::CoreLeft,
            Key::Right => Command::CoreRight,
            _ => Command::Nothing,
        },
        ViewMode::DetailView => match key {
            Key::Esc => Command::CloseDetail,
            Key::Enter => Command::CloseDetail,
            Key::Char(c) => if c == 'q' {
                Command::CloseDetail
            } else if c == 'k' || c == 'K' {
                Command::KillFromDetail
            } else if c == 'a' || c == 'A' {
                Command::OpenAffinity
            } else {
                Command::Nothing
            },
            Key::Up => Command::DetailUp,
            Key::Down => Command::DetailDown,
            Key::PageUp => Command::DetailPageUp,
            Key::PageDown => Command::DetailPageDown,
            Key::Home => Command::DetailTop,
            Key::End => Command::DetailBottom,
            _ => Command::Nothing,
        },
        ViewMode::ProcessList => match key {
            Key::Ctrl(c) => if c == 'c' {
                Command::Quit
            } else {
                Command::Nothing
            },
            Key::Char(c) => if c == 'q' || c == 'Q' {
                Command::Quit
            } else if c == 'k' || c == 'K' {
                Command::RequestKill
            } else if c == 'p' || c == 'P' {
                Command::ToggleSuspend
            } else if c == '+' || c == '=' {
                Command::RaisePriority
            } else if c == '-' || c == '_' {
                Command::LowerPriority
            } else if c == 's' || c == 'S' {
                Command::CycleSort
            } else if c == 'r' || c == 'R' {
                Command::ToggleSortOrder
            } else if c == 't' || c == 'T' {
                Command::ToggleTree
            } else if c == 'e' || c == 'E' {
                Command::Export
            } else if c == '[' {
                Command::SlowerRefresh
            } else if c == ']' {
                Command::FasterRefresh
            } else if c == '/' {
                Command::BeginFilter
            } else if c == '?' {
                Command::ShowHelp
            } else {
                Command::Nothing
            },
            Key::Esc => Command::ClearFilter,
            Key::Enter => Command::OpenDetail,
            Key::Up => Command::MoveUp,
            Key::Down => Command::MoveDown,
            Key::PageUp => Command::PageUp,
            Key::PageDown => Command::PageDown,
            Key::Home => Command::JumpStart,
            Key::End => Command::JumpEnd,
            _ => Command::Nothing,
        },
    }
}

/// Looks up the command bound to `key` in `mode`.
pub fn command_for(mode: ViewMode, key: Key) -> (r: Command)
    ensures
        r == key_command(mode, key),
{
    match mode {
        ViewMode::Help => Command::CloseHelp,
        ViewMode::ConfirmKill => match key {
            Key::Char(c) => if c == 'y' || c == 'Y' {
                Command::ConfirmKill
            } else if c == 'n' || c == 'N' {
                Command::CancelKill
            } else {
                Command::Nothing
            },
            Key::Esc => Command::CancelKill,
            _ => Command::Nothing,
        },
        ViewMode::FilterInput => match key {
            Key::Esc => Command::EndFilter,
            Key::Enter => Command::EndFilter,
            Key::Backspace => Command::FilterPop,
            Key::Char(c) => Command::FilterPush(c),
            _ => Command::Nothing,
        },
        ViewMode::Affinity => match key {
            Key::Esc => Command::CloseAffinity,
            Key::Enter => Command::ApplyAffinity,
            Key::Char(c) => if c == ' ' {
                Command::ToggleCore
            } else if c == 'a' || c == 'A' {
                Command::AllCores
            } else if c == '1' {
                Command::SingleCore
            } else {
                Command::Nothing
            },
            Key::Left => Command::CoreLeft,
            Key::Right => Command::CoreRight,
            _ => Command::Nothing,
        },
        ViewMode::DetailView => match key {
            Key::Esc => Command::CloseDetail,
            Key::Enter => Command::CloseDetail,
            Key::Char(c) => if c == 'q' {
                Command::CloseDetail
            } else if c == 'k' || c == 'K' {
                Command::KillFromDetail
            } else if c == 'a' || c == 'A' {
                Command::OpenAffinity
            } else {
                Command::Nothing
            },
            Key::Up => Command::DetailUp,
            Key::Down => Command::DetailDown,
            Key::PageUp => Command::DetailPageUp,
            Key::PageDown => Command::DetailPageDown,
            Key::Home => Command::DetailTop,
            Key::End => Command::DetailBottom,
            _ => Command::Nothing,
        },
        ViewMode::ProcessList => match key {
            Key::Ctrl(c) => if c == 'c' {
                Command::Quit
            } else {
                Command::Nothing
            },
            Key::Char(c) => if c == 'q' || c == 'Q' {
                Command::Quit
            } else if c == 'k' || c == 'K' {
                Command::RequestKill
            } else if c == 'p' || c == 'P' {
                Command::ToggleSuspend
            } else if c == '+' || c == '=' {
                Command::RaisePriority
            } else if c == '-' || c == '_' {
                Command::LowerPriority
            } else if c == 's' || c == 'S' {
                Command::CycleSort
            } else if c == 'r' || c == 'R' {
                Command::ToggleSortOrder
            } else if c == 't' || c == 'T' {
                Command::ToggleTree
            } else if c == 'e' || c == 'E' {
                Command::Export
            } else if c == '[' {
                Command::SlowerRefresh
            } else if c == ']' {
                Command::FasterRefresh
            } else if c == '/' {
                Command::BeginFilter
            } else if c == '?' {
                Command::ShowHelp
            } else {
                Command::Nothing
            },
            Key::Esc => Command::ClearFilter,
            Key::Enter => Command::OpenDetail,
            Key::Up => Command::MoveUp,
            Key::Down => Command::MoveDown,
            Key::PageUp => Command::PageUp,
            Key::PageDown => Command::PageDown,
            Key::Home => Command::JumpStart,
            Key::End => Command::JumpEnd,
            _ => Command::Nothing,
        },
    }
}

/// What the caller does after a key was handled.
#[derive(Debug, Clone, Copy, PartialEq, Eq, Structural)]
pub enum KeyAction {
    /// Nothing more; keep running.
    Continue,
    /// Leave the program.
    Exit,
    /// Perform the request, hand its outcome back, then refresh where asked.
    Control { request: ControlRequest, refresh_after: bool },
    /// Refresh now.
    Refresh,
    /// Write the displayed list out.
    Export,
    /// Read the affinity of `pid` and the machine's core count, then call
    /// `open_affinity_dialog`.
    ReadAffinity { pid: u32 },
    /// The detail view changed its process: read its details again.
    ReloadDetails,
}

/// The action for a control request that may or may not have been handed out.
pub open spec fn control_action(r: Option<ControlRequest>, refresh_after: bool) -> KeyAction {
    match r {
        Some(request) => KeyAction::Control { request, refresh_after },
        None => if refresh_after {
            KeyAction::Refresh
        } else {
            KeyAction::Continue
        },
    }
}

fn control(r: Option<ControlRequest>, refresh_after: bool) -> (a: KeyAction)
    ensures
        a == control_action(r, refresh_after),
{
    match r {
        Some(request) => KeyAction::Control { request, refresh_after },
        None => if refresh_after {
            KeyAction::Refresh
        } else {
            KeyAction::Continue
        },
    }
}

/// The effect of handling a key bound to `c`, where `base` is the state
/// before with the status line already cleared: the state `after` and the
/// action `r` are what the method the command stands for makes of `base`.
pub open spec fn key_handled(
    base: App,
    after: App,
    c: Command,
    r: KeyAction,
    visible_rows: usize,
    detail_lines: usize,
) -> bool {
    let sel = selected_entry(base);
    let page = sat_sub_usize(detail_lines, DETAIL_VISIBLE_LINES);
    match c {
        Command::Quit => r == KeyAction::Exit && after == base,
        Command::Export => r == KeyAction::Export && after == base,
        Command::Nothing => r == KeyAction::Continue && after == base,
        Command::RequestKill => r == KeyAction::Continue && if base.view_mode
            == ViewMode::ProcessList && sel is Some {
            after == (App {
                view_mode: ViewMode::ConfirmKill,
                pending_kill: Some(PendingKill { pid: sel->0.info.pid, name: sel->0.info.name }),
                error_message: Some(
                    StatusMessage::KillPrompt { name: sel->0.info.name, pid: sel->0.info.pid },
                ),
                ..base
            })
        } else {
            after == base
        },
        Command::KillFromDetail => r == KeyAction::Continue && (sel is Some ==> {
            &&& after.view_mode == ViewMode::ConfirmKill
            &&& after.detail_view_pid is None
            &&& after.pending_kill == Some(
                PendingKill { pid: sel->0.info.pid, name: sel->0.info.name },
            )
        }) && (sel is None ==> after.view_mode == ViewMode::ProcessList && after.detail_view_pid
            is None),
        Command::ConfirmKill => after.view_mode == ViewMode::ProcessList && after.pending_kill
            is None && match base.pending_kill {
            Some(k) => if is_system_pid(k.pid) {
                r == KeyAction::Refresh && after == (App {
                    view_mode: ViewMode::ProcessList,
                    pending_kill: None,
                    error_message: Some(
                        StatusMessage::TerminateFailed {
                            name: k.name,
                            pid: k.pid,
                            error: ProcessError::SystemProcess,
                        },
                    ),
                    ..base
                })
            } else {
                r == (KeyAction::Control {
                    request: ControlRequest::Terminate { pid: k.pid },
                    refresh_after: true,
                }) && after == (App {
                    view_mode: ViewMode::ProcessList,
                    pending_kill: None,
                    pending_control: Some(
                        PendingControl {
                            request: ControlRequest::Terminate { pid: k.pid },
                            name: k.name,
                        },
                    ),
                    ..base
                })
            },
            None => r == KeyAction::Refresh,
        },
        Command::CancelKill => r == KeyAction::Continue && after == (App {
            view_mode: ViewMode::ProcessList,
            pending_kill: None,
            ..base
        }),
        Command::ToggleSuspend => match sel {
            None => r == KeyAction::Continue && after == base,
            Some(e) => if is_system_pid(e.info.pid) {
                r == KeyAction::Continue && after == (App {
                    error_message: Some(
                        StatusMessage::SuspendFailed { error: ProcessError::SystemProcess },
                    ),
                    ..base
                })
            } else {
                let req = if base.suspended@.contains(e.info.pid) {
                    ControlRequest::Resume { pid: e.info.pid }
                } else {
                    ControlRequest::Suspend { pid: e.info.pid }
                };
                r == (KeyAction::Control { request: req, refresh_after: false }) && after == (App {
                    pending_control: Some(PendingControl { request: req, name: e.info.name }),
                    ..base
                })
            },
        },
        Command::RaisePriority => match sel {
            None => r == KeyAction::Refresh && after == base,
            Some(e) => if spec_raise(e.priority) == e.priority {
                r == KeyAction::Refresh && after == (App {
                    error_message: Some(StatusMessage::AlreadyAtMaximum { name: e.info.name }),
                    ..base
                })
            } else {
                let req = ControlRequest::SetPriority {
                    pid: e.info.pid,
                    from: e.priority,
                    to: spec_raise(e.priority),
                    raising: true,
                };
                r == (KeyAction::Control { request: req, refresh_after: true }) && after == (App {
                    pending_control: Some(PendingControl { request: req, name: e.info.name }),
                    ..base
                })
            },
        },
        Command::LowerPriority => match sel {
            None => r == KeyAction::Refresh && after == base,
            Some(e) => if spec_lower(e.priority) == e.priority {
                r == KeyAction::Refresh && after == (App {
                    error_message: Some(StatusMessage::AlreadyAtMinimum { name: e.info.name }),
                    ..base
                })
            } else {
                let req = ControlRequest::SetPriority {
                    pid: e.info.pid,
                    from: e.priority,
                    to: spec_lower(e.priority),
                    raising: false,
                };
                r == (KeyAction::Control { request: req, refresh_after: true }) && after == (App {
                    pending_control: Some(PendingControl { request: req, name: e.info.name }),
                    ..base
                })
            },
        },
        Command::CycleSort => {
            &&& r == KeyAction::Continue
            &&& after.sort_column == spec_next(base.sort_column)
            &&& after.sort_ascending == base.sort_ascending
            &&& after.processes@.to_multiset() == base.processes@.to_multiset()
            &&& sorted_by(after.sort_column, after.sort_ascending, after.processes@)
            &&& after.display_current()
            &&& after.error_message is None
        },
        Command::ToggleSortOrder => {
            &&& r == KeyAction::Continue
            &&& after.sort_column == base.sort_column
            &&& after.sort_ascending == !base.sort_ascending
            &&& after.processes@.to_multiset() == base.processes@.to_multiset()
            &&& sorted_by(after.sort_column, after.sort_ascending, after.processes@)
            &&& after.display_current()
            &&& after.error_message is None
        },
        Command::ToggleTree => {
            &&& r == KeyAction::Continue
            &&& after.tree_view_mode == !base.tree_view_mode
            &&& after.selected_index == 0
            &&& after.processes == base.processes
            &&& after.display_current()
            &&& after.error_message is None
        },
        Command::SlowerRefresh => r == KeyAction::Continue && after == (App {
            refresh_interval_ms: slower_interval(base.refresh_interval_ms),
            ..base
        }),
        Command::FasterRefresh => r == KeyAction::Continue && after == (App {
            refresh_interval_ms: faster_interval(base.refresh_interval_ms),
            ..base
        }),
        Command::BeginFilter => r == KeyAction::Continue && (base.view_mode == ViewMode::ProcessList
            ==> after == (App { view_mode: ViewMode::FilterInput, ..base })),
        Command::EndFilter => {
            &&& r == KeyAction::Continue
            &&& after.view_mode == ViewMode::ProcessList
            &&& after.filter == base.filter
            &&& after.display_current()
            &&& after.error_message is None
        },
        Command::FilterPush(ch) => {
            &&& r == KeyAction::Continue
            &&& after.filter@ == base.filter@.push(ch)
            &&& after.view_mode == base.view_mode
            &&& after.display_current()
            &&& after.error_message is None
        },
        Command::FilterPop => {
            &&& r == KeyAction::Continue
            &&& after.filter@ == if base.filter@.len() > 0 {
                base.filter@.drop_last()
            } else {
                base.filter@
            }
            &&& after.view_mode == base.view_mode
            &&& after.display_current()
            &&& after.error_message is None
        },
        Command::ClearFilter => {
            &&& r == KeyAction::Continue
            &&& after.filter@.len() == 0
            &&& after.view_mode == base.view_mode
            &&& after.display_current()
            &&& after.error_message is None
        },
        Command::ShowHelp => r == KeyAction::Continue && (base.view_mode == ViewMode::ProcessList
            ==> after == (App { view_mode: ViewMode::Help, help_scroll_offset: 0, ..base })),
        Command::CloseHelp => r == KeyAction::Continue && (base.view_mode == ViewMode::Help
            ==> after == (App { view_mode: ViewMode::ProcessList, ..base })),
        Command::OpenDetail => r == KeyAction::ReloadDetails && if base.view_mode
            == ViewMode::ProcessList && sel is Some {
            &&& after.view_mode == ViewMode::DetailView
            &&& after.detail_view_pid == Some(sel->0.info.pid)
            &&& after.detail_view_name == Some(sel->0.info.name)
            &&& after.detail_scroll_offset == 0
            &&& after.error_message is None
        } else {
            after == base
        },
        Command::CloseDetail => r == KeyAction::Continue && (base.view_mode == ViewMode::DetailView
            ==> after.view_mode == ViewMode::ProcessList && after.detail_view_pid is None
            && after.detail_scroll_offset == 0 && after.error_message is None),
        Command::OpenAffinity => after == base && match base.detail_view_pid {
            Some(pid) => r == KeyAction::ReadAffinity { pid },
            None => r == KeyAction::Continue,
        },
        Command::DetailUp => r == KeyAction::Continue && after == (App {
            detail_scroll_offset: sat_sub_usize(base.detail_scroll_offset, 1),
            ..base
        }),
        Command::DetailDown => r == KeyAction::Continue && after == (App {
            detail_scroll_offset: if base.detail_scroll_offset < page {
                (base.detail_scroll_offset + 1) as usize
            } else {
                base.detail_scroll_offset
            },
            ..base
        }),
        Command::DetailPageUp => r == KeyAction::Continue && after == (App {
            detail_scroll_offset: sat_sub_usize(base.detail_scroll_offset, visible_rows),
            ..base
        }),
        Command::DetailPageDown => r == KeyAction::Continue && after == (App {
            detail_scroll_offset: if base.detail_scroll_offset + visible_rows < page {
                (base.detail_scroll_offset + visible_rows) as usize
            } else {
                page
            },
            ..base
        }),
        Command::DetailTop => r == KeyAction::Continue && after == (App {
            detail_scroll_offset: 0,
            ..base
        }),
        Command::DetailBottom => r == KeyAction::Continue && after == (App {
            detail_scroll_offset: page,
            ..base
        }),
        Command::MoveUp => r == KeyAction::Continue && after == (App {
            selected_index: sat_sub_usize(base.selected_index, 1),
            ..base
        }),
        Command::MoveDown => r == KeyAction::Continue && after == (App {
            selected_index: if base.selected_index + 1 < base.filtered_processes@.len() {
                (base.selected_index + 1) as usize
            } else {
                base.selected_index
            },
            ..base
        }),
        Command::PageUp => r == KeyAction::Continue && after == (App {
            selected_index: sat_sub_usize(base.selected_index, visible_rows),
            ..base
        }),
        Command::PageDown => {
            let last = sat_sub_usize(base.filtered_processes@.len() as usize, 1);
            r == KeyAction::Continue && after == (App {
                selected_index: if base.selected_index + visible_rows < last {
                    (base.selected_index + visible_rows) as usize
                } else {
                    last
                },
                ..base
            })
        },
        Command::JumpStart => r == KeyAction::Continue && after == (App {
            selected_index: 0,
            ..base
        }),
        Command::JumpEnd => r == KeyAction::Continue && after == (App {
            selected_index: sat_sub_usize(base.filtered_processes@.len() as usize, 1),
            ..base
        }),
        Command::CloseAffinity => r == KeyAction::Continue && (base.view_mode == ViewMode::Affinity
            ==> after == (App { view_mode: ViewMode::DetailView, affinity: None, ..base })),
        Command::ApplyAffinity => after.affinity == base.affinity && match base.affinity {
            None => r == KeyAction::Continue && after == base,
            Some(a) => match spec_checked_mask(a.pid, a.mask, a.system_mask) {
                Err(error) => r == KeyAction::Continue && after.error_message == Some(
                    StatusMessage::AffinityFailed { error },
                ),
                Ok(mask) => r == (KeyAction::Control {
                    request: ControlRequest::SetAffinity { pid: a.pid, mask },
                    refresh_after: false,
                }) && after.pending_control == Some(
                    PendingControl {
                        request: ControlRequest::SetAffinity { pid: a.pid, mask },
                        name: a.name,
                    },
                ),
            },
        },
        Command::ToggleCore => r == KeyAction::Continue && match base.affinity {
            None => after == base,
            Some(a) => if a.selected_core < a.total_cores && (a.selected_core as u64) < 64 {
                let t = spec_toggle_core(a.mask, a.selected_core as u64);
                &&& after.affinity == Some(AffinityEditState { mask: t.0, ..a })
                &&& after.error_message == if t.1 {
                    Some(StatusMessage::LastCoreKept)
                } else {
                    None
                }
            } else {
                after == base
            },
        },
        Command::AllCores => r == KeyAction::Continue && after.error_message is None && match base.affinity {
            Some(a) => a.total_cores > 0 ==> after.affinity == Some(
                AffinityEditState {
                    mask: if a.total_cores >= 64 {
                        u64::MAX
                    } else {
                        ((1u64 << a.total_cores as u64) - 1) as u64
                    },
                    ..a
                },
            ),
            None => after == base,
        },
        Command::SingleCore => r == KeyAction::Continue && after.error_message is None && match base.affinity {
            Some(a) => after.affinity == Some(AffinityEditState { mask: 1, ..a }),
            None => after == base,
        },
        Command::CoreLeft => r == KeyAction::Continue && after.error_message is None && match base.affinity {
            Some(a) => after.affinity == Some(
                AffinityEditState {
                    selected_core: if a.selected_core > 0 {
                        (a.selected_core - 1) as u32
                    } else {
                        0
                    },
                    ..a
                },
            ),
            None => after == base,
        },
        Command::CoreRight => r == KeyAction::Continue && after.error_message is None && match base.affinity {
            Some(a) => after.affinity == Some(
                AffinityEditState {
                    selected_core: if a.selected_core + 1 < a.total_cores {
                        (a.selected_core + 1) as u32
                    } else {
                        a.selected_core
                    },
                    ..a
                },
            ),
            None => after == base,
        },
    }
}

impl App {
    /// Handles one key press in the current mode. The previous status report
    /// is cleared first. `visible_rows` is the height of a page and
    /// `detail_lines` the length of the detail view.
    pub fn handle_key(&mut self, key: Key, visible_rows: usize, detail_lines: usize) -> (r:
        KeyAction)
        requires
            old(self).wf(),
        ensures
            final(self).wf(),
            (r == KeyAction::Exit) == (key_command(old(self).view_mode, key) == Command::Quit),
            key_handled(
                App { error_message: None, ..*old(self) },
                *final(self),
                key_command(old(self).view_mode, key),
                r,
                visible_rows,
                detail_lines,
            ),
            key_command(old(self).view_mode, key) == Command::Nothing ==> *final(self) == (App {
                error_message: None,
                ..*old(self)
            }) && r == KeyAction::Continue,
            key_command(old(self).view_mode, key) == Command::Export ==> r == KeyAction::Export,
            r is Control ==> final(self).pending_control is Some
                && final(self).pending_control->0.request == r->request,
            key_command(old(self).view_mode, key) == Command::ConfirmKill || key_command(
                old(self).view_mode,
                key,
            ) == Command::CancelKill ==> final(self).view_mode == ViewMode::ProcessList
                && final(self).pending_kill is None,
    {
        self.error_message = None;
        let command = command_for(self.view_mode, key);
        match command {
            Command::Quit => KeyAction::Exit,
            Command::RequestKill => {
                self.request_kill();
                KeyAction::Continue
            },
            Command::ConfirmKill => {
                let r = self.confirm_kill();
                control(r, true)
            },
            Command::CancelKill => {
                self.cancel_kill();
                KeyAction::Continue
            },
            Command::ToggleSuspend => {
                let r = self.toggle_suspend();
                control(r, false)
            },
            Command::RaisePriority => {
                let r = self.raise_priority();
                control(r, true)
            },
            Command::LowerPriority => {
                let r = self.lower_priority();
                control(r, true)
            },
            Command::CycleSort => {
                self.cycle_sort();
                KeyAction::Continue
            },
            Command::ToggleSortOrder => {
                self.toggle_sort_order();
                KeyAction::Continue
            },
            Command::ToggleTree => {
                self.toggle_tree_view();
                KeyAction::Continue
            },
            Command::Export => KeyAction::Export,
            Command::SlowerRefresh => {
                self.increase_refresh_interval();
                KeyAction::Continue
            },
            Command::FasterRefresh => {
                self.decrease_refresh_interval();
                KeyAction::Continue
            },
            Command::BeginFilter => {
                self.begin_filter_input();
                KeyAction::Continue
            },
            Command::EndFilter => {
                self.end_filter_input();
                KeyAction::Continue
            },
            Command::FilterPush(c) => {
                self.push_filter_char(c);
                KeyAction::Continue
            },
            Command::FilterPop => {
                self.pop_filter_char();
                KeyAction::Continue
            },
            Command::ClearFilter => {
                self.clear_filter();
                KeyAction::Continue
            },
            Command::ShowHelp => {
                self.show_help();
                KeyAction::Continue
            },
            Command::CloseHelp => {
                self.close_help();
                KeyAction::Continue
            },
            Command::OpenDetail => {
                self.open_detail_view();
                KeyAction::ReloadDetails
            },
            Command::CloseDetail => {
                self.close_detail_view();
                KeyAction::Continue
            },
            Command::KillFromDetail => {
                self.close_detail_view();
                self.request_kill();
                KeyAction::Continue
            },
            Command::OpenAffinity => match self.detail_view_pid {
                Some(pid) => KeyAction::ReadAffinity { pid },
                None => KeyAction::Continue,
            },
            Command::DetailUp => {
                self.detail_scroll_up();
                KeyAction::Continue
            },
            Command::DetailDown => {
                self.detail_scroll_down(detail_lines);
                KeyAction::Continue
            },
            Command::DetailPageUp => {
                self.detail_page_up(visible_rows);
                KeyAction::Continue
            },
            Command::DetailPageDown => {
                self.detail_page_down(visible_rows, detail_lines);
                KeyAction::Continue
            },
            Command::DetailTop => {
                self.detail_scroll_offset = 0;
                KeyAction::Continue
            },
            Command::DetailBottom => {
                self.detail_page_down(usize::MAX, detail_lines);
                KeyAction::Continue
            },
            Command::MoveUp => {
                self.move_up();
                KeyAction::Continue
            },
            Command::MoveDown => {
                self.move_down();
                KeyAction::Continue
            },
            Command::PageUp => {
                self.page_up(visible_rows);
                KeyAction::Continue
            },
            Command::PageDown => {
                self.page_down(visible_rows);
                KeyAction::Continue
            },
            Command::JumpStart => {
                self.jump_to_start();
                KeyAction::Continue
            },
            Command::JumpEnd => {
                self.jump_to_end();
                KeyAction::Continue
            },
            Command::CloseAffinity => {
                self.close_affinity_dialog();
                KeyAction::Continue
            },
            Command::ApplyAffinity => {
                let r = self.apply_affinity();
                control(r, false)
            },
            Command::ToggleCore => {
                self.toggle_affinity_core();
                KeyAction::Continue
            },
            Command::AllCores => {
                self.select_all_cores();
                KeyAction::Continue
            },
            Command::SingleCore => {
                self.select_single_core();
                KeyAction::Continue
            },
            Command::CoreLeft => {
                self.affinity_move_left();
                KeyAction::Continue
            },
            Command::CoreRight => {
                self.affinity_move_right();
                KeyAction::Continue
            },
            Command::Nothing => KeyAction::Continue,
        }
    }
}

} // verus!
