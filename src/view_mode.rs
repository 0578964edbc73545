use vstd::prelude::*;

verus! {

/// The mode the operator is in. Exactly one is active at a time.
#[derive(Debug, Clone, Copy, PartialEq, Eq, Structural)]
pub enum ViewMode {
    /// The process list (the initial mode).
    ProcessList,
    /// Typing a name filter.
    FilterInput,
    /// Waiting for a yes/no answer to a kill request.
    ConfirmKill,
    /// Looking at one process in detail.
    DetailView,
    /// The help overlay.
    Help,
    /// Editing the CPU affinity of the process in detail view.
    Affinity,
}

impl ViewMode {
    /// The mode the engine starts in.
    pub fn initial() -> (r: ViewMode)
        ensures
            r == ViewMode::ProcessList,
    {
        ViewMode::ProcessList
    }

    /// Whether this is the process list.
    pub fn is_process_list(&self) -> (r: bool)
        ensures
            r == (*self == ViewMode::ProcessList),
    {
        matches!(self, ViewMode::ProcessList)
    }

    /// Whether this is the detail view.
    pub fn is_detail_view(&self) -> (r: bool)
        ensures
            r == (*self == ViewMode::DetailView),
    {
        matches!(self, ViewMode::DetailView)
    }

    /// Whether this is the help overlay.
    pub fn is_help(&self) -> (r: bool)
        ensures
            r == (*self == ViewMode::Help),
    {
        matches!(self, ViewMode::Help)
    }

    /// Whether this is the affinity editor.
    pub fn is_affinity(&self) -> (r: bool)
        ensures
            r == (*self == ViewMode::Affinity),
    {
        matches!(self, ViewMode::Affinity)
    }

    /// Whether this is filter input.
    pub fn is_filter_input(&self) -> (r: bool)
        ensures
            r == (*self == ViewMode::FilterInput),
    {
        matches!(self, ViewMode::FilterInput)
    }

    /// Whether this is kill confirmation.
    pub fn is_confirm_kill(&self) -> (r: bool)
        ensures
            r == (*self == ViewMode::ConfirmKill),
    {
        matches!(self, ViewMode::ConfirmKill)
    }
}

} // verus!
