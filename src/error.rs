use vstd::prelude::*;

verus! {

/// Failures of process operations (kill, suspend, resume).
#[derive(Debug, Clone, PartialEq, Eq)]
pub enum ProcessError {
    /// Pids 0 and 4 belong to the system and are never operated on.
    SystemProcess,
    /// The process does not exist or has already terminated.
    NotFound,
    /// The operating system refused access.
    AccessDenied,
    /// The process is already in the requested state.
    AlreadyInState { state: &'static str },
    /// The operating system handed back an unusable handle.
    InvalidHandle,
    /// An operating-system call failed with the given code.
    WinApiError { api: &'static str, code: i32 },
    /// A required system entry point could not be loaded.
    NtdllLoadFailed { function: &'static str },
    /// A parameter was rejected.
    InvalidParameter { reason: &'static str },
}

/// Failures of CPU affinity operations.
#[derive(Debug, Clone, Copy, PartialEq, Eq, Structural)]
pub enum AffinityError {
    /// The requested mask selects no core.
    NoCoresSelected,
    /// Pids 0 and 4 belong to the system and are never operated on.
    SystemProcess,
    /// The operating system refused access.
    AccessDenied,
    /// The current affinity could not be read.
    ReadFailed,
    /// The new affinity could not be set.
    SetFailed,
    /// None of the requested cores is available on this machine.
    InvalidCoreSelection,
}

/// Failures of priority changes.
#[derive(Debug, Clone, PartialEq, Eq)]
pub enum PriorityError {
    /// The process could not be opened for modification.
    OpenFailed { message: String },
    /// The priority class could not be set.
    SetFailed { message: String },
}

} // verus!
