use crate::error::ProcessError;
use std::collections::HashSet;
use vstd::prelude::*;

verus! {

broadcast use vstd::std_specs::hash::group_hash_axioms;

/// Pids 0 and 4 are the kernel's own and are excluded from control operations.
pub open spec fn is_system_pid(pid: u32) -> bool {
    pid == 0 || pid == 4
}

/// The pids that this engine itself has suspended. Processes suspended or
/// resumed by other tools are not seen here.
#[derive(Debug)]
pub struct SuspendedPids {
    pids: HashSet<u32>,
}

impl View for SuspendedPids {
    type V = Set<u32>;

    closed spec fn view(&self) -> Set<u32> {
        self.pids@
    }
}

/// An empty set of suspended pids.
pub fn init_suspended_pids() -> (r: SuspendedPids)
    ensures
        r@ == Set::<u32>::empty(),
{
    SuspendedPids { pids: HashSet::new() }
}

/// Whether this engine has suspended `pid` (and not resumed it since).
pub fn is_process_suspended(suspended: &SuspendedPids, pid: u32) -> (r: bool)
    ensures
        r == suspended@.contains(pid),
{
    suspended.pids.contains(&pid)
}

/// Records that `pid` was suspended.
pub fn mark_suspended(suspended: &mut SuspendedPids, pid: u32)
    ensures
        final(suspended)@ == old(suspended)@.insert(pid),
{
    suspended.pids.insert(pid);
}

/// Records that `pid` was resumed.
pub fn mark_resumed(suspended: &mut SuspendedPids, pid: u32)
    ensures
        final(suspended)@ == old(suspended)@.remove(pid),
{
    suspended.pids.remove(&pid);
}

/// Stops tracking `pid`, e.g. once the process has terminated.
pub fn untrack_process(suspended: &mut SuspendedPids, pid: u32)
    ensures
        final(suspended)@ == old(suspended)@.remove(pid),
{
    suspended.pids.remove(&pid);
}

/// The provider call that a suspend/resume toggle asks for.
#[derive(Debug, Clone, Copy, PartialEq, Eq, Structural)]
pub enum SuspendRequest {
    Suspend,
    Resume,
}

/// Checks a suspend request before the provider is called.
pub fn check_suspend(suspended: &SuspendedPids, pid: u32) -> (r: Result<(), ProcessError>)
    ensures
        is_system_pid(pid) ==> r == Err::<(), ProcessError>(ProcessError::SystemProcess),
        !is_system_pid(pid) && suspended@.contains(pid) ==> r == Err::<(), ProcessError>(
            ProcessError::AlreadyInState { state: "suspended" },
        ),
        !is_system_pid(pid) && !suspended@.contains(pid) ==> r is Ok,
{
    if pid == 0 || pid == 4 {
        return Err(ProcessError::SystemProcess);
    }
    if is_process_suspended(suspended, pid) {
        return Err(ProcessError::AlreadyInState { state: "suspended" });
    }
    Ok(())
}

/// Checks a resume request before the provider is called.
pub fn check_resume(suspended: &SuspendedPids, pid: u32) -> (r: Result<(), ProcessError>)
    ensures
        is_system_pid(pid) ==> r == Err::<(), ProcessError>(ProcessError::SystemProcess),
        !is_system_pid(pid) && !suspended@.contains(pid) ==> r == Err::<(), ProcessError>(
            ProcessError::AlreadyInState { state: "running" },
        ),
        !is_system_pid(pid) && suspended@.contains(pid) ==> r is Ok,
{
    if pid == 0 || pid == 4 {
        return Err(ProcessError::SystemProcess);
    }
    if !is_process_suspended(suspended, pid) {
        return Err(ProcessError::AlreadyInState { state: "running" });
    }
    Ok(())
}

/// Decides which provider call toggles `pid`: resume where this engine has
/// suspended it, suspend otherwise; system pids are rejected.
pub fn toggle_suspend(suspended: &SuspendedPids, pid: u32) -> (r: Result<
    SuspendRequest,
    ProcessError,
>)
    ensures
        is_system_pid(pid) ==> r == Err::<SuspendRequest, ProcessError>(ProcessError::SystemProcess),
        !is_system_pid(pid) && suspended@.contains(pid) ==> r == Ok::<
            SuspendRequest,
            ProcessError,
        >(SuspendRequest::Resume),
        !is_system_pid(pid) && !suspended@.contains(pid) ==> r == Ok::<
            SuspendRequest,
            ProcessError,
        >(SuspendRequest::Suspend),
{
    if is_process_suspended(suspended, pid) {
        match check_resume(suspended, pid) {
            Ok(()) => Ok(SuspendRequest::Resume),
            Err(e) => Err(e),
        }
    } else {
        match check_suspend(suspended, pid) {
            Ok(()) => Ok(SuspendRequest::Suspend),
            Err(e) => Err(e),
        }
    }
}

/// Applies the provider's answer to a toggle: on success the set follows the
/// request and the result says whether `pid` is now suspended; on failure
/// the set is unchanged and the error is handed back.
pub fn record_suspend_outcome(
    suspended: &mut SuspendedPids,
    pid: u32,
    request: SuspendRequest,
    outcome: Result<(), ProcessError>,
) -> (r: Result<bool, ProcessError>)
    ensures
        outcome is Err ==> final(suspended)@ == old(suspended)@ && r == Err::<bool, ProcessError>(
            outcome->Err_0,
        ),
        outcome is Ok && request == SuspendRequest::Suspend ==> final(suspended)@ == old(
            suspended,
        )@.insert(pid) && r == Ok::<bool, ProcessError>(true),
        outcome is Ok && request == SuspendRequest::Resume ==> final(suspended)@ == old(
            suspended,
        )@.remove(pid) && r == Ok::<bool, ProcessError>(false),
{
    match outcome {
        Err(e) => Err(e),
        Ok(()) => match request {
            SuspendRequest::Suspend => {
                mark_suspended(suspended, pid);
                Ok(true)
            },
            SuspendRequest::Resume => {
                mark_resumed(suspended, pid);
                Ok(false)
            },
        },
    }
}

} // verus!
