use crate::error::{AffinityError, PriorityError, ProcessError};
use crate::priority::spec_name;
use crate::state::StatusMessage;
use crate::text::{decimal, u64_text};
use vstd::prelude::*;

verus! {

/// The hexadecimal digit character for `d` (`d < 16`), upper case.
pub open spec fn hex_digit(d: int) -> char {
    if d < 10 {
        crate::text::digit_char(d)
    } else if d == 10 {
        'A'
    } else if d == 11 {
        'B'
    } else if d == 12 {
        'C'
    } else if d == 13 {
        'D'
    } else if d == 14 {
        'E'
    } else {
        'F'
    }
}

/// The lowest `width` hexadecimal digits of `v`, most significant first.
pub open spec fn hex_digits(v: nat, width: nat) -> Seq<char>
    decreases width,
{
    if width == 0 {
        Seq::empty()
    } else {
        hex_digits(v / 16, (width - 1) as nat).push(hex_digit((v % 16) as int))
    }
}

/// The 32-bit two's-complement pattern of `code`.
pub open spec fn bits32(code: i32) -> nat {
    (if code < 0 {
        code + 0x1_0000_0000
    } else {
        code as int
    }) as nat
}

/// Relies on `UpperHex for i32` with `{:08X}`: the two's-complement bits as
/// eight upper-case hexadecimal digits.
#[verifier::external_body]
fn hex8(code: i32) -> (r: String)
    ensures
        r@ == hex_digits(bits32(code), 8),
{
    format!("{:08X}", code)
}

/// The message for a process-operation failure.
pub open spec fn process_error_text(e: ProcessError) -> Seq<char> {
    match e {
        ProcessError::SystemProcess => "Cannot perform operation on system processes"@,
        ProcessError::NotFound => "Process not found or has terminated"@,
        ProcessError::AccessDenied => "Access denied - try running as Administrator"@,
        ProcessError::AlreadyInState { state } => "Process is already "@ + state@,
        ProcessError::InvalidHandle => "Invalid process handle"@,
        ProcessError::WinApiError { api, code } => api@ + " failed (error code: 0x"@ + hex_digits(
            bits32(code),
            8,
        ) + ")"@,
        ProcessError::NtdllLoadFailed { function } => "Failed to load "@ + function@
            + " from ntdll.dll"@,
        ProcessError::InvalidParameter { reason } => "Invalid parameter: "@ + reason@,
    }
}

/// The message for an affinity failure.
pub open spec fn affinity_error_text(e: AffinityError) -> Seq<char> {
    match e {
        AffinityError::NoCoresSelected => "At least one core must be selected"@,
        AffinityError::SystemProcess => "Cannot modify system process affinity"@,
        AffinityError::AccessDenied => "Access denied - try running as Administrator"@,
        AffinityError::ReadFailed => "Cannot read process affinity"@,
        AffinityError::SetFailed => "Failed to set affinity - access denied"@,
        AffinityError::InvalidCoreSelection => "Invalid core selection"@,
    }
}

/// The message for a priority failure.
pub open spec fn priority_error_text(e: PriorityError) -> Seq<char> {
    match e {
        PriorityError::OpenFailed { message } => "Cannot open process: "@ + message@,
        PriorityError::SetFailed { message } => "Failed to set priority: "@ + message@,
    }
}

fn text_of(s: &str) -> (r: String)
    ensures
        r@ == s@,
{
    s.to_string()
}

impl ProcessError {
    /// A short message for the operator.
    pub fn message(&self) -> (r: String)
        ensures
            r@ == process_error_text(*self),
    {
        match self {
            ProcessError::SystemProcess => text_of("Cannot perform operation on system processes"),
            ProcessError::NotFound => text_of("Process not found or has terminated"),
            ProcessError::AccessDenied => text_of("Access denied - try running as Administrator"),
            ProcessError::AlreadyInState { state } => text_of("Process is already ").concat(state),
            ProcessError::InvalidHandle => text_of("Invalid process handle"),
            ProcessError::WinApiError { api, code } => text_of(api).concat(
                " failed (error code: 0x",
            ).concat(hex8(*code).as_str()).concat(")"),
            ProcessError::NtdllLoadFailed { function } => text_of("Failed to load ").concat(
                function,
            ).concat(" from ntdll.dll"),
            ProcessError::InvalidParameter { reason } => text_of("Invalid parameter: ").concat(
                reason,
            ),
        }
    }
}

impl AffinityError {
    /// A short message for the operator.
    pub fn message(&self) -> (r: String)
        ensures
            r@ == affinity_error_text(*self),
    {
        match self {
            AffinityError::NoCoresSelected => text_of("At least one core must be selected"),
            AffinityError::SystemProcess => text_of("Cannot modify system process affinity"),
            AffinityError::AccessDenied => text_of("Access denied - try running as Administrator"),
            AffinityError::ReadFailed => text_of("Cannot read process affinity"),
            AffinityError::SetFailed => text_of("Failed to set affinity - access denied"),
            AffinityError::InvalidCoreSelection => text_of("Invalid core selection"),
        }
    }
}

impl PriorityError {
    /// A short message for the operator.
    pub fn message(&self) -> (r: String)
        ensures
            r@ == priority_error_text(*self),
    {
        match self {
            PriorityError::OpenFailed { message } => text_of("Cannot open process: ").concat(
                message.as_str(),
            ),
            PriorityError::SetFailed { message } => text_of("Failed to set priority: ").concat(
                message.as_str(),
            ),
        }
    }
}

/// `"<name> (PID <pid>)"`.
pub open spec fn named_pid(name: Seq<char>, pid: u32) -> Seq<char> {
    name + " (PID "@ + decimal(pid as nat) + ")"@
}

/// The status line for each report.
pub open spec fn status_text(m: StatusMessage) -> Seq<char> {
    match m {
        StatusMessage::EnumerationFailed { reason } => "Failed to enumerate processes: "@ + reason@,
        StatusMessage::KillPrompt { name, pid } => "Kill "@ + named_pid(name@, pid)
            + "? Press Y to confirm, N to cancel"@,
        StatusMessage::Terminated { name, pid } => "Terminated process: "@ + named_pid(name@, pid),
        StatusMessage::TerminateFailed { name, pid, error } => "Failed to terminate "@ + named_pid(
            name@,
            pid,
        ) + ": "@ + process_error_text(error),
        StatusMessage::AlreadyAtMaximum { name } => name@ + " is already at maximum priority"@,
        StatusMessage::AlreadyAtMinimum { name } => name@ + " is already at minimum priority"@,
        StatusMessage::PriorityChanged { name, from, to } => name@ + ": "@ + spec_name(from)
            + " \u{2192} "@ + spec_name(to),
        StatusMessage::PriorityFailed { raising, error } => (if raising {
            "Failed to raise priority: "@
        } else {
            "Failed to lower priority: "@
        }) + priority_error_text(error),
        StatusMessage::Suspended { name, pid } => "Suspended: "@ + named_pid(name@, pid),
        StatusMessage::Resumed { name, pid } => "Resumed: "@ + named_pid(name@, pid),
        StatusMessage::SuspendFailed { error } => "Failed: "@ + process_error_text(error),
        StatusMessage::AffinityUnreadable => "Cannot read process affinity"@,
        StatusMessage::LastCoreKept => "At least one core must be selected"@,
        StatusMessage::AffinitySet { cores } => "Set affinity to "@ + decimal(cores as nat) + (if cores
            == 1 {
            " core"@
        } else {
            " cores"@
        }),
        StatusMessage::AffinityFailed { error } => affinity_error_text(error),
        StatusMessage::ProcessGone => "Process no longer exists"@,
        StatusMessage::Exported { count, path } => "Exported "@ + decimal(count as nat)
            + " processes to "@ + path@,
        StatusMessage::ExportFailed { reason } => "Export failed: "@ + reason@,
    }
}

fn named_pid_text(name: &String, pid: u32) -> (r: String)
    ensures
        r@ == named_pid(name@, pid),
{
    name.clone().concat(" (PID ").concat(u64_text(pid as u64).as_str()).concat(")")
}

impl StatusMessage {
    /// The status line shown for this report.
    pub fn text(&self) -> (r: String)
        ensures
            r@ == status_text(*self),
    {
        match self {
            StatusMessage::EnumerationFailed { reason } => text_of("Failed to enumerate processes: ").concat(
                reason.as_str(),
            ),
            StatusMessage::KillPrompt { name, pid } => text_of("Kill ").concat(
                named_pid_text(name, *pid).as_str(),
            ).concat("? Press Y to confirm, N to cancel"),
            StatusMessage::Terminated { name, pid } => text_of("Terminated process: ").concat(
                named_pid_text(name, *pid).as_str(),
            ),
            StatusMessage::TerminateFailed { name, pid, error } => text_of(
                "Failed to terminate ",
            ).concat(named_pid_text(name, *pid).as_str()).concat(": ").concat(
                error.message().as_str(),
            ),
            StatusMessage::AlreadyAtMaximum { name } => name.clone().concat(
                " is already at maximum priority",
            ),
            StatusMessage::AlreadyAtMinimum { name } => name.clone().concat(
                " is already at minimum priority",
            ),
            StatusMessage::PriorityChanged { name, from, to } => name.clone().concat(": ").concat(
                from.name(),
            ).concat(" \u{2192} ").concat(to.name()),
            StatusMessage::PriorityFailed { raising, error } => {
                let head = if *raising {
                    text_of("Failed to raise priority: ")
                } else {
                    text_of("Failed to lower priority: ")
                };
                head.concat(error.message().as_str())
            },
            StatusMessage::Suspended { name, pid } => text_of("Suspended: ").concat(
                named_pid_text(name, *pid).as_str(),
            ),
            StatusMessage::Resumed { name, pid } => text_of("Resumed: ").concat(
                named_pid_text(name, *pid).as_str(),
            ),
            StatusMessage::SuspendFailed { error } => text_of("Failed: ").concat(
                error.message().as_str(),
            ),
            StatusMessage::AffinityUnreadable => text_of("Cannot read process affinity"),
            StatusMessage::LastCoreKept => text_of("At least one core must be selected"),
            StatusMessage::AffinitySet { cores } => {
                let unit = if *cores == 1 {
                    " core"
                } else {
                    " cores"
                };
                text_of("Set affinity to ").concat(u64_text(*cores as u64).as_str()).concat(unit)
            },
            StatusMessage::AffinityFailed { error } => error.message(),
            StatusMessage::ProcessGone => text_of("Process no longer exists"),
            StatusMessage::Exported { count, path } => text_of("Exported ").concat(
                u64_text(*count as u64).as_str(),
            ).concat(" processes to ").concat(path.as_str()),
            StatusMessage::ExportFailed { reason } => text_of("Export failed: ").concat(
                reason.as_str(),
            ),
        }
    }
}

} // verus!
