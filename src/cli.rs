use crate::sort::SortColumn;
use crate::text::{lower_of, lowercase, parse_u64, spec_parse_u64, str_eq};
use vstd::prelude::*;

verus! {

/// Default refresh interval in milliseconds.
pub const DEFAULT_REFRESH_MS: u64 = 2000;

/// Shortest refresh interval accepted, in milliseconds.
pub const MIN_REFRESH_MS: u64 = 250;

/// Longest refresh interval accepted, in milliseconds.
pub const MAX_REFRESH_MS: u64 = 10000;

/// Start-up configuration.
#[derive(Debug)]
pub struct Args {
    /// Refresh interval in milliseconds.
    pub refresh: u64,
    /// Initial filter text.
    pub filter: Option<String>,
    /// Initial sort column.
    pub sort: SortColumn,
    /// Start with the direction reversed.
    pub ascending: bool,
    /// Start in tree view.
    pub tree: bool,
    /// Export the list and exit instead of running interactively.
    pub export: bool,
}

impl Args {
    /// The configuration used when no option is given.
    pub fn defaults() -> (r: Args)
        ensures
            r.refresh == DEFAULT_REFRESH_MS,
            r.filter is None,
            r.sort == SortColumn::Cpu,
            !r.ascending && !r.tree && !r.export,
    {
        Args {
            refresh: DEFAULT_REFRESH_MS,
            filter: None,
            sort: SortColumn::Cpu,
            ascending: false,
            tree: false,
            export: false,
        }
    }
}

impl Default for Args {
    fn default() -> (r: Args)
        ensures
            r.refresh == DEFAULT_REFRESH_MS,
            r.filter is None,
            r.sort == SortColumn::Cpu,
            !r.ascending && !r.tree && !r.export,
    {
        Args::defaults()
    }
}

/// The column that a (lower-cased) option value names.
pub open spec fn spec_sort_name(s: Seq<char>) -> Option<SortColumn> {
    if s == "cpu"@ {
        Some(SortColumn::Cpu)
    } else if s == "memory"@ || s == "mem"@ {
        Some(SortColumn::Memory)
    } else if s == "name"@ {
        Some(SortColumn::Name)
    } else if s == "pid"@ {
        Some(SortColumn::Pid)
    } else if s == "priority"@ || s == "prio"@ {
        Some(SortColumn::Priority)
    } else if s == "threads"@ {
        Some(SortColumn::Threads)
    } else if s == "handles"@ {
        Some(SortColumn::Handles)
    } else if s == "uptime"@ {
        Some(SortColumn::Uptime)
    } else if s == "read"@ || s == "disk-read"@ {
        Some(SortColumn::DiskReadRate)
    } else if s == "write"@ || s == "disk-write"@ {
        Some(SortColumn::DiskWriteRate)
    } else {
        None
    }
}

/// The sort column named by an option value, ignoring case; `None` for an
/// unknown name.
pub fn parse_sort(s: &str) -> (r: Option<SortColumn>)
    ensures
        r == spec_sort_name(lower_of(s@)),
{
    let l = lowercase(s);
    sort_column_named(l.as_str())
}

/// The sort column that an already lower-cased option value names.
pub fn sort_column_named(k: &str) -> (r: Option<SortColumn>)
    ensures
        r == spec_sort_name(k@),
{
    if str_eq(k, "cpu") {
        Some(SortColumn::Cpu)
    } else if str_eq(k, "memory") || str_eq(k, "mem") {
        Some(SortColumn::Memory)
    } else if str_eq(k, "name") {
        Some(SortColumn::Name)
    } else if str_eq(k, "pid") {
        Some(SortColumn::Pid)
    } else if str_eq(k, "priority") || str_eq(k, "prio") {
        Some(SortColumn::Priority)
    } else if str_eq(k, "threads") {
        Some(SortColumn::Threads)
    } else if str_eq(k, "handles") {
        Some(SortColumn::Handles)
    } else if str_eq(k, "uptime") {
        Some(SortColumn::Uptime)
    } else if str_eq(k, "read") || str_eq(k, "disk-read") {
        Some(SortColumn::DiskReadRate)
    } else if str_eq(k, "write") || str_eq(k, "disk-write") {
        Some(SortColumn::DiskWriteRate)
    } else {
        None
    }
}

/// Why a refresh interval option was refused.
#[derive(Debug, Clone, Copy, PartialEq, Eq, Structural)]
pub enum RefreshArgError {
    /// The value is not a number.
    NotANumber,
    /// The value lies outside `MIN_REFRESH_MS ..= MAX_REFRESH_MS`.
    OutOfRange { ms: u64 },
}

/// The refresh interval given by an option value, in milliseconds.
pub fn parse_refresh(s: &str) -> (r: Result<u64, RefreshArgError>)
    ensures
        match spec_parse_u64(s@) {
            None => r == Err::<u64, RefreshArgError>(RefreshArgError::NotANumber),
            Some(ms) => if MIN_REFRESH_MS <= ms <= MAX_REFRESH_MS {
                r == Ok::<u64, RefreshArgError>(ms)
            } else {
                r == Err::<u64, RefreshArgError>(RefreshArgError::OutOfRange { ms })
            },
        },
{
    match parse_u64(s) {
        None => Err(RefreshArgError::NotANumber),
        Some(ms) => {
            if ms >= MIN_REFRESH_MS && ms <= MAX_REFRESH_MS {
                Ok(ms)
            } else {
                Err(RefreshArgError::OutOfRange { ms })
            }
        },
    }
}

} // verus!
