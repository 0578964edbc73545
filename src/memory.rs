use crate::text::{decimal, format_bytes, bytes_text, div_round_even, tenths_text, u64_text, GIB};
use vstd::prelude::*;

verus! {

/// Physical and virtual memory of the machine, in bytes.
#[derive(Debug, Clone)]
pub struct SystemMemoryInfo {
    /// Share of physical memory in use, in percent.
    pub memory_load_percent: u32,
    pub total_physical: u64,
    pub available_physical: u64,
    pub total_page_file: u64,
    pub available_page_file: u64,
    pub total_virtual: u64,
    pub available_virtual: u64,
}

/// How `format_usage` describes memory use.
pub open spec fn usage_text(used: nat, total: nat, load: nat) -> Seq<char> {
    tenths_text(used, GIB as nat, "GB"@) + " / "@ + tenths_text(total, GIB as nat, "GB"@) + " ("@
        + decimal(load) + "%)"@
}

impl SystemMemoryInfo {
    /// Physical memory in use.
    pub fn used_physical(&self) -> (r: u64)
        requires
            self.available_physical <= self.total_physical,
        ensures
            r == self.total_physical - self.available_physical,
    {
        self.total_physical - self.available_physical
    }

    /// A description such as `"7.5 GB / 16.0 GB (47%)"`.
    pub fn format_usage(&self) -> (r: String)
        requires
            self.available_physical <= self.total_physical,
        ensures
            r@ == usage_text(
                (self.total_physical - self.available_physical) as nat,
                self.total_physical as nat,
                self.memory_load_percent as nat,
            ),
    {
        let used = self.used_physical();
        let a = gib_tenths(used);
        let b = gib_tenths(self.total_physical);
        a.concat(" / ").concat(b.as_str()).concat(" (").concat(
            u64_text(self.memory_load_percent as u64).as_str(),
        ).concat("%)")
    }
}

fn gib_tenths(bytes: u64) -> (r: String)
    ensures
        r@ == tenths_text(bytes as nat, GIB as nat, "GB"@),
{
    let t = crate::text::div_round_even_exec(bytes as u128 * 10, GIB as u128);
    assert(t <= bytes as u128 * 10) by (nonlinear_arith)
        requires
            t == div_round_even(bytes as nat * 10, GIB as nat),
    ;
    u64_text((t / 10) as u64).concat(".").concat(u64_text((t % 10) as u64).as_str()).concat(
        " ",
    ).concat("GB")
}

/// Memory figures of one process, in bytes.
#[derive(Debug, Clone, Copy, PartialEq, Eq, Structural)]
pub struct ProcessMemoryInfo {
    pub working_set: u64,
    pub peak_working_set: u64,
    pub private_bytes: u64,
}

impl ProcessMemoryInfo {
    /// The working set as `format_bytes` shows it.
    pub fn format_working_set(&self) -> (r: String)
        ensures
            r@ == bytes_text(self.working_set as nat),
    {
        format_bytes(self.working_set)
    }
}

/// Cumulative disk counters of one process.
#[derive(Debug, Clone, Copy, PartialEq, Eq, Structural)]
pub struct ProcessDiskInfo {
    pub read_bytes: u64,
    pub write_bytes: u64,
    pub read_ops: u64,
    pub write_ops: u64,
}

impl ProcessDiskInfo {
    /// Bytes read and written together.
    pub fn total_io(&self) -> (r: u64)
        requires
            self.read_bytes + self.write_bytes <= u64::MAX,
        ensures
            r == self.read_bytes + self.write_bytes,
    {
        self.read_bytes + self.write_bytes
    }
}

} // verus!
