use crate::error::AffinityError;
use crate::suspend::is_system_pid;
use crate::text::{decimal, u64_text};
use vstd::prelude::*;

verus! {

/// Bit `i` of `mask` is set: logical core `i` is selected.
pub open spec fn core_selected(mask: u64, i: u64) -> bool {
    (mask >> i) & 1u64 == 1u64
}

/// The indices of the set bits of `mask` below `n`, ascending.
pub open spec fn set_bits_below(mask: u64, n: nat) -> Seq<u32>
    decreases n,
{
    if n == 0 {
        Seq::empty()
    } else if core_selected(mask, (n - 1) as u64) {
        set_bits_below(mask, (n - 1) as nat).push((n - 1) as u32)
    } else {
        set_bits_below(mask, (n - 1) as nat)
    }
}

/// The mask to hand to the operating system for a requested selection:
/// the requested cores that the machine has. An empty request, a system
/// pid, and a request that shares no core with the machine are refused, in
/// that order.
pub open spec fn spec_checked_mask(pid: u32, core_mask: u64, system_mask: u64) -> Result<
    u64,
    AffinityError,
> {
    if core_mask == 0 {
        Err(AffinityError::NoCoresSelected)
    } else if is_system_pid(pid) {
        Err(AffinityError::SystemProcess)
    } else if core_mask & system_mask == 0 {
        Err(AffinityError::InvalidCoreSelection)
    } else {
        Ok(core_mask & system_mask)
    }
}

/// Validates an affinity request against the machine's available cores and
/// returns the mask to apply.
pub fn checked_affinity_mask(pid: u32, core_mask: u64, system_mask: u64) -> (r: Result<
    u64,
    AffinityError,
>)
    ensures
        r == spec_checked_mask(pid, core_mask, system_mask),
        r is Ok ==> r->Ok_0 != 0,
{
    if core_mask == 0 {
        return Err(AffinityError::NoCoresSelected);
    }
    if pid == 0 || pid == 4 {
        return Err(AffinityError::SystemProcess);
    }
    let valid = core_mask & system_mask;
    if valid == 0 {
        return Err(AffinityError::InvalidCoreSelection);
    }
    Ok(valid)
}

/// The selection after toggling core `core`, and whether the toggle was
/// refused because it would have left no core selected.
pub open spec fn spec_toggle_core(mask: u64, core: u64) -> (u64, bool) {
    let flipped = mask ^ (1u64 << core);
    if flipped == 0 {
        (mask | (1u64 << core), true)
    } else {
        (flipped, false)
    }
}

/// Flips core `core` in `mask`; where that would leave no core selected the
/// core stays selected and the refusal is reported.
pub fn toggle_core(mask: u64, core: u64) -> (r: (u64, bool))
    requires
        core < 64,
    ensures
        r == spec_toggle_core(mask, core),
        r.0 != 0,
        r.1 <==> mask == (1u64 << core),
        r.1 ==> r.0 == mask,
{
    let bit = 1u64 << core;
    assert(bit != 0) by (bit_vector)
        requires
            bit == 1u64 << core,
            core < 64,
    ;
    let flipped = mask ^ bit;
    assert((flipped == 0) == (mask == bit)) by (bit_vector)
        requires
            flipped == mask ^ bit,
    ;
    if flipped == 0 {
        assert(mask | bit == mask) by (bit_vector)
            requires
                mask == bit,
        ;
        (mask | bit, true)
    } else {
        (flipped, false)
    }
}

/// Whether core `core` is selected in `mask`; cores past the mask's width are not.
pub fn is_core_in_mask(mask: u64, core: u64) -> (r: bool)
    ensures
        core < 64 ==> r == core_selected(mask, core),
        core >= 64 ==> !r,
{
    if core >= 64 {
        false
    } else {
        (mask >> core) & 1 == 1
    }
}

/// Number of selected cores.
pub fn count_cores(mask: u64) -> (r: u32)
    ensures
        r as nat == set_bits_below(mask, 64).len(),
{
    let mut n: u32 = 0;
    let mut i: u64 = 0;
    while i < 64
        invariant
            i <= 64,
            n as nat == set_bits_below(mask, i as nat).len(),
            n <= i,
        decreases 64 - i,
    {
        if (mask >> i) & 1 == 1 {
            n += 1;
        }
        i += 1;
    }
    n
}

/// CPU affinity of a process.
#[derive(Debug, Clone)]
pub struct CpuAffinity {
    /// Cores the process may run on.
    pub process_mask: u64,
    /// Cores available on the machine.
    pub system_mask: u64,
    /// Number of cores the process may run on.
    pub allowed_cores: u32,
    /// Number of logical cores of the machine.
    pub total_cores: u32,
    /// Indices of the cores the process may run on, ascending.
    pub core_list: Vec<u32>,
}

/// `", "`-separated decimal core indices.
pub open spec fn core_list_text(cores: Seq<u32>) -> Seq<char>
    decreases cores.len(),
{
    if cores.len() == 0 {
        Seq::empty()
    } else if cores.len() == 1 {
        decimal(cores[0] as nat)
    } else {
        core_list_text(cores.drop_last()) + ", "@ + decimal(cores.last() as nat)
    }
}

/// How `CpuAffinity::format` describes an affinity.
pub open spec fn affinity_text(allowed: u32, total: u32, cores: Seq<u32>) -> Seq<char> {
    if allowed == total {
        decimal(allowed as nat) + "/"@ + decimal(total as nat) + " cores (All cores)"@
    } else if allowed == 0 {
        "Unknown"@
    } else {
        decimal(allowed as nat) + "/"@ + decimal(total as nat) + " cores (Cores: "@
            + core_list_text(cores) + ")"@
    }
}

impl CpuAffinity {
    /// The affinity described by a process mask, the machine's mask and the
    /// machine's core count.
    pub fn from_masks(process_mask: u64, system_mask: u64, total_cores: u32) -> (r: CpuAffinity)
        ensures
            r.process_mask == process_mask,
            r.system_mask == system_mask,
            r.total_cores == total_cores,
            r.core_list@ == set_bits_below(process_mask, 64),
            r.allowed_cores as nat == r.core_list@.len(),
    {
        let mut core_list: Vec<u32> = Vec::new();
        let mut i: u64 = 0;
        while i < 64
            invariant
                i <= 64,
                core_list@ == set_bits_below(process_mask, i as nat),
                core_list@.len() <= i,
            decreases 64 - i,
        {
            if (process_mask >> i) & 1 == 1 {
                core_list.push(i as u32);
            }
            i += 1;
        }
        let allowed_cores = core_list.len() as u32;
        CpuAffinity { process_mask, system_mask, allowed_cores, total_cores, core_list }
    }

    /// A description such as `"4/8 cores (Cores: 0, 1, 2, 3)"`.
    pub fn format(&self) -> (r: String)
        ensures
            r@ == affinity_text(self.allowed_cores, self.total_cores, self.core_list@),
    {
        if self.allowed_cores == self.total_cores {
            u64_text(self.allowed_cores as u64).concat("/").concat(
                u64_text(self.total_cores as u64).as_str(),
            ).concat(" cores (All cores)")
        } else if self.allowed_cores == 0 {
            "Unknown".to_string()
        } else {
            let mut list = String::new();
            let mut i: usize = 0;
            while i < self.core_list.len()
                invariant
                    i <= self.core_list@.len(),
                    list@ == core_list_text(self.core_list@.subrange(0, i as int)),
                decreases self.core_list@.len() - i,
            {
                let digits = u64_text(self.core_list[i] as u64);
                proof {
                    let next = self.core_list@.subrange(0, i + 1);
                    assert(next.drop_last() =~= self.core_list@.subrange(0, i as int));
                }
                if i == 0 {
                    list = digits;
                } else {
                    list = list.concat(", ").concat(digits.as_str());
                }
                i += 1;
            }
            assert(self.core_list@.subrange(0, self.core_list@.len() as int) == self.core_list@);
            u64_text(self.allowed_cores as u64).concat("/").concat(
                u64_text(self.total_cores as u64).as_str(),
            ).concat(" cores (Cores: ").concat(list.as_str()).concat(")")
        }
    }
}


/// The affinity editor's state: its target, the cores selected so far, the
/// machine's available cores and the cursor.
#[derive(Debug, Clone)]
pub struct AffinityEditState {
    pub pid: u32,
    pub name: String,
    /// Selected cores; never empty.
    pub mask: u64,
    /// Cores available on the machine.
    pub system_mask: u64,
    /// Number of logical cores of the machine.
    pub total_cores: u32,
    /// Index of the core under the cursor.
    pub selected_core: u32,
}

impl AffinityEditState {
    /// At least one core is selected and the cursor stays on a core.
    pub open spec fn wf(&self) -> bool {
        &&& self.mask != 0
        &&& (self.total_cores == 0 && self.selected_core == 0) || self.selected_core
            < self.total_cores
    }
}

} // verus!
