use vstd::prelude::*;

verus! {

/// Scheduling priority class of a process, lowest to highest, with
/// `Unknown` for a class that could not be read.
#[derive(Debug, Clone, Copy, PartialEq, Eq, Structural, PartialOrd, Ord)]
pub enum Priority {
    Idle,
    BelowNormal,
    Normal,
    AboveNormal,
    High,
    Realtime,
    Unknown,
}

/// Position of a priority on the ordinal ladder (`Unknown` sorts above all).
pub open spec fn priority_rank(p: Priority) -> int {
    match p {
        Priority::Idle => 0,
        Priority::BelowNormal => 1,
        Priority::Normal => 2,
        Priority::AboveNormal => 3,
        Priority::High => 4,
        Priority::Realtime => 5,
        Priority::Unknown => 6,
    }
}

/// One step up the ladder, saturating at `Realtime`; `Unknown` maps to `Normal`.
pub open spec fn spec_raise(p: Priority) -> Priority {
    match p {
        Priority::Idle => Priority::BelowNormal,
        Priority::BelowNormal => Priority::Normal,
        Priority::Normal => Priority::AboveNormal,
        Priority::AboveNormal => Priority::High,
        Priority::High => Priority::Realtime,
        Priority::Realtime => Priority::Realtime,
        Priority::Unknown => Priority::Normal,
    }
}

/// One step down the ladder, saturating at `Idle`; `Unknown` maps to `Normal`.
pub open spec fn spec_lower(p: Priority) -> Priority {
    match p {
        Priority::Idle => Priority::Idle,
        Priority::BelowNormal => Priority::Idle,
        Priority::Normal => Priority::BelowNormal,
        Priority::AboveNormal => Priority::Normal,
        Priority::High => Priority::AboveNormal,
        Priority::Realtime => Priority::High,
        Priority::Unknown => Priority::Normal,
    }
}

/// Operating-system class value of `Idle`.
pub const IDLE_PRIORITY_CLASS: u32 = 0x40;

/// Operating-system class value of `BelowNormal`.
pub const BELOW_NORMAL_PRIORITY_CLASS: u32 = 0x4000;

/// Operating-system class value of `Normal`.
pub const NORMAL_PRIORITY_CLASS: u32 = 0x20;

/// Operating-system class value of `AboveNormal`.
pub const ABOVE_NORMAL_PRIORITY_CLASS: u32 = 0x8000;

/// Operating-system class value of `High`.
pub const HIGH_PRIORITY_CLASS: u32 = 0x80;

/// Operating-system class value of `Realtime`.
pub const REALTIME_PRIORITY_CLASS: u32 = 0x100;

/// The level of a priority class value; `Unknown` for any other value.
pub open spec fn spec_from_class(class: u32) -> Priority {
    if class == IDLE_PRIORITY_CLASS {
        Priority::Idle
    } else if class == BELOW_NORMAL_PRIORITY_CLASS {
        Priority::BelowNormal
    } else if class == NORMAL_PRIORITY_CLASS {
        Priority::Normal
    } else if class == ABOVE_NORMAL_PRIORITY_CLASS {
        Priority::AboveNormal
    } else if class == HIGH_PRIORITY_CLASS {
        Priority::High
    } else if class == REALTIME_PRIORITY_CLASS {
        Priority::Realtime
    } else {
        Priority::Unknown
    }
}

/// The class value of a level; `Unknown` is set as normal.
pub open spec fn spec_to_class(p: Priority) -> u32 {
    match p {
        Priority::Idle => IDLE_PRIORITY_CLASS,
        Priority::BelowNormal => BELOW_NORMAL_PRIORITY_CLASS,
        Priority::Normal => NORMAL_PRIORITY_CLASS,
        Priority::AboveNormal => ABOVE_NORMAL_PRIORITY_CLASS,
        Priority::High => HIGH_PRIORITY_CLASS,
        Priority::Realtime => REALTIME_PRIORITY_CLASS,
        Priority::Unknown => NORMAL_PRIORITY_CLASS,
    }
}

/// Abbreviated display name of each level.
pub open spec fn spec_short_name(p: Priority) -> Seq<char> {
    match p {
        Priority::Idle => "Idle"@,
        Priority::BelowNormal => "BelowN"@,
        Priority::Normal => "Normal"@,
        Priority::AboveNormal => "AboveN"@,
        Priority::High => "High"@,
        Priority::Realtime => "RT"@,
        Priority::Unknown => "??"@,
    }
}

/// Full display name of each level.
pub open spec fn spec_name(p: Priority) -> Seq<char> {
    match p {
        Priority::Idle => "Idle"@,
        Priority::BelowNormal => "Below Normal"@,
        Priority::Normal => "Normal"@,
        Priority::AboveNormal => "Above Normal"@,
        Priority::High => "High"@,
        Priority::Realtime => "Realtime"@,
        Priority::Unknown => "Unknown"@,
    }
}

impl Priority {
    /// The level of an operating-system priority class value.
    pub fn from_win32(class: u32) -> (r: Priority)
        ensures
            r == spec_from_class(class),
    {
        if class == IDLE_PRIORITY_CLASS {
            Priority::Idle
        } else if class == BELOW_NORMAL_PRIORITY_CLASS {
            Priority::BelowNormal
        } else if class == NORMAL_PRIORITY_CLASS {
            Priority::Normal
        } else if class == ABOVE_NORMAL_PRIORITY_CLASS {
            Priority::AboveNormal
        } else if class == HIGH_PRIORITY_CLASS {
            Priority::High
        } else if class == REALTIME_PRIORITY_CLASS {
            Priority::Realtime
        } else {
            Priority::Unknown
        }
    }

    /// The operating-system priority class value of this level.
    pub fn to_win32(self) -> (r: u32)
        ensures
            r == spec_to_class(self),
            self != Priority::Unknown ==> spec_from_class(r) == self,
    {
        match self {
            Priority::Idle => IDLE_PRIORITY_CLASS,
            Priority::BelowNormal => BELOW_NORMAL_PRIORITY_CLASS,
            Priority::Normal => NORMAL_PRIORITY_CLASS,
            Priority::AboveNormal => ABOVE_NORMAL_PRIORITY_CLASS,
            Priority::High => HIGH_PRIORITY_CLASS,
            Priority::Realtime => REALTIME_PRIORITY_CLASS,
            Priority::Unknown => NORMAL_PRIORITY_CLASS,
        }
    }

    /// Abbreviated display name.
    pub fn short_name(&self) -> (r: &'static str)
        ensures
            r@ == spec_short_name(*self),
    {
        match self {
            Priority::Idle => "Idle",
            Priority::BelowNormal => "BelowN",
            Priority::Normal => "Normal",
            Priority::AboveNormal => "AboveN",
            Priority::High => "High",
            Priority::Realtime => "RT",
            Priority::Unknown => "??",
        }
    }

    /// Full display name.
    pub fn name(&self) -> (r: &'static str)
        ensures
            r@ == spec_name(*self),
    {
        match self {
            Priority::Idle => "Idle",
            Priority::BelowNormal => "Below Normal",
            Priority::Normal => "Normal",
            Priority::AboveNormal => "Above Normal",
            Priority::High => "High",
            Priority::Realtime => "Realtime",
            Priority::Unknown => "Unknown",
        }
    }

    /// The next higher priority level.
    pub fn raise(self) -> (r: Priority)
        ensures
            r == spec_raise(self),
            self != Priority::Unknown ==> priority_rank(r) == if priority_rank(self) < 5 {
                priority_rank(self) + 1
            } else {
                5
            },
    {
        match self {
            Priority::Idle => Priority::BelowNormal,
            Priority::BelowNormal => Priority::Normal,
            Priority::Normal => Priority::AboveNormal,
            Priority::AboveNormal => Priority::High,
            Priority::High => Priority::Realtime,
            Priority::Realtime => Priority::Realtime,
            Priority::Unknown => Priority::Normal,
        }
    }

    /// The next lower priority level.
    pub fn lower(self) -> (r: Priority)
        ensures
            r == spec_lower(self),
            self != Priority::Unknown ==> priority_rank(r) == if priority_rank(self) > 0 {
                priority_rank(self) - 1
            } else {
                0
            },
    {
        match self {
            Priority::Idle => Priority::Idle,
            Priority::BelowNormal => Priority::Idle,
            Priority::Normal => Priority::BelowNormal,
            Priority::AboveNormal => Priority::Normal,
            Priority::High => Priority::AboveNormal,
            Priority::Realtime => Priority::High,
            Priority::Unknown => Priority::Normal,
        }
    }

    /// The rank of this level as an integer, for ordering entries.
    pub fn rank(&self) -> (r: u8)
        ensures
            r as int == priority_rank(*self),
    {
        match self {
            Priority::Idle => 0,
            Priority::BelowNormal => 1,
            Priority::Normal => 2,
            Priority::AboveNormal => 3,
            Priority::High => 4,
            Priority::Realtime => 5,
            Priority::Unknown => 6,
        }
    }
}

} // verus!
