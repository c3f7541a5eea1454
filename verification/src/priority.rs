//! The ordered scheduling-priority levels and their two platform mappings:
//! a discrete priority class (direct-control platforms) and a signed
//! niceness scalar (wrapper-delegation platforms).

use vstd::prelude::*;

verus! {

/// Scheduling preference level, ordered from least to most favored.
#[derive(Clone, Copy, Debug, PartialEq, Eq, Structural)]
pub enum ProcessPriority {
    Idle,
    BelowNormal,
    Normal,
    AboveNormal,
    High,
    Realtime,
}

impl ProcessPriority {
    /// Position of the level in the order, least favored first.
    pub open spec fn spec_rank(self) -> int {
        match self {
            ProcessPriority::Idle => 0,
            ProcessPriority::BelowNormal => 1,
            ProcessPriority::Normal => 2,
            ProcessPriority::AboveNormal => 3,
            ProcessPriority::High => 4,
            ProcessPriority::Realtime => 5,
        }
    }

    pub open spec fn spec_display_name(self) -> Seq<char> {
        match self {
            ProcessPriority::Idle => "Idle"@,
            ProcessPriority::BelowNormal => "Below Normal"@,
            ProcessPriority::Normal => "Normal"@,
            ProcessPriority::AboveNormal => "Above Normal"@,
            ProcessPriority::High => "High"@,
            ProcessPriority::Realtime => "Realtime"@,
        }
    }

    /// Human-readable name of the level.
    pub fn display_name(&self) -> (r: &'static str)
        ensures
            r@ == self.spec_display_name(),
    {
        match self {
            ProcessPriority::Idle => "Idle",
            ProcessPriority::BelowNormal => "Below Normal",
            ProcessPriority::Normal => "Normal",
            ProcessPriority::AboveNormal => "Above Normal",
            ProcessPriority::High => "High",
            ProcessPriority::Realtime => "Realtime",
        }
    }

    /// The platform-native priority class for the direct-control platform;
    /// the values are the documented fixed class constants of that platform's
    /// scheduling interface. The mapping is total: every level maps to
    /// exactly one class.
    pub open spec fn spec_windows_class(self) -> u32 {
        match self {
            ProcessPriority::Idle => 0x40,
            ProcessPriority::BelowNormal => 0x4000,
            ProcessPriority::Normal => 0x20,
            ProcessPriority::AboveNormal => 0x8000,
            ProcessPriority::High => 0x80,
            ProcessPriority::Realtime => 0x100,
        }
    }

    pub fn to_windows_class(&self) -> (r: u32)
        ensures
            r == self.spec_windows_class(),
    {
        match self {
            ProcessPriority::Idle => 0x40,
            ProcessPriority::BelowNormal => 0x4000,
            ProcessPriority::Normal => 0x20,
            ProcessPriority::AboveNormal => 0x8000,
            ProcessPriority::High => 0x80,
            ProcessPriority::Realtime => 0x100,
        }
    }

    /// Whether applying this level requires elevated rights on the platform
    /// that gates high scheduling classes: true exactly for the top two
    /// levels.
    pub fn requires_elevation(&self) -> (r: bool)
        ensures
            r == (self.spec_rank() >= 4),
    {
        matches!(self, ProcessPriority::High | ProcessPriority::Realtime)
    }

    /// The niceness scalar for the wrapper-delegation platform: more
    /// negative means more favored scheduling.
    pub open spec fn spec_nice(self) -> int {
        match self {
            ProcessPriority::Idle => 19,
            ProcessPriority::BelowNormal => 10,
            ProcessPriority::Normal => 0,
            ProcessPriority::AboveNormal => -5,
            ProcessPriority::High => -10,
            ProcessPriority::Realtime => -20,
        }
    }

    /// The niceness scalar rendered as the wrapper utility expects it on its
    /// command line.
    pub fn to_nice_value(&self) -> (r: &'static str)
        ensures
            r@ == self.spec_nice_chars(),
    {
        match self {
            ProcessPriority::Idle => "19",
            ProcessPriority::BelowNormal => "10",
            ProcessPriority::Normal => "0",
            ProcessPriority::AboveNormal => "-5",
            ProcessPriority::High => "-10",
            ProcessPriority::Realtime => "-20",
        }
    }

    pub open spec fn spec_nice_chars(self) -> Seq<char> {
        match self {
            ProcessPriority::Idle => "19"@,
            ProcessPriority::BelowNormal => "10"@,
            ProcessPriority::Normal => "0"@,
            ProcessPriority::AboveNormal => "-5"@,
            ProcessPriority::High => "-10"@,
            ProcessPriority::Realtime => "-20"@,
        }
    }
}

/// The niceness table is strictly monotonic: a more favored level always
/// maps to a strictly smaller (more negative) niceness scalar.
pub proof fn lemma_nice_monotone(a: ProcessPriority, b: ProcessPriority)
    requires
        a.spec_rank() < b.spec_rank(),
    ensures
        a.spec_nice() > b.spec_nice(),
{
}

} // verus!
