//! Category tags grouping syscalls by subject matter.
//!
//! Every decoded record reports the set of categories its syscall belongs to.
//! The sets are kept as bit sets whose bit assignments are those of strace's
//! syscall-entry flags, so that the values stay comparable across tools.

use vstd::prelude::*;

verus! {

pub const FILE_BIT: u32 = 0o000000001;

pub const IPC_BIT: u32 = 0o000000002;

pub const NETWORK_BIT: u32 = 0o000000004;

pub const PROCESS_BIT: u32 = 0o000000010;

pub const SIGNAL_BIT: u32 = 0o000000020;

pub const DESC_BIT: u32 = 0o000000040;

pub const MEMORY_BIT: u32 = 0o000000100;

pub const STAT_BIT: u32 = 0o000010000;

pub const LSTAT_BIT: u32 = 0o000020000;

pub const STATFS_BIT: u32 = 0o000040000;

pub const FSTATFS_BIT: u32 = 0o000100000;

pub const STATFS_LIKE_BIT: u32 = 0o000200000;

pub const FSTAT_BIT: u32 = 0o000400000;

pub const STAT_LIKE_BIT: u32 = 0o001000000;

pub const PURE_BIT: u32 = 0o002000000;

pub const CREDS_BIT: u32 = 0o010000000;

pub const CLOCK_BIT: u32 = 0o020000000;

/// A membership marker grouping syscalls by subject matter.
#[derive(Clone, Copy, Debug, PartialEq, Eq, Structural)]
pub enum SyscallGroups {
    /// File-path-related syscalls.
    File,
    /// Inter-process-communication syscalls.
    IPC,
    /// Network-related syscalls.
    Network,
    /// Process-lifecycle syscalls.
    Process,
    /// Signal-related syscalls.
    Signal,
    /// File-descriptor-related syscalls.
    Desc,
    /// Memory-mapping syscalls.
    Memory,
    /// The `stat` calls proper.
    Stat,
    /// The `lstat` calls.
    LStat,
    /// The `statfs` calls.
    StatFs,
    /// The `fstatfs` calls.
    FStatFs,
    /// Everything statfs-like.
    StatFsLike,
    /// The `fstat` calls.
    FStat,
    /// Everything stat-like.
    StatLike,
    /// Getters with no arguments.
    Pure,
    /// Credential-related syscalls.
    Creds,
    /// Clock-reading and clock-setting syscalls.
    Clock,
}

/// The bit that stands for the category `g`.
pub open spec fn group_bit_spec(g: SyscallGroups) -> u32 {
    match g {
        SyscallGroups::File => FILE_BIT,
        SyscallGroups::IPC => IPC_BIT,
        SyscallGroups::Network => NETWORK_BIT,
        SyscallGroups::Process => PROCESS_BIT,
        SyscallGroups::Signal => SIGNAL_BIT,
        SyscallGroups::Desc => DESC_BIT,
        SyscallGroups::Memory => MEMORY_BIT,
        SyscallGroups::Stat => STAT_BIT,
        SyscallGroups::LStat => LSTAT_BIT,
        SyscallGroups::StatFs => STATFS_BIT,
        SyscallGroups::FStatFs => FSTATFS_BIT,
        SyscallGroups::StatFsLike => STATFS_LIKE_BIT,
        SyscallGroups::FStat => FSTAT_BIT,
        SyscallGroups::StatLike => STAT_LIKE_BIT,
        SyscallGroups::Pure => PURE_BIT,
        SyscallGroups::Creds => CREDS_BIT,
        SyscallGroups::Clock => CLOCK_BIT,
    }
}

/// The bit that stands for the category `g`.
pub fn group_bit(g: SyscallGroups) -> (r: u32)
    ensures
        r == group_bit_spec(g),
{
    match g {
        SyscallGroups::File => FILE_BIT,
        SyscallGroups::IPC => IPC_BIT,
        SyscallGroups::Network => NETWORK_BIT,
        SyscallGroups::Process => PROCESS_BIT,
        SyscallGroups::Signal => SIGNAL_BIT,
        SyscallGroups::Desc => DESC_BIT,
        SyscallGroups::Memory => MEMORY_BIT,
        SyscallGroups::Stat => STAT_BIT,
        SyscallGroups::LStat => LSTAT_BIT,
        SyscallGroups::StatFs => STATFS_BIT,
        SyscallGroups::FStatFs => FSTATFS_BIT,
        SyscallGroups::StatFsLike => STATFS_LIKE_BIT,
        SyscallGroups::FStat => FSTAT_BIT,
        SyscallGroups::StatLike => STAT_LIKE_BIT,
        SyscallGroups::Pure => PURE_BIT,
        SyscallGroups::Creds => CREDS_BIT,
        SyscallGroups::Clock => CLOCK_BIT,
    }
}

/// A set of category tags, as a bit set over the bits above.
#[derive(Clone, Copy, Debug, PartialEq, Eq, Structural)]
pub struct GroupSet {
    pub bits: u32,
}

impl GroupSet {
    /// Whether the category `g` is in the set.
    pub open spec fn has_spec(self, g: SyscallGroups) -> bool {
        self.bits & group_bit_spec(g) != 0
    }

    /// The empty category set.
    pub fn empty() -> (r: GroupSet)
        ensures
            r.bits == 0,
    {
        GroupSet { bits: 0 }
    }

    /// Whether the category `g` is in the set.
    pub fn contains(&self, g: SyscallGroups) -> (r: bool)
        ensures
            r == self.has_spec(g),
    {
        (self.bits & group_bit(g)) != 0
    }
}

} // verus!
