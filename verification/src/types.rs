//! The kernel record types that syscall arguments point at, as plain values,
//! with their decoders from raw tracee bytes.
//!
//! Each type that the decoder materializes from the tracee has a spec-level
//! `of_bytes` giving its value as a function of the raw bytes, and an
//! executable `from_bytes` proved to return exactly that value; types that
//! hold a variable-length tail state the relation `matches_bytes` instead.
//! All layouts are little-endian; where a record's layout differs between
//! architectures, one decoder per layout is given.

use vstd::prelude::*;

#[allow(unused_imports)]
use crate::bytes::{i16_le, i32_le, i64_le, u16_le, u32_le, u64_le, i16_at, i32_at, i64_at,
    u16_at, u32_at, u64_at};
use crate::arch::Arch;

verus! {

/// A time in seconds and nanoseconds, as the kernel's `timespec`.
#[derive(Clone, Copy, Debug, PartialEq, Eq, Structural)]
#[allow(non_camel_case_types)]
pub struct timespec {
    pub tv_sec: i64,
    pub tv_nsec: i64,
}

impl timespec {
    /// The number of bytes this record occupies in the tracee.
    pub open spec fn size_spec() -> int {
        16
    }

    /// The record stored in the bytes `s`.
    pub open spec fn of_bytes(s: Seq<u8>) -> timespec
        recommends
            s.len() >= 16,
    {
        timespec {
            tv_sec: i64_le(s.subrange(0, 8)),
            tv_nsec: i64_le(s.subrange(8, 16)),
        }
    }

    /// Decode the record from its raw bytes.
    pub fn from_bytes(v: &Vec<u8>) -> (r: timespec)
        requires
            v@.len() >= 16,
        ensures
            r == timespec::of_bytes(v@),
    {
        timespec {
            tv_sec: i64_at(v, 0),
            tv_nsec: i64_at(v, 8),
        }
    }
}

/// A time in seconds and microseconds, as the kernel's `timeval`.
#[derive(Clone, Copy, Debug, PartialEq, Eq, Structural)]
#[allow(non_camel_case_types)]
pub struct timeval {
    pub tv_sec: i64,
    pub tv_usec: i64,
}

impl timeval {
    /// The number of bytes this record occupies in the tracee.
    pub open spec fn size_spec() -> int {
        16
    }

    /// The record stored in the bytes `s`.
    pub open spec fn of_bytes(s: Seq<u8>) -> timeval
        recommends
            s.len() >= 16,
    {
        timeval {
            tv_sec: i64_le(s.subrange(0, 8)),
            tv_usec: i64_le(s.subrange(8, 16)),
        }
    }

    /// Decode the record from its raw bytes.
    pub fn from_bytes(v: &Vec<u8>) -> (r: timeval)
        requires
            v@.len() >= 16,
        ensures
            r == timeval::of_bytes(v@),
    {
        timeval {
            tv_sec: i64_at(v, 0),
            tv_usec: i64_at(v, 8),
        }
    }
}

/// The obsolete timezone record of `gettimeofday`.
#[derive(Clone, Copy, Debug, PartialEq, Eq, Structural)]
#[allow(non_camel_case_types)]
pub struct timezone {
    pub tz_minuteswest: i32,
    pub tz_dsttime: i32,
}

impl timezone {
    /// The number of bytes this record occupies in the tracee.
    pub open spec fn size_spec() -> int {
        8
    }

    /// The record stored in the bytes `s`.
    pub open spec fn of_bytes(s: Seq<u8>) -> timezone
        recommends
            s.len() >= 8,
    {
        timezone {
            tz_minuteswest: i32_le(s.subrange(0, 4)),
            tz_dsttime: i32_le(s.subrange(4, 8)),
        }
    }

    /// Decode the record from its raw bytes.
    pub fn from_bytes(v: &Vec<u8>) -> (r: timezone)
        requires
            v@.len() >= 8,
        ensures
            r == timezone::of_bytes(v@),
    {
        timezone {
            tz_minuteswest: i32_at(v, 0),
            tz_dsttime: i32_at(v, 4),
        }
    }
}

/// Header of the capability syscalls.
#[derive(Clone, Copy, Debug, PartialEq, Eq, Structural)]
#[allow(non_camel_case_types)]
pub struct cap_user_header {
    pub version: u32,
    pub pid: i32,
}

impl cap_user_header {
    /// The number of bytes this record occupies in the tracee.
    pub open spec fn size_spec() -> int {
        8
    }

    /// The record stored in the bytes `s`.
    pub open spec fn of_bytes(s: Seq<u8>) -> cap_user_header
        recommends
            s.len() >= 8,
    {
        cap_user_header {
            version: u32_le(s.subrange(0, 4)),
            pid: i32_le(s.subrange(4, 8)),
        }
    }

    /// Decode the record from its raw bytes.
    pub fn from_bytes(v: &Vec<u8>) -> (r: cap_user_header)
        requires
            v@.len() >= 8,
        ensures
            r == cap_user_header::of_bytes(v@),
    {
        cap_user_header {
            version: u32_at(v, 0),
            pid: i32_at(v, 4),
        }
    }
}

/// Capability sets of the capability syscalls.
#[derive(Clone, Copy, Debug, PartialEq, Eq, Structural)]
#[allow(non_camel_case_types)]
pub struct cap_user_data {
    pub effective: u32,
    pub permitted: u32,
    pub inheritable: u32,
}

impl cap_user_data {
    /// The number of bytes this record occupies in the tracee.
    pub open spec fn size_spec() -> int {
        12
    }

    /// The record stored in the bytes `s`.
    pub open spec fn of_bytes(s: Seq<u8>) -> cap_user_data
        recommends
            s.len() >= 12,
    {
        cap_user_data {
            effective: u32_le(s.subrange(0, 4)),
            permitted: u32_le(s.subrange(4, 8)),
            inheritable: u32_le(s.subrange(8, 12)),
        }
    }

    /// Decode the record from its raw bytes.
    pub fn from_bytes(v: &Vec<u8>) -> (r: cap_user_data)
        requires
            v@.len() >= 12,
        ensures
            r == cap_user_data::of_bytes(v@),
    {
        cap_user_data {
            effective: u32_at(v, 0),
            permitted: u32_at(v, 4),
            inheritable: u32_at(v, 8),
        }
    }
}

/// Byte range handed to `cachestat`.
#[derive(Clone, Copy, Debug, PartialEq, Eq, Structural)]
#[allow(non_camel_case_types)]
pub struct cachestat_range {
    pub off: u64,
    pub len: u64,
}

impl cachestat_range {
    /// The number of bytes this record occupies in the tracee.
    pub open spec fn size_spec() -> int {
        16
    }

    /// The record stored in the bytes `s`.
    pub open spec fn of_bytes(s: Seq<u8>) -> cachestat_range
        recommends
            s.len() >= 16,
    {
        cachestat_range {
            off: u64_le(s.subrange(0, 8)),
            len: u64_le(s.subrange(8, 16)),
        }
    }

    /// Decode the record from its raw bytes.
    pub fn from_bytes(v: &Vec<u8>) -> (r: cachestat_range)
        requires
            v@.len() >= 16,
        ensures
            r == cachestat_range::of_bytes(v@),
    {
        cachestat_range {
            off: u64_at(v, 0),
            len: u64_at(v, 8),
        }
    }
}

/// Page-cache statistics filled by `cachestat`.
#[derive(Clone, Copy, Debug, PartialEq, Eq, Structural)]
#[allow(non_camel_case_types)]
pub struct cachestat {
    pub nr_cache: u64,
    pub nr_dirty: u64,
    pub nr_writeback: u64,
    pub nr_evicted: u64,
    pub nr_recently_evicted: u64,
}

impl cachestat {
    /// The number of bytes this record occupies in the tracee.
    pub open spec fn size_spec() -> int {
        40
    }

    /// The record stored in the bytes `s`.
    pub open spec fn of_bytes(s: Seq<u8>) -> cachestat
        recommends
            s.len() >= 40,
    {
        cachestat {
            nr_cache: u64_le(s.subrange(0, 8)),
            nr_dirty: u64_le(s.subrange(8, 16)),
            nr_writeback: u64_le(s.subrange(16, 24)),
            nr_evicted: u64_le(s.subrange(24, 32)),
            nr_recently_evicted: u64_le(s.subrange(32, 40)),
        }
    }

    /// Decode the record from its raw bytes.
    pub fn from_bytes(v: &Vec<u8>) -> (r: cachestat)
        requires
            v@.len() >= 40,
        ensures
            r == cachestat::of_bytes(v@),
    {
        cachestat {
            nr_cache: u64_at(v, 0),
            nr_dirty: u64_at(v, 8),
            nr_writeback: u64_at(v, 16),
            nr_evicted: u64_at(v, 24),
            nr_recently_evicted: u64_at(v, 32),
        }
    }
}

/// Ruleset description handed to `landlock_create_ruleset`.
#[derive(Clone, Copy, Debug, PartialEq, Eq, Structural)]
#[allow(non_camel_case_types)]
pub struct landlock_ruleset_attr {
    pub handled_access_fs: u64,
}

impl landlock_ruleset_attr {
    /// The number of bytes this record occupies in the tracee.
    pub open spec fn size_spec() -> int {
        8
    }

    /// The record stored in the bytes `s`.
    pub open spec fn of_bytes(s: Seq<u8>) -> landlock_ruleset_attr
        recommends
            s.len() >= 8,
    {
        landlock_ruleset_attr {
            handled_access_fs: u64_le(s.subrange(0, 8)),
        }
    }

    /// Decode the record from its raw bytes.
    pub fn from_bytes(v: &Vec<u8>) -> (r: landlock_ruleset_attr)
        requires
            v@.len() >= 8,
        ensures
            r == landlock_ruleset_attr::of_bytes(v@),
    {
        landlock_ruleset_attr {
            handled_access_fs: u64_at(v, 0),
        }
    }
}

/// Filesystem statistics, as the kernel's 64-bit `statfs` (identical on all supported architectures; the trailing spare words are dropped).
#[derive(Clone, Copy, Debug, PartialEq, Eq, Structural)]
#[allow(non_camel_case_types)]
pub struct statfs {
    pub f_type: i64,
    pub f_bsize: i64,
    pub f_blocks: u64,
    pub f_bfree: u64,
    pub f_bavail: u64,
    pub f_files: u64,
    pub f_ffree: u64,
    pub f_fsid_0: i32,
    pub f_fsid_1: i32,
    pub f_namelen: i64,
    pub f_frsize: i64,
    pub f_flags: i64,
}

impl statfs {
    /// The number of bytes this record occupies in the tracee.
    pub open spec fn size_spec() -> int {
        120
    }

    /// The record stored in the bytes `s`.
    pub open spec fn of_bytes(s: Seq<u8>) -> statfs
        recommends
            s.len() >= 120,
    {
        statfs {
            f_type: i64_le(s.subrange(0, 8)),
            f_bsize: i64_le(s.subrange(8, 16)),
            f_blocks: u64_le(s.subrange(16, 24)),
            f_bfree: u64_le(s.subrange(24, 32)),
            f_bavail: u64_le(s.subrange(32, 40)),
            f_files: u64_le(s.subrange(40, 48)),
            f_ffree: u64_le(s.subrange(48, 56)),
            f_fsid_0: i32_le(s.subrange(56, 60)),
            f_fsid_1: i32_le(s.subrange(60, 64)),
            f_namelen: i64_le(s.subrange(64, 72)),
            f_frsize: i64_le(s.subrange(72, 80)),
            f_flags: i64_le(s.subrange(80, 88)),
        }
    }

    /// Decode the record from its raw bytes.
    pub fn from_bytes(v: &Vec<u8>) -> (r: statfs)
        requires
            v@.len() >= 120,
        ensures
            r == statfs::of_bytes(v@),
    {
        statfs {
            f_type: i64_at(v, 0),
            f_bsize: i64_at(v, 8),
            f_blocks: u64_at(v, 16),
            f_bfree: u64_at(v, 24),
            f_bavail: u64_at(v, 32),
            f_files: u64_at(v, 40),
            f_ffree: u64_at(v, 48),
            f_fsid_0: i32_at(v, 56),
            f_fsid_1: i32_at(v, 60),
            f_namelen: i64_at(v, 64),
            f_frsize: i64_at(v, 72),
            f_flags: i64_at(v, 80),
        }
    }
}
/// A socket address as the kernel's generic 16-byte `sockaddr`: the address
/// family followed by 14 opaque data bytes.
#[derive(Clone, Debug, PartialEq, Eq)]
#[allow(non_camel_case_types)]
pub struct sockaddr {
    pub sa_family: u16,
    pub sa_data: Vec<u8>,
}

impl sockaddr {
    /// The number of bytes this record occupies in the tracee.
    pub open spec fn size_spec() -> int {
        16
    }

    /// This value is the one stored in the bytes `s`.
    pub open spec fn matches_bytes(self, s: Seq<u8>) -> bool
        recommends
            s.len() >= 16,
    {
        &&& self.sa_family == u16_le(s)
        &&& self.sa_data@ == s.subrange(2, 16)
    }

    /// Decode the record from its raw bytes.
    pub fn from_bytes(v: &Vec<u8>) -> (r: sockaddr)
        requires
            v@.len() >= 16,
        ensures
            r.matches_bytes(v@),
    {
        let sa_family = u16_at(v, 0);
        let mut sa_data: Vec<u8> = Vec::new();
        let mut i: usize = 2;
        while i < 16
            invariant
                2 <= i <= 16,
                v@.len() >= 16,
                sa_data@.len() == i - 2,
                forall|j: int| 0 <= j < sa_data@.len() ==> #[trigger] sa_data@[j] == v@[j + 2],
            decreases 16 - i,
        {
            let b = v[i];
            sa_data.push(b);
            i += 1;
        }
        proof {
            assert(sa_data@ =~= v@.subrange(2, 16));
        }
        sockaddr { sa_family, sa_data }
    }
}

/// File status, as filled by the `stat` family, normalized over the two
/// kernel layouts: the x86_64 one and the generic one shared by aarch64 and
/// riscv64.
#[derive(Clone, Copy, Debug, PartialEq, Eq, Structural)]
#[allow(non_camel_case_types)]
pub struct stat {
    pub st_dev: u64,
    pub st_ino: u64,
    pub st_nlink: u64,
    pub st_mode: u32,
    pub st_uid: u32,
    pub st_gid: u32,
    pub st_rdev: u64,
    pub st_size: i64,
    pub st_blksize: i64,
    pub st_blocks: i64,
    pub st_atime_sec: i64,
    pub st_atime_nsec: i64,
    pub st_mtime_sec: i64,
    pub st_mtime_nsec: i64,
    pub st_ctime_sec: i64,
    pub st_ctime_nsec: i64,
}

impl stat {
    /// The number of bytes the record occupies in a tracee of `arch`.
    pub open spec fn size_for_spec(arch: Arch) -> int {
        match arch {
            Arch::X86_64 => 144,
            Arch::Aarch64 => 128,
            Arch::Riscv64 => 128,
        }
    }

    /// The number of bytes the record occupies in a tracee of `arch`.
    pub fn size_for(arch: Arch) -> (r: usize)
        ensures
            r == stat::size_for_spec(arch),
    {
        match arch {
            Arch::X86_64 => 144,
            Arch::Aarch64 => 128,
            Arch::Riscv64 => 128,
        }
    }

    /// The record stored in the bytes `s` under the layout of `arch`.
    pub open spec fn of_bytes(arch: Arch, s: Seq<u8>) -> stat
        recommends
            s.len() >= stat::size_for_spec(arch),
    {
        if arch is X86_64 {
            stat {
                st_dev: u64_le(s.subrange(0, 8)),
                st_ino: u64_le(s.subrange(8, 16)),
                st_nlink: u64_le(s.subrange(16, 24)),
                st_mode: u32_le(s.subrange(24, 28)),
                st_uid: u32_le(s.subrange(28, 32)),
                st_gid: u32_le(s.subrange(32, 36)),
                st_rdev: u64_le(s.subrange(40, 48)),
                st_size: i64_le(s.subrange(48, 56)),
                st_blksize: i64_le(s.subrange(56, 64)),
                st_blocks: i64_le(s.subrange(64, 72)),
                st_atime_sec: i64_le(s.subrange(72, 80)),
                st_atime_nsec: i64_le(s.subrange(80, 88)),
                st_mtime_sec: i64_le(s.subrange(88, 96)),
                st_mtime_nsec: i64_le(s.subrange(96, 104)),
                st_ctime_sec: i64_le(s.subrange(104, 112)),
                st_ctime_nsec: i64_le(s.subrange(112, 120)),
            }
        } else {
            stat {
                st_dev: u64_le(s.subrange(0, 8)),
                st_ino: u64_le(s.subrange(8, 16)),
                st_mode: u32_le(s.subrange(16, 20)),
                st_nlink: u32_le(s.subrange(20, 24)) as u64,
                st_uid: u32_le(s.subrange(24, 28)),
                st_gid: u32_le(s.subrange(28, 32)),
                st_rdev: u64_le(s.subrange(32, 40)),
                st_size: i64_le(s.subrange(48, 56)),
                st_blksize: i32_le(s.subrange(56, 60)) as i64,
                st_blocks: i64_le(s.subrange(64, 72)),
                st_atime_sec: i64_le(s.subrange(72, 80)),
                st_atime_nsec: i64_le(s.subrange(80, 88)),
                st_mtime_sec: i64_le(s.subrange(88, 96)),
                st_mtime_nsec: i64_le(s.subrange(96, 104)),
                st_ctime_sec: i64_le(s.subrange(104, 112)),
                st_ctime_nsec: i64_le(s.subrange(112, 120)),
            }
        }
    }

    /// Decode the record from its raw bytes under the layout of `arch`.
    pub fn from_bytes(arch: Arch, v: &Vec<u8>) -> (r: stat)
        requires
            v@.len() >= stat::size_for_spec(arch),
        ensures
            r == stat::of_bytes(arch, v@),
    {
        match arch {
            Arch::X86_64 => stat {
                st_dev: u64_at(v, 0),
                st_ino: u64_at(v, 8),
                st_nlink: u64_at(v, 16),
                st_mode: u32_at(v, 24),
                st_uid: u32_at(v, 28),
                st_gid: u32_at(v, 32),
                st_rdev: u64_at(v, 40),
                st_size: i64_at(v, 48),
                st_blksize: i64_at(v, 56),
                st_blocks: i64_at(v, 64),
                st_atime_sec: i64_at(v, 72),
                st_atime_nsec: i64_at(v, 80),
                st_mtime_sec: i64_at(v, 88),
                st_mtime_nsec: i64_at(v, 96),
                st_ctime_sec: i64_at(v, 104),
                st_ctime_nsec: i64_at(v, 112),
            },
            _ => stat {
                st_dev: u64_at(v, 0),
                st_ino: u64_at(v, 8),
                st_mode: u32_at(v, 16),
                st_nlink: u32_at(v, 20) as u64,
                st_uid: u32_at(v, 24),
                st_gid: u32_at(v, 28),
                st_rdev: u64_at(v, 32),
                st_size: i64_at(v, 48),
                st_blksize: i32_at(v, 56) as i64,
                st_blocks: i64_at(v, 64),
                st_atime_sec: i64_at(v, 72),
                st_atime_nsec: i64_at(v, 80),
                st_mtime_sec: i64_at(v, 88),
                st_mtime_nsec: i64_at(v, 96),
                st_ctime_sec: i64_at(v, 104),
                st_ctime_nsec: i64_at(v, 112),
            },
        }
    }
}

/// A restartable-sequences area, as registered with `rseq`: the fixed header
/// followed by the extensible tail the registration's length covers.
#[derive(Clone, Debug, PartialEq, Eq)]
#[allow(non_camel_case_types)]
pub struct rseq {
    pub cpu_id_start: u32,
    pub cpu_id: u32,
    pub rseq_cs: u64,
    pub flags: u32,
    pub node_id: u32,
    pub mm_cid: u32,
    pub end: Vec<u8>,
}

impl rseq {
    /// The bytes of the fixed header.
    pub open spec fn header_size_spec() -> int {
        28
    }

    /// This value is the one stored in the bytes `s`.
    pub open spec fn matches_bytes(self, s: Seq<u8>) -> bool
        recommends
            s.len() >= 28,
    {
        &&& self.cpu_id_start == u32_le(s.subrange(0, 4))
        &&& self.cpu_id == u32_le(s.subrange(4, 8))
        &&& self.rseq_cs == u64_le(s.subrange(8, 16))
        &&& self.flags == u32_le(s.subrange(16, 20))
        &&& self.node_id == u32_le(s.subrange(20, 24))
        &&& self.mm_cid == u32_le(s.subrange(24, 28))
        &&& self.end@ == s.subrange(28, s.len() as int)
    }

    /// Decode the record from the `v@.len()` bytes the registration covers.
    pub fn from_bytes(v: &Vec<u8>) -> (r: rseq)
        requires
            v@.len() >= 28,
        ensures
            r.matches_bytes(v@),
    {
        let n = v.len();
        let mut end: Vec<u8> = Vec::new();
        let mut i: usize = 28;
        while i < n
            invariant
                28 <= i <= n,
                n == v@.len(),
                end@.len() == i - 28,
                forall|j: int| 0 <= j < end@.len() ==> #[trigger] end@[j] == v@[j + 28],
            decreases n - i,
        {
            let b = v[i];
            end.push(b);
            i += 1;
        }
        proof {
            assert(end@ =~= v@.subrange(28, v@.len() as int));
        }
        rseq {
            cpu_id_start: u32_at(v, 0),
            cpu_id: u32_at(v, 4),
            rseq_cs: u64_at(v, 8),
            flags: u32_at(v, 16),
            node_id: u32_at(v, 20),
            mm_cid: u32_at(v, 24),
            end,
        }
    }
}

/// One waiter entry of `futex_waitv`.
#[derive(Clone, Copy, Debug, PartialEq, Eq, Structural)]
#[allow(non_camel_case_types)]
pub struct futex_waitv {
    pub val: u64,
    pub uaddr: u64,
    pub flags: u32,
    pub reserved: u32,
}

/// One link of a tracee's robust-futex list; the pointer is kept as a raw
/// tracee address.
#[derive(Clone, Copy, Debug, PartialEq, Eq, Structural)]
#[allow(non_camel_case_types)]
pub struct robust_list {
    pub next: u64,
}

/// One completion event of the legacy asynchronous-io interface.
#[derive(Clone, Copy, Debug, PartialEq, Eq, Structural)]
#[allow(non_camel_case_types)]
pub struct io_event {
    pub data: u64,
    pub obj: u64,
    pub res: i64,
    pub res2: i64,
}

/// Submission-ring offsets reported by `io_uring_setup`.
#[derive(Clone, Copy, Debug, PartialEq, Eq, Structural)]
#[allow(non_camel_case_types)]
pub struct io_sqring_offsets {
    pub head: u32,
    pub tail: u32,
    pub ring_mask: u32,
    pub ring_entries: u32,
    pub flags: u32,
    pub dropped: u32,
    pub array: u32,
    pub resv1: u32,
    pub user_addr: u64,
}

/// Completion-ring offsets reported by `io_uring_setup`.
#[derive(Clone, Copy, Debug, PartialEq, Eq, Structural)]
#[allow(non_camel_case_types)]
pub struct io_cqring_offsets {
    pub head: u32,
    pub tail: u32,
    pub ring_mask: u32,
    pub ring_entries: u32,
    pub overflow: u32,
    pub cqes: u32,
    pub flags: u32,
    pub resv1: u32,
    pub user_addr: u64,
}

/// Setup parameters exchanged with `io_uring_setup`.
#[derive(Clone, Copy, Debug, PartialEq, Eq, Structural)]
#[allow(non_camel_case_types)]
pub struct io_uring_params {
    pub sq_entries: u32,
    pub cq_entries: u32,
    pub flags: u32,
    pub sq_thread_cpu: u32,
    pub sq_thread_idle: u32,
    pub features: u32,
    pub wq_fd: i32,
    pub resv_0: u32,
    pub resv_1: u32,
    pub resv_2: u32,
    pub sq_off: io_sqring_offsets,
    pub cq_off: io_cqring_offsets,
}

/// The kind of a landlock rule.
#[derive(Clone, Copy, Debug, PartialEq, Eq, Structural)]
#[allow(non_camel_case_types)]
pub enum landlock_rule_type {
    LANDLOCK_RULE_PATH_BENEATH,
    LANDLOCK_RULE_NET_PORT,
}

/// A path-beneath landlock rule.
#[derive(Clone, Copy, Debug, PartialEq, Eq, Structural)]
#[allow(non_camel_case_types)]
pub struct landlock_path_beneath_attr {
    pub allowed_access: u64,
    pub parent_fd: i32,
}

/// Mount properties handed to `mount_setattr`.
#[derive(Clone, Copy, Debug, PartialEq, Eq, Structural)]
#[allow(non_camel_case_types)]
pub struct mount_attr {
    pub attr_set: u64,
    pub attr_clr: u64,
    pub propagation: u64,
    pub userns_fd: u64,
}

/// One key/value probe of the riscv64 hardware-probing syscall.
#[derive(Clone, Copy, Debug, PartialEq, Eq, Structural)]
#[allow(non_camel_case_types)]
pub struct riscv_hwprobe {
    pub key: i64,
    pub value: u64,
}

/// A mount-id request header, as handed to the mount-querying syscalls.
#[derive(Clone, Copy, Debug, PartialEq, Eq, Structural)]
#[allow(non_camel_case_types)]
pub struct mnt_id_req {
    pub size: u32,
    pub spare: u32,
    pub mnt_id: u64,
    pub param: u64,
}

impl mnt_id_req {
    /// The number of bytes this record occupies in the tracee.
    pub open spec fn size_spec() -> int {
        24
    }

    /// The record stored in the bytes `s`.
    pub open spec fn of_bytes(s: Seq<u8>) -> mnt_id_req
        recommends
            s.len() >= 24,
    {
        mnt_id_req {
            size: u32_le(s.subrange(0, 4)),
            spare: u32_le(s.subrange(4, 8)),
            mnt_id: u64_le(s.subrange(8, 16)),
            param: u64_le(s.subrange(16, 24)),
        }
    }

    /// Decode the record from its raw bytes.
    pub fn from_bytes(v: &Vec<u8>) -> (r: mnt_id_req)
        requires
            v@.len() >= 24,
        ensures
            r == mnt_id_req::of_bytes(v@),
    {
        mnt_id_req {
            size: u32_at(v, 0),
            spare: u32_at(v, 4),
            mnt_id: u64_at(v, 8),
            param: u64_at(v, 16),
        }
    }
}

/// One semaphore operation of `semop`.
#[derive(Clone, Copy, Debug, PartialEq, Eq, Structural)]
#[allow(non_camel_case_types)]
pub struct sembuf {
    pub sem_num: u16,
    pub sem_op: i16,
    pub sem_flg: i16,
}

impl sembuf {
    /// The number of bytes this record occupies in the tracee.
    pub open spec fn size_spec() -> int {
        6
    }

    /// The record stored in the bytes `s`.
    pub open spec fn of_bytes(s: Seq<u8>) -> sembuf
        recommends
            s.len() >= 6,
    {
        sembuf {
            sem_num: u16_le(s.subrange(0, 2)),
            sem_op: i16_le(s.subrange(2, 4)),
            sem_flg: i16_le(s.subrange(4, 6)),
        }
    }

    /// Decode the record from its raw bytes.
    pub fn from_bytes(v: &Vec<u8>) -> (r: sembuf)
        requires
            v@.len() >= 6,
        ensures
            r == sembuf::of_bytes(v@),
    {
        sembuf {
            sem_num: u16_at(v, 0),
            sem_op: i16_at(v, 2),
            sem_flg: i16_at(v, 4),
        }
    }
}

/// Mount statistics filled by `statmount`: the fixed header followed by the
/// string table that the header's offset fields point into (the kernel's
/// trailing flexible array).  The header's own `size` field gives the total
/// number of bytes the kernel filled.
#[derive(Clone, Debug, PartialEq, Eq)]
#[allow(non_camel_case_types)]
pub struct statmount {
    pub size: u32,
    pub mask: u64,
    pub sb_dev_major: u32,
    pub sb_dev_minor: u32,
    pub sb_magic: u64,
    pub sb_flags: u32,
    pub fs_type: u32,
    pub mnt_id: u64,
    pub mnt_parent_id: u64,
    pub mnt_id_old: u32,
    pub mnt_parent_id_old: u32,
    pub mnt_attr: u64,
    pub mnt_propagation: u64,
    pub mnt_peer_group: u64,
    pub mnt_master: u64,
    pub propagate_from: u64,
    pub mnt_root: u32,
    pub mnt_point: u32,
    pub tail: Vec<u8>,
}

impl statmount {
    /// The bytes of the fixed header, spare words included.
    pub open spec fn header_size_spec() -> int {
        512
    }

    /// This value is the one stored in the bytes `s`.
    pub open spec fn matches_bytes(self, s: Seq<u8>) -> bool
        recommends
            s.len() >= 512,
    {
        &&& self.size == u32_le(s.subrange(0, 4))
        &&& self.mask == u64_le(s.subrange(8, 16))
        &&& self.sb_dev_major == u32_le(s.subrange(16, 20))
        &&& self.sb_dev_minor == u32_le(s.subrange(20, 24))
        &&& self.sb_magic == u64_le(s.subrange(24, 32))
        &&& self.sb_flags == u32_le(s.subrange(32, 36))
        &&& self.fs_type == u32_le(s.subrange(36, 40))
        &&& self.mnt_id == u64_le(s.subrange(40, 48))
        &&& self.mnt_parent_id == u64_le(s.subrange(48, 56))
        &&& self.mnt_id_old == u32_le(s.subrange(56, 60))
        &&& self.mnt_parent_id_old == u32_le(s.subrange(60, 64))
        &&& self.mnt_attr == u64_le(s.subrange(64, 72))
        &&& self.mnt_propagation == u64_le(s.subrange(72, 80))
        &&& self.mnt_peer_group == u64_le(s.subrange(80, 88))
        &&& self.mnt_master == u64_le(s.subrange(88, 96))
        &&& self.propagate_from == u64_le(s.subrange(96, 104))
        &&& self.mnt_root == u32_le(s.subrange(104, 108))
        &&& self.mnt_point == u32_le(s.subrange(108, 112))
        &&& self.tail@ == s.subrange(512, s.len() as int)
    }

    /// Decode the record from the `v@.len()` bytes the kernel filled.
    pub fn from_bytes(v: &Vec<u8>) -> (r: statmount)
        requires
            v@.len() >= 512,
        ensures
            r.matches_bytes(v@),
    {
        let n = v.len();
        let mut tail: Vec<u8> = Vec::new();
        let mut i: usize = 512;
        while i < n
            invariant
                512 <= i <= n,
                n == v@.len(),
                tail@.len() == i - 512,
                forall|j: int| 0 <= j < tail@.len() ==> #[trigger] tail@[j] == v@[j + 512],
            decreases n - i,
        {
            let b = v[i];
            tail.push(b);
            i += 1;
        }
        proof {
            assert(tail@ =~= v@.subrange(512, v@.len() as int));
        }
        statmount {
            size: u32_at(v, 0),
            mask: u64_at(v, 8),
            sb_dev_major: u32_at(v, 16),
            sb_dev_minor: u32_at(v, 20),
            sb_magic: u64_at(v, 24),
            sb_flags: u32_at(v, 32),
            fs_type: u32_at(v, 36),
            mnt_id: u64_at(v, 40),
            mnt_parent_id: u64_at(v, 48),
            mnt_id_old: u32_at(v, 56),
            mnt_parent_id_old: u32_at(v, 60),
            mnt_attr: u64_at(v, 64),
            mnt_propagation: u64_at(v, 72),
            mnt_peer_group: u64_at(v, 80),
            mnt_master: u64_at(v, 88),
            propagate_from: u64_at(v, 96),
            mnt_root: u32_at(v, 104),
            mnt_point: u32_at(v, 108),
            tail,
        }
    }
}

/// A resource limit, as the kernel's 64-bit `rlimit`.
#[derive(Clone, Copy, Debug, PartialEq, Eq, Structural)]
#[allow(non_camel_case_types)]
pub struct rlimit {
    pub rlim_cur: u64,
    pub rlim_max: u64,
}

impl rlimit {
    /// The number of bytes this record occupies in the tracee.
    pub open spec fn size_spec() -> int {
        16
    }

    /// The record stored in the bytes `s`.
    pub open spec fn of_bytes(s: Seq<u8>) -> rlimit
        recommends
            s.len() >= 16,
    {
        rlimit { rlim_cur: u64_le(s.subrange(0, 8)), rlim_max: u64_le(s.subrange(8, 16)) }
    }

    /// Decode the record from its raw bytes.
    pub fn from_bytes(v: &Vec<u8>) -> (r: rlimit)
        requires
            v@.len() >= 16,
        ensures
            r == rlimit::of_bytes(v@),
    {
        rlimit { rlim_cur: u64_at(v, 0), rlim_max: u64_at(v, 8) }
    }
}

/// Process times, as filled by `times`.
#[derive(Clone, Copy, Debug, PartialEq, Eq, Structural)]
#[allow(non_camel_case_types)]
pub struct tms {
    pub tms_utime: i64,
    pub tms_stime: i64,
    pub tms_cutime: i64,
    pub tms_cstime: i64,
}

impl tms {
    /// The number of bytes this record occupies in the tracee.
    pub open spec fn size_spec() -> int {
        32
    }

    /// The record stored in the bytes `s`.
    pub open spec fn of_bytes(s: Seq<u8>) -> tms
        recommends
            s.len() >= 32,
    {
        tms {
            tms_utime: i64_le(s.subrange(0, 8)),
            tms_stime: i64_le(s.subrange(8, 16)),
            tms_cutime: i64_le(s.subrange(16, 24)),
            tms_cstime: i64_le(s.subrange(24, 32)),
        }
    }

    /// Decode the record from its raw bytes.
    pub fn from_bytes(v: &Vec<u8>) -> (r: tms)
        requires
            v@.len() >= 32,
        ensures
            r == tms::of_bytes(v@),
    {
        tms {
            tms_utime: i64_at(v, 0),
            tms_stime: i64_at(v, 8),
            tms_cutime: i64_at(v, 16),
            tms_cstime: i64_at(v, 24),
        }
    }
}

/// One scatter-gather element: a buffer address and its length.
#[derive(Clone, Copy, Debug, PartialEq, Eq, Structural)]
#[allow(non_camel_case_types)]
pub struct iovec {
    pub iov_base: u64,
    pub iov_len: u64,
}

impl iovec {
    /// The number of bytes this record occupies in the tracee.
    pub open spec fn size_spec() -> int {
        16
    }

    /// The record stored in the bytes `s`.
    pub open spec fn of_bytes(s: Seq<u8>) -> iovec
        recommends
            s.len() >= 16,
    {
        iovec {
            iov_base: u64_le(s.subrange(0, 8)),
            iov_len: u64_le(s.subrange(8, 16)),
        }
    }

    /// Decode the record from its raw bytes.
    pub fn from_bytes(v: &Vec<u8>) -> (r: iovec)
        requires
            v@.len() >= 16,
        ensures
            r == iovec::of_bytes(v@),
    {
        iovec {
            iov_base: u64_at(v, 0),
            iov_len: u64_at(v, 8),
        }
    }
}

/// A kernel signal set: the 64-bit mask the signal syscalls exchange.
#[derive(Clone, Copy, Debug, PartialEq, Eq, Structural)]
#[allow(non_camel_case_types)]
pub struct sigset_t {
    pub bits: u64,
}

impl sigset_t {
    /// The number of bytes this record occupies in the tracee.
    pub open spec fn size_spec() -> int {
        8
    }

    /// The record stored in the bytes `s`.
    pub open spec fn of_bytes(s: Seq<u8>) -> sigset_t
        recommends
            s.len() >= 8,
    {
        sigset_t {
            bits: u64_le(s.subrange(0, 8)),
        }
    }

    /// Decode the record from its raw bytes.
    pub fn from_bytes(v: &Vec<u8>) -> (r: sigset_t)
        requires
            v@.len() >= 8,
        ensures
            r == sigset_t::of_bytes(v@),
    {
        sigset_t {
            bits: u64_at(v, 0),
        }
    }
}

/// An alternate signal stack description.
#[derive(Clone, Copy, Debug, PartialEq, Eq, Structural)]
#[allow(non_camel_case_types)]
pub struct stack_t {
    pub ss_sp: u64,
    pub ss_flags: i32,
    pub ss_size: u64,
}

impl stack_t {
    /// The number of bytes this record occupies in the tracee.
    pub open spec fn size_spec() -> int {
        24
    }

    /// The record stored in the bytes `s`.
    pub open spec fn of_bytes(s: Seq<u8>) -> stack_t
        recommends
            s.len() >= 24,
    {
        stack_t {
            ss_sp: u64_le(s.subrange(0, 8)),
            ss_flags: i32_le(s.subrange(8, 12)),
            ss_size: u64_le(s.subrange(16, 24)),
        }
    }

    /// Decode the record from its raw bytes.
    pub fn from_bytes(v: &Vec<u8>) -> (r: stack_t)
        requires
            v@.len() >= 24,
        ensures
            r == stack_t::of_bytes(v@),
    {
        stack_t {
            ss_sp: u64_at(v, 0),
            ss_flags: i32_at(v, 8),
            ss_size: u64_at(v, 16),
        }
    }
}

/// Scheduling parameters of the scheduler syscalls.
#[derive(Clone, Copy, Debug, PartialEq, Eq, Structural)]
#[allow(non_camel_case_types)]
pub struct sched_param {
    pub sched_priority: i32,
}

impl sched_param {
    /// The number of bytes this record occupies in the tracee.
    pub open spec fn size_spec() -> int {
        4
    }

    /// The record stored in the bytes `s`.
    pub open spec fn of_bytes(s: Seq<u8>) -> sched_param
        recommends
            s.len() >= 4,
    {
        sched_param {
            sched_priority: i32_le(s.subrange(0, 4)),
        }
    }

    /// Decode the record from its raw bytes.
    pub fn from_bytes(v: &Vec<u8>) -> (r: sched_param)
        requires
            v@.len() >= 4,
        ensures
            r == sched_param::of_bytes(v@),
    {
        sched_param {
            sched_priority: i32_at(v, 0),
        }
    }
}

/// An interval-timer setting in nanosecond resolution.
#[derive(Clone, Copy, Debug, PartialEq, Eq, Structural)]
#[allow(non_camel_case_types)]
pub struct itimerspec {
    pub interval_sec: i64,
    pub interval_nsec: i64,
    pub value_sec: i64,
    pub value_nsec: i64,
}

impl itimerspec {
    /// The number of bytes this record occupies in the tracee.
    pub open spec fn size_spec() -> int {
        32
    }

    /// The record stored in the bytes `s`.
    pub open spec fn of_bytes(s: Seq<u8>) -> itimerspec
        recommends
            s.len() >= 32,
    {
        itimerspec {
            interval_sec: i64_le(s.subrange(0, 8)),
            interval_nsec: i64_le(s.subrange(8, 16)),
            value_sec: i64_le(s.subrange(16, 24)),
            value_nsec: i64_le(s.subrange(24, 32)),
        }
    }

    /// Decode the record from its raw bytes.
    pub fn from_bytes(v: &Vec<u8>) -> (r: itimerspec)
        requires
            v@.len() >= 32,
        ensures
            r == itimerspec::of_bytes(v@),
    {
        itimerspec {
            interval_sec: i64_at(v, 0),
            interval_nsec: i64_at(v, 8),
            value_sec: i64_at(v, 16),
            value_nsec: i64_at(v, 24),
        }
    }
}

/// An interval-timer setting in microsecond resolution.
#[derive(Clone, Copy, Debug, PartialEq, Eq, Structural)]
#[allow(non_camel_case_types)]
pub struct itimerval {
    pub interval_sec: i64,
    pub interval_usec: i64,
    pub value_sec: i64,
    pub value_usec: i64,
}

impl itimerval {
    /// The number of bytes this record occupies in the tracee.
    pub open spec fn size_spec() -> int {
        32
    }

    /// The record stored in the bytes `s`.
    pub open spec fn of_bytes(s: Seq<u8>) -> itimerval
        recommends
            s.len() >= 32,
    {
        itimerval {
            interval_sec: i64_le(s.subrange(0, 8)),
            interval_usec: i64_le(s.subrange(8, 16)),
            value_sec: i64_le(s.subrange(16, 24)),
            value_usec: i64_le(s.subrange(24, 32)),
        }
    }

    /// Decode the record from its raw bytes.
    pub fn from_bytes(v: &Vec<u8>) -> (r: itimerval)
        requires
            v@.len() >= 32,
        ensures
            r == itimerval::of_bytes(v@),
    {
        itimerval {
            interval_sec: i64_at(v, 0),
            interval_usec: i64_at(v, 8),
            value_sec: i64_at(v, 16),
            value_usec: i64_at(v, 24),
        }
    }
}

/// Resource usage, as filled by `getrusage` and `wait4`.
#[derive(Clone, Copy, Debug, PartialEq, Eq, Structural)]
#[allow(non_camel_case_types)]
pub struct rusage {
    pub ru_utime_sec: i64,
    pub ru_utime_usec: i64,
    pub ru_stime_sec: i64,
    pub ru_stime_usec: i64,
    pub ru_maxrss: i64,
    pub ru_ixrss: i64,
    pub ru_idrss: i64,
    pub ru_isrss: i64,
    pub ru_minflt: i64,
    pub ru_majflt: i64,
    pub ru_nswap: i64,
    pub ru_inblock: i64,
    pub ru_oublock: i64,
    pub ru_msgsnd: i64,
    pub ru_msgrcv: i64,
    pub ru_nsignals: i64,
    pub ru_nvcsw: i64,
    pub ru_nivcsw: i64,
}

impl rusage {
    /// The number of bytes this record occupies in the tracee.
    pub open spec fn size_spec() -> int {
        144
    }

    /// The record stored in the bytes `s`.
    pub open spec fn of_bytes(s: Seq<u8>) -> rusage
        recommends
            s.len() >= 144,
    {
        rusage {
            ru_utime_sec: i64_le(s.subrange(0, 8)),
            ru_utime_usec: i64_le(s.subrange(8, 16)),
            ru_stime_sec: i64_le(s.subrange(16, 24)),
            ru_stime_usec: i64_le(s.subrange(24, 32)),
            ru_maxrss: i64_le(s.subrange(32, 40)),
            ru_ixrss: i64_le(s.subrange(40, 48)),
            ru_idrss: i64_le(s.subrange(48, 56)),
            ru_isrss: i64_le(s.subrange(56, 64)),
            ru_minflt: i64_le(s.subrange(64, 72)),
            ru_majflt: i64_le(s.subrange(72, 80)),
            ru_nswap: i64_le(s.subrange(80, 88)),
            ru_inblock: i64_le(s.subrange(88, 96)),
            ru_oublock: i64_le(s.subrange(96, 104)),
            ru_msgsnd: i64_le(s.subrange(104, 112)),
            ru_msgrcv: i64_le(s.subrange(112, 120)),
            ru_nsignals: i64_le(s.subrange(120, 128)),
            ru_nvcsw: i64_le(s.subrange(128, 136)),
            ru_nivcsw: i64_le(s.subrange(136, 144)),
        }
    }

    /// Decode the record from its raw bytes.
    pub fn from_bytes(v: &Vec<u8>) -> (r: rusage)
        requires
            v@.len() >= 144,
        ensures
            r == rusage::of_bytes(v@),
    {
        rusage {
            ru_utime_sec: i64_at(v, 0),
            ru_utime_usec: i64_at(v, 8),
            ru_stime_sec: i64_at(v, 16),
            ru_stime_usec: i64_at(v, 24),
            ru_maxrss: i64_at(v, 32),
            ru_ixrss: i64_at(v, 40),
            ru_idrss: i64_at(v, 48),
            ru_isrss: i64_at(v, 56),
            ru_minflt: i64_at(v, 64),
            ru_majflt: i64_at(v, 72),
            ru_nswap: i64_at(v, 80),
            ru_inblock: i64_at(v, 88),
            ru_oublock: i64_at(v, 96),
            ru_msgsnd: i64_at(v, 104),
            ru_msgrcv: i64_at(v, 112),
            ru_nsignals: i64_at(v, 120),
            ru_nvcsw: i64_at(v, 128),
            ru_nivcsw: i64_at(v, 136),
        }
    }
}

/// The extensible open description handed to `openat2`.
#[derive(Clone, Copy, Debug, PartialEq, Eq, Structural)]
#[allow(non_camel_case_types)]
pub struct open_how {
    pub flags: u64,
    pub mode: u64,
    pub resolve: u64,
}

impl open_how {
    /// The number of bytes this record occupies in the tracee.
    pub open spec fn size_spec() -> int {
        24
    }

    /// The record stored in the bytes `s`.
    pub open spec fn of_bytes(s: Seq<u8>) -> open_how
        recommends
            s.len() >= 24,
    {
        open_how {
            flags: u64_le(s.subrange(0, 8)),
            mode: u64_le(s.subrange(8, 16)),
            resolve: u64_le(s.subrange(16, 24)),
        }
    }

    /// Decode the record from its raw bytes.
    pub fn from_bytes(v: &Vec<u8>) -> (r: open_how)
        requires
            v@.len() >= 24,
        ensures
            r == open_how::of_bytes(v@),
    {
        open_how {
            flags: u64_at(v, 0),
            mode: u64_at(v, 8),
            resolve: u64_at(v, 16),
        }
    }
}

/// The extensible clone description handed to `clone3`.
#[derive(Clone, Copy, Debug, PartialEq, Eq, Structural)]
#[allow(non_camel_case_types)]
pub struct clone_args {
    pub flags: u64,
    pub pidfd: u64,
    pub child_tid: u64,
    pub parent_tid: u64,
    pub exit_signal: u64,
    pub stack: u64,
    pub stack_size: u64,
    pub tls: u64,
    pub set_tid: u64,
    pub set_tid_size: u64,
    pub cgroup: u64,
}

impl clone_args {
    /// The number of bytes this record occupies in the tracee.
    pub open spec fn size_spec() -> int {
        88
    }

    /// The record stored in the bytes `s`.
    pub open spec fn of_bytes(s: Seq<u8>) -> clone_args
        recommends
            s.len() >= 88,
    {
        clone_args {
            flags: u64_le(s.subrange(0, 8)),
            pidfd: u64_le(s.subrange(8, 16)),
            child_tid: u64_le(s.subrange(16, 24)),
            parent_tid: u64_le(s.subrange(24, 32)),
            exit_signal: u64_le(s.subrange(32, 40)),
            stack: u64_le(s.subrange(40, 48)),
            stack_size: u64_le(s.subrange(48, 56)),
            tls: u64_le(s.subrange(56, 64)),
            set_tid: u64_le(s.subrange(64, 72)),
            set_tid_size: u64_le(s.subrange(72, 80)),
            cgroup: u64_le(s.subrange(80, 88)),
        }
    }

    /// Decode the record from its raw bytes.
    pub fn from_bytes(v: &Vec<u8>) -> (r: clone_args)
        requires
            v@.len() >= 88,
        ensures
            r == clone_args::of_bytes(v@),
    {
        clone_args {
            flags: u64_at(v, 0),
            pidfd: u64_at(v, 8),
            child_tid: u64_at(v, 16),
            parent_tid: u64_at(v, 24),
            exit_signal: u64_at(v, 32),
            stack: u64_at(v, 40),
            stack_size: u64_at(v, 48),
            tls: u64_at(v, 56),
            set_tid: u64_at(v, 64),
            set_tid_size: u64_at(v, 72),
            cgroup: u64_at(v, 80),
        }
    }
}

/// One polled descriptor of the poll syscalls.
#[derive(Clone, Copy, Debug, PartialEq, Eq, Structural)]
#[allow(non_camel_case_types)]
pub struct pollfd {
    pub fd: i32,
    pub events: i16,
    pub revents: i16,
}

impl pollfd {
    /// The number of bytes this record occupies in the tracee.
    pub open spec fn size_spec() -> int {
        8
    }

    /// The record stored in the bytes `s`.
    pub open spec fn of_bytes(s: Seq<u8>) -> pollfd
        recommends
            s.len() >= 8,
    {
        pollfd {
            fd: i32_le(s.subrange(0, 4)),
            events: i16_le(s.subrange(4, 6)),
            revents: i16_le(s.subrange(6, 8)),
        }
    }

    /// Decode the record from its raw bytes.
    pub fn from_bytes(v: &Vec<u8>) -> (r: pollfd)
        requires
            v@.len() >= 8,
        ensures
            r == pollfd::of_bytes(v@),
    {
        pollfd {
            fd: i32_at(v, 0),
            events: i16_at(v, 4),
            revents: i16_at(v, 6),
        }
    }
}

/// A socket message header; its buffer fields stay raw tracee addresses.
#[derive(Clone, Copy, Debug, PartialEq, Eq, Structural)]
#[allow(non_camel_case_types)]
pub struct msghdr {
    pub msg_name: u64,
    pub msg_namelen: u32,
    pub msg_iov: u64,
    pub msg_iovlen: u64,
    pub msg_control: u64,
    pub msg_controllen: u64,
    pub msg_flags: i32,
}

impl msghdr {
    /// The number of bytes this record occupies in the tracee.
    pub open spec fn size_spec() -> int {
        56
    }

    /// The record stored in the bytes `s`.
    pub open spec fn of_bytes(s: Seq<u8>) -> msghdr
        recommends
            s.len() >= 56,
    {
        msghdr {
            msg_name: u64_le(s.subrange(0, 8)),
            msg_namelen: u32_le(s.subrange(8, 12)),
            msg_iov: u64_le(s.subrange(16, 24)),
            msg_iovlen: u64_le(s.subrange(24, 32)),
            msg_control: u64_le(s.subrange(32, 40)),
            msg_controllen: u64_le(s.subrange(40, 48)),
            msg_flags: i32_le(s.subrange(48, 52)),
        }
    }

    /// Decode the record from its raw bytes.
    pub fn from_bytes(v: &Vec<u8>) -> (r: msghdr)
        requires
            v@.len() >= 56,
        ensures
            r == msghdr::of_bytes(v@),
    {
        msghdr {
            msg_name: u64_at(v, 0),
            msg_namelen: u32_at(v, 8),
            msg_iov: u64_at(v, 16),
            msg_iovlen: u64_at(v, 24),
            msg_control: u64_at(v, 32),
            msg_controllen: u64_at(v, 40),
            msg_flags: i32_at(v, 48),
        }
    }
}

/// Overall system statistics, as filled by `sysinfo`.
#[derive(Clone, Copy, Debug, PartialEq, Eq, Structural)]
#[allow(non_camel_case_types)]
pub struct sysinfo {
    pub uptime: i64,
    pub loads_0: u64,
    pub loads_1: u64,
    pub loads_2: u64,
    pub totalram: u64,
    pub freeram: u64,
    pub sharedram: u64,
    pub bufferram: u64,
    pub totalswap: u64,
    pub freeswap: u64,
    pub procs: u16,
    pub totalhigh: u64,
    pub freehigh: u64,
    pub mem_unit: u32,
}

impl sysinfo {
    /// The number of bytes this record occupies in the tracee.
    pub open spec fn size_spec() -> int {
        112
    }

    /// The record stored in the bytes `s`.
    pub open spec fn of_bytes(s: Seq<u8>) -> sysinfo
        recommends
            s.len() >= 112,
    {
        sysinfo {
            uptime: i64_le(s.subrange(0, 8)),
            loads_0: u64_le(s.subrange(8, 16)),
            loads_1: u64_le(s.subrange(16, 24)),
            loads_2: u64_le(s.subrange(24, 32)),
            totalram: u64_le(s.subrange(32, 40)),
            freeram: u64_le(s.subrange(40, 48)),
            sharedram: u64_le(s.subrange(48, 56)),
            bufferram: u64_le(s.subrange(56, 64)),
            totalswap: u64_le(s.subrange(64, 72)),
            freeswap: u64_le(s.subrange(72, 80)),
            procs: u16_le(s.subrange(80, 82)),
            totalhigh: u64_le(s.subrange(88, 96)),
            freehigh: u64_le(s.subrange(96, 104)),
            mem_unit: u32_le(s.subrange(104, 108)),
        }
    }

    /// Decode the record from its raw bytes.
    pub fn from_bytes(v: &Vec<u8>) -> (r: sysinfo)
        requires
            v@.len() >= 112,
        ensures
            r == sysinfo::of_bytes(v@),
    {
        sysinfo {
            uptime: i64_at(v, 0),
            loads_0: u64_at(v, 8),
            loads_1: u64_at(v, 16),
            loads_2: u64_at(v, 24),
            totalram: u64_at(v, 32),
            freeram: u64_at(v, 40),
            sharedram: u64_at(v, 48),
            bufferram: u64_at(v, 56),
            totalswap: u64_at(v, 64),
            freeswap: u64_at(v, 72),
            procs: u16_at(v, 80),
            totalhigh: u64_at(v, 88),
            freehigh: u64_at(v, 96),
            mem_unit: u32_at(v, 104),
        }
    }
}

/// One segment of a kexec image load; the buffer stays a raw tracee address.
#[derive(Clone, Copy, Debug, PartialEq, Eq, Structural)]
#[allow(non_camel_case_types)]
pub struct kexec_segment {
    pub buf: u64,
    pub bufsz: u64,
    pub mem: u64,
    pub memsz: u64,
}

impl kexec_segment {
    /// The number of bytes this record occupies in the tracee.
    pub open spec fn size_spec() -> int {
        32
    }

    /// The record stored in the bytes `s`.
    pub open spec fn of_bytes(s: Seq<u8>) -> kexec_segment
        recommends
            s.len() >= 32,
    {
        kexec_segment {
            buf: u64_le(s.subrange(0, 8)),
            bufsz: u64_le(s.subrange(8, 16)),
            mem: u64_le(s.subrange(16, 24)),
            memsz: u64_le(s.subrange(24, 32)),
        }
    }

    /// Decode the record from its raw bytes.
    pub fn from_bytes(v: &Vec<u8>) -> (r: kexec_segment)
        requires
            v@.len() >= 32,
        ensures
            r == kexec_segment::of_bytes(v@),
    {
        kexec_segment {
            buf: u64_at(v, 0),
            bufsz: u64_at(v, 8),
            mem: u64_at(v, 16),
            memsz: u64_at(v, 24),
        }
    }
}

/// A thread-local-storage segment descriptor of the x86 thread-area calls.
#[derive(Clone, Copy, Debug, PartialEq, Eq, Structural)]
#[allow(non_camel_case_types)]
pub struct user_desc {
    pub entry_number: u32,
    pub base_addr: u32,
    pub limit: u32,
    pub bitflags: u32,
}

impl user_desc {
    /// The number of bytes this record occupies in the tracee.
    pub open spec fn size_spec() -> int {
        16
    }

    /// The record stored in the bytes `s`.
    pub open spec fn of_bytes(s: Seq<u8>) -> user_desc
        recommends
            s.len() >= 16,
    {
        user_desc {
            entry_number: u32_le(s.subrange(0, 4)),
            base_addr: u32_le(s.subrange(4, 8)),
            limit: u32_le(s.subrange(8, 12)),
            bitflags: u32_le(s.subrange(12, 16)),
        }
    }

    /// Decode the record from its raw bytes.
    pub fn from_bytes(v: &Vec<u8>) -> (r: user_desc)
        requires
            v@.len() >= 16,
        ensures
            r == user_desc::of_bytes(v@),
    {
        user_desc {
            entry_number: u32_at(v, 0),
            base_addr: u32_at(v, 4),
            limit: u32_at(v, 8),
            bitflags: u32_at(v, 12),
        }
    }
}

/// Access and modification times handed to `utime`.
#[derive(Clone, Copy, Debug, PartialEq, Eq, Structural)]
#[allow(non_camel_case_types)]
pub struct utimbuf {
    pub actime: i64,
    pub modtime: i64,
}

impl utimbuf {
    /// The number of bytes this record occupies in the tracee.
    pub open spec fn size_spec() -> int {
        16
    }

    /// The record stored in the bytes `s`.
    pub open spec fn of_bytes(s: Seq<u8>) -> utimbuf
        recommends
            s.len() >= 16,
    {
        utimbuf {
            actime: i64_le(s.subrange(0, 8)),
            modtime: i64_le(s.subrange(8, 16)),
        }
    }

    /// Decode the record from its raw bytes.
    pub fn from_bytes(v: &Vec<u8>) -> (r: utimbuf)
        requires
            v@.len() >= 16,
        ensures
            r == utimbuf::of_bytes(v@),
    {
        utimbuf {
            actime: i64_at(v, 0),
            modtime: i64_at(v, 8),
        }
    }
}

/// Message-queue attributes (the trailing reserved words are dropped).
#[derive(Clone, Copy, Debug, PartialEq, Eq, Structural)]
#[allow(non_camel_case_types)]
pub struct mq_attr {
    pub mq_flags: i64,
    pub mq_maxmsg: i64,
    pub mq_msgsize: i64,
    pub mq_curmsgs: i64,
}

impl mq_attr {
    /// The number of bytes this record occupies in the tracee.
    pub open spec fn size_spec() -> int {
        64
    }

    /// The record stored in the bytes `s`.
    pub open spec fn of_bytes(s: Seq<u8>) -> mq_attr
        recommends
            s.len() >= 64,
    {
        mq_attr {
            mq_flags: i64_le(s.subrange(0, 8)),
            mq_maxmsg: i64_le(s.subrange(8, 16)),
            mq_msgsize: i64_le(s.subrange(16, 24)),
            mq_curmsgs: i64_le(s.subrange(24, 32)),
        }
    }

    /// Decode the record from its raw bytes.
    pub fn from_bytes(v: &Vec<u8>) -> (r: mq_attr)
        requires
            v@.len() >= 64,
        ensures
            r == mq_attr::of_bytes(v@),
    {
        mq_attr {
            mq_flags: i64_at(v, 0),
            mq_maxmsg: i64_at(v, 8),
            mq_msgsize: i64_at(v, 16),
            mq_curmsgs: i64_at(v, 24),
        }
    }
}

/// Extended file status, as filled by `statx` (the trailing spare words are dropped).
#[derive(Clone, Copy, Debug, PartialEq, Eq, Structural)]
#[allow(non_camel_case_types)]
pub struct statx {
    pub stx_mask: u32,
    pub stx_blksize: u32,
    pub stx_attributes: u64,
    pub stx_nlink: u32,
    pub stx_uid: u32,
    pub stx_gid: u32,
    pub stx_mode: u16,
    pub stx_ino: u64,
    pub stx_size: u64,
    pub stx_blocks: u64,
    pub stx_attributes_mask: u64,
    pub stx_atime_sec: i64,
    pub stx_atime_nsec: u32,
    pub stx_btime_sec: i64,
    pub stx_btime_nsec: u32,
    pub stx_ctime_sec: i64,
    pub stx_ctime_nsec: u32,
    pub stx_mtime_sec: i64,
    pub stx_mtime_nsec: u32,
    pub stx_rdev_major: u32,
    pub stx_rdev_minor: u32,
    pub stx_dev_major: u32,
    pub stx_dev_minor: u32,
    pub stx_mnt_id: u64,
    pub stx_dio_mem_align: u32,
    pub stx_dio_offset_align: u32,
}

impl statx {
    /// The number of bytes this record occupies in the tracee.
    pub open spec fn size_spec() -> int {
        256
    }

    /// The record stored in the bytes `s`.
    pub open spec fn of_bytes(s: Seq<u8>) -> statx
        recommends
            s.len() >= 256,
    {
        statx {
            stx_mask: u32_le(s.subrange(0, 4)),
            stx_blksize: u32_le(s.subrange(4, 8)),
            stx_attributes: u64_le(s.subrange(8, 16)),
            stx_nlink: u32_le(s.subrange(16, 20)),
            stx_uid: u32_le(s.subrange(20, 24)),
            stx_gid: u32_le(s.subrange(24, 28)),
            stx_mode: u16_le(s.subrange(28, 30)),
            stx_ino: u64_le(s.subrange(32, 40)),
            stx_size: u64_le(s.subrange(40, 48)),
            stx_blocks: u64_le(s.subrange(48, 56)),
            stx_attributes_mask: u64_le(s.subrange(56, 64)),
            stx_atime_sec: i64_le(s.subrange(64, 72)),
            stx_atime_nsec: u32_le(s.subrange(72, 76)),
            stx_btime_sec: i64_le(s.subrange(80, 88)),
            stx_btime_nsec: u32_le(s.subrange(88, 92)),
            stx_ctime_sec: i64_le(s.subrange(96, 104)),
            stx_ctime_nsec: u32_le(s.subrange(104, 108)),
            stx_mtime_sec: i64_le(s.subrange(112, 120)),
            stx_mtime_nsec: u32_le(s.subrange(120, 124)),
            stx_rdev_major: u32_le(s.subrange(128, 132)),
            stx_rdev_minor: u32_le(s.subrange(132, 136)),
            stx_dev_major: u32_le(s.subrange(136, 140)),
            stx_dev_minor: u32_le(s.subrange(140, 144)),
            stx_mnt_id: u64_le(s.subrange(144, 152)),
            stx_dio_mem_align: u32_le(s.subrange(152, 156)),
            stx_dio_offset_align: u32_le(s.subrange(156, 160)),
        }
    }

    /// Decode the record from its raw bytes.
    pub fn from_bytes(v: &Vec<u8>) -> (r: statx)
        requires
            v@.len() >= 256,
        ensures
            r == statx::of_bytes(v@),
    {
        statx {
            stx_mask: u32_at(v, 0),
            stx_blksize: u32_at(v, 4),
            stx_attributes: u64_at(v, 8),
            stx_nlink: u32_at(v, 16),
            stx_uid: u32_at(v, 20),
            stx_gid: u32_at(v, 24),
            stx_mode: u16_at(v, 28),
            stx_ino: u64_at(v, 32),
            stx_size: u64_at(v, 40),
            stx_blocks: u64_at(v, 48),
            stx_attributes_mask: u64_at(v, 56),
            stx_atime_sec: i64_at(v, 64),
            stx_atime_nsec: u32_at(v, 72),
            stx_btime_sec: i64_at(v, 80),
            stx_btime_nsec: u32_at(v, 88),
            stx_ctime_sec: i64_at(v, 96),
            stx_ctime_nsec: u32_at(v, 104),
            stx_mtime_sec: i64_at(v, 112),
            stx_mtime_nsec: u32_at(v, 120),
            stx_rdev_major: u32_at(v, 128),
            stx_rdev_minor: u32_at(v, 132),
            stx_dev_major: u32_at(v, 136),
            stx_dev_minor: u32_at(v, 140),
            stx_mnt_id: u64_at(v, 144),
            stx_dio_mem_align: u32_at(v, 152),
            stx_dio_offset_align: u32_at(v, 156),
        }
    }
}

impl mount_attr {
    /// The number of bytes this record occupies in the tracee.
    pub open spec fn size_spec() -> int {
        32
    }

    /// The record stored in the bytes `s`.
    pub open spec fn of_bytes(s: Seq<u8>) -> mount_attr
        recommends
            s.len() >= 32,
    {
        mount_attr {
            attr_set: u64_le(s.subrange(0, 8)),
            attr_clr: u64_le(s.subrange(8, 16)),
            propagation: u64_le(s.subrange(16, 24)),
            userns_fd: u64_le(s.subrange(24, 32)),
        }
    }

    /// Decode the record from its raw bytes.
    pub fn from_bytes(v: &Vec<u8>) -> (r: mount_attr)
        requires
            v@.len() >= 32,
        ensures
            r == mount_attr::of_bytes(v@),
    {
        mount_attr {
            attr_set: u64_at(v, 0),
            attr_clr: u64_at(v, 8),
            propagation: u64_at(v, 16),
            userns_fd: u64_at(v, 24),
        }
    }
}

impl io_event {
    /// The number of bytes this record occupies in the tracee.
    pub open spec fn size_spec() -> int {
        32
    }

    /// The record stored in the bytes `s`.
    pub open spec fn of_bytes(s: Seq<u8>) -> io_event
        recommends
            s.len() >= 32,
    {
        io_event {
            data: u64_le(s.subrange(0, 8)),
            obj: u64_le(s.subrange(8, 16)),
            res: i64_le(s.subrange(16, 24)),
            res2: i64_le(s.subrange(24, 32)),
        }
    }

    /// Decode the record from its raw bytes.
    pub fn from_bytes(v: &Vec<u8>) -> (r: io_event)
        requires
            v@.len() >= 32,
        ensures
            r == io_event::of_bytes(v@),
    {
        io_event {
            data: u64_at(v, 0),
            obj: u64_at(v, 8),
            res: i64_at(v, 16),
            res2: i64_at(v, 24),
        }
    }
}

impl futex_waitv {
    /// The number of bytes this record occupies in the tracee.
    pub open spec fn size_spec() -> int {
        24
    }

    /// The record stored in the bytes `s`.
    pub open spec fn of_bytes(s: Seq<u8>) -> futex_waitv
        recommends
            s.len() >= 24,
    {
        futex_waitv {
            val: u64_le(s.subrange(0, 8)),
            uaddr: u64_le(s.subrange(8, 16)),
            flags: u32_le(s.subrange(16, 20)),
            reserved: u32_le(s.subrange(20, 24)),
        }
    }

    /// Decode the record from its raw bytes.
    pub fn from_bytes(v: &Vec<u8>) -> (r: futex_waitv)
        requires
            v@.len() >= 24,
        ensures
            r == futex_waitv::of_bytes(v@),
    {
        futex_waitv {
            val: u64_at(v, 0),
            uaddr: u64_at(v, 8),
            flags: u32_at(v, 16),
            reserved: u32_at(v, 20),
        }
    }
}
/// A signal disposition, as the kernel's `sigaction`: on x86_64 the restorer
/// trampoline sits before the mask; aarch64 and riscv64 have no restorer.
#[derive(Clone, Copy, Debug, PartialEq, Eq, Structural)]
#[allow(non_camel_case_types)]
pub struct sigaction {
    pub sa_handler: u64,
    pub sa_flags: u64,
    pub sa_restorer: u64,
    pub sa_mask: u64,
}

impl sigaction {
    /// The number of bytes the record occupies in a tracee of `arch`.
    pub open spec fn size_for_spec(arch: Arch) -> int {
        match arch {
            Arch::X86_64 => 32,
            Arch::Aarch64 => 24,
            Arch::Riscv64 => 24,
        }
    }

    /// The number of bytes the record occupies in a tracee of `arch`.
    pub fn size_for(arch: Arch) -> (r: usize)
        ensures
            r == sigaction::size_for_spec(arch),
    {
        match arch {
            Arch::X86_64 => 32,
            Arch::Aarch64 => 24,
            Arch::Riscv64 => 24,
        }
    }

    /// The record stored in the bytes `s` under the layout of `arch`; where
    /// the architecture has no restorer, that field is zero.
    pub open spec fn of_bytes(arch: Arch, s: Seq<u8>) -> sigaction
        recommends
            s.len() >= sigaction::size_for_spec(arch),
    {
        if arch is X86_64 {
            sigaction {
                sa_handler: u64_le(s.subrange(0, 8)),
                sa_flags: u64_le(s.subrange(8, 16)),
                sa_restorer: u64_le(s.subrange(16, 24)),
                sa_mask: u64_le(s.subrange(24, 32)),
            }
        } else {
            sigaction {
                sa_handler: u64_le(s.subrange(0, 8)),
                sa_flags: u64_le(s.subrange(8, 16)),
                sa_restorer: 0,
                sa_mask: u64_le(s.subrange(16, 24)),
            }
        }
    }

    /// Decode the record from its raw bytes under the layout of `arch`.
    pub fn from_bytes(arch: Arch, v: &Vec<u8>) -> (r: sigaction)
        requires
            v@.len() >= sigaction::size_for_spec(arch),
        ensures
            r == sigaction::of_bytes(arch, v@),
    {
        match arch {
            Arch::X86_64 => sigaction {
                sa_handler: u64_at(v, 0),
                sa_flags: u64_at(v, 8),
                sa_restorer: u64_at(v, 16),
                sa_mask: u64_at(v, 24),
            },
            _ => sigaction {
                sa_handler: u64_at(v, 0),
                sa_flags: u64_at(v, 8),
                sa_restorer: 0,
                sa_mask: u64_at(v, 16),
            },
        }
    }
}

/// One epoll event: packed to 12 bytes on x86_64, padded to 16 elsewhere.
#[derive(Clone, Copy, Debug, PartialEq, Eq, Structural)]
#[allow(non_camel_case_types)]
pub struct epoll_event {
    pub events: u32,
    pub data: u64,
}

impl epoll_event {
    /// The number of bytes the record occupies in a tracee of `arch`.
    pub open spec fn size_for_spec(arch: Arch) -> int {
        match arch {
            Arch::X86_64 => 12,
            Arch::Aarch64 => 16,
            Arch::Riscv64 => 16,
        }
    }

    /// The number of bytes the record occupies in a tracee of `arch`.
    pub fn size_for(arch: Arch) -> (r: usize)
        ensures
            r == epoll_event::size_for_spec(arch),
    {
        match arch {
            Arch::X86_64 => 12,
            Arch::Aarch64 => 16,
            Arch::Riscv64 => 16,
        }
    }

    /// The record stored in the bytes `s` under the layout of `arch`.
    pub open spec fn of_bytes(arch: Arch, s: Seq<u8>) -> epoll_event
        recommends
            s.len() >= epoll_event::size_for_spec(arch),
    {
        if arch is X86_64 {
            epoll_event { events: u32_le(s.subrange(0, 4)), data: u64_le(s.subrange(4, 12)) }
        } else {
            epoll_event { events: u32_le(s.subrange(0, 4)), data: u64_le(s.subrange(8, 16)) }
        }
    }

    /// Decode the record from its raw bytes under the layout of `arch`.
    pub fn from_bytes(arch: Arch, v: &Vec<u8>) -> (r: epoll_event)
        requires
            v@.len() >= epoll_event::size_for_spec(arch),
        ensures
            r == epoll_event::of_bytes(arch, v@),
    {
        match arch {
            Arch::X86_64 => epoll_event { events: u32_at(v, 0), data: u64_at(v, 4) },
            _ => epoll_event { events: u32_at(v, 0), data: u64_at(v, 8) },
        }
    }
}

/// Extended signal information: the three leading fields, with the union that
/// follows them kept as raw bytes.
#[derive(Clone, Debug, PartialEq, Eq)]
#[allow(non_camel_case_types)]
pub struct siginfo {
    pub si_signo: i32,
    pub si_errno: i32,
    pub si_code: i32,
    pub fields_raw: Vec<u8>,
}

impl siginfo {
    /// The number of bytes this record occupies in the tracee.
    pub open spec fn size_spec() -> int {
        128
    }

    /// This value is the one stored in the bytes `s`.
    pub open spec fn matches_bytes(self, s: Seq<u8>) -> bool
        recommends
            s.len() >= 128,
    {
        &&& self.si_signo == i32_le(s.subrange(0, 4))
        &&& self.si_errno == i32_le(s.subrange(4, 8))
        &&& self.si_code == i32_le(s.subrange(8, 12))
        &&& self.fields_raw@ == s.subrange(16, 128)
    }

    /// Decode the record from its raw bytes.
    pub fn from_bytes(v: &Vec<u8>) -> (r: siginfo)
        requires
            v@.len() >= 128,
        ensures
            r.matches_bytes(v@),
    {
        siginfo {
            si_signo: i32_at(v, 0),
            si_errno: i32_at(v, 4),
            si_code: i32_at(v, 8),
            fields_raw: crate::bytes::bytes_range(v, 16, 128),
        }
    }
}

/// System identification, as filled by `uname`: six NUL-padded 65-byte
/// fields.
#[derive(Clone, Debug, PartialEq, Eq)]
#[allow(non_camel_case_types)]
pub struct utsname {
    pub sysname: Vec<u8>,
    pub nodename: Vec<u8>,
    pub release: Vec<u8>,
    pub version: Vec<u8>,
    pub machine: Vec<u8>,
    pub domainname: Vec<u8>,
}

impl utsname {
    /// The number of bytes this record occupies in the tracee.
    pub open spec fn size_spec() -> int {
        390
    }

    /// This value is the one stored in the bytes `s`.
    pub open spec fn matches_bytes(self, s: Seq<u8>) -> bool
        recommends
            s.len() >= 390,
    {
        &&& self.sysname@ == s.subrange(0, 65)
        &&& self.nodename@ == s.subrange(65, 130)
        &&& self.release@ == s.subrange(130, 195)
        &&& self.version@ == s.subrange(195, 260)
        &&& self.machine@ == s.subrange(260, 325)
        &&& self.domainname@ == s.subrange(325, 390)
    }

    /// Decode the record from its raw bytes.
    pub fn from_bytes(v: &Vec<u8>) -> (r: utsname)
        requires
            v@.len() >= 390,
        ensures
            r.matches_bytes(v@),
    {
        utsname {
            sysname: crate::bytes::bytes_range(v, 0, 65),
            nodename: crate::bytes::bytes_range(v, 65, 130),
            release: crate::bytes::bytes_range(v, 130, 195),
            version: crate::bytes::bytes_range(v, 195, 260),
            machine: crate::bytes::bytes_range(v, 260, 325),
            domainname: crate::bytes::bytes_range(v, 325, 390),
        }
    }
}

} // verus!
