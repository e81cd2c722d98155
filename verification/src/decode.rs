//! Per-syscall decoding: the typed field readers, the entry-decoded and
//! exit-decoded records of every table entry, and the dispatch from a raw
//! record into them.
//!
//! Entry decoding reads every entry-visible pointer argument out of the
//! tracee; exit decoding takes the result slot from the exit-time register
//! snapshot, and re-reads output arguments only when the result does not
//! signal failure.  Every field that required remote reading is wrapped in an
//! inspection outcome, so a fault never aborts the decoding of a record.

use vstd::prelude::*;

use crate::arch::{Arch, RegisterSnapshot};
use crate::groups::GroupSet;
use crate::mem::{bytes_readable, mem_bytes, TraceeMem, EFAULT};
use crate::outcome::{InspectError, InspectResult};
use crate::reader::{
    cover_start, cover_end, counted_post, cstring_post, cstr_ok_val, cstr_fail_partial,
    ptr_array_prefix_ok, chunk_at, slot_val, cstr_ok_exists, MemReader,
};
use crate::bytes::{i32_le, i64_le, u32_le, u64_le};
use crate::syscalls::{
    groups_of, groups_of_spec, Accept4RawArgs, AcceptRawArgs, AccessRawArgs, AlarmRawArgs,
    BindRawArgs, BrkRawArgs, CachestatRawArgs, CapgetRawArgs, ChdirRawArgs, ChmodRawArgs,
    ChownRawArgs, ClockGetresRawArgs, ClockGettimeRawArgs, ClockNanosleepRawArgs,
    ClockSettimeRawArgs, CloneRawArgs, CloseRangeRawArgs, CloseRawArgs, ConnectRawArgs,
    CreatRawArgs, Dup2RawArgs, Dup3RawArgs, DupRawArgs, EpollCreate1RawArgs, Eventfd2RawArgs,
    ExecveRawArgs, ExitGroupRawArgs, ExitRawArgs, FaccessatRawArgs, FchmodRawArgs,
    FchmodatRawArgs, FchownRawArgs, FchownatRawArgs, FcntlRawArgs, FdatasyncRawArgs,
    FlockRawArgs, FstatRawArgs, FstatfsRawArgs, FsyncRawArgs, FtruncateRawArgs, FutexRawArgs,
    GetcwdRawArgs, GetegidRawArgs, GeteuidRawArgs, GetgidRawArgs, GetpeernameRawArgs,
    GetpgidRawArgs, GetpidRawArgs, GetppidRawArgs, GetrandomRawArgs, GetresgidRawArgs,
    GetresuidRawArgs, GetrlimitRawArgs, GetsidRawArgs, GetsocknameRawArgs, GettidRawArgs,
    GettimeofdayRawArgs, GetuidRawArgs, InotifyInit1RawArgs, IoctlRawArgs, KillRawArgs,
    LandlockCreateRulesetRawArgs, LchownRawArgs, LinkRawArgs, LinkatRawArgs, ListenRawArgs,
    LseekRawArgs, LstatRawArgs, MadviseRawArgs, MemfdCreateRawArgs, MkdirRawArgs,
    MkdiratRawArgs, MmapRawArgs, MprotectRawArgs, MremapRawArgs, MsggetRawArgs, MsgsndRawArgs,
    MsyncRawArgs, MunmapRawArgs, NanosleepRawArgs, NewfstatatRawArgs, OpenRawArgs,
    OpenatRawArgs, PauseRawArgs, PidfdOpenRawArgs, Pipe2RawArgs, PipeRawArgs, Pread64RawArgs,
    Prlimit64RawArgs, PtraceRawArgs, Pwrite64RawArgs, ReadRawArgs, ReadlinkRawArgs,
    ReadlinkatRawArgs, RenameRawArgs, RenameatRawArgs, RmdirRawArgs, RseqRawArgs,
    RtSigreturnRawArgs, SchedGetaffinityRawArgs, SchedYieldRawArgs, SemctlRawArgs,
    SemgetRawArgs, SemopRawArgs, SetdomainnameRawArgs, SetgidRawArgs, SethostnameRawArgs,
    SetpgidRawArgs, SetregidRawArgs, SetresgidRawArgs, SetresuidRawArgs, SetreuidRawArgs,
    SetsidRawArgs, SettimeofdayRawArgs, SetuidRawArgs, ShmatRawArgs, ShmdtRawArgs,
    ShmgetRawArgs, ShutdownRawArgs, SocketRawArgs, SocketpairRawArgs, StatRawArgs,
    StatfsRawArgs, StatmountRawArgs, SymlinkRawArgs, SymlinkatRawArgs, SyncRawArgs, SyscallId,
    SyscallRawArgs, TimesRawArgs, TruncateRawArgs, UmaskRawArgs, Umount2RawArgs, UnknownArgs,
    UnlinkRawArgs, UnlinkatRawArgs, UtimesRawArgs, WriteRawArgs,
};
use crate::types::{
    cachestat, cachestat_range, cap_user_data, cap_user_header, clone_args, epoll_event,
    futex_waitv, io_event, iovec, itimerspec, itimerval, kexec_segment, landlock_ruleset_attr,
    mnt_id_req, mount_attr, mq_attr, msghdr, open_how, pollfd, rlimit, rseq, rusage,
    sched_param, sembuf,
    sigaction, siginfo, sigset_t, sockaddr, stack_t, stat, statfs, statmount, statx, sysinfo,
    timespec, timeval, timezone, tms, user_desc, utimbuf, utsname,
};

verus! {

/// The result of a syscall that never returns a value: the process-exit
/// calls have no exit stop of their own, so their result carries no
/// information and no error check applies.
#[derive(Clone, Copy, Debug, PartialEq, Eq, Structural)]
pub struct Unit;

/// What reading a `timespec` at `addr` promises.
pub open spec fn timespec_post<M: TraceeMem>(m: M, addr: u64, r: InspectResult<timespec>) -> bool {
    &&& (r matches Ok(v) ==> v == timespec::of_bytes(mem_bytes(m, addr, 16)) && bytes_readable(
        m,
        addr as int,
        addr + 16,
    ))
    &&& (r matches Err(e) ==> e matches InspectError::ReadFailure {
        errno: _,
        incomplete: None,
    } && !bytes_readable(m, cover_start(addr), cover_end(addr, 16)))
}

/// Read the `timespec` record at `addr`.
pub fn read_timespec<M: TraceeMem>(rd: &mut MemReader<M>, addr: u64) -> (r: InspectResult<timespec>)
    requires
        old(rd).wf(),
    ensures
        final(rd).wf(),
        final(rd).evolves_from(*old(rd)),
        timespec_post(old(rd).mem, addr, r),
{
    match rd.read_exact(addr, 16) {
        Ok(v) => Ok(timespec::from_bytes(&v)),
        Err(InspectError::ReadFailure { errno, incomplete: _ }) => Err(
            InspectError::ReadFailure { errno, incomplete: None },
        ),
        Err(_) => Err(InspectError::ReadFailure { errno: EFAULT, incomplete: None }),
    }
}

/// What reading a `timeval` at `addr` promises.
pub open spec fn timeval_post<M: TraceeMem>(m: M, addr: u64, r: InspectResult<timeval>) -> bool {
    &&& (r matches Ok(v) ==> v == timeval::of_bytes(mem_bytes(m, addr, 16)) && bytes_readable(
        m,
        addr as int,
        addr + 16,
    ))
    &&& (r matches Err(e) ==> e matches InspectError::ReadFailure {
        errno: _,
        incomplete: None,
    } && !bytes_readable(m, cover_start(addr), cover_end(addr, 16)))
}

/// Read the `timeval` record at `addr`.
pub fn read_timeval<M: TraceeMem>(rd: &mut MemReader<M>, addr: u64) -> (r: InspectResult<timeval>)
    requires
        old(rd).wf(),
    ensures
        final(rd).wf(),
        final(rd).evolves_from(*old(rd)),
        timeval_post(old(rd).mem, addr, r),
{
    match rd.read_exact(addr, 16) {
        Ok(v) => Ok(timeval::from_bytes(&v)),
        Err(InspectError::ReadFailure { errno, incomplete: _ }) => Err(
            InspectError::ReadFailure { errno, incomplete: None },
        ),
        Err(_) => Err(InspectError::ReadFailure { errno: EFAULT, incomplete: None }),
    }
}

/// What reading a `timezone` at `addr` promises.
pub open spec fn timezone_post<M: TraceeMem>(m: M, addr: u64, r: InspectResult<timezone>) -> bool {
    &&& (r matches Ok(v) ==> v == timezone::of_bytes(mem_bytes(m, addr, 8)) && bytes_readable(
        m,
        addr as int,
        addr + 8,
    ))
    &&& (r matches Err(e) ==> e matches InspectError::ReadFailure {
        errno: _,
        incomplete: None,
    } && !bytes_readable(m, cover_start(addr), cover_end(addr, 8)))
}

/// Read the `timezone` record at `addr`.
pub fn read_timezone<M: TraceeMem>(rd: &mut MemReader<M>, addr: u64) -> (r: InspectResult<timezone>)
    requires
        old(rd).wf(),
    ensures
        final(rd).wf(),
        final(rd).evolves_from(*old(rd)),
        timezone_post(old(rd).mem, addr, r),
{
    match rd.read_exact(addr, 8) {
        Ok(v) => Ok(timezone::from_bytes(&v)),
        Err(InspectError::ReadFailure { errno, incomplete: _ }) => Err(
            InspectError::ReadFailure { errno, incomplete: None },
        ),
        Err(_) => Err(InspectError::ReadFailure { errno: EFAULT, incomplete: None }),
    }
}

/// What reading a `cap_user_header` at `addr` promises.
pub open spec fn cap_user_header_post<M: TraceeMem>(m: M, addr: u64, r: InspectResult<cap_user_header>) -> bool {
    &&& (r matches Ok(v) ==> v == cap_user_header::of_bytes(mem_bytes(m, addr, 8)) && bytes_readable(
        m,
        addr as int,
        addr + 8,
    ))
    &&& (r matches Err(e) ==> e matches InspectError::ReadFailure {
        errno: _,
        incomplete: None,
    } && !bytes_readable(m, cover_start(addr), cover_end(addr, 8)))
}

/// Read the `cap_user_header` record at `addr`.
pub fn read_cap_user_header<M: TraceeMem>(rd: &mut MemReader<M>, addr: u64) -> (r: InspectResult<cap_user_header>)
    requires
        old(rd).wf(),
    ensures
        final(rd).wf(),
        final(rd).evolves_from(*old(rd)),
        cap_user_header_post(old(rd).mem, addr, r),
{
    match rd.read_exact(addr, 8) {
        Ok(v) => Ok(cap_user_header::from_bytes(&v)),
        Err(InspectError::ReadFailure { errno, incomplete: _ }) => Err(
            InspectError::ReadFailure { errno, incomplete: None },
        ),
        Err(_) => Err(InspectError::ReadFailure { errno: EFAULT, incomplete: None }),
    }
}

/// What reading a `cap_user_data` at `addr` promises.
pub open spec fn cap_user_data_post<M: TraceeMem>(m: M, addr: u64, r: InspectResult<cap_user_data>) -> bool {
    &&& (r matches Ok(v) ==> v == cap_user_data::of_bytes(mem_bytes(m, addr, 12)) && bytes_readable(
        m,
        addr as int,
        addr + 12,
    ))
    &&& (r matches Err(e) ==> e matches InspectError::ReadFailure {
        errno: _,
        incomplete: None,
    } && !bytes_readable(m, cover_start(addr), cover_end(addr, 12)))
}

/// Read the `cap_user_data` record at `addr`.
pub fn read_cap_user_data<M: TraceeMem>(rd: &mut MemReader<M>, addr: u64) -> (r: InspectResult<cap_user_data>)
    requires
        old(rd).wf(),
    ensures
        final(rd).wf(),
        final(rd).evolves_from(*old(rd)),
        cap_user_data_post(old(rd).mem, addr, r),
{
    match rd.read_exact(addr, 12) {
        Ok(v) => Ok(cap_user_data::from_bytes(&v)),
        Err(InspectError::ReadFailure { errno, incomplete: _ }) => Err(
            InspectError::ReadFailure { errno, incomplete: None },
        ),
        Err(_) => Err(InspectError::ReadFailure { errno: EFAULT, incomplete: None }),
    }
}

/// What reading a `cachestat_range` at `addr` promises.
pub open spec fn cachestat_range_post<M: TraceeMem>(m: M, addr: u64, r: InspectResult<cachestat_range>) -> bool {
    &&& (r matches Ok(v) ==> v == cachestat_range::of_bytes(mem_bytes(m, addr, 16)) && bytes_readable(
        m,
        addr as int,
        addr + 16,
    ))
    &&& (r matches Err(e) ==> e matches InspectError::ReadFailure {
        errno: _,
        incomplete: None,
    } && !bytes_readable(m, cover_start(addr), cover_end(addr, 16)))
}

/// Read the `cachestat_range` record at `addr`.
pub fn read_cachestat_range<M: TraceeMem>(rd: &mut MemReader<M>, addr: u64) -> (r: InspectResult<cachestat_range>)
    requires
        old(rd).wf(),
    ensures
        final(rd).wf(),
        final(rd).evolves_from(*old(rd)),
        cachestat_range_post(old(rd).mem, addr, r),
{
    match rd.read_exact(addr, 16) {
        Ok(v) => Ok(cachestat_range::from_bytes(&v)),
        Err(InspectError::ReadFailure { errno, incomplete: _ }) => Err(
            InspectError::ReadFailure { errno, incomplete: None },
        ),
        Err(_) => Err(InspectError::ReadFailure { errno: EFAULT, incomplete: None }),
    }
}

/// What reading a `cachestat` at `addr` promises.
pub open spec fn cachestat_post<M: TraceeMem>(m: M, addr: u64, r: InspectResult<cachestat>) -> bool {
    &&& (r matches Ok(v) ==> v == cachestat::of_bytes(mem_bytes(m, addr, 40)) && bytes_readable(
        m,
        addr as int,
        addr + 40,
    ))
    &&& (r matches Err(e) ==> e matches InspectError::ReadFailure {
        errno: _,
        incomplete: None,
    } && !bytes_readable(m, cover_start(addr), cover_end(addr, 40)))
}

/// Read the `cachestat` record at `addr`.
pub fn read_cachestat<M: TraceeMem>(rd: &mut MemReader<M>, addr: u64) -> (r: InspectResult<cachestat>)
    requires
        old(rd).wf(),
    ensures
        final(rd).wf(),
        final(rd).evolves_from(*old(rd)),
        cachestat_post(old(rd).mem, addr, r),
{
    match rd.read_exact(addr, 40) {
        Ok(v) => Ok(cachestat::from_bytes(&v)),
        Err(InspectError::ReadFailure { errno, incomplete: _ }) => Err(
            InspectError::ReadFailure { errno, incomplete: None },
        ),
        Err(_) => Err(InspectError::ReadFailure { errno: EFAULT, incomplete: None }),
    }
}

/// What reading a `landlock_ruleset_attr` at `addr` promises.
pub open spec fn landlock_ruleset_attr_post<M: TraceeMem>(m: M, addr: u64, r: InspectResult<landlock_ruleset_attr>) -> bool {
    &&& (r matches Ok(v) ==> v == landlock_ruleset_attr::of_bytes(mem_bytes(m, addr, 8)) && bytes_readable(
        m,
        addr as int,
        addr + 8,
    ))
    &&& (r matches Err(e) ==> e matches InspectError::ReadFailure {
        errno: _,
        incomplete: None,
    } && !bytes_readable(m, cover_start(addr), cover_end(addr, 8)))
}

/// Read the `landlock_ruleset_attr` record at `addr`.
pub fn read_landlock_ruleset_attr<M: TraceeMem>(rd: &mut MemReader<M>, addr: u64) -> (r: InspectResult<landlock_ruleset_attr>)
    requires
        old(rd).wf(),
    ensures
        final(rd).wf(),
        final(rd).evolves_from(*old(rd)),
        landlock_ruleset_attr_post(old(rd).mem, addr, r),
{
    match rd.read_exact(addr, 8) {
        Ok(v) => Ok(landlock_ruleset_attr::from_bytes(&v)),
        Err(InspectError::ReadFailure { errno, incomplete: _ }) => Err(
            InspectError::ReadFailure { errno, incomplete: None },
        ),
        Err(_) => Err(InspectError::ReadFailure { errno: EFAULT, incomplete: None }),
    }
}

/// What reading a `statfs` at `addr` promises.
pub open spec fn statfs_post<M: TraceeMem>(m: M, addr: u64, r: InspectResult<statfs>) -> bool {
    &&& (r matches Ok(v) ==> v == statfs::of_bytes(mem_bytes(m, addr, 120)) && bytes_readable(
        m,
        addr as int,
        addr + 120,
    ))
    &&& (r matches Err(e) ==> e matches InspectError::ReadFailure {
        errno: _,
        incomplete: None,
    } && !bytes_readable(m, cover_start(addr), cover_end(addr, 120)))
}

/// Read the `statfs` record at `addr`.
pub fn read_statfs<M: TraceeMem>(rd: &mut MemReader<M>, addr: u64) -> (r: InspectResult<statfs>)
    requires
        old(rd).wf(),
    ensures
        final(rd).wf(),
        final(rd).evolves_from(*old(rd)),
        statfs_post(old(rd).mem, addr, r),
{
    match rd.read_exact(addr, 120) {
        Ok(v) => Ok(statfs::from_bytes(&v)),
        Err(InspectError::ReadFailure { errno, incomplete: _ }) => Err(
            InspectError::ReadFailure { errno, incomplete: None },
        ),
        Err(_) => Err(InspectError::ReadFailure { errno: EFAULT, incomplete: None }),
    }
}

/// What reading a nullable `timespec` argument promises: a zero address is the
/// absent value and is never dereferenced.
pub open spec fn timespec_opt_post<M: TraceeMem>(m: M, addr: u64, r: InspectResult<Option<timespec>>) -> bool {
    &&& (addr == 0 ==> (r matches Ok(o) && o is None))
    &&& (addr != 0 ==> {
        &&& (r matches Ok(o) ==> o matches Some(v) && v == timespec::of_bytes(
            mem_bytes(m, addr, 16),
        ) && bytes_readable(m, addr as int, addr + 16))
        &&& (r matches Err(e) ==> e matches InspectError::ReadFailure {
            errno: _,
            incomplete: None,
        } && !bytes_readable(m, cover_start(addr), cover_end(addr, 16)))
    })
}

/// Read the nullable `timespec` argument at `addr`.
pub fn read_timespec_opt<M: TraceeMem>(rd: &mut MemReader<M>, addr: u64) -> (r: InspectResult<
    Option<timespec>,
>)
    requires
        old(rd).wf(),
    ensures
        final(rd).wf(),
        final(rd).evolves_from(*old(rd)),
        timespec_opt_post(old(rd).mem, addr, r),
        addr == 0 ==> *final(rd) == *old(rd),
{
    if addr == 0 {
        return Ok(None);
    }
    match read_timespec(rd, addr) {
        Ok(v) => Ok(Some(v)),
        Err(InspectError::ReadFailure { errno, incomplete: _ }) => Err(
            InspectError::ReadFailure { errno, incomplete: None },
        ),
        Err(_) => Err(InspectError::ReadFailure { errno: EFAULT, incomplete: None }),
    }
}

/// What reading a nullable `timezone` argument promises: a zero address is the
/// absent value and is never dereferenced.
pub open spec fn timezone_opt_post<M: TraceeMem>(m: M, addr: u64, r: InspectResult<Option<timezone>>) -> bool {
    &&& (addr == 0 ==> (r matches Ok(o) && o is None))
    &&& (addr != 0 ==> {
        &&& (r matches Ok(o) ==> o matches Some(v) && v == timezone::of_bytes(
            mem_bytes(m, addr, 8),
        ) && bytes_readable(m, addr as int, addr + 8))
        &&& (r matches Err(e) ==> e matches InspectError::ReadFailure {
            errno: _,
            incomplete: None,
        } && !bytes_readable(m, cover_start(addr), cover_end(addr, 8)))
    })
}

/// Read the nullable `timezone` argument at `addr`.
pub fn read_timezone_opt<M: TraceeMem>(rd: &mut MemReader<M>, addr: u64) -> (r: InspectResult<
    Option<timezone>,
>)
    requires
        old(rd).wf(),
    ensures
        final(rd).wf(),
        final(rd).evolves_from(*old(rd)),
        timezone_opt_post(old(rd).mem, addr, r),
        addr == 0 ==> *final(rd) == *old(rd),
{
    if addr == 0 {
        return Ok(None);
    }
    match read_timezone(rd, addr) {
        Ok(v) => Ok(Some(v)),
        Err(InspectError::ReadFailure { errno, incomplete: _ }) => Err(
            InspectError::ReadFailure { errno, incomplete: None },
        ),
        Err(_) => Err(InspectError::ReadFailure { errno: EFAULT, incomplete: None }),
    }
}
/// What reading a `sockaddr` at `addr` promises.
pub open spec fn sockaddr_post<M: TraceeMem>(m: M, addr: u64, r: InspectResult<sockaddr>) -> bool {
    &&& (r matches Ok(v) ==> v.matches_bytes(mem_bytes(m, addr, 16)) && bytes_readable(
        m,
        addr as int,
        addr + 16,
    ))
    &&& (r matches Err(e) ==> e matches InspectError::ReadFailure {
        errno: _,
        incomplete: None,
    } && !bytes_readable(m, cover_start(addr), cover_end(addr, 16)))
}

/// Read the generic 16-byte `sockaddr` at `addr`.
pub fn read_sockaddr<M: TraceeMem>(rd: &mut MemReader<M>, addr: u64) -> (r: InspectResult<
    sockaddr,
>)
    requires
        old(rd).wf(),
    ensures
        final(rd).wf(),
        final(rd).evolves_from(*old(rd)),
        sockaddr_post(old(rd).mem, addr, r),
{
    match rd.read_exact(addr, 16) {
        Ok(v) => Ok(sockaddr::from_bytes(&v)),
        Err(InspectError::ReadFailure { errno, incomplete: _ }) => Err(
            InspectError::ReadFailure { errno, incomplete: None },
        ),
        Err(_) => Err(InspectError::ReadFailure { errno: EFAULT, incomplete: None }),
    }
}

/// What reading a `stat` record at `addr` under the layout of `arch` promises.
pub open spec fn stat_post<M: TraceeMem>(
    m: M,
    arch: Arch,
    addr: u64,
    r: InspectResult<stat>,
) -> bool {
    &&& (r matches Ok(v) ==> v == stat::of_bytes(arch, mem_bytes(m, addr, stat::size_for_spec(arch)))
        && bytes_readable(m, addr as int, addr + stat::size_for_spec(arch)))
    &&& (r matches Err(e) ==> e matches InspectError::ReadFailure {
        errno: _,
        incomplete: None,
    } && !bytes_readable(m, cover_start(addr), cover_end(addr, stat::size_for_spec(arch))))
}

/// Read the `stat` record at `addr` under the layout of `arch`.
pub fn read_stat<M: TraceeMem>(rd: &mut MemReader<M>, arch: Arch, addr: u64) -> (r: InspectResult<
    stat,
>)
    requires
        old(rd).wf(),
    ensures
        final(rd).wf(),
        final(rd).evolves_from(*old(rd)),
        stat_post(old(rd).mem, arch, addr, r),
{
    let size = stat::size_for(arch);
    match rd.read_exact(addr, size) {
        Ok(v) => Ok(stat::from_bytes(arch, &v)),
        Err(InspectError::ReadFailure { errno, incomplete: _ }) => Err(
            InspectError::ReadFailure { errno, incomplete: None },
        ),
        Err(_) => Err(InspectError::ReadFailure { errno: EFAULT, incomplete: None }),
    }
}

/// What reading a restartable-sequences area of `len` registered bytes
/// promises: a length shorter than the fixed header cannot size the record
/// and is a dependency failure.
pub open spec fn rseq_post<M: TraceeMem>(
    m: M,
    addr: u64,
    len: u32,
    r: InspectResult<rseq>,
) -> bool {
    &&& (len < 28 ==> (r matches Err(e) && e is DependencyInspectFailure))
    &&& (len >= 28 ==> {
        &&& (r matches Ok(v) ==> v.matches_bytes(mem_bytes(m, addr, len as int))
            && bytes_readable(m, addr as int, addr + len))
        &&& (r matches Err(e) ==> e matches InspectError::ReadFailure {
            errno: _,
            incomplete: None,
        } && !bytes_readable(m, cover_start(addr), cover_end(addr, len as int)))
    })
}

/// Read the restartable-sequences area at `addr` whose registered length is
/// `len`.
pub fn read_rseq<M: TraceeMem>(rd: &mut MemReader<M>, addr: u64, len: u32) -> (r: InspectResult<
    rseq,
>)
    requires
        old(rd).wf(),
    ensures
        final(rd).wf(),
        final(rd).evolves_from(*old(rd)),
        rseq_post(old(rd).mem, addr, len, r),
{
    if len < 28 {
        return Err(InspectError::DependencyInspectFailure { field: "rseq_len" });
    }
    match rd.read_exact(addr, len as usize) {
        Ok(v) => Ok(rseq::from_bytes(&v)),
        Err(InspectError::ReadFailure { errno, incomplete: _ }) => Err(
            InspectError::ReadFailure { errno, incomplete: None },
        ),
        Err(_) => Err(InspectError::ReadFailure { errno: EFAULT, incomplete: None }),
    }
}

/// What dereferencing a `u32` pointer argument promises.
pub open spec fn u32_value_post<M: TraceeMem>(m: M, addr: u64, r: InspectResult<u32>) -> bool {
    &&& (r matches Ok(v) ==> v == u32_le(mem_bytes(m, addr, 4)) && bytes_readable(
        m,
        addr as int,
        addr + 4,
    ))
    &&& (r matches Err(e) ==> e matches InspectError::ReadFailure {
        errno: _,
        incomplete: None,
    } && !bytes_readable(m, cover_start(addr), cover_end(addr, 4)))
}

/// Read the `u32` a pointer argument points at.
pub fn read_u32_value<M: TraceeMem>(rd: &mut MemReader<M>, addr: u64) -> (r: InspectResult<u32>)
    requires
        old(rd).wf(),
    ensures
        final(rd).wf(),
        final(rd).evolves_from(*old(rd)),
        u32_value_post(old(rd).mem, addr, r),
{
    match rd.read_exact(addr, 4) {
        Ok(v) => Ok(crate::bytes::u32_at(&v, 0)),
        Err(InspectError::ReadFailure { errno, incomplete: _ }) => Err(
            InspectError::ReadFailure { errno, incomplete: None },
        ),
        Err(_) => Err(InspectError::ReadFailure { errno: EFAULT, incomplete: None }),
    }
}

/// What dereferencing an `i32` pointer argument promises.
pub open spec fn i32_value_post<M: TraceeMem>(m: M, addr: u64, r: InspectResult<i32>) -> bool {
    &&& (r matches Ok(v) ==> v == i32_le(mem_bytes(m, addr, 4)) && bytes_readable(
        m,
        addr as int,
        addr + 4,
    ))
    &&& (r matches Err(e) ==> e matches InspectError::ReadFailure {
        errno: _,
        incomplete: None,
    } && !bytes_readable(m, cover_start(addr), cover_end(addr, 4)))
}

/// Read the `i32` a pointer argument points at.
pub fn read_i32_value<M: TraceeMem>(rd: &mut MemReader<M>, addr: u64) -> (r: InspectResult<i32>)
    requires
        old(rd).wf(),
    ensures
        final(rd).wf(),
        final(rd).evolves_from(*old(rd)),
        i32_value_post(old(rd).mem, addr, r),
{
    match rd.read_exact(addr, 4) {
        Ok(v) => Ok(crate::bytes::i32_at(&v, 0)),
        Err(InspectError::ReadFailure { errno, incomplete: _ }) => Err(
            InspectError::ReadFailure { errno, incomplete: None },
        ),
        Err(_) => Err(InspectError::ReadFailure { errno: EFAULT, incomplete: None }),
    }
}

/// What reading a two-element `timeval` array promises: on a failure of the
/// second element, the first is preserved as the partial value.
pub open spec fn timeval_pair_post<M: TraceeMem>(
    m: M,
    addr: u64,
    r: Result<[timeval; 2], InspectError<Vec<timeval>>>,
) -> bool {
    &&& (r matches Ok(a) ==> {
        &&& a@[0] == timeval::of_bytes(mem_bytes(m, addr, 16))
        &&& bytes_readable(m, addr as int, addr + 16)
        &&& addr + 16 <= u64::MAX
        &&& a@[1] == timeval::of_bytes(mem_bytes(m, (addr + 16) as u64, 16))
        &&& bytes_readable(m, addr + 16, addr + 32)
    })
    &&& (r matches Err(e) ==> e matches InspectError::ReadFailure { errno: _, incomplete } && {
        ||| (incomplete is None && !bytes_readable(m, cover_start(addr), cover_end(addr, 16)))
        ||| (incomplete matches Some(p) && p@.len() == 1 && p@[0] == timeval::of_bytes(
            mem_bytes(m, addr, 16),
        ) && bytes_readable(m, addr as int, addr + 16) && (addr + 16 > u64::MAX
            || !bytes_readable(
            m,
            cover_start((addr + 16) as u64),
            cover_end((addr + 16) as u64, 16),
        )))
    })
}

/// Read the two-element `timeval` array at `addr`.
pub fn read_timeval_pair<M: TraceeMem>(rd: &mut MemReader<M>, addr: u64) -> (r: Result<
    [timeval; 2],
    InspectError<Vec<timeval>>,
>)
    requires
        old(rd).wf(),
    ensures
        final(rd).wf(),
        final(rd).evolves_from(*old(rd)),
        timeval_pair_post(old(rd).mem, addr, r),
{
    let first = match read_timeval(rd, addr) {
        Ok(v) => v,
        Err(InspectError::ReadFailure { errno, incomplete: _ }) => {
            return Err(InspectError::ReadFailure { errno, incomplete: None });
        },
        Err(_) => {
            return Err(InspectError::ReadFailure { errno: EFAULT, incomplete: None });
        },
    };
    if addr > u64::MAX - 16 {
        let mut partial: Vec<timeval> = Vec::new();
        partial.push(first);
        return Err(InspectError::ReadFailure { errno: EFAULT, incomplete: Some(partial) });
    }
    match read_timeval(rd, addr + 16) {
        Ok(second) => Ok([first, second]),
        Err(InspectError::ReadFailure { errno, incomplete: _ }) => {
            let mut partial: Vec<timeval> = Vec::new();
            partial.push(first);
            Err(InspectError::ReadFailure { errno, incomplete: Some(partial) })
        },
        Err(_) => {
            let mut partial: Vec<timeval> = Vec::new();
            partial.push(first);
            Err(InspectError::ReadFailure { errno: EFAULT, incomplete: Some(partial) })
        },
    }
}

/// What reading a nullable two-element `timeval` array promises.
pub open spec fn timeval_pair_opt_post<M: TraceeMem>(
    m: M,
    addr: u64,
    r: Result<Option<[timeval; 2]>, InspectError<Vec<timeval>>>,
) -> bool {
    &&& (addr == 0 ==> (r matches Ok(o) && o is None))
    &&& (addr != 0 ==> {
        &&& (r matches Ok(o) ==> o matches Some(a) && timeval_pair_post(m, addr, Ok(a)))
        &&& (r matches Err(e) ==> timeval_pair_post(
            m,
            addr,
            Err::<[timeval; 2], InspectError<Vec<timeval>>>(e),
        ))
    })
}

/// Read the nullable two-element `timeval` array at `addr`.
pub fn read_timeval_pair_opt<M: TraceeMem>(rd: &mut MemReader<M>, addr: u64) -> (r: Result<
    Option<[timeval; 2]>,
    InspectError<Vec<timeval>>,
>)
    requires
        old(rd).wf(),
    ensures
        final(rd).wf(),
        final(rd).evolves_from(*old(rd)),
        timeval_pair_opt_post(old(rd).mem, addr, r),
        addr == 0 ==> *final(rd) == *old(rd),
{
    if addr == 0 {
        return Ok(None);
    }
    match read_timeval_pair(rd, addr) {
        Ok(a) => Ok(Some(a)),
        Err(e) => Err(e),
    }
}

/// What reading a two-element file-descriptor array (as filled by the pipe
/// calls) promises.
pub open spec fn i32_pair_post<M: TraceeMem>(
    m: M,
    addr: u64,
    r: Result<[i32; 2], InspectError<Vec<i32>>>,
) -> bool {
    &&& (r matches Ok(a) ==> {
        &&& a@[0] == i32_le(mem_bytes(m, addr, 4))
        &&& bytes_readable(m, addr as int, addr + 4)
        &&& addr + 4 <= u64::MAX
        &&& a@[1] == i32_le(mem_bytes(m, (addr + 4) as u64, 4))
        &&& bytes_readable(m, addr + 4, addr + 8)
    })
    &&& (r matches Err(e) ==> e matches InspectError::ReadFailure { errno: _, incomplete } && {
        ||| (incomplete is None && !bytes_readable(m, cover_start(addr), cover_end(addr, 4)))
        ||| (incomplete matches Some(p) && p@.len() == 1 && p@[0] == i32_le(mem_bytes(m, addr, 4))
            && bytes_readable(m, addr as int, addr + 4) && (addr + 4 > u64::MAX
            || !bytes_readable(
            m,
            cover_start((addr + 4) as u64),
            cover_end((addr + 4) as u64, 4),
        )))
    })
}

/// Read the two-element file-descriptor array at `addr`.
pub fn read_i32_pair<M: TraceeMem>(rd: &mut MemReader<M>, addr: u64) -> (r: Result<
    [i32; 2],
    InspectError<Vec<i32>>,
>)
    requires
        old(rd).wf(),
    ensures
        final(rd).wf(),
        final(rd).evolves_from(*old(rd)),
        i32_pair_post(old(rd).mem, addr, r),
{
    let first = match read_i32_value(rd, addr) {
        Ok(v) => v,
        Err(InspectError::ReadFailure { errno, incomplete: _ }) => {
            return Err(InspectError::ReadFailure { errno, incomplete: None });
        },
        Err(_) => {
            return Err(InspectError::ReadFailure { errno: EFAULT, incomplete: None });
        },
    };
    if addr > u64::MAX - 4 {
        let mut partial: Vec<i32> = Vec::new();
        partial.push(first);
        return Err(InspectError::ReadFailure { errno: EFAULT, incomplete: Some(partial) });
    }
    match read_i32_value(rd, addr + 4) {
        Ok(second) => Ok([first, second]),
        Err(InspectError::ReadFailure { errno, incomplete: _ }) => {
            let mut partial: Vec<i32> = Vec::new();
            partial.push(first);
            Err(InspectError::ReadFailure { errno, incomplete: Some(partial) })
        },
        Err(_) => {
            let mut partial: Vec<i32> = Vec::new();
            partial.push(first);
            Err(InspectError::ReadFailure { errno: EFAULT, incomplete: Some(partial) })
        },
    }
}

/// What reading a nullable null-terminated array of C-string pointers (argv,
/// envp) promises: a zero array address is the absent value and is never
/// dereferenced.
pub open spec fn ptr_array_opt_post<M: TraceeMem>(
    m: M,
    addr: u64,
    r: InspectResult<Option<Vec<Vec<u8>>>>,
) -> bool {
    &&& (addr == 0 ==> (r matches Ok(o) && o is None))
    &&& (addr != 0 ==> {
        &&& (r matches Ok(o) ==> o matches Some(v) && {
            &&& ptr_array_prefix_ok(m, addr, v@)
            &&& chunk_at(m, addr, v@.len() as int)
            &&& slot_val(m, addr, v@.len() as int) == 0
        })
        &&& (r matches Err(e) ==> e matches InspectError::ReadFailure {
            errno: _,
            incomplete: Some(op),
        } && op matches Some(p) && {
            &&& ptr_array_prefix_ok(m, addr, p@)
            &&& {
                ||| addr + 8 * p@.len() > u64::MAX
                ||| !chunk_at(m, addr, p@.len() as int)
                ||| (slot_val(m, addr, p@.len() as int) != 0 && !cstr_ok_exists(
                    m,
                    slot_val(m, addr, p@.len() as int),
                ))
            }
        })
    })
}

/// Read the nullable null-terminated array of C-string pointers at `addr`.
pub fn read_ptr_array_opt<M: TraceeMem>(rd: &mut MemReader<M>, addr: u64) -> (r: InspectResult<
    Option<Vec<Vec<u8>>>,
>)
    requires
        old(rd).wf(),
    ensures
        final(rd).wf(),
        final(rd).evolves_from(*old(rd)),
        ptr_array_opt_post(old(rd).mem, addr, r),
        addr == 0 ==> *final(rd) == *old(rd),
{
    if addr == 0 {
        return Ok(None);
    }
    match rd.read_ptr_array(addr) {
        Ok(v) => Ok(Some(v)),
        Err(InspectError::ReadFailure { errno, incomplete }) => Err(
            InspectError::ReadFailure {
                errno,
                incomplete: match incomplete {
                    Some(p) => Some(Some(p)),
                    None => None,
                },
            },
        ),
        Err(_) => Err(InspectError::ReadFailure { errno: EFAULT, incomplete: None }),
    }
}
/// What reading a `mnt_id_req` at `addr` promises.
pub open spec fn mnt_id_req_post<M: TraceeMem>(
    m: M,
    addr: u64,
    r: InspectResult<mnt_id_req>,
) -> bool {
    &&& (r matches Ok(v) ==> v == mnt_id_req::of_bytes(mem_bytes(m, addr, 24)) && bytes_readable(
        m,
        addr as int,
        addr + 24,
    ))
    &&& (r matches Err(e) ==> e matches InspectError::ReadFailure {
        errno: _,
        incomplete: None,
    } && !bytes_readable(m, cover_start(addr), cover_end(addr, 24)))
}

/// Read the `mnt_id_req` record at `addr`.
pub fn read_mnt_id_req<M: TraceeMem>(rd: &mut MemReader<M>, addr: u64) -> (r: InspectResult<
    mnt_id_req,
>)
    requires
        old(rd).wf(),
    ensures
        final(rd).wf(),
        final(rd).evolves_from(*old(rd)),
        mnt_id_req_post(old(rd).mem, addr, r),
{
    match rd.read_exact(addr, 24) {
        Ok(v) => Ok(mnt_id_req::from_bytes(&v)),
        Err(InspectError::ReadFailure { errno, incomplete: _ }) => Err(
            InspectError::ReadFailure { errno, incomplete: None },
        ),
        Err(_) => Err(InspectError::ReadFailure { errno: EFAULT, incomplete: None }),
    }
}

/// What reading `count` semaphore operations at `addr` promises: on success
/// all `count` records; on failure the prefix already read, with the next
/// record's covering range unreadable or out of the address space.
pub open spec fn sembuf_array_post<M: TraceeMem>(
    m: M,
    addr: u64,
    count: int,
    r: InspectResult<Vec<sembuf>>,
) -> bool {
    &&& (r matches Ok(v) ==> {
        &&& v@.len() == count
        &&& forall|k: int|
            0 <= k < count ==> #[trigger] v@[k] == sembuf::of_bytes(
                mem_bytes(m, (addr + 6 * k) as u64, 6),
            )
        &&& bytes_readable(m, addr as int, addr + 6 * count)
    })
    &&& (r matches Err(e) ==> e matches InspectError::ReadFailure {
        errno: _,
        incomplete: Some(p),
    } && {
        &&& p@.len() < count
        &&& forall|k: int|
            0 <= k < p@.len() ==> #[trigger] p@[k] == sembuf::of_bytes(
                mem_bytes(m, (addr + 6 * k) as u64, 6),
            )
        &&& bytes_readable(m, addr as int, addr + 6 * p@.len())
        &&& (addr + 6 * p@.len() > u64::MAX || !bytes_readable(
            m,
            cover_start((addr + 6 * p@.len()) as u64),
            cover_end((addr + 6 * p@.len()) as u64, 6),
        ))
    })
}

/// Read the `count` semaphore operations at `addr`, one record at a time,
/// preserving the prefix already read when a record fails.
pub fn read_sembuf_array<M: TraceeMem>(rd: &mut MemReader<M>, addr: u64, count: usize) -> (r:
    InspectResult<Vec<sembuf>>)
    requires
        old(rd).wf(),
    ensures
        final(rd).wf(),
        final(rd).evolves_from(*old(rd)),
        sembuf_array_post(old(rd).mem, addr, count as int, r),
{
    let ghost m = rd.mem;
    let mut out: Vec<sembuf> = Vec::new();
    let mut cur: u64 = addr;
    let mut i: usize = 0;
    while i < count
        invariant
            rd.wf(),
            rd.evolves_from(*old(rd)),
            m == rd.mem,
            i == out@.len(),
            i <= count,
            i < count ==> cur == addr + 6 * i,
            forall|k: int|
                0 <= k < i ==> #[trigger] out@[k] == sembuf::of_bytes(
                    mem_bytes(m, (addr + 6 * k) as u64, 6),
                ),
            bytes_readable(m, addr as int, addr + 6 * i),
        decreases count - i,
    {
        match rd.read_memory(cur, 6) {
            Ok(v6) => {
                let e = sembuf::from_bytes(&v6);
                out.push(e);
                proof {
                    assert(bytes_readable(m, addr as int, addr + 6 * out@.len()));
                }
            },
            Err(e) => {
                return Err(InspectError::ReadFailure { errno: e, incomplete: Some(out) });
            },
        }
        i += 1;
        if i < count {
            if cur > u64::MAX - 6 {
                proof {
                    assert(addr + 6 * out@.len() > u64::MAX);
                }
                return Err(InspectError::ReadFailure { errno: EFAULT, incomplete: Some(out) });
            }
            cur = cur + 6;
        }
    }
    Ok(out)
}

/// What the two-step variable-size read of a `statmount` record promises:
/// the header's own `size` field, read first, gives how many bytes the
/// kernel filled; a reported size smaller than the fixed header cannot size
/// the record and is a dependency failure.
pub open spec fn statmount_post<M: TraceeMem>(
    m: M,
    addr: u64,
    r: InspectResult<statmount>,
) -> bool {
    &&& (r matches Ok(v) ==> {
        &&& bytes_readable(m, addr as int, addr + 4)
        &&& u32_le(mem_bytes(m, addr, 4)) >= 512
        &&& v.matches_bytes(mem_bytes(m, addr, u32_le(mem_bytes(m, addr, 4)) as int))
        &&& bytes_readable(m, addr as int, addr + u32_le(mem_bytes(m, addr, 4)))
    })
    &&& (r matches Err(e) ==> {
        ||| (e is DependencyInspectFailure && bytes_readable(m, addr as int, addr + 4) && u32_le(
            mem_bytes(m, addr, 4),
        ) < 512)
        ||| (e matches InspectError::ReadFailure { errno: _, incomplete: None } && {
            ||| !bytes_readable(m, cover_start(addr), cover_end(addr, 4))
            ||| (bytes_readable(m, addr as int, addr + 4) && u32_le(mem_bytes(m, addr, 4)) >= 512
                && !bytes_readable(
                m,
                cover_start(addr),
                cover_end(addr, u32_le(mem_bytes(m, addr, 4)) as int),
            ))
        })
    })
}

/// Read the `statmount` record at `addr`: first its fixed-size `size` field,
/// then the whole record of exactly that many bytes.
pub fn read_statmount<M: TraceeMem>(rd: &mut MemReader<M>, addr: u64) -> (r: InspectResult<
    statmount,
>)
    requires
        old(rd).wf(),
    ensures
        final(rd).wf(),
        final(rd).evolves_from(*old(rd)),
        statmount_post(old(rd).mem, addr, r),
{
    let szv = match rd.read_exact(addr, 4) {
        Ok(v) => v,
        Err(InspectError::ReadFailure { errno, incomplete: _ }) => {
            return Err(InspectError::ReadFailure { errno, incomplete: None });
        },
        Err(_) => {
            return Err(InspectError::ReadFailure { errno: EFAULT, incomplete: None });
        },
    };
    let size = crate::bytes::u32_at(&szv, 0);
    if size < 512 {
        return Err(InspectError::DependencyInspectFailure { field: "size" });
    }
    match rd.read_exact(addr, size as usize) {
        Ok(v) => Ok(statmount::from_bytes(&v)),
        Err(InspectError::ReadFailure { errno, incomplete: _ }) => Err(
            InspectError::ReadFailure { errno, incomplete: None },
        ),
        Err(_) => Err(InspectError::ReadFailure { errno: EFAULT, incomplete: None }),
    }
}

/// What reading a `rlimit` at `addr` promises.
pub open spec fn rlimit_post<M: TraceeMem>(m: M, addr: u64, r: InspectResult<rlimit>) -> bool {
    &&& (r matches Ok(v) ==> v == rlimit::of_bytes(mem_bytes(m, addr, 16)) && bytes_readable(
        m,
        addr as int,
        addr + 16,
    ))
    &&& (r matches Err(e) ==> e matches InspectError::ReadFailure {
        errno: _,
        incomplete: None,
    } && !bytes_readable(m, cover_start(addr), cover_end(addr, 16)))
}

/// Read the `rlimit` record at `addr`.
pub fn read_rlimit<M: TraceeMem>(rd: &mut MemReader<M>, addr: u64) -> (r: InspectResult<rlimit>)
    requires
        old(rd).wf(),
    ensures
        final(rd).wf(),
        final(rd).evolves_from(*old(rd)),
        rlimit_post(old(rd).mem, addr, r),
{
    match rd.read_exact(addr, 16) {
        Ok(v) => Ok(rlimit::from_bytes(&v)),
        Err(InspectError::ReadFailure { errno, incomplete: _ }) => Err(
            InspectError::ReadFailure { errno, incomplete: None },
        ),
        Err(_) => Err(InspectError::ReadFailure { errno: EFAULT, incomplete: None }),
    }
}

/// What reading a `tms` at `addr` promises.
pub open spec fn tms_post<M: TraceeMem>(m: M, addr: u64, r: InspectResult<tms>) -> bool {
    &&& (r matches Ok(v) ==> v == tms::of_bytes(mem_bytes(m, addr, 32)) && bytes_readable(
        m,
        addr as int,
        addr + 32,
    ))
    &&& (r matches Err(e) ==> e matches InspectError::ReadFailure {
        errno: _,
        incomplete: None,
    } && !bytes_readable(m, cover_start(addr), cover_end(addr, 32)))
}

/// Read the `tms` record at `addr`.
pub fn read_tms<M: TraceeMem>(rd: &mut MemReader<M>, addr: u64) -> (r: InspectResult<tms>)
    requires
        old(rd).wf(),
    ensures
        final(rd).wf(),
        final(rd).evolves_from(*old(rd)),
        tms_post(old(rd).mem, addr, r),
{
    match rd.read_exact(addr, 32) {
        Ok(v) => Ok(tms::from_bytes(&v)),
        Err(InspectError::ReadFailure { errno, incomplete: _ }) => Err(
            InspectError::ReadFailure { errno, incomplete: None },
        ),
        Err(_) => Err(InspectError::ReadFailure { errno: EFAULT, incomplete: None }),
    }
}

/// What reading a nullable `rlimit` argument promises: a zero address is the
/// absent value and is never dereferenced.
pub open spec fn rlimit_opt_post<M: TraceeMem>(
    m: M,
    addr: u64,
    r: InspectResult<Option<rlimit>>,
) -> bool {
    &&& (addr == 0 ==> (r matches Ok(o) && o is None))
    &&& (addr != 0 ==> {
        &&& (r matches Ok(o) ==> o matches Some(v) && v == rlimit::of_bytes(
            mem_bytes(m, addr, 16),
        ) && bytes_readable(m, addr as int, addr + 16))
        &&& (r matches Err(e) ==> e matches InspectError::ReadFailure {
            errno: _,
            incomplete: None,
        } && !bytes_readable(m, cover_start(addr), cover_end(addr, 16)))
    })
}

/// Read the nullable `rlimit` argument at `addr`.
pub fn read_rlimit_opt<M: TraceeMem>(rd: &mut MemReader<M>, addr: u64) -> (r: InspectResult<
    Option<rlimit>,
>)
    requires
        old(rd).wf(),
    ensures
        final(rd).wf(),
        final(rd).evolves_from(*old(rd)),
        rlimit_opt_post(old(rd).mem, addr, r),
        addr == 0 ==> *final(rd) == *old(rd),
{
    if addr == 0 {
        return Ok(None);
    }
    match read_rlimit(rd, addr) {
        Ok(v) => Ok(Some(v)),
        Err(InspectError::ReadFailure { errno, incomplete: _ }) => Err(
            InspectError::ReadFailure { errno, incomplete: None },
        ),
        Err(_) => Err(InspectError::ReadFailure { errno: EFAULT, incomplete: None }),
    }
}

/// What reading a `sigset_t` at `addr` promises.
pub open spec fn sigset_t_post<M: TraceeMem>(m: M, addr: u64, r: InspectResult<sigset_t>) -> bool {
    &&& (r matches Ok(v) ==> v == sigset_t::of_bytes(mem_bytes(m, addr, 8)) && bytes_readable(
        m,
        addr as int,
        addr + 8,
    ))
    &&& (r matches Err(e) ==> e matches InspectError::ReadFailure {
        errno: _,
        incomplete: None,
    } && !bytes_readable(m, cover_start(addr), cover_end(addr, 8)))
}

/// Read the `sigset_t` record at `addr`.
pub fn read_sigset_t<M: TraceeMem>(rd: &mut MemReader<M>, addr: u64) -> (r: InspectResult<sigset_t>)
    requires
        old(rd).wf(),
    ensures
        final(rd).wf(),
        final(rd).evolves_from(*old(rd)),
        sigset_t_post(old(rd).mem, addr, r),
{
    match rd.read_exact(addr, 8) {
        Ok(v) => Ok(sigset_t::from_bytes(&v)),
        Err(InspectError::ReadFailure { errno, incomplete: _ }) => Err(
            InspectError::ReadFailure { errno, incomplete: None },
        ),
        Err(_) => Err(InspectError::ReadFailure { errno: EFAULT, incomplete: None }),
    }
}

/// What reading a `sched_param` at `addr` promises.
pub open spec fn sched_param_post<M: TraceeMem>(m: M, addr: u64, r: InspectResult<sched_param>) -> bool {
    &&& (r matches Ok(v) ==> v == sched_param::of_bytes(mem_bytes(m, addr, 4)) && bytes_readable(
        m,
        addr as int,
        addr + 4,
    ))
    &&& (r matches Err(e) ==> e matches InspectError::ReadFailure {
        errno: _,
        incomplete: None,
    } && !bytes_readable(m, cover_start(addr), cover_end(addr, 4)))
}

/// Read the `sched_param` record at `addr`.
pub fn read_sched_param<M: TraceeMem>(rd: &mut MemReader<M>, addr: u64) -> (r: InspectResult<sched_param>)
    requires
        old(rd).wf(),
    ensures
        final(rd).wf(),
        final(rd).evolves_from(*old(rd)),
        sched_param_post(old(rd).mem, addr, r),
{
    match rd.read_exact(addr, 4) {
        Ok(v) => Ok(sched_param::from_bytes(&v)),
        Err(InspectError::ReadFailure { errno, incomplete: _ }) => Err(
            InspectError::ReadFailure { errno, incomplete: None },
        ),
        Err(_) => Err(InspectError::ReadFailure { errno: EFAULT, incomplete: None }),
    }
}

/// What reading a `itimerspec` at `addr` promises.
pub open spec fn itimerspec_post<M: TraceeMem>(m: M, addr: u64, r: InspectResult<itimerspec>) -> bool {
    &&& (r matches Ok(v) ==> v == itimerspec::of_bytes(mem_bytes(m, addr, 32)) && bytes_readable(
        m,
        addr as int,
        addr + 32,
    ))
    &&& (r matches Err(e) ==> e matches InspectError::ReadFailure {
        errno: _,
        incomplete: None,
    } && !bytes_readable(m, cover_start(addr), cover_end(addr, 32)))
}

/// Read the `itimerspec` record at `addr`.
pub fn read_itimerspec<M: TraceeMem>(rd: &mut MemReader<M>, addr: u64) -> (r: InspectResult<itimerspec>)
    requires
        old(rd).wf(),
    ensures
        final(rd).wf(),
        final(rd).evolves_from(*old(rd)),
        itimerspec_post(old(rd).mem, addr, r),
{
    match rd.read_exact(addr, 32) {
        Ok(v) => Ok(itimerspec::from_bytes(&v)),
        Err(InspectError::ReadFailure { errno, incomplete: _ }) => Err(
            InspectError::ReadFailure { errno, incomplete: None },
        ),
        Err(_) => Err(InspectError::ReadFailure { errno: EFAULT, incomplete: None }),
    }
}

/// What reading a `itimerval` at `addr` promises.
pub open spec fn itimerval_post<M: TraceeMem>(m: M, addr: u64, r: InspectResult<itimerval>) -> bool {
    &&& (r matches Ok(v) ==> v == itimerval::of_bytes(mem_bytes(m, addr, 32)) && bytes_readable(
        m,
        addr as int,
        addr + 32,
    ))
    &&& (r matches Err(e) ==> e matches InspectError::ReadFailure {
        errno: _,
        incomplete: None,
    } && !bytes_readable(m, cover_start(addr), cover_end(addr, 32)))
}

/// Read the `itimerval` record at `addr`.
pub fn read_itimerval<M: TraceeMem>(rd: &mut MemReader<M>, addr: u64) -> (r: InspectResult<itimerval>)
    requires
        old(rd).wf(),
    ensures
        final(rd).wf(),
        final(rd).evolves_from(*old(rd)),
        itimerval_post(old(rd).mem, addr, r),
{
    match rd.read_exact(addr, 32) {
        Ok(v) => Ok(itimerval::from_bytes(&v)),
        Err(InspectError::ReadFailure { errno, incomplete: _ }) => Err(
            InspectError::ReadFailure { errno, incomplete: None },
        ),
        Err(_) => Err(InspectError::ReadFailure { errno: EFAULT, incomplete: None }),
    }
}

/// What reading a `rusage` at `addr` promises.
pub open spec fn rusage_post<M: TraceeMem>(m: M, addr: u64, r: InspectResult<rusage>) -> bool {
    &&& (r matches Ok(v) ==> v == rusage::of_bytes(mem_bytes(m, addr, 144)) && bytes_readable(
        m,
        addr as int,
        addr + 144,
    ))
    &&& (r matches Err(e) ==> e matches InspectError::ReadFailure {
        errno: _,
        incomplete: None,
    } && !bytes_readable(m, cover_start(addr), cover_end(addr, 144)))
}

/// Read the `rusage` record at `addr`.
pub fn read_rusage<M: TraceeMem>(rd: &mut MemReader<M>, addr: u64) -> (r: InspectResult<rusage>)
    requires
        old(rd).wf(),
    ensures
        final(rd).wf(),
        final(rd).evolves_from(*old(rd)),
        rusage_post(old(rd).mem, addr, r),
{
    match rd.read_exact(addr, 144) {
        Ok(v) => Ok(rusage::from_bytes(&v)),
        Err(InspectError::ReadFailure { errno, incomplete: _ }) => Err(
            InspectError::ReadFailure { errno, incomplete: None },
        ),
        Err(_) => Err(InspectError::ReadFailure { errno: EFAULT, incomplete: None }),
    }
}

/// What reading a `open_how` at `addr` promises.
pub open spec fn open_how_post<M: TraceeMem>(m: M, addr: u64, r: InspectResult<open_how>) -> bool {
    &&& (r matches Ok(v) ==> v == open_how::of_bytes(mem_bytes(m, addr, 24)) && bytes_readable(
        m,
        addr as int,
        addr + 24,
    ))
    &&& (r matches Err(e) ==> e matches InspectError::ReadFailure {
        errno: _,
        incomplete: None,
    } && !bytes_readable(m, cover_start(addr), cover_end(addr, 24)))
}

/// Read the `open_how` record at `addr`.
pub fn read_open_how<M: TraceeMem>(rd: &mut MemReader<M>, addr: u64) -> (r: InspectResult<open_how>)
    requires
        old(rd).wf(),
    ensures
        final(rd).wf(),
        final(rd).evolves_from(*old(rd)),
        open_how_post(old(rd).mem, addr, r),
{
    match rd.read_exact(addr, 24) {
        Ok(v) => Ok(open_how::from_bytes(&v)),
        Err(InspectError::ReadFailure { errno, incomplete: _ }) => Err(
            InspectError::ReadFailure { errno, incomplete: None },
        ),
        Err(_) => Err(InspectError::ReadFailure { errno: EFAULT, incomplete: None }),
    }
}

/// What reading a `clone_args` at `addr` promises.
pub open spec fn clone_args_post<M: TraceeMem>(m: M, addr: u64, r: InspectResult<clone_args>) -> bool {
    &&& (r matches Ok(v) ==> v == clone_args::of_bytes(mem_bytes(m, addr, 88)) && bytes_readable(
        m,
        addr as int,
        addr + 88,
    ))
    &&& (r matches Err(e) ==> e matches InspectError::ReadFailure {
        errno: _,
        incomplete: None,
    } && !bytes_readable(m, cover_start(addr), cover_end(addr, 88)))
}

/// Read the `clone_args` record at `addr`.
pub fn read_clone_args<M: TraceeMem>(rd: &mut MemReader<M>, addr: u64) -> (r: InspectResult<clone_args>)
    requires
        old(rd).wf(),
    ensures
        final(rd).wf(),
        final(rd).evolves_from(*old(rd)),
        clone_args_post(old(rd).mem, addr, r),
{
    match rd.read_exact(addr, 88) {
        Ok(v) => Ok(clone_args::from_bytes(&v)),
        Err(InspectError::ReadFailure { errno, incomplete: _ }) => Err(
            InspectError::ReadFailure { errno, incomplete: None },
        ),
        Err(_) => Err(InspectError::ReadFailure { errno: EFAULT, incomplete: None }),
    }
}

/// What reading a `msghdr` at `addr` promises.
pub open spec fn msghdr_post<M: TraceeMem>(m: M, addr: u64, r: InspectResult<msghdr>) -> bool {
    &&& (r matches Ok(v) ==> v == msghdr::of_bytes(mem_bytes(m, addr, 56)) && bytes_readable(
        m,
        addr as int,
        addr + 56,
    ))
    &&& (r matches Err(e) ==> e matches InspectError::ReadFailure {
        errno: _,
        incomplete: None,
    } && !bytes_readable(m, cover_start(addr), cover_end(addr, 56)))
}

/// Read the `msghdr` record at `addr`.
pub fn read_msghdr<M: TraceeMem>(rd: &mut MemReader<M>, addr: u64) -> (r: InspectResult<msghdr>)
    requires
        old(rd).wf(),
    ensures
        final(rd).wf(),
        final(rd).evolves_from(*old(rd)),
        msghdr_post(old(rd).mem, addr, r),
{
    match rd.read_exact(addr, 56) {
        Ok(v) => Ok(msghdr::from_bytes(&v)),
        Err(InspectError::ReadFailure { errno, incomplete: _ }) => Err(
            InspectError::ReadFailure { errno, incomplete: None },
        ),
        Err(_) => Err(InspectError::ReadFailure { errno: EFAULT, incomplete: None }),
    }
}

/// What reading a `sysinfo` at `addr` promises.
pub open spec fn sysinfo_post<M: TraceeMem>(m: M, addr: u64, r: InspectResult<sysinfo>) -> bool {
    &&& (r matches Ok(v) ==> v == sysinfo::of_bytes(mem_bytes(m, addr, 112)) && bytes_readable(
        m,
        addr as int,
        addr + 112,
    ))
    &&& (r matches Err(e) ==> e matches InspectError::ReadFailure {
        errno: _,
        incomplete: None,
    } && !bytes_readable(m, cover_start(addr), cover_end(addr, 112)))
}

/// Read the `sysinfo` record at `addr`.
pub fn read_sysinfo<M: TraceeMem>(rd: &mut MemReader<M>, addr: u64) -> (r: InspectResult<sysinfo>)
    requires
        old(rd).wf(),
    ensures
        final(rd).wf(),
        final(rd).evolves_from(*old(rd)),
        sysinfo_post(old(rd).mem, addr, r),
{
    match rd.read_exact(addr, 112) {
        Ok(v) => Ok(sysinfo::from_bytes(&v)),
        Err(InspectError::ReadFailure { errno, incomplete: _ }) => Err(
            InspectError::ReadFailure { errno, incomplete: None },
        ),
        Err(_) => Err(InspectError::ReadFailure { errno: EFAULT, incomplete: None }),
    }
}

/// What reading a `user_desc` at `addr` promises.
pub open spec fn user_desc_post<M: TraceeMem>(m: M, addr: u64, r: InspectResult<user_desc>) -> bool {
    &&& (r matches Ok(v) ==> v == user_desc::of_bytes(mem_bytes(m, addr, 16)) && bytes_readable(
        m,
        addr as int,
        addr + 16,
    ))
    &&& (r matches Err(e) ==> e matches InspectError::ReadFailure {
        errno: _,
        incomplete: None,
    } && !bytes_readable(m, cover_start(addr), cover_end(addr, 16)))
}

/// Read the `user_desc` record at `addr`.
pub fn read_user_desc<M: TraceeMem>(rd: &mut MemReader<M>, addr: u64) -> (r: InspectResult<user_desc>)
    requires
        old(rd).wf(),
    ensures
        final(rd).wf(),
        final(rd).evolves_from(*old(rd)),
        user_desc_post(old(rd).mem, addr, r),
{
    match rd.read_exact(addr, 16) {
        Ok(v) => Ok(user_desc::from_bytes(&v)),
        Err(InspectError::ReadFailure { errno, incomplete: _ }) => Err(
            InspectError::ReadFailure { errno, incomplete: None },
        ),
        Err(_) => Err(InspectError::ReadFailure { errno: EFAULT, incomplete: None }),
    }
}

/// What reading a `utimbuf` at `addr` promises.
pub open spec fn utimbuf_post<M: TraceeMem>(m: M, addr: u64, r: InspectResult<utimbuf>) -> bool {
    &&& (r matches Ok(v) ==> v == utimbuf::of_bytes(mem_bytes(m, addr, 16)) && bytes_readable(
        m,
        addr as int,
        addr + 16,
    ))
    &&& (r matches Err(e) ==> e matches InspectError::ReadFailure {
        errno: _,
        incomplete: None,
    } && !bytes_readable(m, cover_start(addr), cover_end(addr, 16)))
}

/// Read the `utimbuf` record at `addr`.
pub fn read_utimbuf<M: TraceeMem>(rd: &mut MemReader<M>, addr: u64) -> (r: InspectResult<utimbuf>)
    requires
        old(rd).wf(),
    ensures
        final(rd).wf(),
        final(rd).evolves_from(*old(rd)),
        utimbuf_post(old(rd).mem, addr, r),
{
    match rd.read_exact(addr, 16) {
        Ok(v) => Ok(utimbuf::from_bytes(&v)),
        Err(InspectError::ReadFailure { errno, incomplete: _ }) => Err(
            InspectError::ReadFailure { errno, incomplete: None },
        ),
        Err(_) => Err(InspectError::ReadFailure { errno: EFAULT, incomplete: None }),
    }
}

/// What reading a `mq_attr` at `addr` promises.
pub open spec fn mq_attr_post<M: TraceeMem>(m: M, addr: u64, r: InspectResult<mq_attr>) -> bool {
    &&& (r matches Ok(v) ==> v == mq_attr::of_bytes(mem_bytes(m, addr, 64)) && bytes_readable(
        m,
        addr as int,
        addr + 64,
    ))
    &&& (r matches Err(e) ==> e matches InspectError::ReadFailure {
        errno: _,
        incomplete: None,
    } && !bytes_readable(m, cover_start(addr), cover_end(addr, 64)))
}

/// Read the `mq_attr` record at `addr`.
pub fn read_mq_attr<M: TraceeMem>(rd: &mut MemReader<M>, addr: u64) -> (r: InspectResult<mq_attr>)
    requires
        old(rd).wf(),
    ensures
        final(rd).wf(),
        final(rd).evolves_from(*old(rd)),
        mq_attr_post(old(rd).mem, addr, r),
{
    match rd.read_exact(addr, 64) {
        Ok(v) => Ok(mq_attr::from_bytes(&v)),
        Err(InspectError::ReadFailure { errno, incomplete: _ }) => Err(
            InspectError::ReadFailure { errno, incomplete: None },
        ),
        Err(_) => Err(InspectError::ReadFailure { errno: EFAULT, incomplete: None }),
    }
}

/// What reading a `statx` at `addr` promises.
pub open spec fn statx_post<M: TraceeMem>(m: M, addr: u64, r: InspectResult<statx>) -> bool {
    &&& (r matches Ok(v) ==> v == statx::of_bytes(mem_bytes(m, addr, 256)) && bytes_readable(
        m,
        addr as int,
        addr + 256,
    ))
    &&& (r matches Err(e) ==> e matches InspectError::ReadFailure {
        errno: _,
        incomplete: None,
    } && !bytes_readable(m, cover_start(addr), cover_end(addr, 256)))
}

/// Read the `statx` record at `addr`.
pub fn read_statx<M: TraceeMem>(rd: &mut MemReader<M>, addr: u64) -> (r: InspectResult<statx>)
    requires
        old(rd).wf(),
    ensures
        final(rd).wf(),
        final(rd).evolves_from(*old(rd)),
        statx_post(old(rd).mem, addr, r),
{
    match rd.read_exact(addr, 256) {
        Ok(v) => Ok(statx::from_bytes(&v)),
        Err(InspectError::ReadFailure { errno, incomplete: _ }) => Err(
            InspectError::ReadFailure { errno, incomplete: None },
        ),
        Err(_) => Err(InspectError::ReadFailure { errno: EFAULT, incomplete: None }),
    }
}

/// What reading a `stack_t` at `addr` promises.
pub open spec fn stack_t_post<M: TraceeMem>(m: M, addr: u64, r: InspectResult<stack_t>) -> bool {
    &&& (r matches Ok(v) ==> v == stack_t::of_bytes(mem_bytes(m, addr, 24)) && bytes_readable(
        m,
        addr as int,
        addr + 24,
    ))
    &&& (r matches Err(e) ==> e matches InspectError::ReadFailure {
        errno: _,
        incomplete: None,
    } && !bytes_readable(m, cover_start(addr), cover_end(addr, 24)))
}

/// Read the `stack_t` record at `addr`.
pub fn read_stack_t<M: TraceeMem>(rd: &mut MemReader<M>, addr: u64) -> (r: InspectResult<stack_t>)
    requires
        old(rd).wf(),
    ensures
        final(rd).wf(),
        final(rd).evolves_from(*old(rd)),
        stack_t_post(old(rd).mem, addr, r),
{
    match rd.read_exact(addr, 24) {
        Ok(v) => Ok(stack_t::from_bytes(&v)),
        Err(InspectError::ReadFailure { errno, incomplete: _ }) => Err(
            InspectError::ReadFailure { errno, incomplete: None },
        ),
        Err(_) => Err(InspectError::ReadFailure { errno: EFAULT, incomplete: None }),
    }
}

/// What reading a `siginfo` at `addr` promises.
pub open spec fn siginfo_post<M: TraceeMem>(m: M, addr: u64, r: InspectResult<siginfo>) -> bool {
    &&& (r matches Ok(v) ==> v.matches_bytes(mem_bytes(m, addr, 128)) && bytes_readable(
        m,
        addr as int,
        addr + 128,
    ))
    &&& (r matches Err(e) ==> e matches InspectError::ReadFailure {
        errno: _,
        incomplete: None,
    } && !bytes_readable(m, cover_start(addr), cover_end(addr, 128)))
}

/// Read the `siginfo` record at `addr`.
pub fn read_siginfo<M: TraceeMem>(rd: &mut MemReader<M>, addr: u64) -> (r: InspectResult<siginfo>)
    requires
        old(rd).wf(),
    ensures
        final(rd).wf(),
        final(rd).evolves_from(*old(rd)),
        siginfo_post(old(rd).mem, addr, r),
{
    match rd.read_exact(addr, 128) {
        Ok(v) => Ok(siginfo::from_bytes(&v)),
        Err(InspectError::ReadFailure { errno, incomplete: _ }) => Err(
            InspectError::ReadFailure { errno, incomplete: None },
        ),
        Err(_) => Err(InspectError::ReadFailure { errno: EFAULT, incomplete: None }),
    }
}

/// What reading a `utsname` at `addr` promises.
pub open spec fn utsname_post<M: TraceeMem>(m: M, addr: u64, r: InspectResult<utsname>) -> bool {
    &&& (r matches Ok(v) ==> v.matches_bytes(mem_bytes(m, addr, 390)) && bytes_readable(
        m,
        addr as int,
        addr + 390,
    ))
    &&& (r matches Err(e) ==> e matches InspectError::ReadFailure {
        errno: _,
        incomplete: None,
    } && !bytes_readable(m, cover_start(addr), cover_end(addr, 390)))
}

/// Read the `utsname` record at `addr`.
pub fn read_utsname<M: TraceeMem>(rd: &mut MemReader<M>, addr: u64) -> (r: InspectResult<utsname>)
    requires
        old(rd).wf(),
    ensures
        final(rd).wf(),
        final(rd).evolves_from(*old(rd)),
        utsname_post(old(rd).mem, addr, r),
{
    match rd.read_exact(addr, 390) {
        Ok(v) => Ok(utsname::from_bytes(&v)),
        Err(InspectError::ReadFailure { errno, incomplete: _ }) => Err(
            InspectError::ReadFailure { errno, incomplete: None },
        ),
        Err(_) => Err(InspectError::ReadFailure { errno: EFAULT, incomplete: None }),
    }
}

/// What reading a nullable `itimerspec` argument promises: a zero address is the
/// absent value and is never dereferenced.
pub open spec fn itimerspec_opt_post<M: TraceeMem>(
    m: M,
    addr: u64,
    r: InspectResult<Option<itimerspec>>,
) -> bool {
    &&& (addr == 0 ==> (r matches Ok(o) && o is None))
    &&& (addr != 0 ==> {
        &&& (r matches Ok(o) ==> o matches Some(v) && v == itimerspec::of_bytes(mem_bytes(m, addr, 32)) && bytes_readable(
            m,
            addr as int,
            addr + 32,
        ))
        &&& (r matches Err(e) ==> e matches InspectError::ReadFailure {
            errno: _,
            incomplete: None,
        } && !bytes_readable(m, cover_start(addr), cover_end(addr, 32)))
    })
}

/// Read the nullable `itimerspec` argument at `addr`.
pub fn read_itimerspec_opt<M: TraceeMem>(rd: &mut MemReader<M>, addr: u64) -> (r: InspectResult<
    Option<itimerspec>,
>)
    requires
        old(rd).wf(),
    ensures
        final(rd).wf(),
        final(rd).evolves_from(*old(rd)),
        itimerspec_opt_post(old(rd).mem, addr, r),
        addr == 0 ==> *final(rd) == *old(rd),
{
    if addr == 0 {
        return Ok(None);
    }
    match read_itimerspec(rd, addr) {
        Ok(v) => Ok(Some(v)),
        Err(InspectError::ReadFailure { errno, incomplete: _ }) => Err(
            InspectError::ReadFailure { errno, incomplete: None },
        ),
        Err(_) => Err(InspectError::ReadFailure { errno: EFAULT, incomplete: None }),
    }
}

/// What reading a nullable `itimerval` argument promises: a zero address is the
/// absent value and is never dereferenced.
pub open spec fn itimerval_opt_post<M: TraceeMem>(
    m: M,
    addr: u64,
    r: InspectResult<Option<itimerval>>,
) -> bool {
    &&& (addr == 0 ==> (r matches Ok(o) && o is None))
    &&& (addr != 0 ==> {
        &&& (r matches Ok(o) ==> o matches Some(v) && v == itimerval::of_bytes(mem_bytes(m, addr, 32)) && bytes_readable(
            m,
            addr as int,
            addr + 32,
        ))
        &&& (r matches Err(e) ==> e matches InspectError::ReadFailure {
            errno: _,
            incomplete: None,
        } && !bytes_readable(m, cover_start(addr), cover_end(addr, 32)))
    })
}

/// Read the nullable `itimerval` argument at `addr`.
pub fn read_itimerval_opt<M: TraceeMem>(rd: &mut MemReader<M>, addr: u64) -> (r: InspectResult<
    Option<itimerval>,
>)
    requires
        old(rd).wf(),
    ensures
        final(rd).wf(),
        final(rd).evolves_from(*old(rd)),
        itimerval_opt_post(old(rd).mem, addr, r),
        addr == 0 ==> *final(rd) == *old(rd),
{
    if addr == 0 {
        return Ok(None);
    }
    match read_itimerval(rd, addr) {
        Ok(v) => Ok(Some(v)),
        Err(InspectError::ReadFailure { errno, incomplete: _ }) => Err(
            InspectError::ReadFailure { errno, incomplete: None },
        ),
        Err(_) => Err(InspectError::ReadFailure { errno: EFAULT, incomplete: None }),
    }
}

/// What reading a nullable `rusage` argument promises: a zero address is the
/// absent value and is never dereferenced.
pub open spec fn rusage_opt_post<M: TraceeMem>(
    m: M,
    addr: u64,
    r: InspectResult<Option<rusage>>,
) -> bool {
    &&& (addr == 0 ==> (r matches Ok(o) && o is None))
    &&& (addr != 0 ==> {
        &&& (r matches Ok(o) ==> o matches Some(v) && v == rusage::of_bytes(mem_bytes(m, addr, 144)) && bytes_readable(
            m,
            addr as int,
            addr + 144,
        ))
        &&& (r matches Err(e) ==> e matches InspectError::ReadFailure {
            errno: _,
            incomplete: None,
        } && !bytes_readable(m, cover_start(addr), cover_end(addr, 144)))
    })
}

/// Read the nullable `rusage` argument at `addr`.
pub fn read_rusage_opt<M: TraceeMem>(rd: &mut MemReader<M>, addr: u64) -> (r: InspectResult<
    Option<rusage>,
>)
    requires
        old(rd).wf(),
    ensures
        final(rd).wf(),
        final(rd).evolves_from(*old(rd)),
        rusage_opt_post(old(rd).mem, addr, r),
        addr == 0 ==> *final(rd) == *old(rd),
{
    if addr == 0 {
        return Ok(None);
    }
    match read_rusage(rd, addr) {
        Ok(v) => Ok(Some(v)),
        Err(InspectError::ReadFailure { errno, incomplete: _ }) => Err(
            InspectError::ReadFailure { errno, incomplete: None },
        ),
        Err(_) => Err(InspectError::ReadFailure { errno: EFAULT, incomplete: None }),
    }
}

/// What reading a nullable `utimbuf` argument promises: a zero address is the
/// absent value and is never dereferenced.
pub open spec fn utimbuf_opt_post<M: TraceeMem>(
    m: M,
    addr: u64,
    r: InspectResult<Option<utimbuf>>,
) -> bool {
    &&& (addr == 0 ==> (r matches Ok(o) && o is None))
    &&& (addr != 0 ==> {
        &&& (r matches Ok(o) ==> o matches Some(v) && v == utimbuf::of_bytes(mem_bytes(m, addr, 16)) && bytes_readable(
            m,
            addr as int,
            addr + 16,
        ))
        &&& (r matches Err(e) ==> e matches InspectError::ReadFailure {
            errno: _,
            incomplete: None,
        } && !bytes_readable(m, cover_start(addr), cover_end(addr, 16)))
    })
}

/// Read the nullable `utimbuf` argument at `addr`.
pub fn read_utimbuf_opt<M: TraceeMem>(rd: &mut MemReader<M>, addr: u64) -> (r: InspectResult<
    Option<utimbuf>,
>)
    requires
        old(rd).wf(),
    ensures
        final(rd).wf(),
        final(rd).evolves_from(*old(rd)),
        utimbuf_opt_post(old(rd).mem, addr, r),
        addr == 0 ==> *final(rd) == *old(rd),
{
    if addr == 0 {
        return Ok(None);
    }
    match read_utimbuf(rd, addr) {
        Ok(v) => Ok(Some(v)),
        Err(InspectError::ReadFailure { errno, incomplete: _ }) => Err(
            InspectError::ReadFailure { errno, incomplete: None },
        ),
        Err(_) => Err(InspectError::ReadFailure { errno: EFAULT, incomplete: None }),
    }
}

/// What reading a nullable `mq_attr` argument promises: a zero address is the
/// absent value and is never dereferenced.
pub open spec fn mq_attr_opt_post<M: TraceeMem>(
    m: M,
    addr: u64,
    r: InspectResult<Option<mq_attr>>,
) -> bool {
    &&& (addr == 0 ==> (r matches Ok(o) && o is None))
    &&& (addr != 0 ==> {
        &&& (r matches Ok(o) ==> o matches Some(v) && v == mq_attr::of_bytes(mem_bytes(m, addr, 64)) && bytes_readable(
            m,
            addr as int,
            addr + 64,
        ))
        &&& (r matches Err(e) ==> e matches InspectError::ReadFailure {
            errno: _,
            incomplete: None,
        } && !bytes_readable(m, cover_start(addr), cover_end(addr, 64)))
    })
}

/// Read the nullable `mq_attr` argument at `addr`.
pub fn read_mq_attr_opt<M: TraceeMem>(rd: &mut MemReader<M>, addr: u64) -> (r: InspectResult<
    Option<mq_attr>,
>)
    requires
        old(rd).wf(),
    ensures
        final(rd).wf(),
        final(rd).evolves_from(*old(rd)),
        mq_attr_opt_post(old(rd).mem, addr, r),
        addr == 0 ==> *final(rd) == *old(rd),
{
    if addr == 0 {
        return Ok(None);
    }
    match read_mq_attr(rd, addr) {
        Ok(v) => Ok(Some(v)),
        Err(InspectError::ReadFailure { errno, incomplete: _ }) => Err(
            InspectError::ReadFailure { errno, incomplete: None },
        ),
        Err(_) => Err(InspectError::ReadFailure { errno: EFAULT, incomplete: None }),
    }
}

/// What reading a nullable `stack_t` argument promises: a zero address is the
/// absent value and is never dereferenced.
pub open spec fn stack_t_opt_post<M: TraceeMem>(
    m: M,
    addr: u64,
    r: InspectResult<Option<stack_t>>,
) -> bool {
    &&& (addr == 0 ==> (r matches Ok(o) && o is None))
    &&& (addr != 0 ==> {
        &&& (r matches Ok(o) ==> o matches Some(v) && v == stack_t::of_bytes(mem_bytes(m, addr, 24)) && bytes_readable(
            m,
            addr as int,
            addr + 24,
        ))
        &&& (r matches Err(e) ==> e matches InspectError::ReadFailure {
            errno: _,
            incomplete: None,
        } && !bytes_readable(m, cover_start(addr), cover_end(addr, 24)))
    })
}

/// Read the nullable `stack_t` argument at `addr`.
pub fn read_stack_t_opt<M: TraceeMem>(rd: &mut MemReader<M>, addr: u64) -> (r: InspectResult<
    Option<stack_t>,
>)
    requires
        old(rd).wf(),
    ensures
        final(rd).wf(),
        final(rd).evolves_from(*old(rd)),
        stack_t_opt_post(old(rd).mem, addr, r),
        addr == 0 ==> *final(rd) == *old(rd),
{
    if addr == 0 {
        return Ok(None);
    }
    match read_stack_t(rd, addr) {
        Ok(v) => Ok(Some(v)),
        Err(InspectError::ReadFailure { errno, incomplete: _ }) => Err(
            InspectError::ReadFailure { errno, incomplete: None },
        ),
        Err(_) => Err(InspectError::ReadFailure { errno: EFAULT, incomplete: None }),
    }
}

/// What reading a nullable `sigset_t` argument promises: a zero address is the
/// absent value and is never dereferenced.
pub open spec fn sigset_t_opt_post<M: TraceeMem>(
    m: M,
    addr: u64,
    r: InspectResult<Option<sigset_t>>,
) -> bool {
    &&& (addr == 0 ==> (r matches Ok(o) && o is None))
    &&& (addr != 0 ==> {
        &&& (r matches Ok(o) ==> o matches Some(v) && v == sigset_t::of_bytes(mem_bytes(m, addr, 8)) && bytes_readable(
            m,
            addr as int,
            addr + 8,
        ))
        &&& (r matches Err(e) ==> e matches InspectError::ReadFailure {
            errno: _,
            incomplete: None,
        } && !bytes_readable(m, cover_start(addr), cover_end(addr, 8)))
    })
}

/// Read the nullable `sigset_t` argument at `addr`.
pub fn read_sigset_t_opt<M: TraceeMem>(rd: &mut MemReader<M>, addr: u64) -> (r: InspectResult<
    Option<sigset_t>,
>)
    requires
        old(rd).wf(),
    ensures
        final(rd).wf(),
        final(rd).evolves_from(*old(rd)),
        sigset_t_opt_post(old(rd).mem, addr, r),
        addr == 0 ==> *final(rd) == *old(rd),
{
    if addr == 0 {
        return Ok(None);
    }
    match read_sigset_t(rd, addr) {
        Ok(v) => Ok(Some(v)),
        Err(InspectError::ReadFailure { errno, incomplete: _ }) => Err(
            InspectError::ReadFailure { errno, incomplete: None },
        ),
        Err(_) => Err(InspectError::ReadFailure { errno: EFAULT, incomplete: None }),
    }
}

/// What reading a nullable `siginfo` argument promises: a zero address is the
/// absent value and is never dereferenced.
pub open spec fn siginfo_opt_post<M: TraceeMem>(
    m: M,
    addr: u64,
    r: InspectResult<Option<siginfo>>,
) -> bool {
    &&& (addr == 0 ==> (r matches Ok(o) && o is None))
    &&& (addr != 0 ==> {
        &&& (r matches Ok(o) ==> o matches Some(v) && v.matches_bytes(mem_bytes(m, addr, 128)) && bytes_readable(
            m,
            addr as int,
            addr + 128,
        ))
        &&& (r matches Err(e) ==> e matches InspectError::ReadFailure {
            errno: _,
            incomplete: None,
        } && !bytes_readable(m, cover_start(addr), cover_end(addr, 128)))
    })
}

/// Read the nullable `siginfo` argument at `addr`.
pub fn read_siginfo_opt<M: TraceeMem>(rd: &mut MemReader<M>, addr: u64) -> (r: InspectResult<
    Option<siginfo>,
>)
    requires
        old(rd).wf(),
    ensures
        final(rd).wf(),
        final(rd).evolves_from(*old(rd)),
        siginfo_opt_post(old(rd).mem, addr, r),
        addr == 0 ==> *final(rd) == *old(rd),
{
    if addr == 0 {
        return Ok(None);
    }
    match read_siginfo(rd, addr) {
        Ok(v) => Ok(Some(v)),
        Err(InspectError::ReadFailure { errno, incomplete: _ }) => Err(
            InspectError::ReadFailure { errno, incomplete: None },
        ),
        Err(_) => Err(InspectError::ReadFailure { errno: EFAULT, incomplete: None }),
    }
}

/// The `u32` stored in the bytes `s`, for word-array reads.
pub open spec fn u32_of_bytes_seq(s: Seq<u8>) -> u32 {
    u32_le(s)
}

/// The `u64` stored in the bytes `s`, for word-array reads.
pub open spec fn u64_of_bytes_seq(s: Seq<u8>) -> u64 {
    u64_le(s)
}

/// What reading `count` iovec records at `addr` promises: on success all
/// records; on failure the prefix already read, with the next record's
/// covering range unreadable or out of the address space.
pub open spec fn iovec_array_post<M: TraceeMem>(
    m: M,
    addr: u64,
    count: int,
    r: InspectResult<Vec<iovec>>,
) -> bool {
    &&& (r matches Ok(v) ==> {
        &&& v@.len() == count
        &&& forall|k: int|
            0 <= k < count ==> #[trigger] v@[k] == iovec::of_bytes(
                mem_bytes(m, (addr + 16 * k) as u64, 16),
            )
        &&& bytes_readable(m, addr as int, addr + 16 * count)
    })
    &&& (r matches Err(e) ==> e matches InspectError::ReadFailure {
        errno: _,
        incomplete: Some(pr),
    } && {
        &&& pr@.len() < count
        &&& forall|k: int|
            0 <= k < pr@.len() ==> #[trigger] pr@[k] == iovec::of_bytes(
                mem_bytes(m, (addr + 16 * k) as u64, 16),
            )
        &&& bytes_readable(m, addr as int, addr + 16 * pr@.len())
        &&& (addr + 16 * pr@.len() > u64::MAX || !bytes_readable(
            m,
            cover_start((addr + 16 * pr@.len()) as u64),
            cover_end((addr + 16 * pr@.len()) as u64, 16),
        ))
    })
}

/// Read the `count` iovec records at `addr`, one record at a time, preserving
/// the prefix already read when a record fails.
pub fn read_iovec_array<M: TraceeMem>(rd: &mut MemReader<M>, addr: u64, count: usize) -> (r:
    InspectResult<Vec<iovec>>)
    requires
        old(rd).wf(),
    ensures
        final(rd).wf(),
        final(rd).evolves_from(*old(rd)),
        iovec_array_post(old(rd).mem, addr, count as int, r),
{
    let ghost m = rd.mem;
    let mut out: Vec<iovec> = Vec::new();
    let mut cur: u64 = addr;
    let mut i: usize = 0;
    while i < count
        invariant
            rd.wf(),
            rd.evolves_from(*old(rd)),
            m == rd.mem,
            i == out@.len(),
            i <= count,
            i < count ==> cur == addr + 16 * i,
            forall|k: int|
                0 <= k < i ==> #[trigger] out@[k] == iovec::of_bytes(
                    mem_bytes(m, (addr + 16 * k) as u64, 16),
                ),
            bytes_readable(m, addr as int, addr + 16 * i),
        decreases count - i,
    {
        match rd.read_memory(cur, 16) {
            Ok(vb) => {
                let e = iovec::from_bytes(&vb);
                out.push(e);
                proof {
                    assert(bytes_readable(m, addr as int, addr + 16 * out@.len()));
                }
            },
            Err(e) => {
                return Err(InspectError::ReadFailure { errno: e, incomplete: Some(out) });
            },
        }
        i += 1;
        if i < count {
            if cur > u64::MAX - 16 {
                proof {
                    assert(addr + 16 * out@.len() > u64::MAX);
                }
                return Err(InspectError::ReadFailure { errno: EFAULT, incomplete: Some(out) });
            }
            cur = cur + 16;
        }
    }
    Ok(out)
}

/// What reading `count` polled descriptors at `addr` promises: on success all
/// records; on failure the prefix already read, with the next record's
/// covering range unreadable or out of the address space.
pub open spec fn pollfd_array_post<M: TraceeMem>(
    m: M,
    addr: u64,
    count: int,
    r: InspectResult<Vec<pollfd>>,
) -> bool {
    &&& (r matches Ok(v) ==> {
        &&& v@.len() == count
        &&& forall|k: int|
            0 <= k < count ==> #[trigger] v@[k] == pollfd::of_bytes(
                mem_bytes(m, (addr + 8 * k) as u64, 8),
            )
        &&& bytes_readable(m, addr as int, addr + 8 * count)
    })
    &&& (r matches Err(e) ==> e matches InspectError::ReadFailure {
        errno: _,
        incomplete: Some(pr),
    } && {
        &&& pr@.len() < count
        &&& forall|k: int|
            0 <= k < pr@.len() ==> #[trigger] pr@[k] == pollfd::of_bytes(
                mem_bytes(m, (addr + 8 * k) as u64, 8),
            )
        &&& bytes_readable(m, addr as int, addr + 8 * pr@.len())
        &&& (addr + 8 * pr@.len() > u64::MAX || !bytes_readable(
            m,
            cover_start((addr + 8 * pr@.len()) as u64),
            cover_end((addr + 8 * pr@.len()) as u64, 8),
        ))
    })
}

/// Read the `count` polled descriptors at `addr`, one record at a time, preserving
/// the prefix already read when a record fails.
pub fn read_pollfd_array<M: TraceeMem>(rd: &mut MemReader<M>, addr: u64, count: usize) -> (r:
    InspectResult<Vec<pollfd>>)
    requires
        old(rd).wf(),
    ensures
        final(rd).wf(),
        final(rd).evolves_from(*old(rd)),
        pollfd_array_post(old(rd).mem, addr, count as int, r),
{
    let ghost m = rd.mem;
    let mut out: Vec<pollfd> = Vec::new();
    let mut cur: u64 = addr;
    let mut i: usize = 0;
    while i < count
        invariant
            rd.wf(),
            rd.evolves_from(*old(rd)),
            m == rd.mem,
            i == out@.len(),
            i <= count,
            i < count ==> cur == addr + 8 * i,
            forall|k: int|
                0 <= k < i ==> #[trigger] out@[k] == pollfd::of_bytes(
                    mem_bytes(m, (addr + 8 * k) as u64, 8),
                ),
            bytes_readable(m, addr as int, addr + 8 * i),
        decreases count - i,
    {
        match rd.read_memory(cur, 8) {
            Ok(vb) => {
                let e = pollfd::from_bytes(&vb);
                out.push(e);
                proof {
                    assert(bytes_readable(m, addr as int, addr + 8 * out@.len()));
                }
            },
            Err(e) => {
                return Err(InspectError::ReadFailure { errno: e, incomplete: Some(out) });
            },
        }
        i += 1;
        if i < count {
            if cur > u64::MAX - 8 {
                proof {
                    assert(addr + 8 * out@.len() > u64::MAX);
                }
                return Err(InspectError::ReadFailure { errno: EFAULT, incomplete: Some(out) });
            }
            cur = cur + 8;
        }
    }
    Ok(out)
}

/// What reading `count` completion events at `addr` promises: on success all
/// records; on failure the prefix already read, with the next record's
/// covering range unreadable or out of the address space.
pub open spec fn io_event_array_post<M: TraceeMem>(
    m: M,
    addr: u64,
    count: int,
    r: InspectResult<Vec<io_event>>,
) -> bool {
    &&& (r matches Ok(v) ==> {
        &&& v@.len() == count
        &&& forall|k: int|
            0 <= k < count ==> #[trigger] v@[k] == io_event::of_bytes(
                mem_bytes(m, (addr + 32 * k) as u64, 32),
            )
        &&& bytes_readable(m, addr as int, addr + 32 * count)
    })
    &&& (r matches Err(e) ==> e matches InspectError::ReadFailure {
        errno: _,
        incomplete: Some(pr),
    } && {
        &&& pr@.len() < count
        &&& forall|k: int|
            0 <= k < pr@.len() ==> #[trigger] pr@[k] == io_event::of_bytes(
                mem_bytes(m, (addr + 32 * k) as u64, 32),
            )
        &&& bytes_readable(m, addr as int, addr + 32 * pr@.len())
        &&& (addr + 32 * pr@.len() > u64::MAX || !bytes_readable(
            m,
            cover_start((addr + 32 * pr@.len()) as u64),
            cover_end((addr + 32 * pr@.len()) as u64, 32),
        ))
    })
}

/// Read the `count` completion events at `addr`, one record at a time, preserving
/// the prefix already read when a record fails.
pub fn read_io_event_array<M: TraceeMem>(rd: &mut MemReader<M>, addr: u64, count: usize) -> (r:
    InspectResult<Vec<io_event>>)
    requires
        old(rd).wf(),
    ensures
        final(rd).wf(),
        final(rd).evolves_from(*old(rd)),
        io_event_array_post(old(rd).mem, addr, count as int, r),
{
    let ghost m = rd.mem;
    let mut out: Vec<io_event> = Vec::new();
    let mut cur: u64 = addr;
    let mut i: usize = 0;
    while i < count
        invariant
            rd.wf(),
            rd.evolves_from(*old(rd)),
            m == rd.mem,
            i == out@.len(),
            i <= count,
            i < count ==> cur == addr + 32 * i,
            forall|k: int|
                0 <= k < i ==> #[trigger] out@[k] == io_event::of_bytes(
                    mem_bytes(m, (addr + 32 * k) as u64, 32),
                ),
            bytes_readable(m, addr as int, addr + 32 * i),
        decreases count - i,
    {
        match rd.read_memory(cur, 32) {
            Ok(vb) => {
                let e = io_event::from_bytes(&vb);
                out.push(e);
                proof {
                    assert(bytes_readable(m, addr as int, addr + 32 * out@.len()));
                }
            },
            Err(e) => {
                return Err(InspectError::ReadFailure { errno: e, incomplete: Some(out) });
            },
        }
        i += 1;
        if i < count {
            if cur > u64::MAX - 32 {
                proof {
                    assert(addr + 32 * out@.len() > u64::MAX);
                }
                return Err(InspectError::ReadFailure { errno: EFAULT, incomplete: Some(out) });
            }
            cur = cur + 32;
        }
    }
    Ok(out)
}

/// What reading `count` kexec segments at `addr` promises: on success all
/// records; on failure the prefix already read, with the next record's
/// covering range unreadable or out of the address space.
pub open spec fn kexec_segment_array_post<M: TraceeMem>(
    m: M,
    addr: u64,
    count: int,
    r: InspectResult<Vec<kexec_segment>>,
) -> bool {
    &&& (r matches Ok(v) ==> {
        &&& v@.len() == count
        &&& forall|k: int|
            0 <= k < count ==> #[trigger] v@[k] == kexec_segment::of_bytes(
                mem_bytes(m, (addr + 32 * k) as u64, 32),
            )
        &&& bytes_readable(m, addr as int, addr + 32 * count)
    })
    &&& (r matches Err(e) ==> e matches InspectError::ReadFailure {
        errno: _,
        incomplete: Some(pr),
    } && {
        &&& pr@.len() < count
        &&& forall|k: int|
            0 <= k < pr@.len() ==> #[trigger] pr@[k] == kexec_segment::of_bytes(
                mem_bytes(m, (addr + 32 * k) as u64, 32),
            )
        &&& bytes_readable(m, addr as int, addr + 32 * pr@.len())
        &&& (addr + 32 * pr@.len() > u64::MAX || !bytes_readable(
            m,
            cover_start((addr + 32 * pr@.len()) as u64),
            cover_end((addr + 32 * pr@.len()) as u64, 32),
        ))
    })
}

/// Read the `count` kexec segments at `addr`, one record at a time, preserving
/// the prefix already read when a record fails.
pub fn read_kexec_segment_array<M: TraceeMem>(rd: &mut MemReader<M>, addr: u64, count: usize) -> (r:
    InspectResult<Vec<kexec_segment>>)
    requires
        old(rd).wf(),
    ensures
        final(rd).wf(),
        final(rd).evolves_from(*old(rd)),
        kexec_segment_array_post(old(rd).mem, addr, count as int, r),
{
    let ghost m = rd.mem;
    let mut out: Vec<kexec_segment> = Vec::new();
    let mut cur: u64 = addr;
    let mut i: usize = 0;
    while i < count
        invariant
            rd.wf(),
            rd.evolves_from(*old(rd)),
            m == rd.mem,
            i == out@.len(),
            i <= count,
            i < count ==> cur == addr + 32 * i,
            forall|k: int|
                0 <= k < i ==> #[trigger] out@[k] == kexec_segment::of_bytes(
                    mem_bytes(m, (addr + 32 * k) as u64, 32),
                ),
            bytes_readable(m, addr as int, addr + 32 * i),
        decreases count - i,
    {
        match rd.read_memory(cur, 32) {
            Ok(vb) => {
                let e = kexec_segment::from_bytes(&vb);
                out.push(e);
                proof {
                    assert(bytes_readable(m, addr as int, addr + 32 * out@.len()));
                }
            },
            Err(e) => {
                return Err(InspectError::ReadFailure { errno: e, incomplete: Some(out) });
            },
        }
        i += 1;
        if i < count {
            if cur > u64::MAX - 32 {
                proof {
                    assert(addr + 32 * out@.len() > u64::MAX);
                }
                return Err(InspectError::ReadFailure { errno: EFAULT, incomplete: Some(out) });
            }
            cur = cur + 32;
        }
    }
    Ok(out)
}

/// What reading `count` futex waiters at `addr` promises: on success all
/// records; on failure the prefix already read, with the next record's
/// covering range unreadable or out of the address space.
pub open spec fn futex_waitv_array_post<M: TraceeMem>(
    m: M,
    addr: u64,
    count: int,
    r: InspectResult<Vec<futex_waitv>>,
) -> bool {
    &&& (r matches Ok(v) ==> {
        &&& v@.len() == count
        &&& forall|k: int|
            0 <= k < count ==> #[trigger] v@[k] == futex_waitv::of_bytes(
                mem_bytes(m, (addr + 24 * k) as u64, 24),
            )
        &&& bytes_readable(m, addr as int, addr + 24 * count)
    })
    &&& (r matches Err(e) ==> e matches InspectError::ReadFailure {
        errno: _,
        incomplete: Some(pr),
    } && {
        &&& pr@.len() < count
        &&& forall|k: int|
            0 <= k < pr@.len() ==> #[trigger] pr@[k] == futex_waitv::of_bytes(
                mem_bytes(m, (addr + 24 * k) as u64, 24),
            )
        &&& bytes_readable(m, addr as int, addr + 24 * pr@.len())
        &&& (addr + 24 * pr@.len() > u64::MAX || !bytes_readable(
            m,
            cover_start((addr + 24 * pr@.len()) as u64),
            cover_end((addr + 24 * pr@.len()) as u64, 24),
        ))
    })
}

/// Read the `count` futex waiters at `addr`, one record at a time, preserving
/// the prefix already read when a record fails.
pub fn read_futex_waitv_array<M: TraceeMem>(rd: &mut MemReader<M>, addr: u64, count: usize) -> (r:
    InspectResult<Vec<futex_waitv>>)
    requires
        old(rd).wf(),
    ensures
        final(rd).wf(),
        final(rd).evolves_from(*old(rd)),
        futex_waitv_array_post(old(rd).mem, addr, count as int, r),
{
    let ghost m = rd.mem;
    let mut out: Vec<futex_waitv> = Vec::new();
    let mut cur: u64 = addr;
    let mut i: usize = 0;
    while i < count
        invariant
            rd.wf(),
            rd.evolves_from(*old(rd)),
            m == rd.mem,
            i == out@.len(),
            i <= count,
            i < count ==> cur == addr + 24 * i,
            forall|k: int|
                0 <= k < i ==> #[trigger] out@[k] == futex_waitv::of_bytes(
                    mem_bytes(m, (addr + 24 * k) as u64, 24),
                ),
            bytes_readable(m, addr as int, addr + 24 * i),
        decreases count - i,
    {
        match rd.read_memory(cur, 24) {
            Ok(vb) => {
                let e = futex_waitv::from_bytes(&vb);
                out.push(e);
                proof {
                    assert(bytes_readable(m, addr as int, addr + 24 * out@.len()));
                }
            },
            Err(e) => {
                return Err(InspectError::ReadFailure { errno: e, incomplete: Some(out) });
            },
        }
        i += 1;
        if i < count {
            if cur > u64::MAX - 24 {
                proof {
                    assert(addr + 24 * out@.len() > u64::MAX);
                }
                return Err(InspectError::ReadFailure { errno: EFAULT, incomplete: Some(out) });
            }
            cur = cur + 24;
        }
    }
    Ok(out)
}

/// What reading `count` 32-bit words at `addr` promises: on success all
/// records; on failure the prefix already read, with the next record's
/// covering range unreadable or out of the address space.
pub open spec fn u32_array_post<M: TraceeMem>(
    m: M,
    addr: u64,
    count: int,
    r: InspectResult<Vec<u32>>,
) -> bool {
    &&& (r matches Ok(v) ==> {
        &&& v@.len() == count
        &&& forall|k: int|
            0 <= k < count ==> #[trigger] v@[k] == u32_of_bytes_seq(
                mem_bytes(m, (addr + 4 * k) as u64, 4),
            )
        &&& bytes_readable(m, addr as int, addr + 4 * count)
    })
    &&& (r matches Err(e) ==> e matches InspectError::ReadFailure {
        errno: _,
        incomplete: Some(pr),
    } && {
        &&& pr@.len() < count
        &&& forall|k: int|
            0 <= k < pr@.len() ==> #[trigger] pr@[k] == u32_of_bytes_seq(
                mem_bytes(m, (addr + 4 * k) as u64, 4),
            )
        &&& bytes_readable(m, addr as int, addr + 4 * pr@.len())
        &&& (addr + 4 * pr@.len() > u64::MAX || !bytes_readable(
            m,
            cover_start((addr + 4 * pr@.len()) as u64),
            cover_end((addr + 4 * pr@.len()) as u64, 4),
        ))
    })
}

/// Read the `count` 32-bit words at `addr`, one record at a time, preserving
/// the prefix already read when a record fails.
pub fn read_u32_array<M: TraceeMem>(rd: &mut MemReader<M>, addr: u64, count: usize) -> (r:
    InspectResult<Vec<u32>>)
    requires
        old(rd).wf(),
    ensures
        final(rd).wf(),
        final(rd).evolves_from(*old(rd)),
        u32_array_post(old(rd).mem, addr, count as int, r),
{
    let ghost m = rd.mem;
    let mut out: Vec<u32> = Vec::new();
    let mut cur: u64 = addr;
    let mut i: usize = 0;
    while i < count
        invariant
            rd.wf(),
            rd.evolves_from(*old(rd)),
            m == rd.mem,
            i == out@.len(),
            i <= count,
            i < count ==> cur == addr + 4 * i,
            forall|k: int|
                0 <= k < i ==> #[trigger] out@[k] == u32_of_bytes_seq(
                    mem_bytes(m, (addr + 4 * k) as u64, 4),
                ),
            bytes_readable(m, addr as int, addr + 4 * i),
        decreases count - i,
    {
        match rd.read_memory(cur, 4) {
            Ok(vb) => {
                let e = crate::bytes::u32_at(&vb, 0);
                out.push(e);
                proof {
                    assert(bytes_readable(m, addr as int, addr + 4 * out@.len()));
                }
            },
            Err(e) => {
                return Err(InspectError::ReadFailure { errno: e, incomplete: Some(out) });
            },
        }
        i += 1;
        if i < count {
            if cur > u64::MAX - 4 {
                proof {
                    assert(addr + 4 * out@.len() > u64::MAX);
                }
                return Err(InspectError::ReadFailure { errno: EFAULT, incomplete: Some(out) });
            }
            cur = cur + 4;
        }
    }
    Ok(out)
}

/// What reading `count` 64-bit words at `addr` promises: on success all
/// records; on failure the prefix already read, with the next record's
/// covering range unreadable or out of the address space.
pub open spec fn u64_array_post<M: TraceeMem>(
    m: M,
    addr: u64,
    count: int,
    r: InspectResult<Vec<u64>>,
) -> bool {
    &&& (r matches Ok(v) ==> {
        &&& v@.len() == count
        &&& forall|k: int|
            0 <= k < count ==> #[trigger] v@[k] == u64_of_bytes_seq(
                mem_bytes(m, (addr + 8 * k) as u64, 8),
            )
        &&& bytes_readable(m, addr as int, addr + 8 * count)
    })
    &&& (r matches Err(e) ==> e matches InspectError::ReadFailure {
        errno: _,
        incomplete: Some(pr),
    } && {
        &&& pr@.len() < count
        &&& forall|k: int|
            0 <= k < pr@.len() ==> #[trigger] pr@[k] == u64_of_bytes_seq(
                mem_bytes(m, (addr + 8 * k) as u64, 8),
            )
        &&& bytes_readable(m, addr as int, addr + 8 * pr@.len())
        &&& (addr + 8 * pr@.len() > u64::MAX || !bytes_readable(
            m,
            cover_start((addr + 8 * pr@.len()) as u64),
            cover_end((addr + 8 * pr@.len()) as u64, 8),
        ))
    })
}

/// Read the `count` 64-bit words at `addr`, one record at a time, preserving
/// the prefix already read when a record fails.
pub fn read_u64_array<M: TraceeMem>(rd: &mut MemReader<M>, addr: u64, count: usize) -> (r:
    InspectResult<Vec<u64>>)
    requires
        old(rd).wf(),
    ensures
        final(rd).wf(),
        final(rd).evolves_from(*old(rd)),
        u64_array_post(old(rd).mem, addr, count as int, r),
{
    let ghost m = rd.mem;
    let mut out: Vec<u64> = Vec::new();
    let mut cur: u64 = addr;
    let mut i: usize = 0;
    while i < count
        invariant
            rd.wf(),
            rd.evolves_from(*old(rd)),
            m == rd.mem,
            i == out@.len(),
            i <= count,
            i < count ==> cur == addr + 8 * i,
            forall|k: int|
                0 <= k < i ==> #[trigger] out@[k] == u64_of_bytes_seq(
                    mem_bytes(m, (addr + 8 * k) as u64, 8),
                ),
            bytes_readable(m, addr as int, addr + 8 * i),
        decreases count - i,
    {
        match rd.read_memory(cur, 8) {
            Ok(vb) => {
                let e = crate::bytes::u64_at(&vb, 0);
                out.push(e);
                proof {
                    assert(bytes_readable(m, addr as int, addr + 8 * out@.len()));
                }
            },
            Err(e) => {
                return Err(InspectError::ReadFailure { errno: e, incomplete: Some(out) });
            },
        }
        i += 1;
        if i < count {
            if cur > u64::MAX - 8 {
                proof {
                    assert(addr + 8 * out@.len() > u64::MAX);
                }
                return Err(InspectError::ReadFailure { errno: EFAULT, incomplete: Some(out) });
            }
            cur = cur + 8;
        }
    }
    Ok(out)
}

/// What dereferencing a `u64` pointer argument promises.
pub open spec fn u64_value_post<M: TraceeMem>(m: M, addr: u64, r: InspectResult<u64>) -> bool {
    &&& (r matches Ok(v) ==> v == u64_le(mem_bytes(m, addr, 8)) && bytes_readable(
        m,
        addr as int,
        addr + 8,
    ))
    &&& (r matches Err(e) ==> e matches InspectError::ReadFailure {
        errno: _,
        incomplete: None,
    } && !bytes_readable(m, cover_start(addr), cover_end(addr, 8)))
}

/// Read the `u64` a pointer argument points at.
pub fn read_u64_value<M: TraceeMem>(rd: &mut MemReader<M>, addr: u64) -> (r: InspectResult<u64>)
    requires
        old(rd).wf(),
    ensures
        final(rd).wf(),
        final(rd).evolves_from(*old(rd)),
        u64_value_post(old(rd).mem, addr, r),
{
    match rd.read_exact(addr, 8) {
        Ok(v) => Ok(crate::bytes::u64_at(&v, 0)),
        Err(InspectError::ReadFailure { errno, incomplete: _ }) => Err(
            InspectError::ReadFailure { errno, incomplete: None },
        ),
        Err(_) => Err(InspectError::ReadFailure { errno: EFAULT, incomplete: None }),
    }
}

/// What dereferencing an `i64` pointer argument promises.
pub open spec fn i64_value_post<M: TraceeMem>(m: M, addr: u64, r: InspectResult<i64>) -> bool {
    &&& (r matches Ok(v) ==> v == i64_le(mem_bytes(m, addr, 8)) && bytes_readable(
        m,
        addr as int,
        addr + 8,
    ))
    &&& (r matches Err(e) ==> e matches InspectError::ReadFailure {
        errno: _,
        incomplete: None,
    } && !bytes_readable(m, cover_start(addr), cover_end(addr, 8)))
}

/// Read the `i64` a pointer argument points at.
pub fn read_i64_value<M: TraceeMem>(rd: &mut MemReader<M>, addr: u64) -> (r: InspectResult<i64>)
    requires
        old(rd).wf(),
    ensures
        final(rd).wf(),
        final(rd).evolves_from(*old(rd)),
        i64_value_post(old(rd).mem, addr, r),
{
    match rd.read_exact(addr, 8) {
        Ok(v) => Ok(crate::bytes::i64_at(&v, 0)),
        Err(InspectError::ReadFailure { errno, incomplete: _ }) => Err(
            InspectError::ReadFailure { errno, incomplete: None },
        ),
        Err(_) => Err(InspectError::ReadFailure { errno: EFAULT, incomplete: None }),
    }
}

/// What dereferencing a nullable `u32` pointer argument promises.
pub open spec fn u32_value_opt_post<M: TraceeMem>(
    m: M,
    addr: u64,
    r: InspectResult<Option<u32>>,
) -> bool {
    &&& (addr == 0 ==> (r matches Ok(o) && o is None))
    &&& (addr != 0 ==> {
        &&& (r matches Ok(o) ==> o matches Some(v) && v == u32_le(mem_bytes(m, addr, 4))
            && bytes_readable(m, addr as int, addr + 4))
        &&& (r matches Err(e) ==> e matches InspectError::ReadFailure {
            errno: _,
            incomplete: None,
        } && !bytes_readable(m, cover_start(addr), cover_end(addr, 4)))
    })
}

/// Read the nullable `u32` a pointer argument points at.
pub fn read_u32_value_opt<M: TraceeMem>(rd: &mut MemReader<M>, addr: u64) -> (r: InspectResult<
    Option<u32>,
>)
    requires
        old(rd).wf(),
    ensures
        final(rd).wf(),
        final(rd).evolves_from(*old(rd)),
        u32_value_opt_post(old(rd).mem, addr, r),
        addr == 0 ==> *final(rd) == *old(rd),
{
    if addr == 0 {
        return Ok(None);
    }
    match read_u32_value(rd, addr) {
        Ok(v) => Ok(Some(v)),
        Err(InspectError::ReadFailure { errno, incomplete: _ }) => Err(
            InspectError::ReadFailure { errno, incomplete: None },
        ),
        Err(_) => Err(InspectError::ReadFailure { errno: EFAULT, incomplete: None }),
    }
}

/// What reading a nullable C string promises: a zero address is the absent
/// value and is never dereferenced.
pub open spec fn cstring_opt_post<M: TraceeMem>(
    m: M,
    addr: u64,
    r: InspectResult<Option<Vec<u8>>>,
) -> bool {
    &&& (addr == 0 ==> (r matches Ok(o) && o is None))
    &&& (addr != 0 ==> {
        &&& (r matches Ok(o) ==> o matches Some(v) && cstr_ok_val(m, addr, v@))
        &&& (r matches Err(e) ==> e matches InspectError::ReadFailure {
            errno: _,
            incomplete: Some(op),
        } && op matches Some(pv) && cstr_fail_partial(m, addr, pv@))
    })
}

/// Read the nullable C string at `addr`.
pub fn read_c_string_opt<M: TraceeMem>(rd: &mut MemReader<M>, addr: u64) -> (r: InspectResult<
    Option<Vec<u8>>,
>)
    requires
        old(rd).wf(),
    ensures
        final(rd).wf(),
        final(rd).evolves_from(*old(rd)),
        cstring_opt_post(old(rd).mem, addr, r),
        addr == 0 ==> *final(rd) == *old(rd),
{
    if addr == 0 {
        return Ok(None);
    }
    match rd.read_c_string(addr) {
        Ok(v) => Ok(Some(v)),
        Err(InspectError::ReadFailure { errno, incomplete }) => Err(
            InspectError::ReadFailure {
                errno,
                incomplete: match incomplete {
                    Some(pv) => Some(Some(pv)),
                    None => None,
                },
            },
        ),
        Err(_) => Err(InspectError::ReadFailure { errno: EFAULT, incomplete: None }),
    }
}

/// What reading a nullable `sockaddr` argument promises.
pub open spec fn sockaddr_opt_post<M: TraceeMem>(
    m: M,
    addr: u64,
    r: InspectResult<Option<sockaddr>>,
) -> bool {
    &&& (addr == 0 ==> (r matches Ok(o) && o is None))
    &&& (addr != 0 ==> {
        &&& (r matches Ok(o) ==> o matches Some(v) && v.matches_bytes(mem_bytes(m, addr, 16))
            && bytes_readable(m, addr as int, addr + 16))
        &&& (r matches Err(e) ==> e matches InspectError::ReadFailure {
            errno: _,
            incomplete: None,
        } && !bytes_readable(m, cover_start(addr), cover_end(addr, 16)))
    })
}

/// Read the nullable `sockaddr` at `addr`.
pub fn read_sockaddr_opt<M: TraceeMem>(rd: &mut MemReader<M>, addr: u64) -> (r: InspectResult<
    Option<sockaddr>,
>)
    requires
        old(rd).wf(),
    ensures
        final(rd).wf(),
        final(rd).evolves_from(*old(rd)),
        sockaddr_opt_post(old(rd).mem, addr, r),
        addr == 0 ==> *final(rd) == *old(rd),
{
    if addr == 0 {
        return Ok(None);
    }
    match read_sockaddr(rd, addr) {
        Ok(v) => Ok(Some(v)),
        Err(InspectError::ReadFailure { errno, incomplete: _ }) => Err(
            InspectError::ReadFailure { errno, incomplete: None },
        ),
        Err(_) => Err(InspectError::ReadFailure { errno: EFAULT, incomplete: None }),
    }
}

/// What reading a `sigaction` at `addr` under the layout of `arch` promises.
pub open spec fn sigaction_post<M: TraceeMem>(
    m: M,
    arch: Arch,
    addr: u64,
    r: InspectResult<sigaction>,
) -> bool {
    &&& (r matches Ok(v) ==> v == sigaction::of_bytes(
        arch,
        mem_bytes(m, addr, sigaction::size_for_spec(arch)),
    ) && bytes_readable(m, addr as int, addr + sigaction::size_for_spec(arch)))
    &&& (r matches Err(e) ==> e matches InspectError::ReadFailure {
        errno: _,
        incomplete: None,
    } && !bytes_readable(m, cover_start(addr), cover_end(addr, sigaction::size_for_spec(arch))))
}

/// Read the `sigaction` record at `addr` under the layout of `arch`.
pub fn read_sigaction<M: TraceeMem>(rd: &mut MemReader<M>, arch: Arch, addr: u64) -> (r:
    InspectResult<sigaction>)
    requires
        old(rd).wf(),
    ensures
        final(rd).wf(),
        final(rd).evolves_from(*old(rd)),
        sigaction_post(old(rd).mem, arch, addr, r),
{
    let size = sigaction::size_for(arch);
    match rd.read_exact(addr, size) {
        Ok(v) => Ok(sigaction::from_bytes(arch, &v)),
        Err(InspectError::ReadFailure { errno, incomplete: _ }) => Err(
            InspectError::ReadFailure { errno, incomplete: None },
        ),
        Err(_) => Err(InspectError::ReadFailure { errno: EFAULT, incomplete: None }),
    }
}

/// What reading a nullable `sigaction` argument promises.
pub open spec fn sigaction_opt_post<M: TraceeMem>(
    m: M,
    arch: Arch,
    addr: u64,
    r: InspectResult<Option<sigaction>>,
) -> bool {
    &&& (addr == 0 ==> (r matches Ok(o) && o is None))
    &&& (addr != 0 ==> {
        &&& (r matches Ok(o) ==> o matches Some(v) && v == sigaction::of_bytes(
            arch,
            mem_bytes(m, addr, sigaction::size_for_spec(arch)),
        ) && bytes_readable(m, addr as int, addr + sigaction::size_for_spec(arch)))
        &&& (r matches Err(e) ==> e matches InspectError::ReadFailure {
            errno: _,
            incomplete: None,
        } && !bytes_readable(
            m,
            cover_start(addr),
            cover_end(addr, sigaction::size_for_spec(arch)),
        ))
    })
}

/// Read the nullable `sigaction` at `addr` under the layout of `arch`.
pub fn read_sigaction_opt<M: TraceeMem>(rd: &mut MemReader<M>, arch: Arch, addr: u64) -> (r:
    InspectResult<Option<sigaction>>)
    requires
        old(rd).wf(),
    ensures
        final(rd).wf(),
        final(rd).evolves_from(*old(rd)),
        sigaction_opt_post(old(rd).mem, arch, addr, r),
        addr == 0 ==> *final(rd) == *old(rd),
{
    if addr == 0 {
        return Ok(None);
    }
    match read_sigaction(rd, arch, addr) {
        Ok(v) => Ok(Some(v)),
        Err(InspectError::ReadFailure { errno, incomplete: _ }) => Err(
            InspectError::ReadFailure { errno, incomplete: None },
        ),
        Err(_) => Err(InspectError::ReadFailure { errno: EFAULT, incomplete: None }),
    }
}

/// What reading an `epoll_event` at `addr` under the layout of `arch`
/// promises.
pub open spec fn epoll_event_post<M: TraceeMem>(
    m: M,
    arch: Arch,
    addr: u64,
    r: InspectResult<epoll_event>,
) -> bool {
    &&& (r matches Ok(v) ==> v == epoll_event::of_bytes(
        arch,
        mem_bytes(m, addr, epoll_event::size_for_spec(arch)),
    ) && bytes_readable(m, addr as int, addr + epoll_event::size_for_spec(arch)))
    &&& (r matches Err(e) ==> e matches InspectError::ReadFailure {
        errno: _,
        incomplete: None,
    } && !bytes_readable(
        m,
        cover_start(addr),
        cover_end(addr, epoll_event::size_for_spec(arch)),
    ))
}

/// Read the `epoll_event` record at `addr` under the layout of `arch`.
pub fn read_epoll_event<M: TraceeMem>(rd: &mut MemReader<M>, arch: Arch, addr: u64) -> (r:
    InspectResult<epoll_event>)
    requires
        old(rd).wf(),
    ensures
        final(rd).wf(),
        final(rd).evolves_from(*old(rd)),
        epoll_event_post(old(rd).mem, arch, addr, r),
{
    let size = epoll_event::size_for(arch);
    match rd.read_exact(addr, size) {
        Ok(v) => Ok(epoll_event::from_bytes(arch, &v)),
        Err(InspectError::ReadFailure { errno, incomplete: _ }) => Err(
            InspectError::ReadFailure { errno, incomplete: None },
        ),
        Err(_) => Err(InspectError::ReadFailure { errno: EFAULT, incomplete: None }),
    }
}

/// What reading a two-element `timespec` array promises: on a failure of the
/// second element, the first is preserved as the partial value.
pub open spec fn timespec_pair_post<M: TraceeMem>(
    m: M,
    addr: u64,
    r: Result<[timespec; 2], InspectError<Vec<timespec>>>,
) -> bool {
    &&& (r matches Ok(a) ==> {
        &&& a@[0] == timespec::of_bytes(mem_bytes(m, addr, 16))
        &&& bytes_readable(m, addr as int, addr + 16)
        &&& addr + 16 <= u64::MAX
        &&& a@[1] == timespec::of_bytes(mem_bytes(m, (addr + 16) as u64, 16))
        &&& bytes_readable(m, addr + 16, addr + 32)
    })
    &&& (r matches Err(e) ==> e matches InspectError::ReadFailure { errno: _, incomplete } && {
        ||| (incomplete is None && !bytes_readable(m, cover_start(addr), cover_end(addr, 16)))
        ||| (incomplete matches Some(pr) && pr@.len() == 1 && pr@[0] == timespec::of_bytes(
            mem_bytes(m, addr, 16),
        ) && bytes_readable(m, addr as int, addr + 16) && (addr + 16 > u64::MAX
            || !bytes_readable(
            m,
            cover_start((addr + 16) as u64),
            cover_end((addr + 16) as u64, 16),
        )))
    })
}

/// Read the two-element `timespec` array at `addr`.
pub fn read_timespec_pair<M: TraceeMem>(rd: &mut MemReader<M>, addr: u64) -> (r: Result<
    [timespec; 2],
    InspectError<Vec<timespec>>,
>)
    requires
        old(rd).wf(),
    ensures
        final(rd).wf(),
        final(rd).evolves_from(*old(rd)),
        timespec_pair_post(old(rd).mem, addr, r),
{
    let first = match read_timespec(rd, addr) {
        Ok(v) => v,
        Err(InspectError::ReadFailure { errno, incomplete: _ }) => {
            return Err(InspectError::ReadFailure { errno, incomplete: None });
        },
        Err(_) => {
            return Err(InspectError::ReadFailure { errno: EFAULT, incomplete: None });
        },
    };
    if addr > u64::MAX - 16 {
        let mut partial: Vec<timespec> = Vec::new();
        partial.push(first);
        return Err(InspectError::ReadFailure { errno: EFAULT, incomplete: Some(partial) });
    }
    match read_timespec(rd, addr + 16) {
        Ok(second) => Ok([first, second]),
        Err(InspectError::ReadFailure { errno, incomplete: _ }) => {
            let mut partial: Vec<timespec> = Vec::new();
            partial.push(first);
            Err(InspectError::ReadFailure { errno, incomplete: Some(partial) })
        },
        Err(_) => {
            let mut partial: Vec<timespec> = Vec::new();
            partial.push(first);
            Err(InspectError::ReadFailure { errno: EFAULT, incomplete: Some(partial) })
        },
    }
}

/// What reading a nullable two-element `timespec` array promises.
pub open spec fn timespec_pair_opt_post<M: TraceeMem>(
    m: M,
    addr: u64,
    r: Result<Option<[timespec; 2]>, InspectError<Vec<timespec>>>,
) -> bool {
    &&& (addr == 0 ==> (r matches Ok(o) && o is None))
    &&& (addr != 0 ==> {
        &&& (r matches Ok(o) ==> o matches Some(a) && timespec_pair_post(m, addr, Ok(a)))
        &&& (r matches Err(e) ==> timespec_pair_post(
            m,
            addr,
            Err::<[timespec; 2], InspectError<Vec<timespec>>>(e),
        ))
    })
}

/// Read the nullable two-element `timespec` array at `addr`.
pub fn read_timespec_pair_opt<M: TraceeMem>(rd: &mut MemReader<M>, addr: u64) -> (r: Result<
    Option<[timespec; 2]>,
    InspectError<Vec<timespec>>,
>)
    requires
        old(rd).wf(),
    ensures
        final(rd).wf(),
        final(rd).evolves_from(*old(rd)),
        timespec_pair_opt_post(old(rd).mem, addr, r),
        addr == 0 ==> *final(rd) == *old(rd),
{
    if addr == 0 {
        return Ok(None);
    }
    match read_timespec_pair(rd, addr) {
        Ok(a) => Ok(Some(a)),
        Err(e) => Err(e),
    }
}

/// What reading a received message buffer promises: the kernel fills the
/// 8-byte message type followed by as many text bytes as the result reports,
/// so a negative or oversized result cannot size the buffer.
pub open spec fn msgbuf_post<M: TraceeMem>(
    m: M,
    addr: u64,
    res: i64,
    r: InspectResult<Vec<u8>>,
) -> bool {
    if 0 <= res && res + 8 <= usize::MAX {
        counted_post(m, addr, res + 8, r)
    } else {
        r matches Err(e) && e is DependencyInspectFailure
    }
}

/// Read the message buffer at `addr` whose text length the result `res`
/// reports.
pub fn read_msgbuf<M: TraceeMem>(rd: &mut MemReader<M>, addr: u64, res: i64) -> (r: InspectResult<
    Vec<u8>,
>)
    requires
        old(rd).wf(),
    ensures
        final(rd).wf(),
        final(rd).evolves_from(*old(rd)),
        msgbuf_post(old(rd).mem, addr, res, r),
{
    if res < 0 {
        return Err(InspectError::DependencyInspectFailure { field: "syscall_result" });
    }
    if res as u64 > (usize::MAX - 8) as u64 {
        return Err(InspectError::DependencyInspectFailure { field: "syscall_result" });
    }
    rd.read_counted_bytes(addr, res as usize + 8)
}

/// Record `k` of an epoll-event array at `addr` holds the value `e` under
/// the layout of `arch`.
pub open spec fn epoll_slot_ok<M: TraceeMem>(
    m: M,
    arch: Arch,
    addr: u64,
    k: int,
    e: epoll_event,
) -> bool {
    e == epoll_event::of_bytes(
        arch,
        mem_bytes(
            m,
            (addr + epoll_event::size_for_spec(arch) * k) as u64,
            epoll_event::size_for_spec(arch),
        ),
    )
}

/// What reading `count` epoll events at `addr` promises, under the record
/// layout of `arch`.
pub open spec fn epoll_event_array_post<M: TraceeMem>(
    m: M,
    arch: Arch,
    addr: u64,
    count: int,
    r: InspectResult<Vec<epoll_event>>,
) -> bool {
    &&& (r matches Ok(v) ==> {
        &&& v@.len() == count
        &&& forall|k: int| 0 <= k < count ==> #[trigger] epoll_slot_ok(m, arch, addr, k, v@[k])
        &&& bytes_readable(m, addr as int, addr + epoll_event::size_for_spec(arch) * count)
    })
    &&& (r matches Err(e) ==> e matches InspectError::ReadFailure {
        errno: _,
        incomplete: Some(pr),
    } && {
        &&& pr@.len() < count
        &&& forall|k: int|
            0 <= k < pr@.len() ==> #[trigger] epoll_slot_ok(m, arch, addr, k, pr@[k])
        &&& bytes_readable(m, addr as int, addr + epoll_event::size_for_spec(arch) * pr@.len())
        &&& (addr + epoll_event::size_for_spec(arch) * pr@.len() > u64::MAX || !bytes_readable(
            m,
            cover_start((addr + epoll_event::size_for_spec(arch) * pr@.len()) as u64),
            cover_end(
                (addr + epoll_event::size_for_spec(arch) * pr@.len()) as u64,
                epoll_event::size_for_spec(arch),
            ),
        ))
    })
}

/// Read `count` epoll events of the 12-byte layout.
fn epoll_events_packed<M: TraceeMem>(
    rd: &mut MemReader<M>,
    arch: Arch,
    addr: u64,
    count: usize,
) -> (r: InspectResult<Vec<epoll_event>>)
    requires
        old(rd).wf(),
        arch is X86_64,
    ensures
        final(rd).wf(),
        final(rd).evolves_from(*old(rd)),
        epoll_event_array_post(old(rd).mem, arch, addr, count as int, r),
{
    let ghost m = rd.mem;
    let mut out: Vec<epoll_event> = Vec::new();
    let mut cur: u64 = addr;
    let mut i: usize = 0;
    while i < count
        invariant
            rd.wf(),
            rd.evolves_from(*old(rd)),
            m == rd.mem,
            arch is X86_64,
            i == out@.len(),
            i <= count,
            i < count ==> cur == addr + 12 * i,
            forall|k: int| 0 <= k < i ==> #[trigger] epoll_slot_ok(m, arch, addr, k, out@[k]),
            bytes_readable(m, addr as int, addr + 12 * i),
        decreases count - i,
    {
        match rd.read_memory(cur, 12) {
            Ok(vb) => {
                let e = epoll_event::from_bytes(arch, &vb);
                out.push(e);
                proof {
                    assert(epoll_slot_ok(m, arch, addr, i as int, e));
                    assert(bytes_readable(m, addr as int, addr + 12 * out@.len()));
                }
            },
            Err(e) => {
                return Err(InspectError::ReadFailure { errno: e, incomplete: Some(out) });
            },
        }
        i += 1;
        if i < count {
            if cur > u64::MAX - 12 {
                proof {
                    assert(addr + 12 * out@.len() > u64::MAX);
                }
                return Err(InspectError::ReadFailure { errno: EFAULT, incomplete: Some(out) });
            }
            cur = cur + 12;
        }
    }
    Ok(out)
}

/// Read `count` epoll events of the 16-byte layout.
fn epoll_events_padded<M: TraceeMem>(
    rd: &mut MemReader<M>,
    arch: Arch,
    addr: u64,
    count: usize,
) -> (r: InspectResult<Vec<epoll_event>>)
    requires
        old(rd).wf(),
        !(arch is X86_64),
    ensures
        final(rd).wf(),
        final(rd).evolves_from(*old(rd)),
        epoll_event_array_post(old(rd).mem, arch, addr, count as int, r),
{
    let ghost m = rd.mem;
    let mut out: Vec<epoll_event> = Vec::new();
    let mut cur: u64 = addr;
    let mut i: usize = 0;
    while i < count
        invariant
            rd.wf(),
            rd.evolves_from(*old(rd)),
            m == rd.mem,
            !(arch is X86_64),
            i == out@.len(),
            i <= count,
            i < count ==> cur == addr + 16 * i,
            forall|k: int| 0 <= k < i ==> #[trigger] epoll_slot_ok(m, arch, addr, k, out@[k]),
            bytes_readable(m, addr as int, addr + 16 * i),
        decreases count - i,
    {
        match rd.read_memory(cur, 16) {
            Ok(vb) => {
                let e = epoll_event::from_bytes(arch, &vb);
                out.push(e);
                proof {
                    assert(epoll_slot_ok(m, arch, addr, i as int, e));
                    assert(bytes_readable(m, addr as int, addr + 16 * out@.len()));
                }
            },
            Err(e) => {
                return Err(InspectError::ReadFailure { errno: e, incomplete: Some(out) });
            },
        }
        i += 1;
        if i < count {
            if cur > u64::MAX - 16 {
                proof {
                    assert(addr + 16 * out@.len() > u64::MAX);
                }
                return Err(InspectError::ReadFailure { errno: EFAULT, incomplete: Some(out) });
            }
            cur = cur + 16;
        }
    }
    Ok(out)
}

/// Read the `count` epoll events the kernel filled at `addr`, under the
/// record layout of `arch`.
pub fn read_epoll_event_array<M: TraceeMem>(
    rd: &mut MemReader<M>,
    arch: Arch,
    addr: u64,
    count: usize,
) -> (r: InspectResult<Vec<epoll_event>>)
    requires
        old(rd).wf(),
    ensures
        final(rd).wf(),
        final(rd).evolves_from(*old(rd)),
        epoll_event_array_post(old(rd).mem, arch, addr, count as int, r),
{
    match arch {
        Arch::X86_64 => epoll_events_packed(rd, arch, addr, count),
        _ => epoll_events_padded(rd, arch, addr, count),
    }
}

/// What reading a `mount_attr` at `addr` promises.
pub open spec fn mount_attr_post<M: TraceeMem>(m: M, addr: u64, r: InspectResult<mount_attr>) -> bool {
    &&& (r matches Ok(v) ==> v == mount_attr::of_bytes(mem_bytes(m, addr, 32)) && bytes_readable(
        m,
        addr as int,
        addr + 32,
    ))
    &&& (r matches Err(e) ==> e matches InspectError::ReadFailure {
        errno: _,
        incomplete: None,
    } && !bytes_readable(m, cover_start(addr), cover_end(addr, 32)))
}

/// Read the `mount_attr` record at `addr`.
pub fn read_mount_attr<M: TraceeMem>(rd: &mut MemReader<M>, addr: u64) -> (r: InspectResult<mount_attr>)
    requires
        old(rd).wf(),
    ensures
        final(rd).wf(),
        final(rd).evolves_from(*old(rd)),
        mount_attr_post(old(rd).mem, addr, r),
{
    match rd.read_exact(addr, 32) {
        Ok(v) => Ok(mount_attr::from_bytes(&v)),
        Err(InspectError::ReadFailure { errno, incomplete: _ }) => Err(
            InspectError::ReadFailure { errno, incomplete: None },
        ),
        Err(_) => Err(InspectError::ReadFailure { errno: EFAULT, incomplete: None }),
    }
}

/// What reading a `io_event` at `addr` promises.
pub open spec fn io_event_post<M: TraceeMem>(m: M, addr: u64, r: InspectResult<io_event>) -> bool {
    &&& (r matches Ok(v) ==> v == io_event::of_bytes(mem_bytes(m, addr, 32)) && bytes_readable(
        m,
        addr as int,
        addr + 32,
    ))
    &&& (r matches Err(e) ==> e matches InspectError::ReadFailure {
        errno: _,
        incomplete: None,
    } && !bytes_readable(m, cover_start(addr), cover_end(addr, 32)))
}

/// Read the `io_event` record at `addr`.
pub fn read_io_event<M: TraceeMem>(rd: &mut MemReader<M>, addr: u64) -> (r: InspectResult<io_event>)
    requires
        old(rd).wf(),
    ensures
        final(rd).wf(),
        final(rd).evolves_from(*old(rd)),
        io_event_post(old(rd).mem, addr, r),
{
    match rd.read_exact(addr, 32) {
        Ok(v) => Ok(io_event::from_bytes(&v)),
        Err(InspectError::ReadFailure { errno, incomplete: _ }) => Err(
            InspectError::ReadFailure { errno, incomplete: None },
        ),
        Err(_) => Err(InspectError::ReadFailure { errno: EFAULT, incomplete: None }),
    }
}

/// Entry-decoded arguments of `read`.
#[derive(Debug, PartialEq)]
pub struct ReadArgs {
    pub fd: i32,
    pub count: usize,
}

/// Entry-decoded arguments of `write`.
#[derive(Debug, PartialEq)]
pub struct WriteArgs {
    pub fd: i32,
    pub buf: InspectResult<Vec<u8>>,
}

/// Entry-decoded arguments of `open`.
#[derive(Debug, PartialEq)]
pub struct OpenArgs {
    pub pathname: InspectResult<Vec<u8>>,
    pub flags: i32,
    pub mode: u32,
}

/// Entry-decoded arguments of `close`.
#[derive(Debug, PartialEq)]
pub struct CloseArgs {
    pub fd: i32,
}

/// Entry-decoded arguments of `stat`.
#[derive(Debug, PartialEq)]
pub struct StatArgs {
    pub pathname: InspectResult<Vec<u8>>,
}

/// Entry-decoded arguments of `fstat`.
#[derive(Debug, PartialEq)]
pub struct FstatArgs {
    pub fd: i32,
}

/// Entry-decoded arguments of `lstat`.
#[derive(Debug, PartialEq)]
pub struct LstatArgs {
    pub pathname: InspectResult<Vec<u8>>,
}

/// Entry-decoded arguments of `lseek`.
#[derive(Debug, PartialEq)]
pub struct LseekArgs {
    pub fd: i32,
    pub offset: i64,
    pub whence: i32,
}

/// Entry-decoded arguments of `mmap`.
#[derive(Debug, PartialEq)]
pub struct MmapArgs {
    pub addr: u64,
    pub length: usize,
    pub prot: i32,
    pub flags: i32,
    pub fd: i32,
    pub offset: i64,
}

/// Entry-decoded arguments of `mprotect`.
#[derive(Debug, PartialEq)]
pub struct MprotectArgs {
    pub addr: u64,
    pub len: usize,
    pub prot: i32,
}

/// Entry-decoded arguments of `munmap`.
#[derive(Debug, PartialEq)]
pub struct MunmapArgs {
    pub addr: u64,
    pub length: usize,
}

/// Entry-decoded arguments of `brk`.
#[derive(Debug, PartialEq)]
pub struct BrkArgs {
    pub addr: u64,
}

/// Entry-decoded arguments of `rt_sigreturn`.
#[derive(Debug, PartialEq)]
pub struct RtSigreturnArgs {
}

/// Entry-decoded arguments of `ioctl`.
#[derive(Debug, PartialEq)]
pub struct IoctlArgs {
    pub fd: i32,
    pub request: u64,
    pub argp: u64,
}

/// Entry-decoded arguments of `pread64`.
#[derive(Debug, PartialEq)]
pub struct Pread64Args {
    pub fd: i32,
    pub count: usize,
    pub offset: i64,
}

/// Entry-decoded arguments of `pwrite64`.
#[derive(Debug, PartialEq)]
pub struct Pwrite64Args {
    pub fd: i32,
    pub buf: InspectResult<Vec<u8>>,
    pub count: usize,
    pub offset: i64,
}

/// Entry-decoded arguments of `access`.
#[derive(Debug, PartialEq)]
pub struct AccessArgs {
    pub pathname: InspectResult<Vec<u8>>,
    pub mode: i32,
}

/// Entry-decoded arguments of `pipe`.
#[derive(Debug, PartialEq)]
pub struct PipeArgs {
}

/// Entry-decoded arguments of `sched_yield`.
#[derive(Debug, PartialEq)]
pub struct SchedYieldArgs {
}

/// Entry-decoded arguments of `mremap`.
#[derive(Debug, PartialEq)]
pub struct MremapArgs {
    pub old_address: u64,
    pub old_size: usize,
    pub new_size: usize,
    pub flags: i32,
    pub new_address: u64,
}

/// Entry-decoded arguments of `msync`.
#[derive(Debug, PartialEq)]
pub struct MsyncArgs {
    pub addr: u64,
    pub length: usize,
    pub flags: i32,
}

/// Entry-decoded arguments of `madvise`.
#[derive(Debug, PartialEq)]
pub struct MadviseArgs {
    pub addr: u64,
    pub length: usize,
    pub advice: i32,
}

/// Entry-decoded arguments of `shmget`.
#[derive(Debug, PartialEq)]
pub struct ShmgetArgs {
    pub key: i32,
    pub size: usize,
    pub shmflg: i32,
}

/// Entry-decoded arguments of `shmat`.
#[derive(Debug, PartialEq)]
pub struct ShmatArgs {
    pub shmid: i32,
    pub shmaddr: u64,
    pub shmflg: i32,
}

/// Entry-decoded arguments of `dup`.
#[derive(Debug, PartialEq)]
pub struct DupArgs {
    pub oldfd: i32,
}

/// Entry-decoded arguments of `dup2`.
#[derive(Debug, PartialEq)]
pub struct Dup2Args {
    pub oldfd: i32,
    pub newfd: i32,
}

/// Entry-decoded arguments of `pause`.
#[derive(Debug, PartialEq)]
pub struct PauseArgs {
}

/// Entry-decoded arguments of `nanosleep`.
#[derive(Debug, PartialEq)]
pub struct NanosleepArgs {
    pub req: InspectResult<timespec>,
}

/// Entry-decoded arguments of `alarm`.
#[derive(Debug, PartialEq)]
pub struct AlarmArgs {
    pub seconds: u32,
}

/// Entry-decoded arguments of `getpid`.
#[derive(Debug, PartialEq)]
pub struct GetpidArgs {
}

/// Entry-decoded arguments of `socket`.
#[derive(Debug, PartialEq)]
pub struct SocketArgs {
    pub domain: i32,
    pub sock_type: i32,
    pub protocol: i32,
}

/// Entry-decoded arguments of `connect`.
#[derive(Debug, PartialEq)]
pub struct ConnectArgs {
    pub sockfd: i32,
    pub addr: InspectResult<sockaddr>,
    pub addrlen: u32,
}

/// Entry-decoded arguments of `accept`.
#[derive(Debug, PartialEq)]
pub struct AcceptArgs {
    pub socketfd: i32,
    pub addr: InspectResult<sockaddr>,
    pub addrlen: InspectResult<u32>,
}

/// Entry-decoded arguments of `shutdown`.
#[derive(Debug, PartialEq)]
pub struct ShutdownArgs {
    pub sockfd: i32,
    pub how: i32,
}

/// Entry-decoded arguments of `bind`.
#[derive(Debug, PartialEq)]
pub struct BindArgs {
    pub socketfd: i32,
    pub addr: InspectResult<sockaddr>,
    pub addrlen: u32,
}

/// Entry-decoded arguments of `listen`.
#[derive(Debug, PartialEq)]
pub struct ListenArgs {
    pub sockfd: i32,
    pub backlog: i32,
}

/// Entry-decoded arguments of `getsockname`.
#[derive(Debug, PartialEq)]
pub struct GetsocknameArgs {
    pub sockfd: i32,
    pub addrlen: InspectResult<u32>,
}

/// Entry-decoded arguments of `getpeername`.
#[derive(Debug, PartialEq)]
pub struct GetpeernameArgs {
    pub sockfd: i32,
    pub addr: InspectResult<sockaddr>,
    pub addrlen: InspectResult<u32>,
}

/// Entry-decoded arguments of `socketpair`.
#[derive(Debug, PartialEq)]
pub struct SocketpairArgs {
    pub domain: i32,
    pub sock_type: i32,
    pub protocol: i32,
}

/// Entry-decoded arguments of `clone`.
#[derive(Debug, PartialEq)]
pub struct CloneArgs {
    pub flags: u64,
    pub stack: u64,
    pub tls: u64,
}

/// Entry-decoded arguments of `execve`.
#[derive(Debug, PartialEq)]
pub struct ExecveArgs {
    pub filename: InspectResult<Vec<u8>>,
    pub argv: InspectResult<Option<Vec<Vec<u8>>>>,
    pub envp: InspectResult<Option<Vec<Vec<u8>>>>,
}

/// Entry-decoded arguments of `exit`.
#[derive(Debug, PartialEq)]
pub struct ExitArgs {
    pub status: i32,
}

/// Entry-decoded arguments of `kill`.
#[derive(Debug, PartialEq)]
pub struct KillArgs {
    pub pid: i32,
    pub sig: i32,
}

/// Entry-decoded arguments of `semget`.
#[derive(Debug, PartialEq)]
pub struct SemgetArgs {
    pub key: i32,
    pub nsems: i32,
    pub semflg: i32,
}

/// Entry-decoded arguments of `semop`.
#[derive(Debug, PartialEq)]
pub struct SemopArgs {
    pub semid: i32,
    pub sops: InspectResult<Vec<sembuf>>,
    pub nsops: usize,
}

/// Entry-decoded arguments of `semctl`.
#[derive(Debug, PartialEq)]
pub struct SemctlArgs {
    pub semid: i32,
    pub semnum: i32,
    pub cmd: i32,
}

/// Entry-decoded arguments of `shmdt`.
#[derive(Debug, PartialEq)]
pub struct ShmdtArgs {
    pub shmaddr: u64,
}

/// Entry-decoded arguments of `msgget`.
#[derive(Debug, PartialEq)]
pub struct MsggetArgs {
    pub key: i32,
    pub msgflg: i32,
}

/// Entry-decoded arguments of `msgsnd`.
#[derive(Debug, PartialEq)]
pub struct MsgsndArgs {
    pub msqid: i32,
    pub msgp: InspectResult<Vec<u8>>,
    pub msgsz: usize,
    pub msgflg: i32,
}

/// Entry-decoded arguments of `fcntl`.
#[derive(Debug, PartialEq)]
pub struct FcntlArgs {
    pub fd: i32,
    pub cmd: i32,
    pub arg: usize,
}

/// Entry-decoded arguments of `flock`.
#[derive(Debug, PartialEq)]
pub struct FlockArgs {
    pub fd: i32,
    pub operation: i32,
}

/// Entry-decoded arguments of `fsync`.
#[derive(Debug, PartialEq)]
pub struct FsyncArgs {
    pub fd: i32,
}

/// Entry-decoded arguments of `fdatasync`.
#[derive(Debug, PartialEq)]
pub struct FdatasyncArgs {
    pub fd: i32,
}

/// Entry-decoded arguments of `truncate`.
#[derive(Debug, PartialEq)]
pub struct TruncateArgs {
    pub path: InspectResult<Vec<u8>>,
    pub length: i64,
}

/// Entry-decoded arguments of `ftruncate`.
#[derive(Debug, PartialEq)]
pub struct FtruncateArgs {
    pub fd: i32,
    pub length: i64,
}

/// Entry-decoded arguments of `getcwd`.
#[derive(Debug, PartialEq)]
pub struct GetcwdArgs {
    pub size: usize,
}

/// Entry-decoded arguments of `chdir`.
#[derive(Debug, PartialEq)]
pub struct ChdirArgs {
    pub path: InspectResult<Vec<u8>>,
}

/// Entry-decoded arguments of `rename`.
#[derive(Debug, PartialEq)]
pub struct RenameArgs {
    pub oldpath: InspectResult<Vec<u8>>,
    pub newpath: InspectResult<Vec<u8>>,
}

/// Entry-decoded arguments of `mkdir`.
#[derive(Debug, PartialEq)]
pub struct MkdirArgs {
    pub pathname: InspectResult<Vec<u8>>,
    pub mode: u32,
}

/// Entry-decoded arguments of `rmdir`.
#[derive(Debug, PartialEq)]
pub struct RmdirArgs {
    pub pathname: InspectResult<Vec<u8>>,
}

/// Entry-decoded arguments of `creat`.
#[derive(Debug, PartialEq)]
pub struct CreatArgs {
    pub pathname: InspectResult<Vec<u8>>,
    pub mode: u32,
}

/// Entry-decoded arguments of `link`.
#[derive(Debug, PartialEq)]
pub struct LinkArgs {
    pub oldpath: InspectResult<Vec<u8>>,
    pub newpath: InspectResult<Vec<u8>>,
}

/// Entry-decoded arguments of `unlink`.
#[derive(Debug, PartialEq)]
pub struct UnlinkArgs {
    pub pathname: InspectResult<Vec<u8>>,
}

/// Entry-decoded arguments of `symlink`.
#[derive(Debug, PartialEq)]
pub struct SymlinkArgs {
    pub target: InspectResult<Vec<u8>>,
    pub linkpath: InspectResult<Vec<u8>>,
}

/// Entry-decoded arguments of `readlink`.
#[derive(Debug, PartialEq)]
pub struct ReadlinkArgs {
    pub pathname: InspectResult<Vec<u8>>,
    pub bufsiz: usize,
}

/// Entry-decoded arguments of `chmod`.
#[derive(Debug, PartialEq)]
pub struct ChmodArgs {
    pub pathname: InspectResult<Vec<u8>>,
    pub mode: u32,
}

/// Entry-decoded arguments of `fchmod`.
#[derive(Debug, PartialEq)]
pub struct FchmodArgs {
    pub fd: i32,
    pub mode: u32,
}

/// Entry-decoded arguments of `chown`.
#[derive(Debug, PartialEq)]
pub struct ChownArgs {
    pub pathname: InspectResult<Vec<u8>>,
    pub owner: u32,
    pub group: u32,
}

/// Entry-decoded arguments of `fchown`.
#[derive(Debug, PartialEq)]
pub struct FchownArgs {
    pub fd: i32,
    pub owner: u32,
    pub group: u32,
}

/// Entry-decoded arguments of `lchown`.
#[derive(Debug, PartialEq)]
pub struct LchownArgs {
    pub pathname: InspectResult<Vec<u8>>,
    pub owner: u32,
    pub group: u32,
}

/// Entry-decoded arguments of `umask`.
#[derive(Debug, PartialEq)]
pub struct UmaskArgs {
    pub mask: u32,
}

/// Entry-decoded arguments of `gettimeofday`.
#[derive(Debug, PartialEq)]
pub struct GettimeofdayArgs {
}

/// Entry-decoded arguments of `getrlimit`.
#[derive(Debug, PartialEq)]
pub struct GetrlimitArgs {
    pub resource: i32,
}

/// Entry-decoded arguments of `times`.
#[derive(Debug, PartialEq)]
pub struct TimesArgs {
}

/// Entry-decoded arguments of `ptrace`.
#[derive(Debug, PartialEq)]
pub struct PtraceArgs {
}

/// Entry-decoded arguments of `getuid`.
#[derive(Debug, PartialEq)]
pub struct GetuidArgs {
}

/// Entry-decoded arguments of `getgid`.
#[derive(Debug, PartialEq)]
pub struct GetgidArgs {
}

/// Entry-decoded arguments of `setuid`.
#[derive(Debug, PartialEq)]
pub struct SetuidArgs {
    pub uid: u32,
}

/// Entry-decoded arguments of `setgid`.
#[derive(Debug, PartialEq)]
pub struct SetgidArgs {
    pub gid: u32,
}

/// Entry-decoded arguments of `geteuid`.
#[derive(Debug, PartialEq)]
pub struct GeteuidArgs {
}

/// Entry-decoded arguments of `getegid`.
#[derive(Debug, PartialEq)]
pub struct GetegidArgs {
}

/// Entry-decoded arguments of `setpgid`.
#[derive(Debug, PartialEq)]
pub struct SetpgidArgs {
    pub pid: i32,
    pub pgid: i32,
}

/// Entry-decoded arguments of `getppid`.
#[derive(Debug, PartialEq)]
pub struct GetppidArgs {
}

/// Entry-decoded arguments of `setsid`.
#[derive(Debug, PartialEq)]
pub struct SetsidArgs {
}

/// Entry-decoded arguments of `setreuid`.
#[derive(Debug, PartialEq)]
pub struct SetreuidArgs {
    pub ruid: u32,
    pub euid: u32,
}

/// Entry-decoded arguments of `setregid`.
#[derive(Debug, PartialEq)]
pub struct SetregidArgs {
    pub rgid: u32,
    pub egid: u32,
}

/// Entry-decoded arguments of `setresuid`.
#[derive(Debug, PartialEq)]
pub struct SetresuidArgs {
    pub ruid: u32,
    pub euid: u32,
    pub suid: u32,
}

/// Entry-decoded arguments of `getresuid`.
#[derive(Debug, PartialEq)]
pub struct GetresuidArgs {
}

/// Entry-decoded arguments of `setresgid`.
#[derive(Debug, PartialEq)]
pub struct SetresgidArgs {
    pub rgid: u32,
    pub egid: u32,
    pub sgid: u32,
}

/// Entry-decoded arguments of `getresgid`.
#[derive(Debug, PartialEq)]
pub struct GetresgidArgs {
}

/// Entry-decoded arguments of `getpgid`.
#[derive(Debug, PartialEq)]
pub struct GetpgidArgs {
    pub pid: i32,
}

/// Entry-decoded arguments of `getsid`.
#[derive(Debug, PartialEq)]
pub struct GetsidArgs {
    pub pid: i32,
}

/// Entry-decoded arguments of `capget`.
#[derive(Debug, PartialEq)]
pub struct CapgetArgs {
}

/// Entry-decoded arguments of `statfs`.
#[derive(Debug, PartialEq)]
pub struct StatfsArgs {
    pub path: InspectResult<Vec<u8>>,
}

/// Entry-decoded arguments of `fstatfs`.
#[derive(Debug, PartialEq)]
pub struct FstatfsArgs {
    pub fd: i32,
}

/// Entry-decoded arguments of `sync`.
#[derive(Debug, PartialEq)]
pub struct SyncArgs {
}

/// Entry-decoded arguments of `settimeofday`.
#[derive(Debug, PartialEq)]
pub struct SettimeofdayArgs {
    pub tv: InspectResult<timeval>,
    pub tz: InspectResult<Option<timezone>>,
}

/// Entry-decoded arguments of `umount2`.
#[derive(Debug, PartialEq)]
pub struct Umount2Args {
    pub target: InspectResult<Vec<u8>>,
    pub flags: i32,
}

/// Entry-decoded arguments of `sethostname`.
#[derive(Debug, PartialEq)]
pub struct SethostnameArgs {
    pub name: InspectResult<Vec<u8>>,
    pub len: usize,
}

/// Entry-decoded arguments of `setdomainname`.
#[derive(Debug, PartialEq)]
pub struct SetdomainnameArgs {
    pub name: InspectResult<Vec<u8>>,
    pub len: usize,
}

/// Entry-decoded arguments of `gettid`.
#[derive(Debug, PartialEq)]
pub struct GettidArgs {
}

/// Entry-decoded arguments of `futex`.
#[derive(Debug, PartialEq)]
pub struct FutexArgs {
    pub uaddr: InspectResult<u32>,
    pub futex_op: i32,
    pub val: u32,
    pub val2: usize,
    pub uaddr2: InspectResult<u32>,
    pub val3: u32,
}

/// Entry-decoded arguments of `sched_getaffinity`.
#[derive(Debug, PartialEq)]
pub struct SchedGetaffinityArgs {
    pub pid: i32,
    pub cpusetsize: usize,
    pub mask: u64,
}

/// Entry-decoded arguments of `clock_settime`.
#[derive(Debug, PartialEq)]
pub struct ClockSettimeArgs {
    pub clk_id: i32,
    pub tp: InspectResult<timespec>,
}

/// Entry-decoded arguments of `clock_gettime`.
#[derive(Debug, PartialEq)]
pub struct ClockGettimeArgs {
    pub clk_id: i32,
}

/// Entry-decoded arguments of `clock_getres`.
#[derive(Debug, PartialEq)]
pub struct ClockGetresArgs {
    pub clk_id: i32,
}

/// Entry-decoded arguments of `clock_nanosleep`.
#[derive(Debug, PartialEq)]
pub struct ClockNanosleepArgs {
    pub clockid: i32,
    pub flags: i32,
    pub request: InspectResult<timespec>,
}

/// Entry-decoded arguments of `exit_group`.
#[derive(Debug, PartialEq)]
pub struct ExitGroupArgs {
    pub status: i32,
}

/// Entry-decoded arguments of `utimes`.
#[derive(Debug, PartialEq)]
pub struct UtimesArgs {
    pub filename: InspectResult<Vec<u8>>,
    pub times: Result<Option<[timeval; 2]>, InspectError<Vec<timeval>>>,
}

/// Entry-decoded arguments of `openat`.
#[derive(Debug, PartialEq)]
pub struct OpenatArgs {
    pub dirfd: i32,
    pub pathname: InspectResult<Vec<u8>>,
    pub flags: i32,
    pub mode: u32,
}

/// Entry-decoded arguments of `mkdirat`.
#[derive(Debug, PartialEq)]
pub struct MkdiratArgs {
    pub dirfd: i32,
    pub pathname: InspectResult<Vec<u8>>,
    pub mode: u32,
}

/// Entry-decoded arguments of `fchownat`.
#[derive(Debug, PartialEq)]
pub struct FchownatArgs {
    pub dirfd: i32,
    pub pathname: InspectResult<Vec<u8>>,
    pub owner: u32,
    pub group: u32,
    pub flags: i32,
}

/// Entry-decoded arguments of `newfstatat`.
#[derive(Debug, PartialEq)]
pub struct NewfstatatArgs {
    pub dirfd: i32,
    pub pathname: InspectResult<Vec<u8>>,
    pub flags: i32,
}

/// Entry-decoded arguments of `unlinkat`.
#[derive(Debug, PartialEq)]
pub struct UnlinkatArgs {
    pub dirfd: i32,
    pub pathname: InspectResult<Vec<u8>>,
    pub flags: i32,
}

/// Entry-decoded arguments of `renameat`.
#[derive(Debug, PartialEq)]
pub struct RenameatArgs {
    pub olddirfd: i32,
    pub oldpath: InspectResult<Vec<u8>>,
    pub newdirfd: i32,
    pub newpath: InspectResult<Vec<u8>>,
}

/// Entry-decoded arguments of `linkat`.
#[derive(Debug, PartialEq)]
pub struct LinkatArgs {
    pub olddirfd: i32,
    pub oldpath: InspectResult<Vec<u8>>,
    pub newdirfd: i32,
    pub newpath: InspectResult<Vec<u8>>,
    pub flags: i32,
}

/// Entry-decoded arguments of `symlinkat`.
#[derive(Debug, PartialEq)]
pub struct SymlinkatArgs {
    pub target: InspectResult<Vec<u8>>,
    pub newdirfd: i32,
    pub linkpath: InspectResult<Vec<u8>>,
}

/// Entry-decoded arguments of `readlinkat`.
#[derive(Debug, PartialEq)]
pub struct ReadlinkatArgs {
    pub dirfd: i32,
    pub pathname: InspectResult<Vec<u8>>,
    pub bufsiz: usize,
}

/// Entry-decoded arguments of `fchmodat`.
#[derive(Debug, PartialEq)]
pub struct FchmodatArgs {
    pub dirfd: i32,
    pub pathname: InspectResult<Vec<u8>>,
    pub mode: u32,
}

/// Entry-decoded arguments of `faccessat`.
#[derive(Debug, PartialEq)]
pub struct FaccessatArgs {
    pub dirfd: i32,
    pub pathname: InspectResult<Vec<u8>>,
    pub mode: i32,
}

/// Entry-decoded arguments of `accept4`.
#[derive(Debug, PartialEq)]
pub struct Accept4Args {
    pub socketfd: i32,
    pub addr: InspectResult<sockaddr>,
    pub addrlen: InspectResult<u32>,
    pub flags: i32,
}

/// Entry-decoded arguments of `eventfd2`.
#[derive(Debug, PartialEq)]
pub struct Eventfd2Args {
    pub initval: u32,
    pub flags: i32,
}

/// Entry-decoded arguments of `epoll_create1`.
#[derive(Debug, PartialEq)]
pub struct EpollCreate1Args {
    pub flags: i32,
}

/// Entry-decoded arguments of `dup3`.
#[derive(Debug, PartialEq)]
pub struct Dup3Args {
    pub oldfd: i32,
    pub newfd: i32,
    pub flags: i32,
}

/// Entry-decoded arguments of `pipe2`.
#[derive(Debug, PartialEq)]
pub struct Pipe2Args {
    pub flags: i32,
}

/// Entry-decoded arguments of `inotify_init1`.
#[derive(Debug, PartialEq)]
pub struct InotifyInit1Args {
    pub flags: i32,
}

/// Entry-decoded arguments of `prlimit64`.
#[derive(Debug, PartialEq)]
pub struct Prlimit64Args {
    pub pid: i32,
    pub resource: i32,
    pub new_limit: InspectResult<Option<rlimit>>,
    pub old_limit: InspectResult<Option<rlimit>>,
}

/// Entry-decoded arguments of `getrandom`.
#[derive(Debug, PartialEq)]
pub struct GetrandomArgs {
    pub buflen: usize,
    pub flags: u32,
}

/// Entry-decoded arguments of `memfd_create`.
#[derive(Debug, PartialEq)]
pub struct MemfdCreateArgs {
    pub name: InspectResult<Vec<u8>>,
    pub flags: u32,
}

/// Entry-decoded arguments of `rseq`.
#[derive(Debug, PartialEq)]
pub struct RseqArgs {
    pub rseq: InspectResult<rseq>,
    pub rseq_len: u32,
    pub flags: i32,
    pub sig: u32,
}

/// Entry-decoded arguments of `pidfd_open`.
#[derive(Debug, PartialEq)]
pub struct PidfdOpenArgs {
    pub pid: i32,
    pub flags: u32,
}

/// Entry-decoded arguments of `close_range`.
#[derive(Debug, PartialEq)]
pub struct CloseRangeArgs {
    pub first: u32,
    pub last: u32,
    pub flags: u32,
}

/// Entry-decoded arguments of `landlock_create_ruleset`.
#[derive(Debug, PartialEq)]
pub struct LandlockCreateRulesetArgs {
    pub ruleset_attr: InspectResult<landlock_ruleset_attr>,
    pub size: usize,
    pub flags: u32,
}

/// Entry-decoded arguments of `cachestat`.
#[derive(Debug, PartialEq)]
pub struct CachestatArgs {
    pub fd: i32,
    pub cstat_range: InspectResult<cachestat_range>,
    pub cstat: InspectResult<cachestat>,
    pub flags: u32,
}

/// Entry-decoded arguments of `statmount`.
#[derive(Debug, PartialEq)]
pub struct StatmountArgs {
    pub req: InspectResult<mnt_id_req>,
    pub bufsize: usize,
    pub flags: u32,
}

/// The entry-decoded record of one syscall-entry stop: one variant per
/// table entry, plus `Unknown` carrying the raw slots through unchanged.
#[derive(Debug, PartialEq)]
pub enum SyscallArgs {
    Read(ReadArgs),
    Write(WriteArgs),
    Open(OpenArgs),
    Close(CloseArgs),
    Stat(StatArgs),
    Fstat(FstatArgs),
    Lstat(LstatArgs),
    Lseek(LseekArgs),
    Mmap(MmapArgs),
    Mprotect(MprotectArgs),
    Munmap(MunmapArgs),
    Brk(BrkArgs),
    RtSigreturn(RtSigreturnArgs),
    Ioctl(IoctlArgs),
    Pread64(Pread64Args),
    Pwrite64(Pwrite64Args),
    Access(AccessArgs),
    Pipe(PipeArgs),
    SchedYield(SchedYieldArgs),
    Mremap(MremapArgs),
    Msync(MsyncArgs),
    Madvise(MadviseArgs),
    Shmget(ShmgetArgs),
    Shmat(ShmatArgs),
    Dup(DupArgs),
    Dup2(Dup2Args),
    Pause(PauseArgs),
    Nanosleep(NanosleepArgs),
    Alarm(AlarmArgs),
    Getpid(GetpidArgs),
    Socket(SocketArgs),
    Connect(ConnectArgs),
    Accept(AcceptArgs),
    Shutdown(ShutdownArgs),
    Bind(BindArgs),
    Listen(ListenArgs),
    Getsockname(GetsocknameArgs),
    Getpeername(GetpeernameArgs),
    Socketpair(SocketpairArgs),
    Clone(CloneArgs),
    Execve(ExecveArgs),
    Exit(ExitArgs),
    Kill(KillArgs),
    Semget(SemgetArgs),
    Semop(SemopArgs),
    Semctl(SemctlArgs),
    Shmdt(ShmdtArgs),
    Msgget(MsggetArgs),
    Msgsnd(MsgsndArgs),
    Fcntl(FcntlArgs),
    Flock(FlockArgs),
    Fsync(FsyncArgs),
    Fdatasync(FdatasyncArgs),
    Truncate(TruncateArgs),
    Ftruncate(FtruncateArgs),
    Getcwd(GetcwdArgs),
    Chdir(ChdirArgs),
    Rename(RenameArgs),
    Mkdir(MkdirArgs),
    Rmdir(RmdirArgs),
    Creat(CreatArgs),
    Link(LinkArgs),
    Unlink(UnlinkArgs),
    Symlink(SymlinkArgs),
    Readlink(ReadlinkArgs),
    Chmod(ChmodArgs),
    Fchmod(FchmodArgs),
    Chown(ChownArgs),
    Fchown(FchownArgs),
    Lchown(LchownArgs),
    Umask(UmaskArgs),
    Gettimeofday(GettimeofdayArgs),
    Getrlimit(GetrlimitArgs),
    Times(TimesArgs),
    Ptrace(PtraceArgs),
    Getuid(GetuidArgs),
    Getgid(GetgidArgs),
    Setuid(SetuidArgs),
    Setgid(SetgidArgs),
    Geteuid(GeteuidArgs),
    Getegid(GetegidArgs),
    Setpgid(SetpgidArgs),
    Getppid(GetppidArgs),
    Setsid(SetsidArgs),
    Setreuid(SetreuidArgs),
    Setregid(SetregidArgs),
    Setresuid(SetresuidArgs),
    Getresuid(GetresuidArgs),
    Setresgid(SetresgidArgs),
    Getresgid(GetresgidArgs),
    Getpgid(GetpgidArgs),
    Getsid(GetsidArgs),
    Capget(CapgetArgs),
    Statfs(StatfsArgs),
    Fstatfs(FstatfsArgs),
    Sync(SyncArgs),
    Settimeofday(SettimeofdayArgs),
    Umount2(Umount2Args),
    Sethostname(SethostnameArgs),
    Setdomainname(SetdomainnameArgs),
    Gettid(GettidArgs),
    Futex(FutexArgs),
    SchedGetaffinity(SchedGetaffinityArgs),
    ClockSettime(ClockSettimeArgs),
    ClockGettime(ClockGettimeArgs),
    ClockGetres(ClockGetresArgs),
    ClockNanosleep(ClockNanosleepArgs),
    ExitGroup(ExitGroupArgs),
    Utimes(UtimesArgs),
    Openat(OpenatArgs),
    Mkdirat(MkdiratArgs),
    Fchownat(FchownatArgs),
    Newfstatat(NewfstatatArgs),
    Unlinkat(UnlinkatArgs),
    Renameat(RenameatArgs),
    Linkat(LinkatArgs),
    Symlinkat(SymlinkatArgs),
    Readlinkat(ReadlinkatArgs),
    Fchmodat(FchmodatArgs),
    Faccessat(FaccessatArgs),
    Accept4(Accept4Args),
    Eventfd2(Eventfd2Args),
    EpollCreate1(EpollCreate1Args),
    Dup3(Dup3Args),
    Pipe2(Pipe2Args),
    InotifyInit1(InotifyInit1Args),
    Prlimit64(Prlimit64Args),
    Getrandom(GetrandomArgs),
    MemfdCreate(MemfdCreateArgs),
    Rseq(RseqArgs),
    PidfdOpen(PidfdOpenArgs),
    CloseRange(CloseRangeArgs),
    LandlockCreateRuleset(LandlockCreateRulesetArgs),
    Cachestat(CachestatArgs),
    Statmount(StatmountArgs),
    Unknown(UnknownArgs),
}

impl SyscallArgs {
    /// Which table entry this record belongs to; `None` for `Unknown`.
    pub open spec fn tag(self) -> Option<SyscallId> {
        match self {
            SyscallArgs::Read(_) => Some(SyscallId::Read),
            SyscallArgs::Write(_) => Some(SyscallId::Write),
            SyscallArgs::Open(_) => Some(SyscallId::Open),
            SyscallArgs::Close(_) => Some(SyscallId::Close),
            SyscallArgs::Stat(_) => Some(SyscallId::Stat),
            SyscallArgs::Fstat(_) => Some(SyscallId::Fstat),
            SyscallArgs::Lstat(_) => Some(SyscallId::Lstat),
            SyscallArgs::Lseek(_) => Some(SyscallId::Lseek),
            SyscallArgs::Mmap(_) => Some(SyscallId::Mmap),
            SyscallArgs::Mprotect(_) => Some(SyscallId::Mprotect),
            SyscallArgs::Munmap(_) => Some(SyscallId::Munmap),
            SyscallArgs::Brk(_) => Some(SyscallId::Brk),
            SyscallArgs::RtSigreturn(_) => Some(SyscallId::RtSigreturn),
            SyscallArgs::Ioctl(_) => Some(SyscallId::Ioctl),
            SyscallArgs::Pread64(_) => Some(SyscallId::Pread64),
            SyscallArgs::Pwrite64(_) => Some(SyscallId::Pwrite64),
            SyscallArgs::Access(_) => Some(SyscallId::Access),
            SyscallArgs::Pipe(_) => Some(SyscallId::Pipe),
            SyscallArgs::SchedYield(_) => Some(SyscallId::SchedYield),
            SyscallArgs::Mremap(_) => Some(SyscallId::Mremap),
            SyscallArgs::Msync(_) => Some(SyscallId::Msync),
            SyscallArgs::Madvise(_) => Some(SyscallId::Madvise),
            SyscallArgs::Shmget(_) => Some(SyscallId::Shmget),
            SyscallArgs::Shmat(_) => Some(SyscallId::Shmat),
            SyscallArgs::Dup(_) => Some(SyscallId::Dup),
            SyscallArgs::Dup2(_) => Some(SyscallId::Dup2),
            SyscallArgs::Pause(_) => Some(SyscallId::Pause),
            SyscallArgs::Nanosleep(_) => Some(SyscallId::Nanosleep),
            SyscallArgs::Alarm(_) => Some(SyscallId::Alarm),
            SyscallArgs::Getpid(_) => Some(SyscallId::Getpid),
            SyscallArgs::Socket(_) => Some(SyscallId::Socket),
            SyscallArgs::Connect(_) => Some(SyscallId::Connect),
            SyscallArgs::Accept(_) => Some(SyscallId::Accept),
            SyscallArgs::Shutdown(_) => Some(SyscallId::Shutdown),
            SyscallArgs::Bind(_) => Some(SyscallId::Bind),
            SyscallArgs::Listen(_) => Some(SyscallId::Listen),
            SyscallArgs::Getsockname(_) => Some(SyscallId::Getsockname),
            SyscallArgs::Getpeername(_) => Some(SyscallId::Getpeername),
            SyscallArgs::Socketpair(_) => Some(SyscallId::Socketpair),
            SyscallArgs::Clone(_) => Some(SyscallId::Clone),
            SyscallArgs::Execve(_) => Some(SyscallId::Execve),
            SyscallArgs::Exit(_) => Some(SyscallId::Exit),
            SyscallArgs::Kill(_) => Some(SyscallId::Kill),
            SyscallArgs::Semget(_) => Some(SyscallId::Semget),
            SyscallArgs::Semop(_) => Some(SyscallId::Semop),
            SyscallArgs::Semctl(_) => Some(SyscallId::Semctl),
            SyscallArgs::Shmdt(_) => Some(SyscallId::Shmdt),
            SyscallArgs::Msgget(_) => Some(SyscallId::Msgget),
            SyscallArgs::Msgsnd(_) => Some(SyscallId::Msgsnd),
            SyscallArgs::Fcntl(_) => Some(SyscallId::Fcntl),
            SyscallArgs::Flock(_) => Some(SyscallId::Flock),
            SyscallArgs::Fsync(_) => Some(SyscallId::Fsync),
            SyscallArgs::Fdatasync(_) => Some(SyscallId::Fdatasync),
            SyscallArgs::Truncate(_) => Some(SyscallId::Truncate),
            SyscallArgs::Ftruncate(_) => Some(SyscallId::Ftruncate),
            SyscallArgs::Getcwd(_) => Some(SyscallId::Getcwd),
            SyscallArgs::Chdir(_) => Some(SyscallId::Chdir),
            SyscallArgs::Rename(_) => Some(SyscallId::Rename),
            SyscallArgs::Mkdir(_) => Some(SyscallId::Mkdir),
            SyscallArgs::Rmdir(_) => Some(SyscallId::Rmdir),
            SyscallArgs::Creat(_) => Some(SyscallId::Creat),
            SyscallArgs::Link(_) => Some(SyscallId::Link),
            SyscallArgs::Unlink(_) => Some(SyscallId::Unlink),
            SyscallArgs::Symlink(_) => Some(SyscallId::Symlink),
            SyscallArgs::Readlink(_) => Some(SyscallId::Readlink),
            SyscallArgs::Chmod(_) => Some(SyscallId::Chmod),
            SyscallArgs::Fchmod(_) => Some(SyscallId::Fchmod),
            SyscallArgs::Chown(_) => Some(SyscallId::Chown),
            SyscallArgs::Fchown(_) => Some(SyscallId::Fchown),
            SyscallArgs::Lchown(_) => Some(SyscallId::Lchown),
            SyscallArgs::Umask(_) => Some(SyscallId::Umask),
            SyscallArgs::Gettimeofday(_) => Some(SyscallId::Gettimeofday),
            SyscallArgs::Getrlimit(_) => Some(SyscallId::Getrlimit),
            SyscallArgs::Times(_) => Some(SyscallId::Times),
            SyscallArgs::Ptrace(_) => Some(SyscallId::Ptrace),
            SyscallArgs::Getuid(_) => Some(SyscallId::Getuid),
            SyscallArgs::Getgid(_) => Some(SyscallId::Getgid),
            SyscallArgs::Setuid(_) => Some(SyscallId::Setuid),
            SyscallArgs::Setgid(_) => Some(SyscallId::Setgid),
            SyscallArgs::Geteuid(_) => Some(SyscallId::Geteuid),
            SyscallArgs::Getegid(_) => Some(SyscallId::Getegid),
            SyscallArgs::Setpgid(_) => Some(SyscallId::Setpgid),
            SyscallArgs::Getppid(_) => Some(SyscallId::Getppid),
            SyscallArgs::Setsid(_) => Some(SyscallId::Setsid),
            SyscallArgs::Setreuid(_) => Some(SyscallId::Setreuid),
            SyscallArgs::Setregid(_) => Some(SyscallId::Setregid),
            SyscallArgs::Setresuid(_) => Some(SyscallId::Setresuid),
            SyscallArgs::Getresuid(_) => Some(SyscallId::Getresuid),
            SyscallArgs::Setresgid(_) => Some(SyscallId::Setresgid),
            SyscallArgs::Getresgid(_) => Some(SyscallId::Getresgid),
            SyscallArgs::Getpgid(_) => Some(SyscallId::Getpgid),
            SyscallArgs::Getsid(_) => Some(SyscallId::Getsid),
            SyscallArgs::Capget(_) => Some(SyscallId::Capget),
            SyscallArgs::Statfs(_) => Some(SyscallId::Statfs),
            SyscallArgs::Fstatfs(_) => Some(SyscallId::Fstatfs),
            SyscallArgs::Sync(_) => Some(SyscallId::Sync),
            SyscallArgs::Settimeofday(_) => Some(SyscallId::Settimeofday),
            SyscallArgs::Umount2(_) => Some(SyscallId::Umount2),
            SyscallArgs::Sethostname(_) => Some(SyscallId::Sethostname),
            SyscallArgs::Setdomainname(_) => Some(SyscallId::Setdomainname),
            SyscallArgs::Gettid(_) => Some(SyscallId::Gettid),
            SyscallArgs::Futex(_) => Some(SyscallId::Futex),
            SyscallArgs::SchedGetaffinity(_) => Some(SyscallId::SchedGetaffinity),
            SyscallArgs::ClockSettime(_) => Some(SyscallId::ClockSettime),
            SyscallArgs::ClockGettime(_) => Some(SyscallId::ClockGettime),
            SyscallArgs::ClockGetres(_) => Some(SyscallId::ClockGetres),
            SyscallArgs::ClockNanosleep(_) => Some(SyscallId::ClockNanosleep),
            SyscallArgs::ExitGroup(_) => Some(SyscallId::ExitGroup),
            SyscallArgs::Utimes(_) => Some(SyscallId::Utimes),
            SyscallArgs::Openat(_) => Some(SyscallId::Openat),
            SyscallArgs::Mkdirat(_) => Some(SyscallId::Mkdirat),
            SyscallArgs::Fchownat(_) => Some(SyscallId::Fchownat),
            SyscallArgs::Newfstatat(_) => Some(SyscallId::Newfstatat),
            SyscallArgs::Unlinkat(_) => Some(SyscallId::Unlinkat),
            SyscallArgs::Renameat(_) => Some(SyscallId::Renameat),
            SyscallArgs::Linkat(_) => Some(SyscallId::Linkat),
            SyscallArgs::Symlinkat(_) => Some(SyscallId::Symlinkat),
            SyscallArgs::Readlinkat(_) => Some(SyscallId::Readlinkat),
            SyscallArgs::Fchmodat(_) => Some(SyscallId::Fchmodat),
            SyscallArgs::Faccessat(_) => Some(SyscallId::Faccessat),
            SyscallArgs::Accept4(_) => Some(SyscallId::Accept4),
            SyscallArgs::Eventfd2(_) => Some(SyscallId::Eventfd2),
            SyscallArgs::EpollCreate1(_) => Some(SyscallId::EpollCreate1),
            SyscallArgs::Dup3(_) => Some(SyscallId::Dup3),
            SyscallArgs::Pipe2(_) => Some(SyscallId::Pipe2),
            SyscallArgs::InotifyInit1(_) => Some(SyscallId::InotifyInit1),
            SyscallArgs::Prlimit64(_) => Some(SyscallId::Prlimit64),
            SyscallArgs::Getrandom(_) => Some(SyscallId::Getrandom),
            SyscallArgs::MemfdCreate(_) => Some(SyscallId::MemfdCreate),
            SyscallArgs::Rseq(_) => Some(SyscallId::Rseq),
            SyscallArgs::PidfdOpen(_) => Some(SyscallId::PidfdOpen),
            SyscallArgs::CloseRange(_) => Some(SyscallId::CloseRange),
            SyscallArgs::LandlockCreateRuleset(_) => Some(SyscallId::LandlockCreateRuleset),
            SyscallArgs::Cachestat(_) => Some(SyscallId::Cachestat),
            SyscallArgs::Statmount(_) => Some(SyscallId::Statmount),
            SyscallArgs::Unknown(_) => None,
        }
    }

    /// The category set declared in the table for this record's syscall;
    /// empty for `Unknown`.
    pub fn syscall_groups(&self) -> (r: GroupSet)
        ensures
            r.bits == match self.tag() {
                Some(id) => groups_of_spec(id),
                None => 0,
            },
    {
        match self {
            SyscallArgs::Read(_) => GroupSet { bits: groups_of(SyscallId::Read) },
            SyscallArgs::Write(_) => GroupSet { bits: groups_of(SyscallId::Write) },
            SyscallArgs::Open(_) => GroupSet { bits: groups_of(SyscallId::Open) },
            SyscallArgs::Close(_) => GroupSet { bits: groups_of(SyscallId::Close) },
            SyscallArgs::Stat(_) => GroupSet { bits: groups_of(SyscallId::Stat) },
            SyscallArgs::Fstat(_) => GroupSet { bits: groups_of(SyscallId::Fstat) },
            SyscallArgs::Lstat(_) => GroupSet { bits: groups_of(SyscallId::Lstat) },
            SyscallArgs::Lseek(_) => GroupSet { bits: groups_of(SyscallId::Lseek) },
            SyscallArgs::Mmap(_) => GroupSet { bits: groups_of(SyscallId::Mmap) },
            SyscallArgs::Mprotect(_) => GroupSet { bits: groups_of(SyscallId::Mprotect) },
            SyscallArgs::Munmap(_) => GroupSet { bits: groups_of(SyscallId::Munmap) },
            SyscallArgs::Brk(_) => GroupSet { bits: groups_of(SyscallId::Brk) },
            SyscallArgs::RtSigreturn(_) => GroupSet { bits: groups_of(SyscallId::RtSigreturn) },
            SyscallArgs::Ioctl(_) => GroupSet { bits: groups_of(SyscallId::Ioctl) },
            SyscallArgs::Pread64(_) => GroupSet { bits: groups_of(SyscallId::Pread64) },
            SyscallArgs::Pwrite64(_) => GroupSet { bits: groups_of(SyscallId::Pwrite64) },
            SyscallArgs::Access(_) => GroupSet { bits: groups_of(SyscallId::Access) },
            SyscallArgs::Pipe(_) => GroupSet { bits: groups_of(SyscallId::Pipe) },
            SyscallArgs::SchedYield(_) => GroupSet { bits: groups_of(SyscallId::SchedYield) },
            SyscallArgs::Mremap(_) => GroupSet { bits: groups_of(SyscallId::Mremap) },
            SyscallArgs::Msync(_) => GroupSet { bits: groups_of(SyscallId::Msync) },
            SyscallArgs::Madvise(_) => GroupSet { bits: groups_of(SyscallId::Madvise) },
            SyscallArgs::Shmget(_) => GroupSet { bits: groups_of(SyscallId::Shmget) },
            SyscallArgs::Shmat(_) => GroupSet { bits: groups_of(SyscallId::Shmat) },
            SyscallArgs::Dup(_) => GroupSet { bits: groups_of(SyscallId::Dup) },
            SyscallArgs::Dup2(_) => GroupSet { bits: groups_of(SyscallId::Dup2) },
            SyscallArgs::Pause(_) => GroupSet { bits: groups_of(SyscallId::Pause) },
            SyscallArgs::Nanosleep(_) => GroupSet { bits: groups_of(SyscallId::Nanosleep) },
            SyscallArgs::Alarm(_) => GroupSet { bits: groups_of(SyscallId::Alarm) },
            SyscallArgs::Getpid(_) => GroupSet { bits: groups_of(SyscallId::Getpid) },
            SyscallArgs::Socket(_) => GroupSet { bits: groups_of(SyscallId::Socket) },
            SyscallArgs::Connect(_) => GroupSet { bits: groups_of(SyscallId::Connect) },
            SyscallArgs::Accept(_) => GroupSet { bits: groups_of(SyscallId::Accept) },
            SyscallArgs::Shutdown(_) => GroupSet { bits: groups_of(SyscallId::Shutdown) },
            SyscallArgs::Bind(_) => GroupSet { bits: groups_of(SyscallId::Bind) },
            SyscallArgs::Listen(_) => GroupSet { bits: groups_of(SyscallId::Listen) },
            SyscallArgs::Getsockname(_) => GroupSet { bits: groups_of(SyscallId::Getsockname) },
            SyscallArgs::Getpeername(_) => GroupSet { bits: groups_of(SyscallId::Getpeername) },
            SyscallArgs::Socketpair(_) => GroupSet { bits: groups_of(SyscallId::Socketpair) },
            SyscallArgs::Clone(_) => GroupSet { bits: groups_of(SyscallId::Clone) },
            SyscallArgs::Execve(_) => GroupSet { bits: groups_of(SyscallId::Execve) },
            SyscallArgs::Exit(_) => GroupSet { bits: groups_of(SyscallId::Exit) },
            SyscallArgs::Kill(_) => GroupSet { bits: groups_of(SyscallId::Kill) },
            SyscallArgs::Semget(_) => GroupSet { bits: groups_of(SyscallId::Semget) },
            SyscallArgs::Semop(_) => GroupSet { bits: groups_of(SyscallId::Semop) },
            SyscallArgs::Semctl(_) => GroupSet { bits: groups_of(SyscallId::Semctl) },
            SyscallArgs::Shmdt(_) => GroupSet { bits: groups_of(SyscallId::Shmdt) },
            SyscallArgs::Msgget(_) => GroupSet { bits: groups_of(SyscallId::Msgget) },
            SyscallArgs::Msgsnd(_) => GroupSet { bits: groups_of(SyscallId::Msgsnd) },
            SyscallArgs::Fcntl(_) => GroupSet { bits: groups_of(SyscallId::Fcntl) },
            SyscallArgs::Flock(_) => GroupSet { bits: groups_of(SyscallId::Flock) },
            SyscallArgs::Fsync(_) => GroupSet { bits: groups_of(SyscallId::Fsync) },
            SyscallArgs::Fdatasync(_) => GroupSet { bits: groups_of(SyscallId::Fdatasync) },
            SyscallArgs::Truncate(_) => GroupSet { bits: groups_of(SyscallId::Truncate) },
            SyscallArgs::Ftruncate(_) => GroupSet { bits: groups_of(SyscallId::Ftruncate) },
            SyscallArgs::Getcwd(_) => GroupSet { bits: groups_of(SyscallId::Getcwd) },
            SyscallArgs::Chdir(_) => GroupSet { bits: groups_of(SyscallId::Chdir) },
            SyscallArgs::Rename(_) => GroupSet { bits: groups_of(SyscallId::Rename) },
            SyscallArgs::Mkdir(_) => GroupSet { bits: groups_of(SyscallId::Mkdir) },
            SyscallArgs::Rmdir(_) => GroupSet { bits: groups_of(SyscallId::Rmdir) },
            SyscallArgs::Creat(_) => GroupSet { bits: groups_of(SyscallId::Creat) },
            SyscallArgs::Link(_) => GroupSet { bits: groups_of(SyscallId::Link) },
            SyscallArgs::Unlink(_) => GroupSet { bits: groups_of(SyscallId::Unlink) },
            SyscallArgs::Symlink(_) => GroupSet { bits: groups_of(SyscallId::Symlink) },
            SyscallArgs::Readlink(_) => GroupSet { bits: groups_of(SyscallId::Readlink) },
            SyscallArgs::Chmod(_) => GroupSet { bits: groups_of(SyscallId::Chmod) },
            SyscallArgs::Fchmod(_) => GroupSet { bits: groups_of(SyscallId::Fchmod) },
            SyscallArgs::Chown(_) => GroupSet { bits: groups_of(SyscallId::Chown) },
            SyscallArgs::Fchown(_) => GroupSet { bits: groups_of(SyscallId::Fchown) },
            SyscallArgs::Lchown(_) => GroupSet { bits: groups_of(SyscallId::Lchown) },
            SyscallArgs::Umask(_) => GroupSet { bits: groups_of(SyscallId::Umask) },
            SyscallArgs::Gettimeofday(_) => GroupSet { bits: groups_of(SyscallId::Gettimeofday) },
            SyscallArgs::Getrlimit(_) => GroupSet { bits: groups_of(SyscallId::Getrlimit) },
            SyscallArgs::Times(_) => GroupSet { bits: groups_of(SyscallId::Times) },
            SyscallArgs::Ptrace(_) => GroupSet { bits: groups_of(SyscallId::Ptrace) },
            SyscallArgs::Getuid(_) => GroupSet { bits: groups_of(SyscallId::Getuid) },
            SyscallArgs::Getgid(_) => GroupSet { bits: groups_of(SyscallId::Getgid) },
            SyscallArgs::Setuid(_) => GroupSet { bits: groups_of(SyscallId::Setuid) },
            SyscallArgs::Setgid(_) => GroupSet { bits: groups_of(SyscallId::Setgid) },
            SyscallArgs::Geteuid(_) => GroupSet { bits: groups_of(SyscallId::Geteuid) },
            SyscallArgs::Getegid(_) => GroupSet { bits: groups_of(SyscallId::Getegid) },
            SyscallArgs::Setpgid(_) => GroupSet { bits: groups_of(SyscallId::Setpgid) },
            SyscallArgs::Getppid(_) => GroupSet { bits: groups_of(SyscallId::Getppid) },
            SyscallArgs::Setsid(_) => GroupSet { bits: groups_of(SyscallId::Setsid) },
            SyscallArgs::Setreuid(_) => GroupSet { bits: groups_of(SyscallId::Setreuid) },
            SyscallArgs::Setregid(_) => GroupSet { bits: groups_of(SyscallId::Setregid) },
            SyscallArgs::Setresuid(_) => GroupSet { bits: groups_of(SyscallId::Setresuid) },
            SyscallArgs::Getresuid(_) => GroupSet { bits: groups_of(SyscallId::Getresuid) },
            SyscallArgs::Setresgid(_) => GroupSet { bits: groups_of(SyscallId::Setresgid) },
            SyscallArgs::Getresgid(_) => GroupSet { bits: groups_of(SyscallId::Getresgid) },
            SyscallArgs::Getpgid(_) => GroupSet { bits: groups_of(SyscallId::Getpgid) },
            SyscallArgs::Getsid(_) => GroupSet { bits: groups_of(SyscallId::Getsid) },
            SyscallArgs::Capget(_) => GroupSet { bits: groups_of(SyscallId::Capget) },
            SyscallArgs::Statfs(_) => GroupSet { bits: groups_of(SyscallId::Statfs) },
            SyscallArgs::Fstatfs(_) => GroupSet { bits: groups_of(SyscallId::Fstatfs) },
            SyscallArgs::Sync(_) => GroupSet { bits: groups_of(SyscallId::Sync) },
            SyscallArgs::Settimeofday(_) => GroupSet { bits: groups_of(SyscallId::Settimeofday) },
            SyscallArgs::Umount2(_) => GroupSet { bits: groups_of(SyscallId::Umount2) },
            SyscallArgs::Sethostname(_) => GroupSet { bits: groups_of(SyscallId::Sethostname) },
            SyscallArgs::Setdomainname(_) => GroupSet { bits: groups_of(SyscallId::Setdomainname) },
            SyscallArgs::Gettid(_) => GroupSet { bits: groups_of(SyscallId::Gettid) },
            SyscallArgs::Futex(_) => GroupSet { bits: groups_of(SyscallId::Futex) },
            SyscallArgs::SchedGetaffinity(_) => GroupSet { bits: groups_of(SyscallId::SchedGetaffinity) },
            SyscallArgs::ClockSettime(_) => GroupSet { bits: groups_of(SyscallId::ClockSettime) },
            SyscallArgs::ClockGettime(_) => GroupSet { bits: groups_of(SyscallId::ClockGettime) },
            SyscallArgs::ClockGetres(_) => GroupSet { bits: groups_of(SyscallId::ClockGetres) },
            SyscallArgs::ClockNanosleep(_) => GroupSet { bits: groups_of(SyscallId::ClockNanosleep) },
            SyscallArgs::ExitGroup(_) => GroupSet { bits: groups_of(SyscallId::ExitGroup) },
            SyscallArgs::Utimes(_) => GroupSet { bits: groups_of(SyscallId::Utimes) },
            SyscallArgs::Openat(_) => GroupSet { bits: groups_of(SyscallId::Openat) },
            SyscallArgs::Mkdirat(_) => GroupSet { bits: groups_of(SyscallId::Mkdirat) },
            SyscallArgs::Fchownat(_) => GroupSet { bits: groups_of(SyscallId::Fchownat) },
            SyscallArgs::Newfstatat(_) => GroupSet { bits: groups_of(SyscallId::Newfstatat) },
            SyscallArgs::Unlinkat(_) => GroupSet { bits: groups_of(SyscallId::Unlinkat) },
            SyscallArgs::Renameat(_) => GroupSet { bits: groups_of(SyscallId::Renameat) },
            SyscallArgs::Linkat(_) => GroupSet { bits: groups_of(SyscallId::Linkat) },
            SyscallArgs::Symlinkat(_) => GroupSet { bits: groups_of(SyscallId::Symlinkat) },
            SyscallArgs::Readlinkat(_) => GroupSet { bits: groups_of(SyscallId::Readlinkat) },
            SyscallArgs::Fchmodat(_) => GroupSet { bits: groups_of(SyscallId::Fchmodat) },
            SyscallArgs::Faccessat(_) => GroupSet { bits: groups_of(SyscallId::Faccessat) },
            SyscallArgs::Accept4(_) => GroupSet { bits: groups_of(SyscallId::Accept4) },
            SyscallArgs::Eventfd2(_) => GroupSet { bits: groups_of(SyscallId::Eventfd2) },
            SyscallArgs::EpollCreate1(_) => GroupSet { bits: groups_of(SyscallId::EpollCreate1) },
            SyscallArgs::Dup3(_) => GroupSet { bits: groups_of(SyscallId::Dup3) },
            SyscallArgs::Pipe2(_) => GroupSet { bits: groups_of(SyscallId::Pipe2) },
            SyscallArgs::InotifyInit1(_) => GroupSet { bits: groups_of(SyscallId::InotifyInit1) },
            SyscallArgs::Prlimit64(_) => GroupSet { bits: groups_of(SyscallId::Prlimit64) },
            SyscallArgs::Getrandom(_) => GroupSet { bits: groups_of(SyscallId::Getrandom) },
            SyscallArgs::MemfdCreate(_) => GroupSet { bits: groups_of(SyscallId::MemfdCreate) },
            SyscallArgs::Rseq(_) => GroupSet { bits: groups_of(SyscallId::Rseq) },
            SyscallArgs::PidfdOpen(_) => GroupSet { bits: groups_of(SyscallId::PidfdOpen) },
            SyscallArgs::CloseRange(_) => GroupSet { bits: groups_of(SyscallId::CloseRange) },
            SyscallArgs::LandlockCreateRuleset(_) => GroupSet { bits: groups_of(SyscallId::LandlockCreateRuleset) },
            SyscallArgs::Cachestat(_) => GroupSet { bits: groups_of(SyscallId::Cachestat) },
            SyscallArgs::Statmount(_) => GroupSet { bits: groups_of(SyscallId::Statmount) },
            SyscallArgs::Unknown(_) => GroupSet::empty(),
        }
    }
}

/// What entry decoding promises, per syscall: integer arguments are copied
/// from the raw record, and every pointer argument's outcome satisfies the
/// contract of its shape's reader against the raw slot's address.
pub open spec fn entry_post<M: TraceeMem>(raw: SyscallRawArgs, m: M, r: SyscallArgs) -> bool {
    match raw {
        SyscallRawArgs::Read(a) => r matches SyscallArgs::Read(e) && e.fd == a.fd && e.count == a.count,
        SyscallRawArgs::Write(a) => r matches SyscallArgs::Write(e) && e.fd == a.fd && counted_post(m, a.buf, a.count as int, e.buf),
        SyscallRawArgs::Open(a) => r matches SyscallArgs::Open(e) && cstring_post(m, a.pathname, e.pathname) && e.flags == a.flags && e.mode == a.mode,
        SyscallRawArgs::Close(a) => r matches SyscallArgs::Close(e) && e.fd == a.fd,
        SyscallRawArgs::Stat(a) => r matches SyscallArgs::Stat(e) && cstring_post(m, a.pathname, e.pathname),
        SyscallRawArgs::Fstat(a) => r matches SyscallArgs::Fstat(e) && e.fd == a.fd,
        SyscallRawArgs::Lstat(a) => r matches SyscallArgs::Lstat(e) && cstring_post(m, a.pathname, e.pathname),
        SyscallRawArgs::Lseek(a) => r matches SyscallArgs::Lseek(e) && e.fd == a.fd && e.offset == a.offset && e.whence == a.whence,
        SyscallRawArgs::Mmap(a) => r matches SyscallArgs::Mmap(e) && e.addr == a.addr && e.length == a.length && e.prot == a.prot && e.flags == a.flags && e.fd == a.fd && e.offset == a.offset,
        SyscallRawArgs::Mprotect(a) => r matches SyscallArgs::Mprotect(e) && e.addr == a.addr && e.len == a.len && e.prot == a.prot,
        SyscallRawArgs::Munmap(a) => r matches SyscallArgs::Munmap(e) && e.addr == a.addr && e.length == a.length,
        SyscallRawArgs::Brk(a) => r matches SyscallArgs::Brk(e) && e.addr == a.addr,
        SyscallRawArgs::RtSigreturn(_) => r matches SyscallArgs::RtSigreturn(_),
        SyscallRawArgs::Ioctl(a) => r matches SyscallArgs::Ioctl(e) && e.fd == a.fd && e.request == a.request && e.argp == a.argp,
        SyscallRawArgs::Pread64(a) => r matches SyscallArgs::Pread64(e) && e.fd == a.fd && e.count == a.count && e.offset == a.offset,
        SyscallRawArgs::Pwrite64(a) => r matches SyscallArgs::Pwrite64(e) && e.fd == a.fd && counted_post(m, a.buf, a.count as int, e.buf) && e.count == a.count && e.offset == a.offset,
        SyscallRawArgs::Access(a) => r matches SyscallArgs::Access(e) && cstring_post(m, a.pathname, e.pathname) && e.mode == a.mode,
        SyscallRawArgs::Pipe(_) => r matches SyscallArgs::Pipe(_),
        SyscallRawArgs::SchedYield(_) => r matches SyscallArgs::SchedYield(_),
        SyscallRawArgs::Mremap(a) => r matches SyscallArgs::Mremap(e) && e.old_address == a.old_address && e.old_size == a.old_size && e.new_size == a.new_size && e.flags == a.flags && e.new_address == a.new_address,
        SyscallRawArgs::Msync(a) => r matches SyscallArgs::Msync(e) && e.addr == a.addr && e.length == a.length && e.flags == a.flags,
        SyscallRawArgs::Madvise(a) => r matches SyscallArgs::Madvise(e) && e.addr == a.addr && e.length == a.length && e.advice == a.advice,
        SyscallRawArgs::Shmget(a) => r matches SyscallArgs::Shmget(e) && e.key == a.key && e.size == a.size && e.shmflg == a.shmflg,
        SyscallRawArgs::Shmat(a) => r matches SyscallArgs::Shmat(e) && e.shmid == a.shmid && e.shmaddr == a.shmaddr && e.shmflg == a.shmflg,
        SyscallRawArgs::Dup(a) => r matches SyscallArgs::Dup(e) && e.oldfd == a.oldfd,
        SyscallRawArgs::Dup2(a) => r matches SyscallArgs::Dup2(e) && e.oldfd == a.oldfd && e.newfd == a.newfd,
        SyscallRawArgs::Pause(_) => r matches SyscallArgs::Pause(_),
        SyscallRawArgs::Nanosleep(a) => r matches SyscallArgs::Nanosleep(e) && timespec_post(m, a.req, e.req),
        SyscallRawArgs::Alarm(a) => r matches SyscallArgs::Alarm(e) && e.seconds == a.seconds,
        SyscallRawArgs::Getpid(_) => r matches SyscallArgs::Getpid(_),
        SyscallRawArgs::Socket(a) => r matches SyscallArgs::Socket(e) && e.domain == a.domain && e.sock_type == a.sock_type && e.protocol == a.protocol,
        SyscallRawArgs::Connect(a) => r matches SyscallArgs::Connect(e) && e.sockfd == a.sockfd && sockaddr_post(m, a.addr, e.addr) && e.addrlen == a.addrlen,
        SyscallRawArgs::Accept(a) => r matches SyscallArgs::Accept(e) && e.socketfd == a.socketfd && sockaddr_post(m, a.addr, e.addr) && u32_value_post(m, a.addrlen, e.addrlen),
        SyscallRawArgs::Shutdown(a) => r matches SyscallArgs::Shutdown(e) && e.sockfd == a.sockfd && e.how == a.how,
        SyscallRawArgs::Bind(a) => r matches SyscallArgs::Bind(e) && e.socketfd == a.socketfd && sockaddr_post(m, a.addr, e.addr) && e.addrlen == a.addrlen,
        SyscallRawArgs::Listen(a) => r matches SyscallArgs::Listen(e) && e.sockfd == a.sockfd && e.backlog == a.backlog,
        SyscallRawArgs::Getsockname(a) => r matches SyscallArgs::Getsockname(e) && e.sockfd == a.sockfd && u32_value_post(m, a.addrlen, e.addrlen),
        SyscallRawArgs::Getpeername(a) => r matches SyscallArgs::Getpeername(e) && e.sockfd == a.sockfd && sockaddr_post(m, a.addr, e.addr) && u32_value_post(m, a.addrlen, e.addrlen),
        SyscallRawArgs::Socketpair(a) => r matches SyscallArgs::Socketpair(e) && e.domain == a.domain && e.sock_type == a.sock_type && e.protocol == a.protocol,
        SyscallRawArgs::Clone(a) => r matches SyscallArgs::Clone(e) && e.flags == a.flags && e.stack == a.stack && e.tls == a.tls,
        SyscallRawArgs::Execve(a) => r matches SyscallArgs::Execve(e) && cstring_post(m, a.filename, e.filename) && ptr_array_opt_post(m, a.argv, e.argv) && ptr_array_opt_post(m, a.envp, e.envp),
        SyscallRawArgs::Exit(a) => r matches SyscallArgs::Exit(e) && e.status == a.status,
        SyscallRawArgs::Kill(a) => r matches SyscallArgs::Kill(e) && e.pid == a.pid && e.sig == a.sig,
        SyscallRawArgs::Semget(a) => r matches SyscallArgs::Semget(e) && e.key == a.key && e.nsems == a.nsems && e.semflg == a.semflg,
        SyscallRawArgs::Semop(a) => r matches SyscallArgs::Semop(e) && e.semid == a.semid && sembuf_array_post(m, a.sops, a.nsops as int, e.sops) && e.nsops == a.nsops,
        SyscallRawArgs::Semctl(a) => r matches SyscallArgs::Semctl(e) && e.semid == a.semid && e.semnum == a.semnum && e.cmd == a.cmd,
        SyscallRawArgs::Shmdt(a) => r matches SyscallArgs::Shmdt(e) && e.shmaddr == a.shmaddr,
        SyscallRawArgs::Msgget(a) => r matches SyscallArgs::Msgget(e) && e.key == a.key && e.msgflg == a.msgflg,
        SyscallRawArgs::Msgsnd(a) => r matches SyscallArgs::Msgsnd(e) && e.msqid == a.msqid && counted_post(m, a.msgp, a.msgsz as int, e.msgp) && e.msgsz == a.msgsz && e.msgflg == a.msgflg,
        SyscallRawArgs::Fcntl(a) => r matches SyscallArgs::Fcntl(e) && e.fd == a.fd && e.cmd == a.cmd && e.arg == a.arg,
        SyscallRawArgs::Flock(a) => r matches SyscallArgs::Flock(e) && e.fd == a.fd && e.operation == a.operation,
        SyscallRawArgs::Fsync(a) => r matches SyscallArgs::Fsync(e) && e.fd == a.fd,
        SyscallRawArgs::Fdatasync(a) => r matches SyscallArgs::Fdatasync(e) && e.fd == a.fd,
        SyscallRawArgs::Truncate(a) => r matches SyscallArgs::Truncate(e) && cstring_post(m, a.path, e.path) && e.length == a.length,
        SyscallRawArgs::Ftruncate(a) => r matches SyscallArgs::Ftruncate(e) && e.fd == a.fd && e.length == a.length,
        SyscallRawArgs::Getcwd(a) => r matches SyscallArgs::Getcwd(e) && e.size == a.size,
        SyscallRawArgs::Chdir(a) => r matches SyscallArgs::Chdir(e) && cstring_post(m, a.path, e.path),
        SyscallRawArgs::Rename(a) => r matches SyscallArgs::Rename(e) && cstring_post(m, a.oldpath, e.oldpath) && cstring_post(m, a.newpath, e.newpath),
        SyscallRawArgs::Mkdir(a) => r matches SyscallArgs::Mkdir(e) && cstring_post(m, a.pathname, e.pathname) && e.mode == a.mode,
        SyscallRawArgs::Rmdir(a) => r matches SyscallArgs::Rmdir(e) && cstring_post(m, a.pathname, e.pathname),
        SyscallRawArgs::Creat(a) => r matches SyscallArgs::Creat(e) && cstring_post(m, a.pathname, e.pathname) && e.mode == a.mode,
        SyscallRawArgs::Link(a) => r matches SyscallArgs::Link(e) && cstring_post(m, a.oldpath, e.oldpath) && cstring_post(m, a.newpath, e.newpath),
        SyscallRawArgs::Unlink(a) => r matches SyscallArgs::Unlink(e) && cstring_post(m, a.pathname, e.pathname),
        SyscallRawArgs::Symlink(a) => r matches SyscallArgs::Symlink(e) && cstring_post(m, a.target, e.target) && cstring_post(m, a.linkpath, e.linkpath),
        SyscallRawArgs::Readlink(a) => r matches SyscallArgs::Readlink(e) && cstring_post(m, a.pathname, e.pathname) && e.bufsiz == a.bufsiz,
        SyscallRawArgs::Chmod(a) => r matches SyscallArgs::Chmod(e) && cstring_post(m, a.pathname, e.pathname) && e.mode == a.mode,
        SyscallRawArgs::Fchmod(a) => r matches SyscallArgs::Fchmod(e) && e.fd == a.fd && e.mode == a.mode,
        SyscallRawArgs::Chown(a) => r matches SyscallArgs::Chown(e) && cstring_post(m, a.pathname, e.pathname) && e.owner == a.owner && e.group == a.group,
        SyscallRawArgs::Fchown(a) => r matches SyscallArgs::Fchown(e) && e.fd == a.fd && e.owner == a.owner && e.group == a.group,
        SyscallRawArgs::Lchown(a) => r matches SyscallArgs::Lchown(e) && cstring_post(m, a.pathname, e.pathname) && e.owner == a.owner && e.group == a.group,
        SyscallRawArgs::Umask(a) => r matches SyscallArgs::Umask(e) && e.mask == a.mask,
        SyscallRawArgs::Gettimeofday(_) => r matches SyscallArgs::Gettimeofday(_),
        SyscallRawArgs::Getrlimit(a) => r matches SyscallArgs::Getrlimit(e) && e.resource == a.resource,
        SyscallRawArgs::Times(_) => r matches SyscallArgs::Times(_),
        SyscallRawArgs::Ptrace(_) => r matches SyscallArgs::Ptrace(_),
        SyscallRawArgs::Getuid(_) => r matches SyscallArgs::Getuid(_),
        SyscallRawArgs::Getgid(_) => r matches SyscallArgs::Getgid(_),
        SyscallRawArgs::Setuid(a) => r matches SyscallArgs::Setuid(e) && e.uid == a.uid,
        SyscallRawArgs::Setgid(a) => r matches SyscallArgs::Setgid(e) && e.gid == a.gid,
        SyscallRawArgs::Geteuid(_) => r matches SyscallArgs::Geteuid(_),
        SyscallRawArgs::Getegid(_) => r matches SyscallArgs::Getegid(_),
        SyscallRawArgs::Setpgid(a) => r matches SyscallArgs::Setpgid(e) && e.pid == a.pid && e.pgid == a.pgid,
        SyscallRawArgs::Getppid(_) => r matches SyscallArgs::Getppid(_),
        SyscallRawArgs::Setsid(_) => r matches SyscallArgs::Setsid(_),
        SyscallRawArgs::Setreuid(a) => r matches SyscallArgs::Setreuid(e) && e.ruid == a.ruid && e.euid == a.euid,
        SyscallRawArgs::Setregid(a) => r matches SyscallArgs::Setregid(e) && e.rgid == a.rgid && e.egid == a.egid,
        SyscallRawArgs::Setresuid(a) => r matches SyscallArgs::Setresuid(e) && e.ruid == a.ruid && e.euid == a.euid && e.suid == a.suid,
        SyscallRawArgs::Getresuid(_) => r matches SyscallArgs::Getresuid(_),
        SyscallRawArgs::Setresgid(a) => r matches SyscallArgs::Setresgid(e) && e.rgid == a.rgid && e.egid == a.egid && e.sgid == a.sgid,
        SyscallRawArgs::Getresgid(_) => r matches SyscallArgs::Getresgid(_),
        SyscallRawArgs::Getpgid(a) => r matches SyscallArgs::Getpgid(e) && e.pid == a.pid,
        SyscallRawArgs::Getsid(a) => r matches SyscallArgs::Getsid(e) && e.pid == a.pid,
        SyscallRawArgs::Capget(_) => r matches SyscallArgs::Capget(_),
        SyscallRawArgs::Statfs(a) => r matches SyscallArgs::Statfs(e) && cstring_post(m, a.path, e.path),
        SyscallRawArgs::Fstatfs(a) => r matches SyscallArgs::Fstatfs(e) && e.fd == a.fd,
        SyscallRawArgs::Sync(_) => r matches SyscallArgs::Sync(_),
        SyscallRawArgs::Settimeofday(a) => r matches SyscallArgs::Settimeofday(e) && timeval_post(m, a.tv, e.tv) && timezone_opt_post(m, a.tz, e.tz),
        SyscallRawArgs::Umount2(a) => r matches SyscallArgs::Umount2(e) && cstring_post(m, a.target, e.target) && e.flags == a.flags,
        SyscallRawArgs::Sethostname(a) => r matches SyscallArgs::Sethostname(e) && counted_post(m, a.name, a.len as int, e.name) && e.len == a.len,
        SyscallRawArgs::Setdomainname(a) => r matches SyscallArgs::Setdomainname(e) && counted_post(m, a.name, a.len as int, e.name) && e.len == a.len,
        SyscallRawArgs::Gettid(_) => r matches SyscallArgs::Gettid(_),
        SyscallRawArgs::Futex(a) => r matches SyscallArgs::Futex(e) && u32_value_post(m, a.uaddr, e.uaddr) && e.futex_op == a.futex_op && e.val == a.val && e.val2 == a.val2 && u32_value_post(m, a.uaddr2, e.uaddr2) && e.val3 == a.val3,
        SyscallRawArgs::SchedGetaffinity(a) => r matches SyscallArgs::SchedGetaffinity(e) && e.pid == a.pid && e.cpusetsize == a.cpusetsize && e.mask == a.mask,
        SyscallRawArgs::ClockSettime(a) => r matches SyscallArgs::ClockSettime(e) && e.clk_id == a.clk_id && timespec_post(m, a.tp, e.tp),
        SyscallRawArgs::ClockGettime(a) => r matches SyscallArgs::ClockGettime(e) && e.clk_id == a.clk_id,
        SyscallRawArgs::ClockGetres(a) => r matches SyscallArgs::ClockGetres(e) && e.clk_id == a.clk_id,
        SyscallRawArgs::ClockNanosleep(a) => r matches SyscallArgs::ClockNanosleep(e) && e.clockid == a.clockid && e.flags == a.flags && timespec_post(m, a.request, e.request),
        SyscallRawArgs::ExitGroup(a) => r matches SyscallArgs::ExitGroup(e) && e.status == a.status,
        SyscallRawArgs::Utimes(a) => r matches SyscallArgs::Utimes(e) && cstring_post(m, a.filename, e.filename) && timeval_pair_opt_post(m, a.times, e.times),
        SyscallRawArgs::Openat(a) => r matches SyscallArgs::Openat(e) && e.dirfd == a.dirfd && cstring_post(m, a.pathname, e.pathname) && e.flags == a.flags && e.mode == a.mode,
        SyscallRawArgs::Mkdirat(a) => r matches SyscallArgs::Mkdirat(e) && e.dirfd == a.dirfd && cstring_post(m, a.pathname, e.pathname) && e.mode == a.mode,
        SyscallRawArgs::Fchownat(a) => r matches SyscallArgs::Fchownat(e) && e.dirfd == a.dirfd && cstring_post(m, a.pathname, e.pathname) && e.owner == a.owner && e.group == a.group && e.flags == a.flags,
        SyscallRawArgs::Newfstatat(a) => r matches SyscallArgs::Newfstatat(e) && e.dirfd == a.dirfd && cstring_post(m, a.pathname, e.pathname) && e.flags == a.flags,
        SyscallRawArgs::Unlinkat(a) => r matches SyscallArgs::Unlinkat(e) && e.dirfd == a.dirfd && cstring_post(m, a.pathname, e.pathname) && e.flags == a.flags,
        SyscallRawArgs::Renameat(a) => r matches SyscallArgs::Renameat(e) && e.olddirfd == a.olddirfd && cstring_post(m, a.oldpath, e.oldpath) && e.newdirfd == a.newdirfd && cstring_post(m, a.newpath, e.newpath),
        SyscallRawArgs::Linkat(a) => r matches SyscallArgs::Linkat(e) && e.olddirfd == a.olddirfd && cstring_post(m, a.oldpath, e.oldpath) && e.newdirfd == a.newdirfd && cstring_post(m, a.newpath, e.newpath) && e.flags == a.flags,
        SyscallRawArgs::Symlinkat(a) => r matches SyscallArgs::Symlinkat(e) && cstring_post(m, a.target, e.target) && e.newdirfd == a.newdirfd && cstring_post(m, a.linkpath, e.linkpath),
        SyscallRawArgs::Readlinkat(a) => r matches SyscallArgs::Readlinkat(e) && e.dirfd == a.dirfd && cstring_post(m, a.pathname, e.pathname) && e.bufsiz == a.bufsiz,
        SyscallRawArgs::Fchmodat(a) => r matches SyscallArgs::Fchmodat(e) && e.dirfd == a.dirfd && cstring_post(m, a.pathname, e.pathname) && e.mode == a.mode,
        SyscallRawArgs::Faccessat(a) => r matches SyscallArgs::Faccessat(e) && e.dirfd == a.dirfd && cstring_post(m, a.pathname, e.pathname) && e.mode == a.mode,
        SyscallRawArgs::Accept4(a) => r matches SyscallArgs::Accept4(e) && e.socketfd == a.socketfd && sockaddr_post(m, a.addr, e.addr) && u32_value_post(m, a.addrlen, e.addrlen) && e.flags == a.flags,
        SyscallRawArgs::Eventfd2(a) => r matches SyscallArgs::Eventfd2(e) && e.initval == a.initval && e.flags == a.flags,
        SyscallRawArgs::EpollCreate1(a) => r matches SyscallArgs::EpollCreate1(e) && e.flags == a.flags,
        SyscallRawArgs::Dup3(a) => r matches SyscallArgs::Dup3(e) && e.oldfd == a.oldfd && e.newfd == a.newfd && e.flags == a.flags,
        SyscallRawArgs::Pipe2(a) => r matches SyscallArgs::Pipe2(e) && e.flags == a.flags,
        SyscallRawArgs::InotifyInit1(a) => r matches SyscallArgs::InotifyInit1(e) && e.flags == a.flags,
        SyscallRawArgs::Prlimit64(a) => r matches SyscallArgs::Prlimit64(e) && e.pid == a.pid && e.resource == a.resource && rlimit_opt_post(m, a.new_limit, e.new_limit) && rlimit_opt_post(m, a.old_limit, e.old_limit),
        SyscallRawArgs::Getrandom(a) => r matches SyscallArgs::Getrandom(e) && e.buflen == a.buflen && e.flags == a.flags,
        SyscallRawArgs::MemfdCreate(a) => r matches SyscallArgs::MemfdCreate(e) && cstring_post(m, a.name, e.name) && e.flags == a.flags,
        SyscallRawArgs::Rseq(a) => r matches SyscallArgs::Rseq(e) && rseq_post(m, a.rseq, a.rseq_len, e.rseq) && e.rseq_len == a.rseq_len && e.flags == a.flags && e.sig == a.sig,
        SyscallRawArgs::PidfdOpen(a) => r matches SyscallArgs::PidfdOpen(e) && e.pid == a.pid && e.flags == a.flags,
        SyscallRawArgs::CloseRange(a) => r matches SyscallArgs::CloseRange(e) && e.first == a.first && e.last == a.last && e.flags == a.flags,
        SyscallRawArgs::LandlockCreateRuleset(a) => r matches SyscallArgs::LandlockCreateRuleset(e) && landlock_ruleset_attr_post(m, a.ruleset_attr, e.ruleset_attr) && e.size == a.size && e.flags == a.flags,
        SyscallRawArgs::Cachestat(a) => r matches SyscallArgs::Cachestat(e) && e.fd == a.fd && cachestat_range_post(m, a.cstat_range, e.cstat_range) && cachestat_post(m, a.cstat, e.cstat) && e.flags == a.flags,
        SyscallRawArgs::Statmount(a) => r matches SyscallArgs::Statmount(e) && mnt_id_req_post(m, a.req, e.req) && e.bufsize == a.bufsize && e.flags == a.flags,
        SyscallRawArgs::Unknown(u) => r == SyscallArgs::Unknown(u),
    }
}

impl SyscallRawArgs {
    /// Decode the entry-visible arguments: copy the integer slots and read
    /// every entry-time pointer argument out of the tracee.  An `Unknown`
    /// record flows through unchanged and triggers no read.
    #[verifier::rlimit(100)]
    #[verifier::spinoff_prover]
    pub fn inspect_sysenter<M: TraceeMem>(&self, rd: &mut MemReader<M>) -> (r: SyscallArgs)
        requires
            old(rd).wf(),
        ensures
            final(rd).wf(),
            final(rd).evolves_from(*old(rd)),
            entry_post(*self, old(rd).mem, r),
            r.tag() == self.tag(),
            self is Unknown ==> *final(rd) == *old(rd),
    {
        match self {
            SyscallRawArgs::Read(a) => {
                SyscallArgs::Read(ReadArgs { fd: a.fd, count: a.count })
            },
            SyscallRawArgs::Write(a) => {
                let buf = rd.read_counted_bytes(a.buf, a.count);
                SyscallArgs::Write(WriteArgs { fd: a.fd, buf })
            },
            SyscallRawArgs::Open(a) => {
                let pathname = rd.read_c_string(a.pathname);
                SyscallArgs::Open(OpenArgs { pathname, flags: a.flags, mode: a.mode })
            },
            SyscallRawArgs::Close(a) => {
                SyscallArgs::Close(CloseArgs { fd: a.fd })
            },
            SyscallRawArgs::Stat(a) => {
                let pathname = rd.read_c_string(a.pathname);
                SyscallArgs::Stat(StatArgs { pathname })
            },
            SyscallRawArgs::Fstat(a) => {
                SyscallArgs::Fstat(FstatArgs { fd: a.fd })
            },
            SyscallRawArgs::Lstat(a) => {
                let pathname = rd.read_c_string(a.pathname);
                SyscallArgs::Lstat(LstatArgs { pathname })
            },
            SyscallRawArgs::Lseek(a) => {
                SyscallArgs::Lseek(LseekArgs { fd: a.fd, offset: a.offset, whence: a.whence })
            },
            SyscallRawArgs::Mmap(a) => {
                SyscallArgs::Mmap(MmapArgs { addr: a.addr, length: a.length, prot: a.prot, flags: a.flags, fd: a.fd, offset: a.offset })
            },
            SyscallRawArgs::Mprotect(a) => {
                SyscallArgs::Mprotect(MprotectArgs { addr: a.addr, len: a.len, prot: a.prot })
            },
            SyscallRawArgs::Munmap(a) => {
                SyscallArgs::Munmap(MunmapArgs { addr: a.addr, length: a.length })
            },
            SyscallRawArgs::Brk(a) => {
                SyscallArgs::Brk(BrkArgs { addr: a.addr })
            },
            SyscallRawArgs::RtSigreturn(_) => {
                SyscallArgs::RtSigreturn(RtSigreturnArgs {})
            },
            SyscallRawArgs::Ioctl(a) => {
                SyscallArgs::Ioctl(IoctlArgs { fd: a.fd, request: a.request, argp: a.argp })
            },
            SyscallRawArgs::Pread64(a) => {
                SyscallArgs::Pread64(Pread64Args { fd: a.fd, count: a.count, offset: a.offset })
            },
            SyscallRawArgs::Pwrite64(a) => {
                let buf = rd.read_counted_bytes(a.buf, a.count);
                SyscallArgs::Pwrite64(Pwrite64Args { fd: a.fd, buf, count: a.count, offset: a.offset })
            },
            SyscallRawArgs::Access(a) => {
                let pathname = rd.read_c_string(a.pathname);
                SyscallArgs::Access(AccessArgs { pathname, mode: a.mode })
            },
            SyscallRawArgs::Pipe(_) => {
                SyscallArgs::Pipe(PipeArgs {})
            },
            SyscallRawArgs::SchedYield(_) => {
                SyscallArgs::SchedYield(SchedYieldArgs {})
            },
            SyscallRawArgs::Mremap(a) => {
                SyscallArgs::Mremap(MremapArgs { old_address: a.old_address, old_size: a.old_size, new_size: a.new_size, flags: a.flags, new_address: a.new_address })
            },
            SyscallRawArgs::Msync(a) => {
                SyscallArgs::Msync(MsyncArgs { addr: a.addr, length: a.length, flags: a.flags })
            },
            SyscallRawArgs::Madvise(a) => {
                SyscallArgs::Madvise(MadviseArgs { addr: a.addr, length: a.length, advice: a.advice })
            },
            SyscallRawArgs::Shmget(a) => {
                SyscallArgs::Shmget(ShmgetArgs { key: a.key, size: a.size, shmflg: a.shmflg })
            },
            SyscallRawArgs::Shmat(a) => {
                SyscallArgs::Shmat(ShmatArgs { shmid: a.shmid, shmaddr: a.shmaddr, shmflg: a.shmflg })
            },
            SyscallRawArgs::Dup(a) => {
                SyscallArgs::Dup(DupArgs { oldfd: a.oldfd })
            },
            SyscallRawArgs::Dup2(a) => {
                SyscallArgs::Dup2(Dup2Args { oldfd: a.oldfd, newfd: a.newfd })
            },
            SyscallRawArgs::Pause(_) => {
                SyscallArgs::Pause(PauseArgs {})
            },
            SyscallRawArgs::Nanosleep(a) => {
                let req = read_timespec(rd, a.req);
                SyscallArgs::Nanosleep(NanosleepArgs { req })
            },
            SyscallRawArgs::Alarm(a) => {
                SyscallArgs::Alarm(AlarmArgs { seconds: a.seconds })
            },
            SyscallRawArgs::Getpid(_) => {
                SyscallArgs::Getpid(GetpidArgs {})
            },
            SyscallRawArgs::Socket(a) => {
                SyscallArgs::Socket(SocketArgs { domain: a.domain, sock_type: a.sock_type, protocol: a.protocol })
            },
            SyscallRawArgs::Connect(a) => {
                let addr = read_sockaddr(rd, a.addr);
                SyscallArgs::Connect(ConnectArgs { sockfd: a.sockfd, addr, addrlen: a.addrlen })
            },
            SyscallRawArgs::Accept(a) => {
                let addr = read_sockaddr(rd, a.addr);
                let addrlen = read_u32_value(rd, a.addrlen);
                SyscallArgs::Accept(AcceptArgs { socketfd: a.socketfd, addr, addrlen })
            },
            SyscallRawArgs::Shutdown(a) => {
                SyscallArgs::Shutdown(ShutdownArgs { sockfd: a.sockfd, how: a.how })
            },
            SyscallRawArgs::Bind(a) => {
                let addr = read_sockaddr(rd, a.addr);
                SyscallArgs::Bind(BindArgs { socketfd: a.socketfd, addr, addrlen: a.addrlen })
            },
            SyscallRawArgs::Listen(a) => {
                SyscallArgs::Listen(ListenArgs { sockfd: a.sockfd, backlog: a.backlog })
            },
            SyscallRawArgs::Getsockname(a) => {
                let addrlen = read_u32_value(rd, a.addrlen);
                SyscallArgs::Getsockname(GetsocknameArgs { sockfd: a.sockfd, addrlen })
            },
            SyscallRawArgs::Getpeername(a) => {
                let addr = read_sockaddr(rd, a.addr);
                let addrlen = read_u32_value(rd, a.addrlen);
                SyscallArgs::Getpeername(GetpeernameArgs { sockfd: a.sockfd, addr, addrlen })
            },
            SyscallRawArgs::Socketpair(a) => {
                SyscallArgs::Socketpair(SocketpairArgs { domain: a.domain, sock_type: a.sock_type, protocol: a.protocol })
            },
            SyscallRawArgs::Clone(a) => {
                SyscallArgs::Clone(CloneArgs { flags: a.flags, stack: a.stack, tls: a.tls })
            },
            SyscallRawArgs::Execve(a) => {
                let filename = rd.read_c_string(a.filename);
                let argv = read_ptr_array_opt(rd, a.argv);
                let envp = read_ptr_array_opt(rd, a.envp);
                SyscallArgs::Execve(ExecveArgs { filename, argv, envp })
            },
            SyscallRawArgs::Exit(a) => {
                SyscallArgs::Exit(ExitArgs { status: a.status })
            },
            SyscallRawArgs::Kill(a) => {
                SyscallArgs::Kill(KillArgs { pid: a.pid, sig: a.sig })
            },
            SyscallRawArgs::Semget(a) => {
                SyscallArgs::Semget(SemgetArgs { key: a.key, nsems: a.nsems, semflg: a.semflg })
            },
            SyscallRawArgs::Semop(a) => {
                let sops = read_sembuf_array(rd, a.sops, a.nsops);
                SyscallArgs::Semop(SemopArgs { semid: a.semid, sops, nsops: a.nsops })
            },
            SyscallRawArgs::Semctl(a) => {
                SyscallArgs::Semctl(SemctlArgs { semid: a.semid, semnum: a.semnum, cmd: a.cmd })
            },
            SyscallRawArgs::Shmdt(a) => {
                SyscallArgs::Shmdt(ShmdtArgs { shmaddr: a.shmaddr })
            },
            SyscallRawArgs::Msgget(a) => {
                SyscallArgs::Msgget(MsggetArgs { key: a.key, msgflg: a.msgflg })
            },
            SyscallRawArgs::Msgsnd(a) => {
                let msgp = rd.read_counted_bytes(a.msgp, a.msgsz);
                SyscallArgs::Msgsnd(MsgsndArgs { msqid: a.msqid, msgp, msgsz: a.msgsz, msgflg: a.msgflg })
            },
            SyscallRawArgs::Fcntl(a) => {
                SyscallArgs::Fcntl(FcntlArgs { fd: a.fd, cmd: a.cmd, arg: a.arg })
            },
            SyscallRawArgs::Flock(a) => {
                SyscallArgs::Flock(FlockArgs { fd: a.fd, operation: a.operation })
            },
            SyscallRawArgs::Fsync(a) => {
                SyscallArgs::Fsync(FsyncArgs { fd: a.fd })
            },
            SyscallRawArgs::Fdatasync(a) => {
                SyscallArgs::Fdatasync(FdatasyncArgs { fd: a.fd })
            },
            SyscallRawArgs::Truncate(a) => {
                let path = rd.read_c_string(a.path);
                SyscallArgs::Truncate(TruncateArgs { path, length: a.length })
            },
            SyscallRawArgs::Ftruncate(a) => {
                SyscallArgs::Ftruncate(FtruncateArgs { fd: a.fd, length: a.length })
            },
            SyscallRawArgs::Getcwd(a) => {
                SyscallArgs::Getcwd(GetcwdArgs { size: a.size })
            },
            SyscallRawArgs::Chdir(a) => {
                let path = rd.read_c_string(a.path);
                SyscallArgs::Chdir(ChdirArgs { path })
            },
            SyscallRawArgs::Rename(a) => {
                let oldpath = rd.read_c_string(a.oldpath);
                let newpath = rd.read_c_string(a.newpath);
                SyscallArgs::Rename(RenameArgs { oldpath, newpath })
            },
            SyscallRawArgs::Mkdir(a) => {
                let pathname = rd.read_c_string(a.pathname);
                SyscallArgs::Mkdir(MkdirArgs { pathname, mode: a.mode })
            },
            SyscallRawArgs::Rmdir(a) => {
                let pathname = rd.read_c_string(a.pathname);
                SyscallArgs::Rmdir(RmdirArgs { pathname })
            },
            SyscallRawArgs::Creat(a) => {
                let pathname = rd.read_c_string(a.pathname);
                SyscallArgs::Creat(CreatArgs { pathname, mode: a.mode })
            },
            SyscallRawArgs::Link(a) => {
                let oldpath = rd.read_c_string(a.oldpath);
                let newpath = rd.read_c_string(a.newpath);
                SyscallArgs::Link(LinkArgs { oldpath, newpath })
            },
            SyscallRawArgs::Unlink(a) => {
                let pathname = rd.read_c_string(a.pathname);
                SyscallArgs::Unlink(UnlinkArgs { pathname })
            },
            SyscallRawArgs::Symlink(a) => {
                let target = rd.read_c_string(a.target);
                let linkpath = rd.read_c_string(a.linkpath);
                SyscallArgs::Symlink(SymlinkArgs { target, linkpath })
            },
            SyscallRawArgs::Readlink(a) => {
                let pathname = rd.read_c_string(a.pathname);
                SyscallArgs::Readlink(ReadlinkArgs { pathname, bufsiz: a.bufsiz })
            },
            SyscallRawArgs::Chmod(a) => {
                let pathname = rd.read_c_string(a.pathname);
                SyscallArgs::Chmod(ChmodArgs { pathname, mode: a.mode })
            },
            SyscallRawArgs::Fchmod(a) => {
                SyscallArgs::Fchmod(FchmodArgs { fd: a.fd, mode: a.mode })
            },
            SyscallRawArgs::Chown(a) => {
                let pathname = rd.read_c_string(a.pathname);
                SyscallArgs::Chown(ChownArgs { pathname, owner: a.owner, group: a.group })
            },
            SyscallRawArgs::Fchown(a) => {
                SyscallArgs::Fchown(FchownArgs { fd: a.fd, owner: a.owner, group: a.group })
            },
            SyscallRawArgs::Lchown(a) => {
                let pathname = rd.read_c_string(a.pathname);
                SyscallArgs::Lchown(LchownArgs { pathname, owner: a.owner, group: a.group })
            },
            SyscallRawArgs::Umask(a) => {
                SyscallArgs::Umask(UmaskArgs { mask: a.mask })
            },
            SyscallRawArgs::Gettimeofday(_) => {
                SyscallArgs::Gettimeofday(GettimeofdayArgs {})
            },
            SyscallRawArgs::Getrlimit(a) => {
                SyscallArgs::Getrlimit(GetrlimitArgs { resource: a.resource })
            },
            SyscallRawArgs::Times(_) => {
                SyscallArgs::Times(TimesArgs {})
            },
            SyscallRawArgs::Ptrace(_) => {
                SyscallArgs::Ptrace(PtraceArgs {})
            },
            SyscallRawArgs::Getuid(_) => {
                SyscallArgs::Getuid(GetuidArgs {})
            },
            SyscallRawArgs::Getgid(_) => {
                SyscallArgs::Getgid(GetgidArgs {})
            },
            SyscallRawArgs::Setuid(a) => {
                SyscallArgs::Setuid(SetuidArgs { uid: a.uid })
            },
            SyscallRawArgs::Setgid(a) => {
                SyscallArgs::Setgid(SetgidArgs { gid: a.gid })
            },
            SyscallRawArgs::Geteuid(_) => {
                SyscallArgs::Geteuid(GeteuidArgs {})
            },
            SyscallRawArgs::Getegid(_) => {
                SyscallArgs::Getegid(GetegidArgs {})
            },
            SyscallRawArgs::Setpgid(a) => {
                SyscallArgs::Setpgid(SetpgidArgs { pid: a.pid, pgid: a.pgid })
            },
            SyscallRawArgs::Getppid(_) => {
                SyscallArgs::Getppid(GetppidArgs {})
            },
            SyscallRawArgs::Setsid(_) => {
                SyscallArgs::Setsid(SetsidArgs {})
            },
            SyscallRawArgs::Setreuid(a) => {
                SyscallArgs::Setreuid(SetreuidArgs { ruid: a.ruid, euid: a.euid })
            },
            SyscallRawArgs::Setregid(a) => {
                SyscallArgs::Setregid(SetregidArgs { rgid: a.rgid, egid: a.egid })
            },
            SyscallRawArgs::Setresuid(a) => {
                SyscallArgs::Setresuid(SetresuidArgs { ruid: a.ruid, euid: a.euid, suid: a.suid })
            },
            SyscallRawArgs::Getresuid(_) => {
                SyscallArgs::Getresuid(GetresuidArgs {})
            },
            SyscallRawArgs::Setresgid(a) => {
                SyscallArgs::Setresgid(SetresgidArgs { rgid: a.rgid, egid: a.egid, sgid: a.sgid })
            },
            SyscallRawArgs::Getresgid(_) => {
                SyscallArgs::Getresgid(GetresgidArgs {})
            },
            SyscallRawArgs::Getpgid(a) => {
                SyscallArgs::Getpgid(GetpgidArgs { pid: a.pid })
            },
            SyscallRawArgs::Getsid(a) => {
                SyscallArgs::Getsid(GetsidArgs { pid: a.pid })
            },
            SyscallRawArgs::Capget(_) => {
                SyscallArgs::Capget(CapgetArgs {})
            },
            SyscallRawArgs::Statfs(a) => {
                let path = rd.read_c_string(a.path);
                SyscallArgs::Statfs(StatfsArgs { path })
            },
            SyscallRawArgs::Fstatfs(a) => {
                SyscallArgs::Fstatfs(FstatfsArgs { fd: a.fd })
            },
            SyscallRawArgs::Sync(_) => {
                SyscallArgs::Sync(SyncArgs {})
            },
            SyscallRawArgs::Settimeofday(a) => {
                let tv = read_timeval(rd, a.tv);
                let tz = read_timezone_opt(rd, a.tz);
                SyscallArgs::Settimeofday(SettimeofdayArgs { tv, tz })
            },
            SyscallRawArgs::Umount2(a) => {
                let target = rd.read_c_string(a.target);
                SyscallArgs::Umount2(Umount2Args { target, flags: a.flags })
            },
            SyscallRawArgs::Sethostname(a) => {
                let name = rd.read_counted_bytes(a.name, a.len);
                SyscallArgs::Sethostname(SethostnameArgs { name, len: a.len })
            },
            SyscallRawArgs::Setdomainname(a) => {
                let name = rd.read_counted_bytes(a.name, a.len);
                SyscallArgs::Setdomainname(SetdomainnameArgs { name, len: a.len })
            },
            SyscallRawArgs::Gettid(_) => {
                SyscallArgs::Gettid(GettidArgs {})
            },
            SyscallRawArgs::Futex(a) => {
                let uaddr = read_u32_value(rd, a.uaddr);
                let uaddr2 = read_u32_value(rd, a.uaddr2);
                SyscallArgs::Futex(FutexArgs { uaddr, futex_op: a.futex_op, val: a.val, val2: a.val2, uaddr2, val3: a.val3 })
            },
            SyscallRawArgs::SchedGetaffinity(a) => {
                SyscallArgs::SchedGetaffinity(SchedGetaffinityArgs { pid: a.pid, cpusetsize: a.cpusetsize, mask: a.mask })
            },
            SyscallRawArgs::ClockSettime(a) => {
                let tp = read_timespec(rd, a.tp);
                SyscallArgs::ClockSettime(ClockSettimeArgs { clk_id: a.clk_id, tp })
            },
            SyscallRawArgs::ClockGettime(a) => {
                SyscallArgs::ClockGettime(ClockGettimeArgs { clk_id: a.clk_id })
            },
            SyscallRawArgs::ClockGetres(a) => {
                SyscallArgs::ClockGetres(ClockGetresArgs { clk_id: a.clk_id })
            },
            SyscallRawArgs::ClockNanosleep(a) => {
                let request = read_timespec(rd, a.request);
                SyscallArgs::ClockNanosleep(ClockNanosleepArgs { clockid: a.clockid, flags: a.flags, request })
            },
            SyscallRawArgs::ExitGroup(a) => {
                SyscallArgs::ExitGroup(ExitGroupArgs { status: a.status })
            },
            SyscallRawArgs::Utimes(a) => {
                let filename = rd.read_c_string(a.filename);
                let times = read_timeval_pair_opt(rd, a.times);
                SyscallArgs::Utimes(UtimesArgs { filename, times })
            },
            SyscallRawArgs::Openat(a) => {
                let pathname = rd.read_c_string(a.pathname);
                SyscallArgs::Openat(OpenatArgs { dirfd: a.dirfd, pathname, flags: a.flags, mode: a.mode })
            },
            SyscallRawArgs::Mkdirat(a) => {
                let pathname = rd.read_c_string(a.pathname);
                SyscallArgs::Mkdirat(MkdiratArgs { dirfd: a.dirfd, pathname, mode: a.mode })
            },
            SyscallRawArgs::Fchownat(a) => {
                let pathname = rd.read_c_string(a.pathname);
                SyscallArgs::Fchownat(FchownatArgs { dirfd: a.dirfd, pathname, owner: a.owner, group: a.group, flags: a.flags })
            },
            SyscallRawArgs::Newfstatat(a) => {
                let pathname = rd.read_c_string(a.pathname);
                SyscallArgs::Newfstatat(NewfstatatArgs { dirfd: a.dirfd, pathname, flags: a.flags })
            },
            SyscallRawArgs::Unlinkat(a) => {
                let pathname = rd.read_c_string(a.pathname);
                SyscallArgs::Unlinkat(UnlinkatArgs { dirfd: a.dirfd, pathname, flags: a.flags })
            },
            SyscallRawArgs::Renameat(a) => {
                let oldpath = rd.read_c_string(a.oldpath);
                let newpath = rd.read_c_string(a.newpath);
                SyscallArgs::Renameat(RenameatArgs { olddirfd: a.olddirfd, oldpath, newdirfd: a.newdirfd, newpath })
            },
            SyscallRawArgs::Linkat(a) => {
                let oldpath = rd.read_c_string(a.oldpath);
                let newpath = rd.read_c_string(a.newpath);
                SyscallArgs::Linkat(LinkatArgs { olddirfd: a.olddirfd, oldpath, newdirfd: a.newdirfd, newpath, flags: a.flags })
            },
            SyscallRawArgs::Symlinkat(a) => {
                let target = rd.read_c_string(a.target);
                let linkpath = rd.read_c_string(a.linkpath);
                SyscallArgs::Symlinkat(SymlinkatArgs { target, newdirfd: a.newdirfd, linkpath })
            },
            SyscallRawArgs::Readlinkat(a) => {
                let pathname = rd.read_c_string(a.pathname);
                SyscallArgs::Readlinkat(ReadlinkatArgs { dirfd: a.dirfd, pathname, bufsiz: a.bufsiz })
            },
            SyscallRawArgs::Fchmodat(a) => {
                let pathname = rd.read_c_string(a.pathname);
                SyscallArgs::Fchmodat(FchmodatArgs { dirfd: a.dirfd, pathname, mode: a.mode })
            },
            SyscallRawArgs::Faccessat(a) => {
                let pathname = rd.read_c_string(a.pathname);
                SyscallArgs::Faccessat(FaccessatArgs { dirfd: a.dirfd, pathname, mode: a.mode })
            },
            SyscallRawArgs::Accept4(a) => {
                let addr = read_sockaddr(rd, a.addr);
                let addrlen = read_u32_value(rd, a.addrlen);
                SyscallArgs::Accept4(Accept4Args { socketfd: a.socketfd, addr, addrlen, flags: a.flags })
            },
            SyscallRawArgs::Eventfd2(a) => {
                SyscallArgs::Eventfd2(Eventfd2Args { initval: a.initval, flags: a.flags })
            },
            SyscallRawArgs::EpollCreate1(a) => {
                SyscallArgs::EpollCreate1(EpollCreate1Args { flags: a.flags })
            },
            SyscallRawArgs::Dup3(a) => {
                SyscallArgs::Dup3(Dup3Args { oldfd: a.oldfd, newfd: a.newfd, flags: a.flags })
            },
            SyscallRawArgs::Pipe2(a) => {
                SyscallArgs::Pipe2(Pipe2Args { flags: a.flags })
            },
            SyscallRawArgs::InotifyInit1(a) => {
                SyscallArgs::InotifyInit1(InotifyInit1Args { flags: a.flags })
            },
            SyscallRawArgs::Prlimit64(a) => {
                let new_limit = read_rlimit_opt(rd, a.new_limit);
                let old_limit = read_rlimit_opt(rd, a.old_limit);
                SyscallArgs::Prlimit64(Prlimit64Args { pid: a.pid, resource: a.resource, new_limit, old_limit })
            },
            SyscallRawArgs::Getrandom(a) => {
                SyscallArgs::Getrandom(GetrandomArgs { buflen: a.buflen, flags: a.flags })
            },
            SyscallRawArgs::MemfdCreate(a) => {
                let name = rd.read_c_string(a.name);
                SyscallArgs::MemfdCreate(MemfdCreateArgs { name, flags: a.flags })
            },
            SyscallRawArgs::Rseq(a) => {
                let rseq = read_rseq(rd, a.rseq, a.rseq_len);
                SyscallArgs::Rseq(RseqArgs { rseq, rseq_len: a.rseq_len, flags: a.flags, sig: a.sig })
            },
            SyscallRawArgs::PidfdOpen(a) => {
                SyscallArgs::PidfdOpen(PidfdOpenArgs { pid: a.pid, flags: a.flags })
            },
            SyscallRawArgs::CloseRange(a) => {
                SyscallArgs::CloseRange(CloseRangeArgs { first: a.first, last: a.last, flags: a.flags })
            },
            SyscallRawArgs::LandlockCreateRuleset(a) => {
                let ruleset_attr = read_landlock_ruleset_attr(rd, a.ruleset_attr);
                SyscallArgs::LandlockCreateRuleset(LandlockCreateRulesetArgs { ruleset_attr, size: a.size, flags: a.flags })
            },
            SyscallRawArgs::Cachestat(a) => {
                let cstat_range = read_cachestat_range(rd, a.cstat_range);
                let cstat = read_cachestat(rd, a.cstat);
                SyscallArgs::Cachestat(CachestatArgs { fd: a.fd, cstat_range, cstat, flags: a.flags })
            },
            SyscallRawArgs::Statmount(a) => {
                let req = read_mnt_id_req(rd, a.req);
                SyscallArgs::Statmount(StatmountArgs { req, bufsize: a.bufsize, flags: a.flags })
            },
            SyscallRawArgs::Unknown(u) => SyscallArgs::Unknown(*u),
        }
    }
}

/// Exit-decoded record of `read`: the typed syscall result, and the
/// output arguments re-read at exit.
#[derive(Debug, PartialEq)]
pub struct ReadModifiedArgs {
    pub syscall_result: i64,
    pub buf: InspectResult<Vec<u8>>,
}

/// Exit-decoded record of `write`: the typed syscall result.
#[derive(Debug, PartialEq)]
pub struct WriteModifiedArgs {
    pub syscall_result: i64,
}

/// Exit-decoded record of `open`: the typed syscall result.
#[derive(Debug, PartialEq)]
pub struct OpenModifiedArgs {
    pub syscall_result: i32,
}

/// Exit-decoded record of `close`: the typed syscall result.
#[derive(Debug, PartialEq)]
pub struct CloseModifiedArgs {
    pub syscall_result: i32,
}

/// Exit-decoded record of `stat`: the typed syscall result, and the
/// output arguments re-read at exit.
#[derive(Debug, PartialEq)]
pub struct StatModifiedArgs {
    pub syscall_result: i32,
    pub statbuf: InspectResult<stat>,
}

/// Exit-decoded record of `fstat`: the typed syscall result, and the
/// output arguments re-read at exit.
#[derive(Debug, PartialEq)]
pub struct FstatModifiedArgs {
    pub syscall_result: i32,
    pub statbuf: InspectResult<stat>,
}

/// Exit-decoded record of `lstat`: the typed syscall result, and the
/// output arguments re-read at exit.
#[derive(Debug, PartialEq)]
pub struct LstatModifiedArgs {
    pub syscall_result: i32,
    pub statbuf: InspectResult<stat>,
}

/// Exit-decoded record of `lseek`: the typed syscall result.
#[derive(Debug, PartialEq)]
pub struct LseekModifiedArgs {
    pub syscall_result: i64,
}

/// Exit-decoded record of `mmap`: the typed syscall result.
#[derive(Debug, PartialEq)]
pub struct MmapModifiedArgs {
    pub syscall_result: u64,
}

/// Exit-decoded record of `mprotect`: the typed syscall result.
#[derive(Debug, PartialEq)]
pub struct MprotectModifiedArgs {
    pub syscall_result: i32,
}

/// Exit-decoded record of `munmap`: the typed syscall result.
#[derive(Debug, PartialEq)]
pub struct MunmapModifiedArgs {
    pub syscall_result: i32,
}

/// Exit-decoded record of `brk`: the typed syscall result.
#[derive(Debug, PartialEq)]
pub struct BrkModifiedArgs {
    pub syscall_result: i32,
}

/// Exit-decoded record of `rt_sigreturn`: the typed syscall result.
#[derive(Debug, PartialEq)]
pub struct RtSigreturnModifiedArgs {
    pub syscall_result: i64,
}

/// Exit-decoded record of `ioctl`: the typed syscall result.
#[derive(Debug, PartialEq)]
pub struct IoctlModifiedArgs {
    pub syscall_result: i32,
}

/// Exit-decoded record of `pread64`: the typed syscall result, and the
/// output arguments re-read at exit.
#[derive(Debug, PartialEq)]
pub struct Pread64ModifiedArgs {
    pub syscall_result: i64,
    pub buf: InspectResult<Vec<u8>>,
}

/// Exit-decoded record of `pwrite64`: the typed syscall result.
#[derive(Debug, PartialEq)]
pub struct Pwrite64ModifiedArgs {
    pub syscall_result: i64,
}

/// Exit-decoded record of `access`: the typed syscall result.
#[derive(Debug, PartialEq)]
pub struct AccessModifiedArgs {
    pub syscall_result: i32,
}

/// Exit-decoded record of `pipe`: the typed syscall result, and the
/// output arguments re-read at exit.
#[derive(Debug, PartialEq)]
pub struct PipeModifiedArgs {
    pub syscall_result: i32,
    pub pipefd: Result<[i32; 2], InspectError<Vec<i32>>>,
}

/// Exit-decoded record of `sched_yield`: the typed syscall result.
#[derive(Debug, PartialEq)]
pub struct SchedYieldModifiedArgs {
    pub syscall_result: i32,
}

/// Exit-decoded record of `mremap`: the typed syscall result.
#[derive(Debug, PartialEq)]
pub struct MremapModifiedArgs {
    pub syscall_result: u64,
}

/// Exit-decoded record of `msync`: the typed syscall result.
#[derive(Debug, PartialEq)]
pub struct MsyncModifiedArgs {
    pub syscall_result: i32,
}

/// Exit-decoded record of `madvise`: the typed syscall result.
#[derive(Debug, PartialEq)]
pub struct MadviseModifiedArgs {
    pub syscall_result: i32,
}

/// Exit-decoded record of `shmget`: the typed syscall result.
#[derive(Debug, PartialEq)]
pub struct ShmgetModifiedArgs {
    pub syscall_result: i32,
}

/// Exit-decoded record of `shmat`: the typed syscall result.
#[derive(Debug, PartialEq)]
pub struct ShmatModifiedArgs {
    pub syscall_result: u64,
}

/// Exit-decoded record of `dup`: the typed syscall result.
#[derive(Debug, PartialEq)]
pub struct DupModifiedArgs {
    pub syscall_result: i32,
}

/// Exit-decoded record of `dup2`: the typed syscall result.
#[derive(Debug, PartialEq)]
pub struct Dup2ModifiedArgs {
    pub syscall_result: i32,
}

/// Exit-decoded record of `pause`: the typed syscall result.
#[derive(Debug, PartialEq)]
pub struct PauseModifiedArgs {
    pub syscall_result: i32,
}

/// Exit-decoded record of `nanosleep`: the typed syscall result, and the
/// output arguments re-read at exit.
#[derive(Debug, PartialEq)]
pub struct NanosleepModifiedArgs {
    pub syscall_result: i32,
    pub rem: InspectResult<Option<timespec>>,
}

/// Exit-decoded record of `alarm`: the typed syscall result.
#[derive(Debug, PartialEq)]
pub struct AlarmModifiedArgs {
    pub syscall_result: u32,
}

/// Exit-decoded record of `getpid`: the typed syscall result.
#[derive(Debug, PartialEq)]
pub struct GetpidModifiedArgs {
    pub syscall_result: i32,
}

/// Exit-decoded record of `socket`: the typed syscall result.
#[derive(Debug, PartialEq)]
pub struct SocketModifiedArgs {
    pub syscall_result: i32,
}

/// Exit-decoded record of `connect`: the typed syscall result.
#[derive(Debug, PartialEq)]
pub struct ConnectModifiedArgs {
    pub syscall_result: i32,
}

/// Exit-decoded record of `accept`: the typed syscall result, and the
/// output arguments re-read at exit.
#[derive(Debug, PartialEq)]
pub struct AcceptModifiedArgs {
    pub syscall_result: i32,
    pub addr: InspectResult<sockaddr>,
    pub addrlen: InspectResult<u32>,
}

/// Exit-decoded record of `shutdown`: the typed syscall result.
#[derive(Debug, PartialEq)]
pub struct ShutdownModifiedArgs {
    pub syscall_result: i32,
}

/// Exit-decoded record of `bind`: the typed syscall result.
#[derive(Debug, PartialEq)]
pub struct BindModifiedArgs {
    pub syscall_result: i32,
}

/// Exit-decoded record of `listen`: the typed syscall result.
#[derive(Debug, PartialEq)]
pub struct ListenModifiedArgs {
    pub syscall_result: i32,
}

/// Exit-decoded record of `getsockname`: the typed syscall result, and the
/// output arguments re-read at exit.
#[derive(Debug, PartialEq)]
pub struct GetsocknameModifiedArgs {
    pub syscall_result: i32,
    pub addr: InspectResult<sockaddr>,
    pub addrlen: InspectResult<u32>,
}

/// Exit-decoded record of `getpeername`: the typed syscall result, and the
/// output arguments re-read at exit.
#[derive(Debug, PartialEq)]
pub struct GetpeernameModifiedArgs {
    pub syscall_result: i32,
    pub addr: InspectResult<sockaddr>,
    pub addrlen: InspectResult<u32>,
}

/// Exit-decoded record of `socketpair`: the typed syscall result, and the
/// output arguments re-read at exit.
#[derive(Debug, PartialEq)]
pub struct SocketpairModifiedArgs {
    pub syscall_result: i32,
    pub sv: Result<[i32; 2], InspectError<Vec<i32>>>,
}

/// Exit-decoded record of `clone`: the typed syscall result, and the
/// output arguments re-read at exit.
#[derive(Debug, PartialEq)]
pub struct CloneModifiedArgs {
    pub syscall_result: i64,
    pub parent_tid: InspectResult<i32>,
    pub child_tid: InspectResult<i32>,
}

/// Exit-decoded record of `execve`: the typed syscall result.
#[derive(Debug, PartialEq)]
pub struct ExecveModifiedArgs {
    pub syscall_result: i32,
}

/// Exit-decoded record of `exit`: the typed syscall result.
#[derive(Debug, PartialEq)]
pub struct ExitModifiedArgs {
    pub syscall_result: Unit,
}

/// Exit-decoded record of `kill`: the typed syscall result.
#[derive(Debug, PartialEq)]
pub struct KillModifiedArgs {
    pub syscall_result: i32,
}

/// Exit-decoded record of `semget`: the typed syscall result.
#[derive(Debug, PartialEq)]
pub struct SemgetModifiedArgs {
    pub syscall_result: i32,
}

/// Exit-decoded record of `semop`: the typed syscall result.
#[derive(Debug, PartialEq)]
pub struct SemopModifiedArgs {
    pub syscall_result: i32,
}

/// Exit-decoded record of `semctl`: the typed syscall result.
#[derive(Debug, PartialEq)]
pub struct SemctlModifiedArgs {
    pub syscall_result: i32,
}

/// Exit-decoded record of `shmdt`: the typed syscall result.
#[derive(Debug, PartialEq)]
pub struct ShmdtModifiedArgs {
    pub syscall_result: i32,
}

/// Exit-decoded record of `msgget`: the typed syscall result.
#[derive(Debug, PartialEq)]
pub struct MsggetModifiedArgs {
    pub syscall_result: i32,
}

/// Exit-decoded record of `msgsnd`: the typed syscall result.
#[derive(Debug, PartialEq)]
pub struct MsgsndModifiedArgs {
    pub syscall_result: i32,
}

/// Exit-decoded record of `fcntl`: the typed syscall result.
#[derive(Debug, PartialEq)]
pub struct FcntlModifiedArgs {
    pub syscall_result: i32,
}

/// Exit-decoded record of `flock`: the typed syscall result.
#[derive(Debug, PartialEq)]
pub struct FlockModifiedArgs {
    pub syscall_result: i32,
}

/// Exit-decoded record of `fsync`: the typed syscall result.
#[derive(Debug, PartialEq)]
pub struct FsyncModifiedArgs {
    pub syscall_result: i32,
}

/// Exit-decoded record of `fdatasync`: the typed syscall result.
#[derive(Debug, PartialEq)]
pub struct FdatasyncModifiedArgs {
    pub syscall_result: i32,
}

/// Exit-decoded record of `truncate`: the typed syscall result.
#[derive(Debug, PartialEq)]
pub struct TruncateModifiedArgs {
    pub syscall_result: i32,
}

/// Exit-decoded record of `ftruncate`: the typed syscall result.
#[derive(Debug, PartialEq)]
pub struct FtruncateModifiedArgs {
    pub syscall_result: i32,
}

/// Exit-decoded record of `getcwd`: the typed syscall result, and the
/// output arguments re-read at exit.
#[derive(Debug, PartialEq)]
pub struct GetcwdModifiedArgs {
    pub syscall_result: i64,
    pub buf: InspectResult<Vec<u8>>,
}

/// Exit-decoded record of `chdir`: the typed syscall result.
#[derive(Debug, PartialEq)]
pub struct ChdirModifiedArgs {
    pub syscall_result: i32,
}

/// Exit-decoded record of `rename`: the typed syscall result.
#[derive(Debug, PartialEq)]
pub struct RenameModifiedArgs {
    pub syscall_result: i32,
}

/// Exit-decoded record of `mkdir`: the typed syscall result.
#[derive(Debug, PartialEq)]
pub struct MkdirModifiedArgs {
    pub syscall_result: i32,
}

/// Exit-decoded record of `rmdir`: the typed syscall result.
#[derive(Debug, PartialEq)]
pub struct RmdirModifiedArgs {
    pub syscall_result: i32,
}

/// Exit-decoded record of `creat`: the typed syscall result.
#[derive(Debug, PartialEq)]
pub struct CreatModifiedArgs {
    pub syscall_result: i32,
}

/// Exit-decoded record of `link`: the typed syscall result.
#[derive(Debug, PartialEq)]
pub struct LinkModifiedArgs {
    pub syscall_result: i32,
}

/// Exit-decoded record of `unlink`: the typed syscall result.
#[derive(Debug, PartialEq)]
pub struct UnlinkModifiedArgs {
    pub syscall_result: i32,
}

/// Exit-decoded record of `symlink`: the typed syscall result.
#[derive(Debug, PartialEq)]
pub struct SymlinkModifiedArgs {
    pub syscall_result: i32,
}

/// Exit-decoded record of `readlink`: the typed syscall result, and the
/// output arguments re-read at exit.
#[derive(Debug, PartialEq)]
pub struct ReadlinkModifiedArgs {
    pub syscall_result: i64,
    pub buf: InspectResult<Vec<u8>>,
}

/// Exit-decoded record of `chmod`: the typed syscall result.
#[derive(Debug, PartialEq)]
pub struct ChmodModifiedArgs {
    pub syscall_result: i32,
}

/// Exit-decoded record of `fchmod`: the typed syscall result.
#[derive(Debug, PartialEq)]
pub struct FchmodModifiedArgs {
    pub syscall_result: i32,
}

/// Exit-decoded record of `chown`: the typed syscall result.
#[derive(Debug, PartialEq)]
pub struct ChownModifiedArgs {
    pub syscall_result: i32,
}

/// Exit-decoded record of `fchown`: the typed syscall result.
#[derive(Debug, PartialEq)]
pub struct FchownModifiedArgs {
    pub syscall_result: i32,
}

/// Exit-decoded record of `lchown`: the typed syscall result.
#[derive(Debug, PartialEq)]
pub struct LchownModifiedArgs {
    pub syscall_result: i32,
}

/// Exit-decoded record of `umask`: the typed syscall result.
#[derive(Debug, PartialEq)]
pub struct UmaskModifiedArgs {
    pub syscall_result: u32,
}

/// Exit-decoded record of `gettimeofday`: the typed syscall result, and the
/// output arguments re-read at exit.
#[derive(Debug, PartialEq)]
pub struct GettimeofdayModifiedArgs {
    pub syscall_result: i32,
    pub tv: InspectResult<timeval>,
    pub tz: InspectResult<Option<timezone>>,
}

/// Exit-decoded record of `getrlimit`: the typed syscall result, and the
/// output arguments re-read at exit.
#[derive(Debug, PartialEq)]
pub struct GetrlimitModifiedArgs {
    pub syscall_result: i32,
    pub rlim: InspectResult<rlimit>,
}

/// Exit-decoded record of `times`: the typed syscall result, and the
/// output arguments re-read at exit.
#[derive(Debug, PartialEq)]
pub struct TimesModifiedArgs {
    pub syscall_result: i64,
    pub buf: InspectResult<tms>,
}

/// Exit-decoded record of `ptrace`: the typed syscall result.
#[derive(Debug, PartialEq)]
pub struct PtraceModifiedArgs {
    pub syscall_result: i64,
}

/// Exit-decoded record of `getuid`: the typed syscall result.
#[derive(Debug, PartialEq)]
pub struct GetuidModifiedArgs {
    pub syscall_result: u32,
}

/// Exit-decoded record of `getgid`: the typed syscall result.
#[derive(Debug, PartialEq)]
pub struct GetgidModifiedArgs {
    pub syscall_result: u32,
}

/// Exit-decoded record of `setuid`: the typed syscall result.
#[derive(Debug, PartialEq)]
pub struct SetuidModifiedArgs {
    pub syscall_result: i32,
}

/// Exit-decoded record of `setgid`: the typed syscall result.
#[derive(Debug, PartialEq)]
pub struct SetgidModifiedArgs {
    pub syscall_result: i32,
}

/// Exit-decoded record of `geteuid`: the typed syscall result.
#[derive(Debug, PartialEq)]
pub struct GeteuidModifiedArgs {
    pub syscall_result: u32,
}

/// Exit-decoded record of `getegid`: the typed syscall result.
#[derive(Debug, PartialEq)]
pub struct GetegidModifiedArgs {
    pub syscall_result: u32,
}

/// Exit-decoded record of `setpgid`: the typed syscall result.
#[derive(Debug, PartialEq)]
pub struct SetpgidModifiedArgs {
    pub syscall_result: i32,
}

/// Exit-decoded record of `getppid`: the typed syscall result.
#[derive(Debug, PartialEq)]
pub struct GetppidModifiedArgs {
    pub syscall_result: i32,
}

/// Exit-decoded record of `setsid`: the typed syscall result.
#[derive(Debug, PartialEq)]
pub struct SetsidModifiedArgs {
    pub syscall_result: i32,
}

/// Exit-decoded record of `setreuid`: the typed syscall result.
#[derive(Debug, PartialEq)]
pub struct SetreuidModifiedArgs {
    pub syscall_result: i32,
}

/// Exit-decoded record of `setregid`: the typed syscall result.
#[derive(Debug, PartialEq)]
pub struct SetregidModifiedArgs {
    pub syscall_result: i32,
}

/// Exit-decoded record of `setresuid`: the typed syscall result.
#[derive(Debug, PartialEq)]
pub struct SetresuidModifiedArgs {
    pub syscall_result: i32,
}

/// Exit-decoded record of `getresuid`: the typed syscall result, and the
/// output arguments re-read at exit.
#[derive(Debug, PartialEq)]
pub struct GetresuidModifiedArgs {
    pub syscall_result: i32,
    pub ruid: InspectResult<u32>,
    pub euid: InspectResult<u32>,
    pub suid: InspectResult<u32>,
}

/// Exit-decoded record of `setresgid`: the typed syscall result.
#[derive(Debug, PartialEq)]
pub struct SetresgidModifiedArgs {
    pub syscall_result: i32,
}

/// Exit-decoded record of `getresgid`: the typed syscall result, and the
/// output arguments re-read at exit.
#[derive(Debug, PartialEq)]
pub struct GetresgidModifiedArgs {
    pub syscall_result: i32,
    pub rgid: InspectResult<u32>,
    pub egid: InspectResult<u32>,
    pub sgid: InspectResult<u32>,
}

/// Exit-decoded record of `getpgid`: the typed syscall result.
#[derive(Debug, PartialEq)]
pub struct GetpgidModifiedArgs {
    pub syscall_result: i32,
}

/// Exit-decoded record of `getsid`: the typed syscall result.
#[derive(Debug, PartialEq)]
pub struct GetsidModifiedArgs {
    pub syscall_result: i32,
}

/// Exit-decoded record of `capget`: the typed syscall result, and the
/// output arguments re-read at exit.
#[derive(Debug, PartialEq)]
pub struct CapgetModifiedArgs {
    pub syscall_result: i32,
    pub hdrp: InspectResult<cap_user_header>,
    pub datap: InspectResult<cap_user_data>,
}

/// Exit-decoded record of `statfs`: the typed syscall result, and the
/// output arguments re-read at exit.
#[derive(Debug, PartialEq)]
pub struct StatfsModifiedArgs {
    pub syscall_result: i32,
    pub buf: InspectResult<statfs>,
}

/// Exit-decoded record of `fstatfs`: the typed syscall result, and the
/// output arguments re-read at exit.
#[derive(Debug, PartialEq)]
pub struct FstatfsModifiedArgs {
    pub syscall_result: i32,
    pub buf: InspectResult<statfs>,
}

/// Exit-decoded record of `sync`: the typed syscall result.
#[derive(Debug, PartialEq)]
pub struct SyncModifiedArgs {
    pub syscall_result: i32,
}

/// Exit-decoded record of `settimeofday`: the typed syscall result.
#[derive(Debug, PartialEq)]
pub struct SettimeofdayModifiedArgs {
    pub syscall_result: i32,
}

/// Exit-decoded record of `umount2`: the typed syscall result.
#[derive(Debug, PartialEq)]
pub struct Umount2ModifiedArgs {
    pub syscall_result: i32,
}

/// Exit-decoded record of `sethostname`: the typed syscall result.
#[derive(Debug, PartialEq)]
pub struct SethostnameModifiedArgs {
    pub syscall_result: i32,
}

/// Exit-decoded record of `setdomainname`: the typed syscall result.
#[derive(Debug, PartialEq)]
pub struct SetdomainnameModifiedArgs {
    pub syscall_result: i32,
}

/// Exit-decoded record of `gettid`: the typed syscall result.
#[derive(Debug, PartialEq)]
pub struct GettidModifiedArgs {
    pub syscall_result: i32,
}

/// Exit-decoded record of `futex`: the typed syscall result, and the
/// output arguments re-read at exit.
#[derive(Debug, PartialEq)]
pub struct FutexModifiedArgs {
    pub syscall_result: i64,
    pub uaddr: InspectResult<u32>,
    pub uaddr2: InspectResult<u32>,
}

/// Exit-decoded record of `sched_getaffinity`: the typed syscall result.
#[derive(Debug, PartialEq)]
pub struct SchedGetaffinityModifiedArgs {
    pub syscall_result: i32,
}

/// Exit-decoded record of `clock_settime`: the typed syscall result.
#[derive(Debug, PartialEq)]
pub struct ClockSettimeModifiedArgs {
    pub syscall_result: i32,
}

/// Exit-decoded record of `clock_gettime`: the typed syscall result, and the
/// output arguments re-read at exit.
#[derive(Debug, PartialEq)]
pub struct ClockGettimeModifiedArgs {
    pub syscall_result: i32,
    pub tp: InspectResult<timespec>,
}

/// Exit-decoded record of `clock_getres`: the typed syscall result, and the
/// output arguments re-read at exit.
#[derive(Debug, PartialEq)]
pub struct ClockGetresModifiedArgs {
    pub syscall_result: i32,
    pub res: InspectResult<timespec>,
}

/// Exit-decoded record of `clock_nanosleep`: the typed syscall result, and the
/// output arguments re-read at exit.
#[derive(Debug, PartialEq)]
pub struct ClockNanosleepModifiedArgs {
    pub syscall_result: i32,
    pub remain: InspectResult<Option<timespec>>,
}

/// Exit-decoded record of `exit_group`: the typed syscall result.
#[derive(Debug, PartialEq)]
pub struct ExitGroupModifiedArgs {
    pub syscall_result: Unit,
}

/// Exit-decoded record of `utimes`: the typed syscall result.
#[derive(Debug, PartialEq)]
pub struct UtimesModifiedArgs {
    pub syscall_result: i32,
}

/// Exit-decoded record of `openat`: the typed syscall result.
#[derive(Debug, PartialEq)]
pub struct OpenatModifiedArgs {
    pub syscall_result: i32,
}

/// Exit-decoded record of `mkdirat`: the typed syscall result.
#[derive(Debug, PartialEq)]
pub struct MkdiratModifiedArgs {
    pub syscall_result: i32,
}

/// Exit-decoded record of `fchownat`: the typed syscall result.
#[derive(Debug, PartialEq)]
pub struct FchownatModifiedArgs {
    pub syscall_result: i32,
}

/// Exit-decoded record of `newfstatat`: the typed syscall result, and the
/// output arguments re-read at exit.
#[derive(Debug, PartialEq)]
pub struct NewfstatatModifiedArgs {
    pub syscall_result: i32,
    pub statbuf: InspectResult<stat>,
}

/// Exit-decoded record of `unlinkat`: the typed syscall result.
#[derive(Debug, PartialEq)]
pub struct UnlinkatModifiedArgs {
    pub syscall_result: i32,
}

/// Exit-decoded record of `renameat`: the typed syscall result.
#[derive(Debug, PartialEq)]
pub struct RenameatModifiedArgs {
    pub syscall_result: i32,
}

/// Exit-decoded record of `linkat`: the typed syscall result.
#[derive(Debug, PartialEq)]
pub struct LinkatModifiedArgs {
    pub syscall_result: i32,
}

/// Exit-decoded record of `symlinkat`: the typed syscall result.
#[derive(Debug, PartialEq)]
pub struct SymlinkatModifiedArgs {
    pub syscall_result: i32,
}

/// Exit-decoded record of `readlinkat`: the typed syscall result, and the
/// output arguments re-read at exit.
#[derive(Debug, PartialEq)]
pub struct ReadlinkatModifiedArgs {
    pub syscall_result: i64,
    pub buf: InspectResult<Vec<u8>>,
}

/// Exit-decoded record of `fchmodat`: the typed syscall result.
#[derive(Debug, PartialEq)]
pub struct FchmodatModifiedArgs {
    pub syscall_result: i32,
}

/// Exit-decoded record of `faccessat`: the typed syscall result.
#[derive(Debug, PartialEq)]
pub struct FaccessatModifiedArgs {
    pub syscall_result: i32,
}

/// Exit-decoded record of `accept4`: the typed syscall result, and the
/// output arguments re-read at exit.
#[derive(Debug, PartialEq)]
pub struct Accept4ModifiedArgs {
    pub syscall_result: i32,
    pub addr: InspectResult<sockaddr>,
    pub addrlen: InspectResult<u32>,
}

/// Exit-decoded record of `eventfd2`: the typed syscall result.
#[derive(Debug, PartialEq)]
pub struct Eventfd2ModifiedArgs {
    pub syscall_result: i32,
}

/// Exit-decoded record of `epoll_create1`: the typed syscall result.
#[derive(Debug, PartialEq)]
pub struct EpollCreate1ModifiedArgs {
    pub syscall_result: i32,
}

/// Exit-decoded record of `dup3`: the typed syscall result.
#[derive(Debug, PartialEq)]
pub struct Dup3ModifiedArgs {
    pub syscall_result: i32,
}

/// Exit-decoded record of `pipe2`: the typed syscall result, and the
/// output arguments re-read at exit.
#[derive(Debug, PartialEq)]
pub struct Pipe2ModifiedArgs {
    pub syscall_result: i32,
    pub pipefd: Result<[i32; 2], InspectError<Vec<i32>>>,
}

/// Exit-decoded record of `inotify_init1`: the typed syscall result.
#[derive(Debug, PartialEq)]
pub struct InotifyInit1ModifiedArgs {
    pub syscall_result: i32,
}

/// Exit-decoded record of `prlimit64`: the typed syscall result, and the
/// output arguments re-read at exit.
#[derive(Debug, PartialEq)]
pub struct Prlimit64ModifiedArgs {
    pub syscall_result: i32,
    pub old_limit: InspectResult<Option<rlimit>>,
}

/// Exit-decoded record of `getrandom`: the typed syscall result, and the
/// output arguments re-read at exit.
#[derive(Debug, PartialEq)]
pub struct GetrandomModifiedArgs {
    pub syscall_result: i64,
    pub buf: InspectResult<Vec<u8>>,
}

/// Exit-decoded record of `memfd_create`: the typed syscall result.
#[derive(Debug, PartialEq)]
pub struct MemfdCreateModifiedArgs {
    pub syscall_result: i32,
}

/// Exit-decoded record of `rseq`: the typed syscall result.
#[derive(Debug, PartialEq)]
pub struct RseqModifiedArgs {
    pub syscall_result: i32,
}

/// Exit-decoded record of `pidfd_open`: the typed syscall result.
#[derive(Debug, PartialEq)]
pub struct PidfdOpenModifiedArgs {
    pub syscall_result: i32,
}

/// Exit-decoded record of `close_range`: the typed syscall result.
#[derive(Debug, PartialEq)]
pub struct CloseRangeModifiedArgs {
    pub syscall_result: i32,
}

/// Exit-decoded record of `landlock_create_ruleset`: the typed syscall result.
#[derive(Debug, PartialEq)]
pub struct LandlockCreateRulesetModifiedArgs {
    pub syscall_result: i32,
}

/// Exit-decoded record of `cachestat`: the typed syscall result.
#[derive(Debug, PartialEq)]
pub struct CachestatModifiedArgs {
    pub syscall_result: i32,
}

/// Exit-decoded record of `statmount`: the typed syscall result, and the
/// output arguments re-read at exit.
#[derive(Debug, PartialEq)]
pub struct StatmountModifiedArgs {
    pub syscall_result: i32,
    pub buf: InspectResult<statmount>,
}

/// The exit-decoded record of one syscall-exit stop: one variant per table
/// entry, plus `Unknown` carrying the raw slots through unchanged.
#[derive(Debug, PartialEq)]
pub enum SyscallModifiedArgs {
    Read(ReadModifiedArgs),
    Write(WriteModifiedArgs),
    Open(OpenModifiedArgs),
    Close(CloseModifiedArgs),
    Stat(StatModifiedArgs),
    Fstat(FstatModifiedArgs),
    Lstat(LstatModifiedArgs),
    Lseek(LseekModifiedArgs),
    Mmap(MmapModifiedArgs),
    Mprotect(MprotectModifiedArgs),
    Munmap(MunmapModifiedArgs),
    Brk(BrkModifiedArgs),
    RtSigreturn(RtSigreturnModifiedArgs),
    Ioctl(IoctlModifiedArgs),
    Pread64(Pread64ModifiedArgs),
    Pwrite64(Pwrite64ModifiedArgs),
    Access(AccessModifiedArgs),
    Pipe(PipeModifiedArgs),
    SchedYield(SchedYieldModifiedArgs),
    Mremap(MremapModifiedArgs),
    Msync(MsyncModifiedArgs),
    Madvise(MadviseModifiedArgs),
    Shmget(ShmgetModifiedArgs),
    Shmat(ShmatModifiedArgs),
    Dup(DupModifiedArgs),
    Dup2(Dup2ModifiedArgs),
    Pause(PauseModifiedArgs),
    Nanosleep(NanosleepModifiedArgs),
    Alarm(AlarmModifiedArgs),
    Getpid(GetpidModifiedArgs),
    Socket(SocketModifiedArgs),
    Connect(ConnectModifiedArgs),
    Accept(AcceptModifiedArgs),
    Shutdown(ShutdownModifiedArgs),
    Bind(BindModifiedArgs),
    Listen(ListenModifiedArgs),
    Getsockname(GetsocknameModifiedArgs),
    Getpeername(GetpeernameModifiedArgs),
    Socketpair(SocketpairModifiedArgs),
    Clone(CloneModifiedArgs),
    Execve(ExecveModifiedArgs),
    Exit(ExitModifiedArgs),
    Kill(KillModifiedArgs),
    Semget(SemgetModifiedArgs),
    Semop(SemopModifiedArgs),
    Semctl(SemctlModifiedArgs),
    Shmdt(ShmdtModifiedArgs),
    Msgget(MsggetModifiedArgs),
    Msgsnd(MsgsndModifiedArgs),
    Fcntl(FcntlModifiedArgs),
    Flock(FlockModifiedArgs),
    Fsync(FsyncModifiedArgs),
    Fdatasync(FdatasyncModifiedArgs),
    Truncate(TruncateModifiedArgs),
    Ftruncate(FtruncateModifiedArgs),
    Getcwd(GetcwdModifiedArgs),
    Chdir(ChdirModifiedArgs),
    Rename(RenameModifiedArgs),
    Mkdir(MkdirModifiedArgs),
    Rmdir(RmdirModifiedArgs),
    Creat(CreatModifiedArgs),
    Link(LinkModifiedArgs),
    Unlink(UnlinkModifiedArgs),
    Symlink(SymlinkModifiedArgs),
    Readlink(ReadlinkModifiedArgs),
    Chmod(ChmodModifiedArgs),
    Fchmod(FchmodModifiedArgs),
    Chown(ChownModifiedArgs),
    Fchown(FchownModifiedArgs),
    Lchown(LchownModifiedArgs),
    Umask(UmaskModifiedArgs),
    Gettimeofday(GettimeofdayModifiedArgs),
    Getrlimit(GetrlimitModifiedArgs),
    Times(TimesModifiedArgs),
    Ptrace(PtraceModifiedArgs),
    Getuid(GetuidModifiedArgs),
    Getgid(GetgidModifiedArgs),
    Setuid(SetuidModifiedArgs),
    Setgid(SetgidModifiedArgs),
    Geteuid(GeteuidModifiedArgs),
    Getegid(GetegidModifiedArgs),
    Setpgid(SetpgidModifiedArgs),
    Getppid(GetppidModifiedArgs),
    Setsid(SetsidModifiedArgs),
    Setreuid(SetreuidModifiedArgs),
    Setregid(SetregidModifiedArgs),
    Setresuid(SetresuidModifiedArgs),
    Getresuid(GetresuidModifiedArgs),
    Setresgid(SetresgidModifiedArgs),
    Getresgid(GetresgidModifiedArgs),
    Getpgid(GetpgidModifiedArgs),
    Getsid(GetsidModifiedArgs),
    Capget(CapgetModifiedArgs),
    Statfs(StatfsModifiedArgs),
    Fstatfs(FstatfsModifiedArgs),
    Sync(SyncModifiedArgs),
    Settimeofday(SettimeofdayModifiedArgs),
    Umount2(Umount2ModifiedArgs),
    Sethostname(SethostnameModifiedArgs),
    Setdomainname(SetdomainnameModifiedArgs),
    Gettid(GettidModifiedArgs),
    Futex(FutexModifiedArgs),
    SchedGetaffinity(SchedGetaffinityModifiedArgs),
    ClockSettime(ClockSettimeModifiedArgs),
    ClockGettime(ClockGettimeModifiedArgs),
    ClockGetres(ClockGetresModifiedArgs),
    ClockNanosleep(ClockNanosleepModifiedArgs),
    ExitGroup(ExitGroupModifiedArgs),
    Utimes(UtimesModifiedArgs),
    Openat(OpenatModifiedArgs),
    Mkdirat(MkdiratModifiedArgs),
    Fchownat(FchownatModifiedArgs),
    Newfstatat(NewfstatatModifiedArgs),
    Unlinkat(UnlinkatModifiedArgs),
    Renameat(RenameatModifiedArgs),
    Linkat(LinkatModifiedArgs),
    Symlinkat(SymlinkatModifiedArgs),
    Readlinkat(ReadlinkatModifiedArgs),
    Fchmodat(FchmodatModifiedArgs),
    Faccessat(FaccessatModifiedArgs),
    Accept4(Accept4ModifiedArgs),
    Eventfd2(Eventfd2ModifiedArgs),
    EpollCreate1(EpollCreate1ModifiedArgs),
    Dup3(Dup3ModifiedArgs),
    Pipe2(Pipe2ModifiedArgs),
    InotifyInit1(InotifyInit1ModifiedArgs),
    Prlimit64(Prlimit64ModifiedArgs),
    Getrandom(GetrandomModifiedArgs),
    MemfdCreate(MemfdCreateModifiedArgs),
    Rseq(RseqModifiedArgs),
    PidfdOpen(PidfdOpenModifiedArgs),
    CloseRange(CloseRangeModifiedArgs),
    LandlockCreateRuleset(LandlockCreateRulesetModifiedArgs),
    Cachestat(CachestatModifiedArgs),
    Statmount(StatmountModifiedArgs),
    Unknown(UnknownArgs),
}

impl SyscallModifiedArgs {
    /// Which table entry this record belongs to; `None` for `Unknown`.
    pub open spec fn tag(self) -> Option<SyscallId> {
        match self {
            SyscallModifiedArgs::Read(_) => Some(SyscallId::Read),
            SyscallModifiedArgs::Write(_) => Some(SyscallId::Write),
            SyscallModifiedArgs::Open(_) => Some(SyscallId::Open),
            SyscallModifiedArgs::Close(_) => Some(SyscallId::Close),
            SyscallModifiedArgs::Stat(_) => Some(SyscallId::Stat),
            SyscallModifiedArgs::Fstat(_) => Some(SyscallId::Fstat),
            SyscallModifiedArgs::Lstat(_) => Some(SyscallId::Lstat),
            SyscallModifiedArgs::Lseek(_) => Some(SyscallId::Lseek),
            SyscallModifiedArgs::Mmap(_) => Some(SyscallId::Mmap),
            SyscallModifiedArgs::Mprotect(_) => Some(SyscallId::Mprotect),
            SyscallModifiedArgs::Munmap(_) => Some(SyscallId::Munmap),
            SyscallModifiedArgs::Brk(_) => Some(SyscallId::Brk),
            SyscallModifiedArgs::RtSigreturn(_) => Some(SyscallId::RtSigreturn),
            SyscallModifiedArgs::Ioctl(_) => Some(SyscallId::Ioctl),
            SyscallModifiedArgs::Pread64(_) => Some(SyscallId::Pread64),
            SyscallModifiedArgs::Pwrite64(_) => Some(SyscallId::Pwrite64),
            SyscallModifiedArgs::Access(_) => Some(SyscallId::Access),
            SyscallModifiedArgs::Pipe(_) => Some(SyscallId::Pipe),
            SyscallModifiedArgs::SchedYield(_) => Some(SyscallId::SchedYield),
            SyscallModifiedArgs::Mremap(_) => Some(SyscallId::Mremap),
            SyscallModifiedArgs::Msync(_) => Some(SyscallId::Msync),
            SyscallModifiedArgs::Madvise(_) => Some(SyscallId::Madvise),
            SyscallModifiedArgs::Shmget(_) => Some(SyscallId::Shmget),
            SyscallModifiedArgs::Shmat(_) => Some(SyscallId::Shmat),
            SyscallModifiedArgs::Dup(_) => Some(SyscallId::Dup),
            SyscallModifiedArgs::Dup2(_) => Some(SyscallId::Dup2),
            SyscallModifiedArgs::Pause(_) => Some(SyscallId::Pause),
            SyscallModifiedArgs::Nanosleep(_) => Some(SyscallId::Nanosleep),
            SyscallModifiedArgs::Alarm(_) => Some(SyscallId::Alarm),
            SyscallModifiedArgs::Getpid(_) => Some(SyscallId::Getpid),
            SyscallModifiedArgs::Socket(_) => Some(SyscallId::Socket),
            SyscallModifiedArgs::Connect(_) => Some(SyscallId::Connect),
            SyscallModifiedArgs::Accept(_) => Some(SyscallId::Accept),
            SyscallModifiedArgs::Shutdown(_) => Some(SyscallId::Shutdown),
            SyscallModifiedArgs::Bind(_) => Some(SyscallId::Bind),
            SyscallModifiedArgs::Listen(_) => Some(SyscallId::Listen),
            SyscallModifiedArgs::Getsockname(_) => Some(SyscallId::Getsockname),
            SyscallModifiedArgs::Getpeername(_) => Some(SyscallId::Getpeername),
            SyscallModifiedArgs::Socketpair(_) => Some(SyscallId::Socketpair),
            SyscallModifiedArgs::Clone(_) => Some(SyscallId::Clone),
            SyscallModifiedArgs::Execve(_) => Some(SyscallId::Execve),
            SyscallModifiedArgs::Exit(_) => Some(SyscallId::Exit),
            SyscallModifiedArgs::Kill(_) => Some(SyscallId::Kill),
            SyscallModifiedArgs::Semget(_) => Some(SyscallId::Semget),
            SyscallModifiedArgs::Semop(_) => Some(SyscallId::Semop),
            SyscallModifiedArgs::Semctl(_) => Some(SyscallId::Semctl),
            SyscallModifiedArgs::Shmdt(_) => Some(SyscallId::Shmdt),
            SyscallModifiedArgs::Msgget(_) => Some(SyscallId::Msgget),
            SyscallModifiedArgs::Msgsnd(_) => Some(SyscallId::Msgsnd),
            SyscallModifiedArgs::Fcntl(_) => Some(SyscallId::Fcntl),
            SyscallModifiedArgs::Flock(_) => Some(SyscallId::Flock),
            SyscallModifiedArgs::Fsync(_) => Some(SyscallId::Fsync),
            SyscallModifiedArgs::Fdatasync(_) => Some(SyscallId::Fdatasync),
            SyscallModifiedArgs::Truncate(_) => Some(SyscallId::Truncate),
            SyscallModifiedArgs::Ftruncate(_) => Some(SyscallId::Ftruncate),
            SyscallModifiedArgs::Getcwd(_) => Some(SyscallId::Getcwd),
            SyscallModifiedArgs::Chdir(_) => Some(SyscallId::Chdir),
            SyscallModifiedArgs::Rename(_) => Some(SyscallId::Rename),
            SyscallModifiedArgs::Mkdir(_) => Some(SyscallId::Mkdir),
            SyscallModifiedArgs::Rmdir(_) => Some(SyscallId::Rmdir),
            SyscallModifiedArgs::Creat(_) => Some(SyscallId::Creat),
            SyscallModifiedArgs::Link(_) => Some(SyscallId::Link),
            SyscallModifiedArgs::Unlink(_) => Some(SyscallId::Unlink),
            SyscallModifiedArgs::Symlink(_) => Some(SyscallId::Symlink),
            SyscallModifiedArgs::Readlink(_) => Some(SyscallId::Readlink),
            SyscallModifiedArgs::Chmod(_) => Some(SyscallId::Chmod),
            SyscallModifiedArgs::Fchmod(_) => Some(SyscallId::Fchmod),
            SyscallModifiedArgs::Chown(_) => Some(SyscallId::Chown),
            SyscallModifiedArgs::Fchown(_) => Some(SyscallId::Fchown),
            SyscallModifiedArgs::Lchown(_) => Some(SyscallId::Lchown),
            SyscallModifiedArgs::Umask(_) => Some(SyscallId::Umask),
            SyscallModifiedArgs::Gettimeofday(_) => Some(SyscallId::Gettimeofday),
            SyscallModifiedArgs::Getrlimit(_) => Some(SyscallId::Getrlimit),
            SyscallModifiedArgs::Times(_) => Some(SyscallId::Times),
            SyscallModifiedArgs::Ptrace(_) => Some(SyscallId::Ptrace),
            SyscallModifiedArgs::Getuid(_) => Some(SyscallId::Getuid),
            SyscallModifiedArgs::Getgid(_) => Some(SyscallId::Getgid),
            SyscallModifiedArgs::Setuid(_) => Some(SyscallId::Setuid),
            SyscallModifiedArgs::Setgid(_) => Some(SyscallId::Setgid),
            SyscallModifiedArgs::Geteuid(_) => Some(SyscallId::Geteuid),
            SyscallModifiedArgs::Getegid(_) => Some(SyscallId::Getegid),
            SyscallModifiedArgs::Setpgid(_) => Some(SyscallId::Setpgid),
            SyscallModifiedArgs::Getppid(_) => Some(SyscallId::Getppid),
            SyscallModifiedArgs::Setsid(_) => Some(SyscallId::Setsid),
            SyscallModifiedArgs::Setreuid(_) => Some(SyscallId::Setreuid),
            SyscallModifiedArgs::Setregid(_) => Some(SyscallId::Setregid),
            SyscallModifiedArgs::Setresuid(_) => Some(SyscallId::Setresuid),
            SyscallModifiedArgs::Getresuid(_) => Some(SyscallId::Getresuid),
            SyscallModifiedArgs::Setresgid(_) => Some(SyscallId::Setresgid),
            SyscallModifiedArgs::Getresgid(_) => Some(SyscallId::Getresgid),
            SyscallModifiedArgs::Getpgid(_) => Some(SyscallId::Getpgid),
            SyscallModifiedArgs::Getsid(_) => Some(SyscallId::Getsid),
            SyscallModifiedArgs::Capget(_) => Some(SyscallId::Capget),
            SyscallModifiedArgs::Statfs(_) => Some(SyscallId::Statfs),
            SyscallModifiedArgs::Fstatfs(_) => Some(SyscallId::Fstatfs),
            SyscallModifiedArgs::Sync(_) => Some(SyscallId::Sync),
            SyscallModifiedArgs::Settimeofday(_) => Some(SyscallId::Settimeofday),
            SyscallModifiedArgs::Umount2(_) => Some(SyscallId::Umount2),
            SyscallModifiedArgs::Sethostname(_) => Some(SyscallId::Sethostname),
            SyscallModifiedArgs::Setdomainname(_) => Some(SyscallId::Setdomainname),
            SyscallModifiedArgs::Gettid(_) => Some(SyscallId::Gettid),
            SyscallModifiedArgs::Futex(_) => Some(SyscallId::Futex),
            SyscallModifiedArgs::SchedGetaffinity(_) => Some(SyscallId::SchedGetaffinity),
            SyscallModifiedArgs::ClockSettime(_) => Some(SyscallId::ClockSettime),
            SyscallModifiedArgs::ClockGettime(_) => Some(SyscallId::ClockGettime),
            SyscallModifiedArgs::ClockGetres(_) => Some(SyscallId::ClockGetres),
            SyscallModifiedArgs::ClockNanosleep(_) => Some(SyscallId::ClockNanosleep),
            SyscallModifiedArgs::ExitGroup(_) => Some(SyscallId::ExitGroup),
            SyscallModifiedArgs::Utimes(_) => Some(SyscallId::Utimes),
            SyscallModifiedArgs::Openat(_) => Some(SyscallId::Openat),
            SyscallModifiedArgs::Mkdirat(_) => Some(SyscallId::Mkdirat),
            SyscallModifiedArgs::Fchownat(_) => Some(SyscallId::Fchownat),
            SyscallModifiedArgs::Newfstatat(_) => Some(SyscallId::Newfstatat),
            SyscallModifiedArgs::Unlinkat(_) => Some(SyscallId::Unlinkat),
            SyscallModifiedArgs::Renameat(_) => Some(SyscallId::Renameat),
            SyscallModifiedArgs::Linkat(_) => Some(SyscallId::Linkat),
            SyscallModifiedArgs::Symlinkat(_) => Some(SyscallId::Symlinkat),
            SyscallModifiedArgs::Readlinkat(_) => Some(SyscallId::Readlinkat),
            SyscallModifiedArgs::Fchmodat(_) => Some(SyscallId::Fchmodat),
            SyscallModifiedArgs::Faccessat(_) => Some(SyscallId::Faccessat),
            SyscallModifiedArgs::Accept4(_) => Some(SyscallId::Accept4),
            SyscallModifiedArgs::Eventfd2(_) => Some(SyscallId::Eventfd2),
            SyscallModifiedArgs::EpollCreate1(_) => Some(SyscallId::EpollCreate1),
            SyscallModifiedArgs::Dup3(_) => Some(SyscallId::Dup3),
            SyscallModifiedArgs::Pipe2(_) => Some(SyscallId::Pipe2),
            SyscallModifiedArgs::InotifyInit1(_) => Some(SyscallId::InotifyInit1),
            SyscallModifiedArgs::Prlimit64(_) => Some(SyscallId::Prlimit64),
            SyscallModifiedArgs::Getrandom(_) => Some(SyscallId::Getrandom),
            SyscallModifiedArgs::MemfdCreate(_) => Some(SyscallId::MemfdCreate),
            SyscallModifiedArgs::Rseq(_) => Some(SyscallId::Rseq),
            SyscallModifiedArgs::PidfdOpen(_) => Some(SyscallId::PidfdOpen),
            SyscallModifiedArgs::CloseRange(_) => Some(SyscallId::CloseRange),
            SyscallModifiedArgs::LandlockCreateRuleset(_) => Some(SyscallId::LandlockCreateRuleset),
            SyscallModifiedArgs::Cachestat(_) => Some(SyscallId::Cachestat),
            SyscallModifiedArgs::Statmount(_) => Some(SyscallId::Statmount),
            SyscallModifiedArgs::Unknown(_) => None,
        }
    }

    /// The category set declared in the table for this record's syscall;
    /// empty for `Unknown`.
    pub fn syscall_groups(&self) -> (r: GroupSet)
        ensures
            r.bits == match self.tag() {
                Some(id) => groups_of_spec(id),
                None => 0,
            },
    {
        match self {
            SyscallModifiedArgs::Read(_) => GroupSet { bits: groups_of(SyscallId::Read) },
            SyscallModifiedArgs::Write(_) => GroupSet { bits: groups_of(SyscallId::Write) },
            SyscallModifiedArgs::Open(_) => GroupSet { bits: groups_of(SyscallId::Open) },
            SyscallModifiedArgs::Close(_) => GroupSet { bits: groups_of(SyscallId::Close) },
            SyscallModifiedArgs::Stat(_) => GroupSet { bits: groups_of(SyscallId::Stat) },
            SyscallModifiedArgs::Fstat(_) => GroupSet { bits: groups_of(SyscallId::Fstat) },
            SyscallModifiedArgs::Lstat(_) => GroupSet { bits: groups_of(SyscallId::Lstat) },
            SyscallModifiedArgs::Lseek(_) => GroupSet { bits: groups_of(SyscallId::Lseek) },
            SyscallModifiedArgs::Mmap(_) => GroupSet { bits: groups_of(SyscallId::Mmap) },
            SyscallModifiedArgs::Mprotect(_) => GroupSet { bits: groups_of(SyscallId::Mprotect) },
            SyscallModifiedArgs::Munmap(_) => GroupSet { bits: groups_of(SyscallId::Munmap) },
            SyscallModifiedArgs::Brk(_) => GroupSet { bits: groups_of(SyscallId::Brk) },
            SyscallModifiedArgs::RtSigreturn(_) => GroupSet { bits: groups_of(SyscallId::RtSigreturn) },
            SyscallModifiedArgs::Ioctl(_) => GroupSet { bits: groups_of(SyscallId::Ioctl) },
            SyscallModifiedArgs::Pread64(_) => GroupSet { bits: groups_of(SyscallId::Pread64) },
            SyscallModifiedArgs::Pwrite64(_) => GroupSet { bits: groups_of(SyscallId::Pwrite64) },
            SyscallModifiedArgs::Access(_) => GroupSet { bits: groups_of(SyscallId::Access) },
            SyscallModifiedArgs::Pipe(_) => GroupSet { bits: groups_of(SyscallId::Pipe) },
            SyscallModifiedArgs::SchedYield(_) => GroupSet { bits: groups_of(SyscallId::SchedYield) },
            SyscallModifiedArgs::Mremap(_) => GroupSet { bits: groups_of(SyscallId::Mremap) },
            SyscallModifiedArgs::Msync(_) => GroupSet { bits: groups_of(SyscallId::Msync) },
            SyscallModifiedArgs::Madvise(_) => GroupSet { bits: groups_of(SyscallId::Madvise) },
            SyscallModifiedArgs::Shmget(_) => GroupSet { bits: groups_of(SyscallId::Shmget) },
            SyscallModifiedArgs::Shmat(_) => GroupSet { bits: groups_of(SyscallId::Shmat) },
            SyscallModifiedArgs::Dup(_) => GroupSet { bits: groups_of(SyscallId::Dup) },
            SyscallModifiedArgs::Dup2(_) => GroupSet { bits: groups_of(SyscallId::Dup2) },
            SyscallModifiedArgs::Pause(_) => GroupSet { bits: groups_of(SyscallId::Pause) },
            SyscallModifiedArgs::Nanosleep(_) => GroupSet { bits: groups_of(SyscallId::Nanosleep) },
            SyscallModifiedArgs::Alarm(_) => GroupSet { bits: groups_of(SyscallId::Alarm) },
            SyscallModifiedArgs::Getpid(_) => GroupSet { bits: groups_of(SyscallId::Getpid) },
            SyscallModifiedArgs::Socket(_) => GroupSet { bits: groups_of(SyscallId::Socket) },
            SyscallModifiedArgs::Connect(_) => GroupSet { bits: groups_of(SyscallId::Connect) },
            SyscallModifiedArgs::Accept(_) => GroupSet { bits: groups_of(SyscallId::Accept) },
            SyscallModifiedArgs::Shutdown(_) => GroupSet { bits: groups_of(SyscallId::Shutdown) },
            SyscallModifiedArgs::Bind(_) => GroupSet { bits: groups_of(SyscallId::Bind) },
            SyscallModifiedArgs::Listen(_) => GroupSet { bits: groups_of(SyscallId::Listen) },
            SyscallModifiedArgs::Getsockname(_) => GroupSet { bits: groups_of(SyscallId::Getsockname) },
            SyscallModifiedArgs::Getpeername(_) => GroupSet { bits: groups_of(SyscallId::Getpeername) },
            SyscallModifiedArgs::Socketpair(_) => GroupSet { bits: groups_of(SyscallId::Socketpair) },
            SyscallModifiedArgs::Clone(_) => GroupSet { bits: groups_of(SyscallId::Clone) },
            SyscallModifiedArgs::Execve(_) => GroupSet { bits: groups_of(SyscallId::Execve) },
            SyscallModifiedArgs::Exit(_) => GroupSet { bits: groups_of(SyscallId::Exit) },
            SyscallModifiedArgs::Kill(_) => GroupSet { bits: groups_of(SyscallId::Kill) },
            SyscallModifiedArgs::Semget(_) => GroupSet { bits: groups_of(SyscallId::Semget) },
            SyscallModifiedArgs::Semop(_) => GroupSet { bits: groups_of(SyscallId::Semop) },
            SyscallModifiedArgs::Semctl(_) => GroupSet { bits: groups_of(SyscallId::Semctl) },
            SyscallModifiedArgs::Shmdt(_) => GroupSet { bits: groups_of(SyscallId::Shmdt) },
            SyscallModifiedArgs::Msgget(_) => GroupSet { bits: groups_of(SyscallId::Msgget) },
            SyscallModifiedArgs::Msgsnd(_) => GroupSet { bits: groups_of(SyscallId::Msgsnd) },
            SyscallModifiedArgs::Fcntl(_) => GroupSet { bits: groups_of(SyscallId::Fcntl) },
            SyscallModifiedArgs::Flock(_) => GroupSet { bits: groups_of(SyscallId::Flock) },
            SyscallModifiedArgs::Fsync(_) => GroupSet { bits: groups_of(SyscallId::Fsync) },
            SyscallModifiedArgs::Fdatasync(_) => GroupSet { bits: groups_of(SyscallId::Fdatasync) },
            SyscallModifiedArgs::Truncate(_) => GroupSet { bits: groups_of(SyscallId::Truncate) },
            SyscallModifiedArgs::Ftruncate(_) => GroupSet { bits: groups_of(SyscallId::Ftruncate) },
            SyscallModifiedArgs::Getcwd(_) => GroupSet { bits: groups_of(SyscallId::Getcwd) },
            SyscallModifiedArgs::Chdir(_) => GroupSet { bits: groups_of(SyscallId::Chdir) },
            SyscallModifiedArgs::Rename(_) => GroupSet { bits: groups_of(SyscallId::Rename) },
            SyscallModifiedArgs::Mkdir(_) => GroupSet { bits: groups_of(SyscallId::Mkdir) },
            SyscallModifiedArgs::Rmdir(_) => GroupSet { bits: groups_of(SyscallId::Rmdir) },
            SyscallModifiedArgs::Creat(_) => GroupSet { bits: groups_of(SyscallId::Creat) },
            SyscallModifiedArgs::Link(_) => GroupSet { bits: groups_of(SyscallId::Link) },
            SyscallModifiedArgs::Unlink(_) => GroupSet { bits: groups_of(SyscallId::Unlink) },
            SyscallModifiedArgs::Symlink(_) => GroupSet { bits: groups_of(SyscallId::Symlink) },
            SyscallModifiedArgs::Readlink(_) => GroupSet { bits: groups_of(SyscallId::Readlink) },
            SyscallModifiedArgs::Chmod(_) => GroupSet { bits: groups_of(SyscallId::Chmod) },
            SyscallModifiedArgs::Fchmod(_) => GroupSet { bits: groups_of(SyscallId::Fchmod) },
            SyscallModifiedArgs::Chown(_) => GroupSet { bits: groups_of(SyscallId::Chown) },
            SyscallModifiedArgs::Fchown(_) => GroupSet { bits: groups_of(SyscallId::Fchown) },
            SyscallModifiedArgs::Lchown(_) => GroupSet { bits: groups_of(SyscallId::Lchown) },
            SyscallModifiedArgs::Umask(_) => GroupSet { bits: groups_of(SyscallId::Umask) },
            SyscallModifiedArgs::Gettimeofday(_) => GroupSet { bits: groups_of(SyscallId::Gettimeofday) },
            SyscallModifiedArgs::Getrlimit(_) => GroupSet { bits: groups_of(SyscallId::Getrlimit) },
            SyscallModifiedArgs::Times(_) => GroupSet { bits: groups_of(SyscallId::Times) },
            SyscallModifiedArgs::Ptrace(_) => GroupSet { bits: groups_of(SyscallId::Ptrace) },
            SyscallModifiedArgs::Getuid(_) => GroupSet { bits: groups_of(SyscallId::Getuid) },
            SyscallModifiedArgs::Getgid(_) => GroupSet { bits: groups_of(SyscallId::Getgid) },
            SyscallModifiedArgs::Setuid(_) => GroupSet { bits: groups_of(SyscallId::Setuid) },
            SyscallModifiedArgs::Setgid(_) => GroupSet { bits: groups_of(SyscallId::Setgid) },
            SyscallModifiedArgs::Geteuid(_) => GroupSet { bits: groups_of(SyscallId::Geteuid) },
            SyscallModifiedArgs::Getegid(_) => GroupSet { bits: groups_of(SyscallId::Getegid) },
            SyscallModifiedArgs::Setpgid(_) => GroupSet { bits: groups_of(SyscallId::Setpgid) },
            SyscallModifiedArgs::Getppid(_) => GroupSet { bits: groups_of(SyscallId::Getppid) },
            SyscallModifiedArgs::Setsid(_) => GroupSet { bits: groups_of(SyscallId::Setsid) },
            SyscallModifiedArgs::Setreuid(_) => GroupSet { bits: groups_of(SyscallId::Setreuid) },
            SyscallModifiedArgs::Setregid(_) => GroupSet { bits: groups_of(SyscallId::Setregid) },
            SyscallModifiedArgs::Setresuid(_) => GroupSet { bits: groups_of(SyscallId::Setresuid) },
            SyscallModifiedArgs::Getresuid(_) => GroupSet { bits: groups_of(SyscallId::Getresuid) },
            SyscallModifiedArgs::Setresgid(_) => GroupSet { bits: groups_of(SyscallId::Setresgid) },
            SyscallModifiedArgs::Getresgid(_) => GroupSet { bits: groups_of(SyscallId::Getresgid) },
            SyscallModifiedArgs::Getpgid(_) => GroupSet { bits: groups_of(SyscallId::Getpgid) },
            SyscallModifiedArgs::Getsid(_) => GroupSet { bits: groups_of(SyscallId::Getsid) },
            SyscallModifiedArgs::Capget(_) => GroupSet { bits: groups_of(SyscallId::Capget) },
            SyscallModifiedArgs::Statfs(_) => GroupSet { bits: groups_of(SyscallId::Statfs) },
            SyscallModifiedArgs::Fstatfs(_) => GroupSet { bits: groups_of(SyscallId::Fstatfs) },
            SyscallModifiedArgs::Sync(_) => GroupSet { bits: groups_of(SyscallId::Sync) },
            SyscallModifiedArgs::Settimeofday(_) => GroupSet { bits: groups_of(SyscallId::Settimeofday) },
            SyscallModifiedArgs::Umount2(_) => GroupSet { bits: groups_of(SyscallId::Umount2) },
            SyscallModifiedArgs::Sethostname(_) => GroupSet { bits: groups_of(SyscallId::Sethostname) },
            SyscallModifiedArgs::Setdomainname(_) => GroupSet { bits: groups_of(SyscallId::Setdomainname) },
            SyscallModifiedArgs::Gettid(_) => GroupSet { bits: groups_of(SyscallId::Gettid) },
            SyscallModifiedArgs::Futex(_) => GroupSet { bits: groups_of(SyscallId::Futex) },
            SyscallModifiedArgs::SchedGetaffinity(_) => GroupSet { bits: groups_of(SyscallId::SchedGetaffinity) },
            SyscallModifiedArgs::ClockSettime(_) => GroupSet { bits: groups_of(SyscallId::ClockSettime) },
            SyscallModifiedArgs::ClockGettime(_) => GroupSet { bits: groups_of(SyscallId::ClockGettime) },
            SyscallModifiedArgs::ClockGetres(_) => GroupSet { bits: groups_of(SyscallId::ClockGetres) },
            SyscallModifiedArgs::ClockNanosleep(_) => GroupSet { bits: groups_of(SyscallId::ClockNanosleep) },
            SyscallModifiedArgs::ExitGroup(_) => GroupSet { bits: groups_of(SyscallId::ExitGroup) },
            SyscallModifiedArgs::Utimes(_) => GroupSet { bits: groups_of(SyscallId::Utimes) },
            SyscallModifiedArgs::Openat(_) => GroupSet { bits: groups_of(SyscallId::Openat) },
            SyscallModifiedArgs::Mkdirat(_) => GroupSet { bits: groups_of(SyscallId::Mkdirat) },
            SyscallModifiedArgs::Fchownat(_) => GroupSet { bits: groups_of(SyscallId::Fchownat) },
            SyscallModifiedArgs::Newfstatat(_) => GroupSet { bits: groups_of(SyscallId::Newfstatat) },
            SyscallModifiedArgs::Unlinkat(_) => GroupSet { bits: groups_of(SyscallId::Unlinkat) },
            SyscallModifiedArgs::Renameat(_) => GroupSet { bits: groups_of(SyscallId::Renameat) },
            SyscallModifiedArgs::Linkat(_) => GroupSet { bits: groups_of(SyscallId::Linkat) },
            SyscallModifiedArgs::Symlinkat(_) => GroupSet { bits: groups_of(SyscallId::Symlinkat) },
            SyscallModifiedArgs::Readlinkat(_) => GroupSet { bits: groups_of(SyscallId::Readlinkat) },
            SyscallModifiedArgs::Fchmodat(_) => GroupSet { bits: groups_of(SyscallId::Fchmodat) },
            SyscallModifiedArgs::Faccessat(_) => GroupSet { bits: groups_of(SyscallId::Faccessat) },
            SyscallModifiedArgs::Accept4(_) => GroupSet { bits: groups_of(SyscallId::Accept4) },
            SyscallModifiedArgs::Eventfd2(_) => GroupSet { bits: groups_of(SyscallId::Eventfd2) },
            SyscallModifiedArgs::EpollCreate1(_) => GroupSet { bits: groups_of(SyscallId::EpollCreate1) },
            SyscallModifiedArgs::Dup3(_) => GroupSet { bits: groups_of(SyscallId::Dup3) },
            SyscallModifiedArgs::Pipe2(_) => GroupSet { bits: groups_of(SyscallId::Pipe2) },
            SyscallModifiedArgs::InotifyInit1(_) => GroupSet { bits: groups_of(SyscallId::InotifyInit1) },
            SyscallModifiedArgs::Prlimit64(_) => GroupSet { bits: groups_of(SyscallId::Prlimit64) },
            SyscallModifiedArgs::Getrandom(_) => GroupSet { bits: groups_of(SyscallId::Getrandom) },
            SyscallModifiedArgs::MemfdCreate(_) => GroupSet { bits: groups_of(SyscallId::MemfdCreate) },
            SyscallModifiedArgs::Rseq(_) => GroupSet { bits: groups_of(SyscallId::Rseq) },
            SyscallModifiedArgs::PidfdOpen(_) => GroupSet { bits: groups_of(SyscallId::PidfdOpen) },
            SyscallModifiedArgs::CloseRange(_) => GroupSet { bits: groups_of(SyscallId::CloseRange) },
            SyscallModifiedArgs::LandlockCreateRuleset(_) => GroupSet { bits: groups_of(SyscallId::LandlockCreateRuleset) },
            SyscallModifiedArgs::Cachestat(_) => GroupSet { bits: groups_of(SyscallId::Cachestat) },
            SyscallModifiedArgs::Statmount(_) => GroupSet { bits: groups_of(SyscallId::Statmount) },
            SyscallModifiedArgs::Unknown(_) => GroupSet::empty(),
        }
    }
}

/// Whether the result slot signals failure for the syscall `id`: negative
/// in the syscall's declared result type.  Syscalls returning an unsigned
/// or unit result never signal failure this way.
pub open spec fn syscall_result_failed(id: SyscallId, res: u64) -> bool {
    match id {
        SyscallId::Read => (res as i64) < 0,
        SyscallId::Write => (res as i64) < 0,
        SyscallId::Open => (res as i32) < 0,
        SyscallId::Close => (res as i32) < 0,
        SyscallId::Stat => (res as i32) < 0,
        SyscallId::Fstat => (res as i32) < 0,
        SyscallId::Lstat => (res as i32) < 0,
        SyscallId::Lseek => (res as i64) < 0,
        SyscallId::Mmap => (res as i64) < 0,
        SyscallId::Mprotect => (res as i32) < 0,
        SyscallId::Munmap => (res as i32) < 0,
        SyscallId::Brk => (res as i32) < 0,
        SyscallId::RtSigreturn => (res as i64) < 0,
        SyscallId::Ioctl => (res as i32) < 0,
        SyscallId::Pread64 => (res as i64) < 0,
        SyscallId::Pwrite64 => (res as i64) < 0,
        SyscallId::Access => (res as i32) < 0,
        SyscallId::Pipe => (res as i32) < 0,
        SyscallId::SchedYield => (res as i32) < 0,
        SyscallId::Mremap => (res as i64) < 0,
        SyscallId::Msync => (res as i32) < 0,
        SyscallId::Madvise => (res as i32) < 0,
        SyscallId::Shmget => (res as i32) < 0,
        SyscallId::Shmat => (res as i64) < 0,
        SyscallId::Dup => (res as i32) < 0,
        SyscallId::Dup2 => (res as i32) < 0,
        SyscallId::Pause => (res as i32) < 0,
        SyscallId::Nanosleep => (res as i32) < 0,
        SyscallId::Alarm => false,
        SyscallId::Getpid => (res as i32) < 0,
        SyscallId::Socket => (res as i32) < 0,
        SyscallId::Connect => (res as i32) < 0,
        SyscallId::Accept => (res as i32) < 0,
        SyscallId::Shutdown => (res as i32) < 0,
        SyscallId::Bind => (res as i32) < 0,
        SyscallId::Listen => (res as i32) < 0,
        SyscallId::Getsockname => (res as i32) < 0,
        SyscallId::Getpeername => (res as i32) < 0,
        SyscallId::Socketpair => (res as i32) < 0,
        SyscallId::Clone => (res as i64) < 0,
        SyscallId::Execve => (res as i32) < 0,
        SyscallId::Exit => false,
        SyscallId::Kill => (res as i32) < 0,
        SyscallId::Semget => (res as i32) < 0,
        SyscallId::Semop => (res as i32) < 0,
        SyscallId::Semctl => (res as i32) < 0,
        SyscallId::Shmdt => (res as i32) < 0,
        SyscallId::Msgget => (res as i32) < 0,
        SyscallId::Msgsnd => (res as i32) < 0,
        SyscallId::Fcntl => (res as i32) < 0,
        SyscallId::Flock => (res as i32) < 0,
        SyscallId::Fsync => (res as i32) < 0,
        SyscallId::Fdatasync => (res as i32) < 0,
        SyscallId::Truncate => (res as i32) < 0,
        SyscallId::Ftruncate => (res as i32) < 0,
        SyscallId::Getcwd => (res as i64) < 0,
        SyscallId::Chdir => (res as i32) < 0,
        SyscallId::Rename => (res as i32) < 0,
        SyscallId::Mkdir => (res as i32) < 0,
        SyscallId::Rmdir => (res as i32) < 0,
        SyscallId::Creat => (res as i32) < 0,
        SyscallId::Link => (res as i32) < 0,
        SyscallId::Unlink => (res as i32) < 0,
        SyscallId::Symlink => (res as i32) < 0,
        SyscallId::Readlink => (res as i64) < 0,
        SyscallId::Chmod => (res as i32) < 0,
        SyscallId::Fchmod => (res as i32) < 0,
        SyscallId::Chown => (res as i32) < 0,
        SyscallId::Fchown => (res as i32) < 0,
        SyscallId::Lchown => (res as i32) < 0,
        SyscallId::Umask => false,
        SyscallId::Gettimeofday => (res as i32) < 0,
        SyscallId::Getrlimit => (res as i32) < 0,
        SyscallId::Times => (res as i64) < 0,
        SyscallId::Ptrace => (res as i64) < 0,
        SyscallId::Getuid => false,
        SyscallId::Getgid => false,
        SyscallId::Setuid => (res as i32) < 0,
        SyscallId::Setgid => (res as i32) < 0,
        SyscallId::Geteuid => false,
        SyscallId::Getegid => false,
        SyscallId::Setpgid => (res as i32) < 0,
        SyscallId::Getppid => (res as i32) < 0,
        SyscallId::Setsid => (res as i32) < 0,
        SyscallId::Setreuid => (res as i32) < 0,
        SyscallId::Setregid => (res as i32) < 0,
        SyscallId::Setresuid => (res as i32) < 0,
        SyscallId::Getresuid => (res as i32) < 0,
        SyscallId::Setresgid => (res as i32) < 0,
        SyscallId::Getresgid => (res as i32) < 0,
        SyscallId::Getpgid => (res as i32) < 0,
        SyscallId::Getsid => (res as i32) < 0,
        SyscallId::Capget => (res as i32) < 0,
        SyscallId::Statfs => (res as i32) < 0,
        SyscallId::Fstatfs => (res as i32) < 0,
        SyscallId::Sync => (res as i32) < 0,
        SyscallId::Settimeofday => (res as i32) < 0,
        SyscallId::Umount2 => (res as i32) < 0,
        SyscallId::Sethostname => (res as i32) < 0,
        SyscallId::Setdomainname => (res as i32) < 0,
        SyscallId::Gettid => (res as i32) < 0,
        SyscallId::Futex => (res as i64) < 0,
        SyscallId::SchedGetaffinity => (res as i32) < 0,
        SyscallId::ClockSettime => (res as i32) < 0,
        SyscallId::ClockGettime => (res as i32) < 0,
        SyscallId::ClockGetres => (res as i32) < 0,
        SyscallId::ClockNanosleep => (res as i32) < 0,
        SyscallId::ExitGroup => false,
        SyscallId::Utimes => (res as i32) < 0,
        SyscallId::Openat => (res as i32) < 0,
        SyscallId::Mkdirat => (res as i32) < 0,
        SyscallId::Fchownat => (res as i32) < 0,
        SyscallId::Newfstatat => (res as i32) < 0,
        SyscallId::Unlinkat => (res as i32) < 0,
        SyscallId::Renameat => (res as i32) < 0,
        SyscallId::Linkat => (res as i32) < 0,
        SyscallId::Symlinkat => (res as i32) < 0,
        SyscallId::Readlinkat => (res as i64) < 0,
        SyscallId::Fchmodat => (res as i32) < 0,
        SyscallId::Faccessat => (res as i32) < 0,
        SyscallId::Accept4 => (res as i32) < 0,
        SyscallId::Eventfd2 => (res as i32) < 0,
        SyscallId::EpollCreate1 => (res as i32) < 0,
        SyscallId::Dup3 => (res as i32) < 0,
        SyscallId::Pipe2 => (res as i32) < 0,
        SyscallId::InotifyInit1 => (res as i32) < 0,
        SyscallId::Prlimit64 => (res as i32) < 0,
        SyscallId::Getrandom => (res as i64) < 0,
        SyscallId::MemfdCreate => (res as i32) < 0,
        SyscallId::Rseq => (res as i32) < 0,
        SyscallId::PidfdOpen => (res as i32) < 0,
        SyscallId::CloseRange => (res as i32) < 0,
        SyscallId::LandlockCreateRuleset => (res as i32) < 0,
        SyscallId::Cachestat => (res as i32) < 0,
        SyscallId::Statmount => (res as i32) < 0,
    }
}

/// Every output field of the exit record is the syscall-failed outcome,
/// with no partial value; trivial for records without output fields.
pub open spec fn exit_all_failed(r: SyscallModifiedArgs) -> bool {
    match r {
        SyscallModifiedArgs::Read(x) => x.buf matches Err(InspectError::SyscallFailure),
        SyscallModifiedArgs::Write(_) => true,
        SyscallModifiedArgs::Open(_) => true,
        SyscallModifiedArgs::Close(_) => true,
        SyscallModifiedArgs::Stat(x) => x.statbuf matches Err(InspectError::SyscallFailure),
        SyscallModifiedArgs::Fstat(x) => x.statbuf matches Err(InspectError::SyscallFailure),
        SyscallModifiedArgs::Lstat(x) => x.statbuf matches Err(InspectError::SyscallFailure),
        SyscallModifiedArgs::Lseek(_) => true,
        SyscallModifiedArgs::Mmap(_) => true,
        SyscallModifiedArgs::Mprotect(_) => true,
        SyscallModifiedArgs::Munmap(_) => true,
        SyscallModifiedArgs::Brk(_) => true,
        SyscallModifiedArgs::RtSigreturn(_) => true,
        SyscallModifiedArgs::Ioctl(_) => true,
        SyscallModifiedArgs::Pread64(x) => x.buf matches Err(InspectError::SyscallFailure),
        SyscallModifiedArgs::Pwrite64(_) => true,
        SyscallModifiedArgs::Access(_) => true,
        SyscallModifiedArgs::Pipe(x) => x.pipefd matches Err(InspectError::SyscallFailure),
        SyscallModifiedArgs::SchedYield(_) => true,
        SyscallModifiedArgs::Mremap(_) => true,
        SyscallModifiedArgs::Msync(_) => true,
        SyscallModifiedArgs::Madvise(_) => true,
        SyscallModifiedArgs::Shmget(_) => true,
        SyscallModifiedArgs::Shmat(_) => true,
        SyscallModifiedArgs::Dup(_) => true,
        SyscallModifiedArgs::Dup2(_) => true,
        SyscallModifiedArgs::Pause(_) => true,
        SyscallModifiedArgs::Nanosleep(x) => x.rem matches Err(InspectError::SyscallFailure),
        SyscallModifiedArgs::Alarm(_) => true,
        SyscallModifiedArgs::Getpid(_) => true,
        SyscallModifiedArgs::Socket(_) => true,
        SyscallModifiedArgs::Connect(_) => true,
        SyscallModifiedArgs::Accept(x) => x.addr matches Err(InspectError::SyscallFailure) && x.addrlen matches Err(InspectError::SyscallFailure),
        SyscallModifiedArgs::Shutdown(_) => true,
        SyscallModifiedArgs::Bind(_) => true,
        SyscallModifiedArgs::Listen(_) => true,
        SyscallModifiedArgs::Getsockname(x) => x.addr matches Err(InspectError::SyscallFailure) && x.addrlen matches Err(InspectError::SyscallFailure),
        SyscallModifiedArgs::Getpeername(x) => x.addr matches Err(InspectError::SyscallFailure) && x.addrlen matches Err(InspectError::SyscallFailure),
        SyscallModifiedArgs::Socketpair(x) => x.sv matches Err(InspectError::SyscallFailure),
        SyscallModifiedArgs::Clone(x) => x.parent_tid matches Err(InspectError::SyscallFailure) && x.child_tid matches Err(InspectError::SyscallFailure),
        SyscallModifiedArgs::Execve(_) => true,
        SyscallModifiedArgs::Exit(_) => true,
        SyscallModifiedArgs::Kill(_) => true,
        SyscallModifiedArgs::Semget(_) => true,
        SyscallModifiedArgs::Semop(_) => true,
        SyscallModifiedArgs::Semctl(_) => true,
        SyscallModifiedArgs::Shmdt(_) => true,
        SyscallModifiedArgs::Msgget(_) => true,
        SyscallModifiedArgs::Msgsnd(_) => true,
        SyscallModifiedArgs::Fcntl(_) => true,
        SyscallModifiedArgs::Flock(_) => true,
        SyscallModifiedArgs::Fsync(_) => true,
        SyscallModifiedArgs::Fdatasync(_) => true,
        SyscallModifiedArgs::Truncate(_) => true,
        SyscallModifiedArgs::Ftruncate(_) => true,
        SyscallModifiedArgs::Getcwd(x) => x.buf matches Err(InspectError::SyscallFailure),
        SyscallModifiedArgs::Chdir(_) => true,
        SyscallModifiedArgs::Rename(_) => true,
        SyscallModifiedArgs::Mkdir(_) => true,
        SyscallModifiedArgs::Rmdir(_) => true,
        SyscallModifiedArgs::Creat(_) => true,
        SyscallModifiedArgs::Link(_) => true,
        SyscallModifiedArgs::Unlink(_) => true,
        SyscallModifiedArgs::Symlink(_) => true,
        SyscallModifiedArgs::Readlink(x) => x.buf matches Err(InspectError::SyscallFailure),
        SyscallModifiedArgs::Chmod(_) => true,
        SyscallModifiedArgs::Fchmod(_) => true,
        SyscallModifiedArgs::Chown(_) => true,
        SyscallModifiedArgs::Fchown(_) => true,
        SyscallModifiedArgs::Lchown(_) => true,
        SyscallModifiedArgs::Umask(_) => true,
        SyscallModifiedArgs::Gettimeofday(x) => x.tv matches Err(InspectError::SyscallFailure) && x.tz matches Err(InspectError::SyscallFailure),
        SyscallModifiedArgs::Getrlimit(x) => x.rlim matches Err(InspectError::SyscallFailure),
        SyscallModifiedArgs::Times(x) => x.buf matches Err(InspectError::SyscallFailure),
        SyscallModifiedArgs::Ptrace(_) => true,
        SyscallModifiedArgs::Getuid(_) => true,
        SyscallModifiedArgs::Getgid(_) => true,
        SyscallModifiedArgs::Setuid(_) => true,
        SyscallModifiedArgs::Setgid(_) => true,
        SyscallModifiedArgs::Geteuid(_) => true,
        SyscallModifiedArgs::Getegid(_) => true,
        SyscallModifiedArgs::Setpgid(_) => true,
        SyscallModifiedArgs::Getppid(_) => true,
        SyscallModifiedArgs::Setsid(_) => true,
        SyscallModifiedArgs::Setreuid(_) => true,
        SyscallModifiedArgs::Setregid(_) => true,
        SyscallModifiedArgs::Setresuid(_) => true,
        SyscallModifiedArgs::Getresuid(x) => x.ruid matches Err(InspectError::SyscallFailure) && x.euid matches Err(InspectError::SyscallFailure) && x.suid matches Err(InspectError::SyscallFailure),
        SyscallModifiedArgs::Setresgid(_) => true,
        SyscallModifiedArgs::Getresgid(x) => x.rgid matches Err(InspectError::SyscallFailure) && x.egid matches Err(InspectError::SyscallFailure) && x.sgid matches Err(InspectError::SyscallFailure),
        SyscallModifiedArgs::Getpgid(_) => true,
        SyscallModifiedArgs::Getsid(_) => true,
        SyscallModifiedArgs::Capget(x) => x.hdrp matches Err(InspectError::SyscallFailure) && x.datap matches Err(InspectError::SyscallFailure),
        SyscallModifiedArgs::Statfs(x) => x.buf matches Err(InspectError::SyscallFailure),
        SyscallModifiedArgs::Fstatfs(x) => x.buf matches Err(InspectError::SyscallFailure),
        SyscallModifiedArgs::Sync(_) => true,
        SyscallModifiedArgs::Settimeofday(_) => true,
        SyscallModifiedArgs::Umount2(_) => true,
        SyscallModifiedArgs::Sethostname(_) => true,
        SyscallModifiedArgs::Setdomainname(_) => true,
        SyscallModifiedArgs::Gettid(_) => true,
        SyscallModifiedArgs::Futex(x) => x.uaddr matches Err(InspectError::SyscallFailure) && x.uaddr2 matches Err(InspectError::SyscallFailure),
        SyscallModifiedArgs::SchedGetaffinity(_) => true,
        SyscallModifiedArgs::ClockSettime(_) => true,
        SyscallModifiedArgs::ClockGettime(x) => x.tp matches Err(InspectError::SyscallFailure),
        SyscallModifiedArgs::ClockGetres(x) => x.res matches Err(InspectError::SyscallFailure),
        SyscallModifiedArgs::ClockNanosleep(x) => x.remain matches Err(InspectError::SyscallFailure),
        SyscallModifiedArgs::ExitGroup(_) => true,
        SyscallModifiedArgs::Utimes(_) => true,
        SyscallModifiedArgs::Openat(_) => true,
        SyscallModifiedArgs::Mkdirat(_) => true,
        SyscallModifiedArgs::Fchownat(_) => true,
        SyscallModifiedArgs::Newfstatat(x) => x.statbuf matches Err(InspectError::SyscallFailure),
        SyscallModifiedArgs::Unlinkat(_) => true,
        SyscallModifiedArgs::Renameat(_) => true,
        SyscallModifiedArgs::Linkat(_) => true,
        SyscallModifiedArgs::Symlinkat(_) => true,
        SyscallModifiedArgs::Readlinkat(x) => x.buf matches Err(InspectError::SyscallFailure),
        SyscallModifiedArgs::Fchmodat(_) => true,
        SyscallModifiedArgs::Faccessat(_) => true,
        SyscallModifiedArgs::Accept4(x) => x.addr matches Err(InspectError::SyscallFailure) && x.addrlen matches Err(InspectError::SyscallFailure),
        SyscallModifiedArgs::Eventfd2(_) => true,
        SyscallModifiedArgs::EpollCreate1(_) => true,
        SyscallModifiedArgs::Dup3(_) => true,
        SyscallModifiedArgs::Pipe2(x) => x.pipefd matches Err(InspectError::SyscallFailure),
        SyscallModifiedArgs::InotifyInit1(_) => true,
        SyscallModifiedArgs::Prlimit64(x) => x.old_limit matches Err(InspectError::SyscallFailure),
        SyscallModifiedArgs::Getrandom(x) => x.buf matches Err(InspectError::SyscallFailure),
        SyscallModifiedArgs::MemfdCreate(_) => true,
        SyscallModifiedArgs::Rseq(_) => true,
        SyscallModifiedArgs::PidfdOpen(_) => true,
        SyscallModifiedArgs::CloseRange(_) => true,
        SyscallModifiedArgs::LandlockCreateRuleset(_) => true,
        SyscallModifiedArgs::Cachestat(_) => true,
        SyscallModifiedArgs::Statmount(x) => x.buf matches Err(InspectError::SyscallFailure),
        SyscallModifiedArgs::Unknown(_) => true,
    }
}

/// What exit decoding promises, per syscall: the result slot cast to the
/// declared result type; on failure every output is the syscall-failed
/// outcome, and on success every output's outcome satisfies the contract of
/// its shape's reader against the raw slot's address.
pub open spec fn exit_post<M: TraceeMem>(
    raw: SyscallRawArgs,
    m: M,
    regs: RegisterSnapshot,
    r: SyscallModifiedArgs,
) -> bool {
    match raw {
        SyscallRawArgs::Read(a) => r matches SyscallModifiedArgs::Read(x) && x.syscall_result == regs.result as i64 && (if syscall_result_failed(
            SyscallId::Read,
            regs.result,
        ) {
            x.buf matches Err(InspectError::SyscallFailure)
        } else {
            counted_post(m, a.buf, ((regs.result as i64) as usize) as int, x.buf)
        }),
        SyscallRawArgs::Write(_) => r matches SyscallModifiedArgs::Write(x) && x.syscall_result == regs.result as i64,
        SyscallRawArgs::Open(_) => r matches SyscallModifiedArgs::Open(x) && x.syscall_result == regs.result as i32,
        SyscallRawArgs::Close(_) => r matches SyscallModifiedArgs::Close(x) && x.syscall_result == regs.result as i32,
        SyscallRawArgs::Stat(a) => r matches SyscallModifiedArgs::Stat(x) && x.syscall_result == regs.result as i32 && (if syscall_result_failed(
            SyscallId::Stat,
            regs.result,
        ) {
            x.statbuf matches Err(InspectError::SyscallFailure)
        } else {
            stat_post(m, regs.arch, a.statbuf, x.statbuf)
        }),
        SyscallRawArgs::Fstat(a) => r matches SyscallModifiedArgs::Fstat(x) && x.syscall_result == regs.result as i32 && (if syscall_result_failed(
            SyscallId::Fstat,
            regs.result,
        ) {
            x.statbuf matches Err(InspectError::SyscallFailure)
        } else {
            stat_post(m, regs.arch, a.statbuf, x.statbuf)
        }),
        SyscallRawArgs::Lstat(a) => r matches SyscallModifiedArgs::Lstat(x) && x.syscall_result == regs.result as i32 && (if syscall_result_failed(
            SyscallId::Lstat,
            regs.result,
        ) {
            x.statbuf matches Err(InspectError::SyscallFailure)
        } else {
            stat_post(m, regs.arch, a.statbuf, x.statbuf)
        }),
        SyscallRawArgs::Lseek(_) => r matches SyscallModifiedArgs::Lseek(x) && x.syscall_result == regs.result as i64,
        SyscallRawArgs::Mmap(_) => r matches SyscallModifiedArgs::Mmap(x) && x.syscall_result == regs.result,
        SyscallRawArgs::Mprotect(_) => r matches SyscallModifiedArgs::Mprotect(x) && x.syscall_result == regs.result as i32,
        SyscallRawArgs::Munmap(_) => r matches SyscallModifiedArgs::Munmap(x) && x.syscall_result == regs.result as i32,
        SyscallRawArgs::Brk(_) => r matches SyscallModifiedArgs::Brk(x) && x.syscall_result == regs.result as i32,
        SyscallRawArgs::RtSigreturn(_) => r matches SyscallModifiedArgs::RtSigreturn(x) && x.syscall_result == regs.result as i64,
        SyscallRawArgs::Ioctl(_) => r matches SyscallModifiedArgs::Ioctl(x) && x.syscall_result == regs.result as i32,
        SyscallRawArgs::Pread64(a) => r matches SyscallModifiedArgs::Pread64(x) && x.syscall_result == regs.result as i64 && (if syscall_result_failed(
            SyscallId::Pread64,
            regs.result,
        ) {
            x.buf matches Err(InspectError::SyscallFailure)
        } else {
            counted_post(m, a.buf, ((regs.result as i64) as usize) as int, x.buf)
        }),
        SyscallRawArgs::Pwrite64(_) => r matches SyscallModifiedArgs::Pwrite64(x) && x.syscall_result == regs.result as i64,
        SyscallRawArgs::Access(_) => r matches SyscallModifiedArgs::Access(x) && x.syscall_result == regs.result as i32,
        SyscallRawArgs::Pipe(a) => r matches SyscallModifiedArgs::Pipe(x) && x.syscall_result == regs.result as i32 && (if syscall_result_failed(
            SyscallId::Pipe,
            regs.result,
        ) {
            x.pipefd matches Err(InspectError::SyscallFailure)
        } else {
            i32_pair_post(m, a.pipefd, x.pipefd)
        }),
        SyscallRawArgs::SchedYield(_) => r matches SyscallModifiedArgs::SchedYield(x) && x.syscall_result == regs.result as i32,
        SyscallRawArgs::Mremap(_) => r matches SyscallModifiedArgs::Mremap(x) && x.syscall_result == regs.result,
        SyscallRawArgs::Msync(_) => r matches SyscallModifiedArgs::Msync(x) && x.syscall_result == regs.result as i32,
        SyscallRawArgs::Madvise(_) => r matches SyscallModifiedArgs::Madvise(x) && x.syscall_result == regs.result as i32,
        SyscallRawArgs::Shmget(_) => r matches SyscallModifiedArgs::Shmget(x) && x.syscall_result == regs.result as i32,
        SyscallRawArgs::Shmat(_) => r matches SyscallModifiedArgs::Shmat(x) && x.syscall_result == regs.result,
        SyscallRawArgs::Dup(_) => r matches SyscallModifiedArgs::Dup(x) && x.syscall_result == regs.result as i32,
        SyscallRawArgs::Dup2(_) => r matches SyscallModifiedArgs::Dup2(x) && x.syscall_result == regs.result as i32,
        SyscallRawArgs::Pause(_) => r matches SyscallModifiedArgs::Pause(x) && x.syscall_result == regs.result as i32,
        SyscallRawArgs::Nanosleep(a) => r matches SyscallModifiedArgs::Nanosleep(x) && x.syscall_result == regs.result as i32 && (if syscall_result_failed(
            SyscallId::Nanosleep,
            regs.result,
        ) {
            x.rem matches Err(InspectError::SyscallFailure)
        } else {
            timespec_opt_post(m, a.rem, x.rem)
        }),
        SyscallRawArgs::Alarm(_) => r matches SyscallModifiedArgs::Alarm(x) && x.syscall_result == regs.result as u32,
        SyscallRawArgs::Getpid(_) => r matches SyscallModifiedArgs::Getpid(x) && x.syscall_result == regs.result as i32,
        SyscallRawArgs::Socket(_) => r matches SyscallModifiedArgs::Socket(x) && x.syscall_result == regs.result as i32,
        SyscallRawArgs::Connect(_) => r matches SyscallModifiedArgs::Connect(x) && x.syscall_result == regs.result as i32,
        SyscallRawArgs::Accept(a) => r matches SyscallModifiedArgs::Accept(x) && x.syscall_result == regs.result as i32 && (if syscall_result_failed(
            SyscallId::Accept,
            regs.result,
        ) {
            x.addr matches Err(InspectError::SyscallFailure) && x.addrlen matches Err(InspectError::SyscallFailure)
        } else {
            sockaddr_post(m, a.addr, x.addr) && u32_value_post(m, a.addrlen, x.addrlen)
        }),
        SyscallRawArgs::Shutdown(_) => r matches SyscallModifiedArgs::Shutdown(x) && x.syscall_result == regs.result as i32,
        SyscallRawArgs::Bind(_) => r matches SyscallModifiedArgs::Bind(x) && x.syscall_result == regs.result as i32,
        SyscallRawArgs::Listen(_) => r matches SyscallModifiedArgs::Listen(x) && x.syscall_result == regs.result as i32,
        SyscallRawArgs::Getsockname(a) => r matches SyscallModifiedArgs::Getsockname(x) && x.syscall_result == regs.result as i32 && (if syscall_result_failed(
            SyscallId::Getsockname,
            regs.result,
        ) {
            x.addr matches Err(InspectError::SyscallFailure) && x.addrlen matches Err(InspectError::SyscallFailure)
        } else {
            sockaddr_post(m, a.addr, x.addr) && u32_value_post(m, a.addrlen, x.addrlen)
        }),
        SyscallRawArgs::Getpeername(a) => r matches SyscallModifiedArgs::Getpeername(x) && x.syscall_result == regs.result as i32 && (if syscall_result_failed(
            SyscallId::Getpeername,
            regs.result,
        ) {
            x.addr matches Err(InspectError::SyscallFailure) && x.addrlen matches Err(InspectError::SyscallFailure)
        } else {
            sockaddr_post(m, a.addr, x.addr) && u32_value_post(m, a.addrlen, x.addrlen)
        }),
        SyscallRawArgs::Socketpair(a) => r matches SyscallModifiedArgs::Socketpair(x) && x.syscall_result == regs.result as i32 && (if syscall_result_failed(
            SyscallId::Socketpair,
            regs.result,
        ) {
            x.sv matches Err(InspectError::SyscallFailure)
        } else {
            i32_pair_post(m, a.sv, x.sv)
        }),
        SyscallRawArgs::Clone(a) => r matches SyscallModifiedArgs::Clone(x) && x.syscall_result == regs.result as i64 && (if syscall_result_failed(
            SyscallId::Clone,
            regs.result,
        ) {
            x.parent_tid matches Err(InspectError::SyscallFailure) && x.child_tid matches Err(InspectError::SyscallFailure)
        } else {
            i32_value_post(m, a.parent_tid, x.parent_tid) && i32_value_post(m, a.child_tid, x.child_tid)
        }),
        SyscallRawArgs::Execve(_) => r matches SyscallModifiedArgs::Execve(x) && x.syscall_result == regs.result as i32,
        SyscallRawArgs::Exit(_) => r matches SyscallModifiedArgs::Exit(_),
        SyscallRawArgs::Kill(_) => r matches SyscallModifiedArgs::Kill(x) && x.syscall_result == regs.result as i32,
        SyscallRawArgs::Semget(_) => r matches SyscallModifiedArgs::Semget(x) && x.syscall_result == regs.result as i32,
        SyscallRawArgs::Semop(_) => r matches SyscallModifiedArgs::Semop(x) && x.syscall_result == regs.result as i32,
        SyscallRawArgs::Semctl(_) => r matches SyscallModifiedArgs::Semctl(x) && x.syscall_result == regs.result as i32,
        SyscallRawArgs::Shmdt(_) => r matches SyscallModifiedArgs::Shmdt(x) && x.syscall_result == regs.result as i32,
        SyscallRawArgs::Msgget(_) => r matches SyscallModifiedArgs::Msgget(x) && x.syscall_result == regs.result as i32,
        SyscallRawArgs::Msgsnd(_) => r matches SyscallModifiedArgs::Msgsnd(x) && x.syscall_result == regs.result as i32,
        SyscallRawArgs::Fcntl(_) => r matches SyscallModifiedArgs::Fcntl(x) && x.syscall_result == regs.result as i32,
        SyscallRawArgs::Flock(_) => r matches SyscallModifiedArgs::Flock(x) && x.syscall_result == regs.result as i32,
        SyscallRawArgs::Fsync(_) => r matches SyscallModifiedArgs::Fsync(x) && x.syscall_result == regs.result as i32,
        SyscallRawArgs::Fdatasync(_) => r matches SyscallModifiedArgs::Fdatasync(x) && x.syscall_result == regs.result as i32,
        SyscallRawArgs::Truncate(_) => r matches SyscallModifiedArgs::Truncate(x) && x.syscall_result == regs.result as i32,
        SyscallRawArgs::Ftruncate(_) => r matches SyscallModifiedArgs::Ftruncate(x) && x.syscall_result == regs.result as i32,
        SyscallRawArgs::Getcwd(a) => r matches SyscallModifiedArgs::Getcwd(x) && x.syscall_result == regs.result as i64 && (if syscall_result_failed(
            SyscallId::Getcwd,
            regs.result,
        ) {
            x.buf matches Err(InspectError::SyscallFailure)
        } else {
            cstring_post(m, a.buf, x.buf)
        }),
        SyscallRawArgs::Chdir(_) => r matches SyscallModifiedArgs::Chdir(x) && x.syscall_result == regs.result as i32,
        SyscallRawArgs::Rename(_) => r matches SyscallModifiedArgs::Rename(x) && x.syscall_result == regs.result as i32,
        SyscallRawArgs::Mkdir(_) => r matches SyscallModifiedArgs::Mkdir(x) && x.syscall_result == regs.result as i32,
        SyscallRawArgs::Rmdir(_) => r matches SyscallModifiedArgs::Rmdir(x) && x.syscall_result == regs.result as i32,
        SyscallRawArgs::Creat(_) => r matches SyscallModifiedArgs::Creat(x) && x.syscall_result == regs.result as i32,
        SyscallRawArgs::Link(_) => r matches SyscallModifiedArgs::Link(x) && x.syscall_result == regs.result as i32,
        SyscallRawArgs::Unlink(_) => r matches SyscallModifiedArgs::Unlink(x) && x.syscall_result == regs.result as i32,
        SyscallRawArgs::Symlink(_) => r matches SyscallModifiedArgs::Symlink(x) && x.syscall_result == regs.result as i32,
        SyscallRawArgs::Readlink(a) => r matches SyscallModifiedArgs::Readlink(x) && x.syscall_result == regs.result as i64 && (if syscall_result_failed(
            SyscallId::Readlink,
            regs.result,
        ) {
            x.buf matches Err(InspectError::SyscallFailure)
        } else {
            counted_post(m, a.buf, ((regs.result as i64) as usize) as int, x.buf)
        }),
        SyscallRawArgs::Chmod(_) => r matches SyscallModifiedArgs::Chmod(x) && x.syscall_result == regs.result as i32,
        SyscallRawArgs::Fchmod(_) => r matches SyscallModifiedArgs::Fchmod(x) && x.syscall_result == regs.result as i32,
        SyscallRawArgs::Chown(_) => r matches SyscallModifiedArgs::Chown(x) && x.syscall_result == regs.result as i32,
        SyscallRawArgs::Fchown(_) => r matches SyscallModifiedArgs::Fchown(x) && x.syscall_result == regs.result as i32,
        SyscallRawArgs::Lchown(_) => r matches SyscallModifiedArgs::Lchown(x) && x.syscall_result == regs.result as i32,
        SyscallRawArgs::Umask(_) => r matches SyscallModifiedArgs::Umask(x) && x.syscall_result == regs.result as u32,
        SyscallRawArgs::Gettimeofday(a) => r matches SyscallModifiedArgs::Gettimeofday(x) && x.syscall_result == regs.result as i32 && (if syscall_result_failed(
            SyscallId::Gettimeofday,
            regs.result,
        ) {
            x.tv matches Err(InspectError::SyscallFailure) && x.tz matches Err(InspectError::SyscallFailure)
        } else {
            timeval_post(m, a.tv, x.tv) && timezone_opt_post(m, a.tz, x.tz)
        }),
        SyscallRawArgs::Getrlimit(a) => r matches SyscallModifiedArgs::Getrlimit(x) && x.syscall_result == regs.result as i32 && (if syscall_result_failed(
            SyscallId::Getrlimit,
            regs.result,
        ) {
            x.rlim matches Err(InspectError::SyscallFailure)
        } else {
            rlimit_post(m, a.rlim, x.rlim)
        }),
        SyscallRawArgs::Times(a) => r matches SyscallModifiedArgs::Times(x) && x.syscall_result == regs.result as i64 && (if syscall_result_failed(
            SyscallId::Times,
            regs.result,
        ) {
            x.buf matches Err(InspectError::SyscallFailure)
        } else {
            tms_post(m, a.buf, x.buf)
        }),
        SyscallRawArgs::Ptrace(_) => r matches SyscallModifiedArgs::Ptrace(x) && x.syscall_result == regs.result as i64,
        SyscallRawArgs::Getuid(_) => r matches SyscallModifiedArgs::Getuid(x) && x.syscall_result == regs.result as u32,
        SyscallRawArgs::Getgid(_) => r matches SyscallModifiedArgs::Getgid(x) && x.syscall_result == regs.result as u32,
        SyscallRawArgs::Setuid(_) => r matches SyscallModifiedArgs::Setuid(x) && x.syscall_result == regs.result as i32,
        SyscallRawArgs::Setgid(_) => r matches SyscallModifiedArgs::Setgid(x) && x.syscall_result == regs.result as i32,
        SyscallRawArgs::Geteuid(_) => r matches SyscallModifiedArgs::Geteuid(x) && x.syscall_result == regs.result as u32,
        SyscallRawArgs::Getegid(_) => r matches SyscallModifiedArgs::Getegid(x) && x.syscall_result == regs.result as u32,
        SyscallRawArgs::Setpgid(_) => r matches SyscallModifiedArgs::Setpgid(x) && x.syscall_result == regs.result as i32,
        SyscallRawArgs::Getppid(_) => r matches SyscallModifiedArgs::Getppid(x) && x.syscall_result == regs.result as i32,
        SyscallRawArgs::Setsid(_) => r matches SyscallModifiedArgs::Setsid(x) && x.syscall_result == regs.result as i32,
        SyscallRawArgs::Setreuid(_) => r matches SyscallModifiedArgs::Setreuid(x) && x.syscall_result == regs.result as i32,
        SyscallRawArgs::Setregid(_) => r matches SyscallModifiedArgs::Setregid(x) && x.syscall_result == regs.result as i32,
        SyscallRawArgs::Setresuid(_) => r matches SyscallModifiedArgs::Setresuid(x) && x.syscall_result == regs.result as i32,
        SyscallRawArgs::Getresuid(a) => r matches SyscallModifiedArgs::Getresuid(x) && x.syscall_result == regs.result as i32 && (if syscall_result_failed(
            SyscallId::Getresuid,
            regs.result,
        ) {
            x.ruid matches Err(InspectError::SyscallFailure) && x.euid matches Err(InspectError::SyscallFailure) && x.suid matches Err(InspectError::SyscallFailure)
        } else {
            u32_value_post(m, a.ruid, x.ruid) && u32_value_post(m, a.euid, x.euid) && u32_value_post(m, a.suid, x.suid)
        }),
        SyscallRawArgs::Setresgid(_) => r matches SyscallModifiedArgs::Setresgid(x) && x.syscall_result == regs.result as i32,
        SyscallRawArgs::Getresgid(a) => r matches SyscallModifiedArgs::Getresgid(x) && x.syscall_result == regs.result as i32 && (if syscall_result_failed(
            SyscallId::Getresgid,
            regs.result,
        ) {
            x.rgid matches Err(InspectError::SyscallFailure) && x.egid matches Err(InspectError::SyscallFailure) && x.sgid matches Err(InspectError::SyscallFailure)
        } else {
            u32_value_post(m, a.rgid, x.rgid) && u32_value_post(m, a.egid, x.egid) && u32_value_post(m, a.sgid, x.sgid)
        }),
        SyscallRawArgs::Getpgid(_) => r matches SyscallModifiedArgs::Getpgid(x) && x.syscall_result == regs.result as i32,
        SyscallRawArgs::Getsid(_) => r matches SyscallModifiedArgs::Getsid(x) && x.syscall_result == regs.result as i32,
        SyscallRawArgs::Capget(a) => r matches SyscallModifiedArgs::Capget(x) && x.syscall_result == regs.result as i32 && (if syscall_result_failed(
            SyscallId::Capget,
            regs.result,
        ) {
            x.hdrp matches Err(InspectError::SyscallFailure) && x.datap matches Err(InspectError::SyscallFailure)
        } else {
            cap_user_header_post(m, a.hdrp, x.hdrp) && cap_user_data_post(m, a.datap, x.datap)
        }),
        SyscallRawArgs::Statfs(a) => r matches SyscallModifiedArgs::Statfs(x) && x.syscall_result == regs.result as i32 && (if syscall_result_failed(
            SyscallId::Statfs,
            regs.result,
        ) {
            x.buf matches Err(InspectError::SyscallFailure)
        } else {
            statfs_post(m, a.buf, x.buf)
        }),
        SyscallRawArgs::Fstatfs(a) => r matches SyscallModifiedArgs::Fstatfs(x) && x.syscall_result == regs.result as i32 && (if syscall_result_failed(
            SyscallId::Fstatfs,
            regs.result,
        ) {
            x.buf matches Err(InspectError::SyscallFailure)
        } else {
            statfs_post(m, a.buf, x.buf)
        }),
        SyscallRawArgs::Sync(_) => r matches SyscallModifiedArgs::Sync(x) && x.syscall_result == regs.result as i32,
        SyscallRawArgs::Settimeofday(_) => r matches SyscallModifiedArgs::Settimeofday(x) && x.syscall_result == regs.result as i32,
        SyscallRawArgs::Umount2(_) => r matches SyscallModifiedArgs::Umount2(x) && x.syscall_result == regs.result as i32,
        SyscallRawArgs::Sethostname(_) => r matches SyscallModifiedArgs::Sethostname(x) && x.syscall_result == regs.result as i32,
        SyscallRawArgs::Setdomainname(_) => r matches SyscallModifiedArgs::Setdomainname(x) && x.syscall_result == regs.result as i32,
        SyscallRawArgs::Gettid(_) => r matches SyscallModifiedArgs::Gettid(x) && x.syscall_result == regs.result as i32,
        SyscallRawArgs::Futex(a) => r matches SyscallModifiedArgs::Futex(x) && x.syscall_result == regs.result as i64 && (if syscall_result_failed(
            SyscallId::Futex,
            regs.result,
        ) {
            x.uaddr matches Err(InspectError::SyscallFailure) && x.uaddr2 matches Err(InspectError::SyscallFailure)
        } else {
            u32_value_post(m, a.uaddr, x.uaddr) && u32_value_post(m, a.uaddr2, x.uaddr2)
        }),
        SyscallRawArgs::SchedGetaffinity(_) => r matches SyscallModifiedArgs::SchedGetaffinity(x) && x.syscall_result == regs.result as i32,
        SyscallRawArgs::ClockSettime(_) => r matches SyscallModifiedArgs::ClockSettime(x) && x.syscall_result == regs.result as i32,
        SyscallRawArgs::ClockGettime(a) => r matches SyscallModifiedArgs::ClockGettime(x) && x.syscall_result == regs.result as i32 && (if syscall_result_failed(
            SyscallId::ClockGettime,
            regs.result,
        ) {
            x.tp matches Err(InspectError::SyscallFailure)
        } else {
            timespec_post(m, a.tp, x.tp)
        }),
        SyscallRawArgs::ClockGetres(a) => r matches SyscallModifiedArgs::ClockGetres(x) && x.syscall_result == regs.result as i32 && (if syscall_result_failed(
            SyscallId::ClockGetres,
            regs.result,
        ) {
            x.res matches Err(InspectError::SyscallFailure)
        } else {
            timespec_post(m, a.res, x.res)
        }),
        SyscallRawArgs::ClockNanosleep(a) => r matches SyscallModifiedArgs::ClockNanosleep(x) && x.syscall_result == regs.result as i32 && (if syscall_result_failed(
            SyscallId::ClockNanosleep,
            regs.result,
        ) {
            x.remain matches Err(InspectError::SyscallFailure)
        } else {
            timespec_opt_post(m, a.remain, x.remain)
        }),
        SyscallRawArgs::ExitGroup(_) => r matches SyscallModifiedArgs::ExitGroup(_),
        SyscallRawArgs::Utimes(_) => r matches SyscallModifiedArgs::Utimes(x) && x.syscall_result == regs.result as i32,
        SyscallRawArgs::Openat(_) => r matches SyscallModifiedArgs::Openat(x) && x.syscall_result == regs.result as i32,
        SyscallRawArgs::Mkdirat(_) => r matches SyscallModifiedArgs::Mkdirat(x) && x.syscall_result == regs.result as i32,
        SyscallRawArgs::Fchownat(_) => r matches SyscallModifiedArgs::Fchownat(x) && x.syscall_result == regs.result as i32,
        SyscallRawArgs::Newfstatat(a) => r matches SyscallModifiedArgs::Newfstatat(x) && x.syscall_result == regs.result as i32 && (if syscall_result_failed(
            SyscallId::Newfstatat,
            regs.result,
        ) {
            x.statbuf matches Err(InspectError::SyscallFailure)
        } else {
            stat_post(m, regs.arch, a.statbuf, x.statbuf)
        }),
        SyscallRawArgs::Unlinkat(_) => r matches SyscallModifiedArgs::Unlinkat(x) && x.syscall_result == regs.result as i32,
        SyscallRawArgs::Renameat(_) => r matches SyscallModifiedArgs::Renameat(x) && x.syscall_result == regs.result as i32,
        SyscallRawArgs::Linkat(_) => r matches SyscallModifiedArgs::Linkat(x) && x.syscall_result == regs.result as i32,
        SyscallRawArgs::Symlinkat(_) => r matches SyscallModifiedArgs::Symlinkat(x) && x.syscall_result == regs.result as i32,
        SyscallRawArgs::Readlinkat(a) => r matches SyscallModifiedArgs::Readlinkat(x) && x.syscall_result == regs.result as i64 && (if syscall_result_failed(
            SyscallId::Readlinkat,
            regs.result,
        ) {
            x.buf matches Err(InspectError::SyscallFailure)
        } else {
            counted_post(m, a.buf, ((regs.result as i64) as usize) as int, x.buf)
        }),
        SyscallRawArgs::Fchmodat(_) => r matches SyscallModifiedArgs::Fchmodat(x) && x.syscall_result == regs.result as i32,
        SyscallRawArgs::Faccessat(_) => r matches SyscallModifiedArgs::Faccessat(x) && x.syscall_result == regs.result as i32,
        SyscallRawArgs::Accept4(a) => r matches SyscallModifiedArgs::Accept4(x) && x.syscall_result == regs.result as i32 && (if syscall_result_failed(
            SyscallId::Accept4,
            regs.result,
        ) {
            x.addr matches Err(InspectError::SyscallFailure) && x.addrlen matches Err(InspectError::SyscallFailure)
        } else {
            sockaddr_post(m, a.addr, x.addr) && u32_value_post(m, a.addrlen, x.addrlen)
        }),
        SyscallRawArgs::Eventfd2(_) => r matches SyscallModifiedArgs::Eventfd2(x) && x.syscall_result == regs.result as i32,
        SyscallRawArgs::EpollCreate1(_) => r matches SyscallModifiedArgs::EpollCreate1(x) && x.syscall_result == regs.result as i32,
        SyscallRawArgs::Dup3(_) => r matches SyscallModifiedArgs::Dup3(x) && x.syscall_result == regs.result as i32,
        SyscallRawArgs::Pipe2(a) => r matches SyscallModifiedArgs::Pipe2(x) && x.syscall_result == regs.result as i32 && (if syscall_result_failed(
            SyscallId::Pipe2,
            regs.result,
        ) {
            x.pipefd matches Err(InspectError::SyscallFailure)
        } else {
            i32_pair_post(m, a.pipefd, x.pipefd)
        }),
        SyscallRawArgs::InotifyInit1(_) => r matches SyscallModifiedArgs::InotifyInit1(x) && x.syscall_result == regs.result as i32,
        SyscallRawArgs::Prlimit64(a) => r matches SyscallModifiedArgs::Prlimit64(x) && x.syscall_result == regs.result as i32 && (if syscall_result_failed(
            SyscallId::Prlimit64,
            regs.result,
        ) {
            x.old_limit matches Err(InspectError::SyscallFailure)
        } else {
            rlimit_opt_post(m, a.old_limit, x.old_limit)
        }),
        SyscallRawArgs::Getrandom(a) => r matches SyscallModifiedArgs::Getrandom(x) && x.syscall_result == regs.result as i64 && (if syscall_result_failed(
            SyscallId::Getrandom,
            regs.result,
        ) {
            x.buf matches Err(InspectError::SyscallFailure)
        } else {
            counted_post(m, a.buf, ((regs.result as i64) as usize) as int, x.buf)
        }),
        SyscallRawArgs::MemfdCreate(_) => r matches SyscallModifiedArgs::MemfdCreate(x) && x.syscall_result == regs.result as i32,
        SyscallRawArgs::Rseq(_) => r matches SyscallModifiedArgs::Rseq(x) && x.syscall_result == regs.result as i32,
        SyscallRawArgs::PidfdOpen(_) => r matches SyscallModifiedArgs::PidfdOpen(x) && x.syscall_result == regs.result as i32,
        SyscallRawArgs::CloseRange(_) => r matches SyscallModifiedArgs::CloseRange(x) && x.syscall_result == regs.result as i32,
        SyscallRawArgs::LandlockCreateRuleset(_) => r matches SyscallModifiedArgs::LandlockCreateRuleset(x) && x.syscall_result == regs.result as i32,
        SyscallRawArgs::Cachestat(_) => r matches SyscallModifiedArgs::Cachestat(x) && x.syscall_result == regs.result as i32,
        SyscallRawArgs::Statmount(a) => r matches SyscallModifiedArgs::Statmount(x) && x.syscall_result == regs.result as i32 && (if syscall_result_failed(
            SyscallId::Statmount,
            regs.result,
        ) {
            x.buf matches Err(InspectError::SyscallFailure)
        } else {
            statmount_post(m, a.buf, x.buf)
        }),
        SyscallRawArgs::Unknown(u) => r == SyscallModifiedArgs::Unknown(u),
    }
}

impl SyscallRawArgs {
    /// Decode the exit side: take the result slot from the exit-time
    /// snapshot, and re-read the output arguments the kernel may have
    /// filled — unless the result signals failure, in which case every
    /// output is marked failed and nothing is read.  An `Unknown` record
    /// flows through unchanged and triggers no read.
    #[verifier::rlimit(100)]
    #[verifier::spinoff_prover]
    pub fn inspect_sysexit<M: TraceeMem>(
        &self,
        rd: &mut MemReader<M>,
        regs: &RegisterSnapshot,
    ) -> (r: SyscallModifiedArgs)
        requires
            old(rd).wf(),
        ensures
            final(rd).wf(),
            final(rd).evolves_from(*old(rd)),
            r.tag() == self.tag(),
            exit_post(*self, old(rd).mem, *regs, r),
            (match self.tag() {
                Some(id) => syscall_result_failed(id, regs.result),
                None => true,
            }) ==> (exit_all_failed(r) && *final(rd) == *old(rd)),
    {
        match self {
            SyscallRawArgs::Read(a) => {
                let sysret: i64 = #[verifier::truncate] (regs.result as i64);
                if sysret < 0 {
                    SyscallModifiedArgs::Read(ReadModifiedArgs { syscall_result: sysret, buf: Err(InspectError::SyscallFailure) })
                } else {
                    let buf = rd.read_counted_bytes(a.buf, #[verifier::truncate] (sysret as usize));
                    SyscallModifiedArgs::Read(ReadModifiedArgs { syscall_result: sysret, buf })
                }
            },
            SyscallRawArgs::Write(_) => {
                let sysret: i64 = #[verifier::truncate] (regs.result as i64);
                SyscallModifiedArgs::Write(WriteModifiedArgs { syscall_result: sysret })
            },
            SyscallRawArgs::Open(_) => {
                let sysret: i32 = #[verifier::truncate] (regs.result as i32);
                SyscallModifiedArgs::Open(OpenModifiedArgs { syscall_result: sysret })
            },
            SyscallRawArgs::Close(_) => {
                let sysret: i32 = #[verifier::truncate] (regs.result as i32);
                SyscallModifiedArgs::Close(CloseModifiedArgs { syscall_result: sysret })
            },
            SyscallRawArgs::Stat(a) => {
                let sysret: i32 = #[verifier::truncate] (regs.result as i32);
                if sysret < 0 {
                    SyscallModifiedArgs::Stat(StatModifiedArgs { syscall_result: sysret, statbuf: Err(InspectError::SyscallFailure) })
                } else {
                    let statbuf = read_stat(rd, regs.arch, a.statbuf);
                    SyscallModifiedArgs::Stat(StatModifiedArgs { syscall_result: sysret, statbuf })
                }
            },
            SyscallRawArgs::Fstat(a) => {
                let sysret: i32 = #[verifier::truncate] (regs.result as i32);
                if sysret < 0 {
                    SyscallModifiedArgs::Fstat(FstatModifiedArgs { syscall_result: sysret, statbuf: Err(InspectError::SyscallFailure) })
                } else {
                    let statbuf = read_stat(rd, regs.arch, a.statbuf);
                    SyscallModifiedArgs::Fstat(FstatModifiedArgs { syscall_result: sysret, statbuf })
                }
            },
            SyscallRawArgs::Lstat(a) => {
                let sysret: i32 = #[verifier::truncate] (regs.result as i32);
                if sysret < 0 {
                    SyscallModifiedArgs::Lstat(LstatModifiedArgs { syscall_result: sysret, statbuf: Err(InspectError::SyscallFailure) })
                } else {
                    let statbuf = read_stat(rd, regs.arch, a.statbuf);
                    SyscallModifiedArgs::Lstat(LstatModifiedArgs { syscall_result: sysret, statbuf })
                }
            },
            SyscallRawArgs::Lseek(_) => {
                let sysret: i64 = #[verifier::truncate] (regs.result as i64);
                SyscallModifiedArgs::Lseek(LseekModifiedArgs { syscall_result: sysret })
            },
            SyscallRawArgs::Mmap(_) => {
                let sysret: u64 = regs.result;
                SyscallModifiedArgs::Mmap(MmapModifiedArgs { syscall_result: sysret })
            },
            SyscallRawArgs::Mprotect(_) => {
                let sysret: i32 = #[verifier::truncate] (regs.result as i32);
                SyscallModifiedArgs::Mprotect(MprotectModifiedArgs { syscall_result: sysret })
            },
            SyscallRawArgs::Munmap(_) => {
                let sysret: i32 = #[verifier::truncate] (regs.result as i32);
                SyscallModifiedArgs::Munmap(MunmapModifiedArgs { syscall_result: sysret })
            },
            SyscallRawArgs::Brk(_) => {
                let sysret: i32 = #[verifier::truncate] (regs.result as i32);
                SyscallModifiedArgs::Brk(BrkModifiedArgs { syscall_result: sysret })
            },
            SyscallRawArgs::RtSigreturn(_) => {
                let sysret: i64 = #[verifier::truncate] (regs.result as i64);
                SyscallModifiedArgs::RtSigreturn(RtSigreturnModifiedArgs { syscall_result: sysret })
            },
            SyscallRawArgs::Ioctl(_) => {
                let sysret: i32 = #[verifier::truncate] (regs.result as i32);
                SyscallModifiedArgs::Ioctl(IoctlModifiedArgs { syscall_result: sysret })
            },
            SyscallRawArgs::Pread64(a) => {
                let sysret: i64 = #[verifier::truncate] (regs.result as i64);
                if sysret < 0 {
                    SyscallModifiedArgs::Pread64(Pread64ModifiedArgs { syscall_result: sysret, buf: Err(InspectError::SyscallFailure) })
                } else {
                    let buf = rd.read_counted_bytes(a.buf, #[verifier::truncate] (sysret as usize));
                    SyscallModifiedArgs::Pread64(Pread64ModifiedArgs { syscall_result: sysret, buf })
                }
            },
            SyscallRawArgs::Pwrite64(_) => {
                let sysret: i64 = #[verifier::truncate] (regs.result as i64);
                SyscallModifiedArgs::Pwrite64(Pwrite64ModifiedArgs { syscall_result: sysret })
            },
            SyscallRawArgs::Access(_) => {
                let sysret: i32 = #[verifier::truncate] (regs.result as i32);
                SyscallModifiedArgs::Access(AccessModifiedArgs { syscall_result: sysret })
            },
            SyscallRawArgs::Pipe(a) => {
                let sysret: i32 = #[verifier::truncate] (regs.result as i32);
                if sysret < 0 {
                    SyscallModifiedArgs::Pipe(PipeModifiedArgs { syscall_result: sysret, pipefd: Err(InspectError::SyscallFailure) })
                } else {
                    let pipefd = read_i32_pair(rd, a.pipefd);
                    SyscallModifiedArgs::Pipe(PipeModifiedArgs { syscall_result: sysret, pipefd })
                }
            },
            SyscallRawArgs::SchedYield(_) => {
                let sysret: i32 = #[verifier::truncate] (regs.result as i32);
                SyscallModifiedArgs::SchedYield(SchedYieldModifiedArgs { syscall_result: sysret })
            },
            SyscallRawArgs::Mremap(_) => {
                let sysret: u64 = regs.result;
                SyscallModifiedArgs::Mremap(MremapModifiedArgs { syscall_result: sysret })
            },
            SyscallRawArgs::Msync(_) => {
                let sysret: i32 = #[verifier::truncate] (regs.result as i32);
                SyscallModifiedArgs::Msync(MsyncModifiedArgs { syscall_result: sysret })
            },
            SyscallRawArgs::Madvise(_) => {
                let sysret: i32 = #[verifier::truncate] (regs.result as i32);
                SyscallModifiedArgs::Madvise(MadviseModifiedArgs { syscall_result: sysret })
            },
            SyscallRawArgs::Shmget(_) => {
                let sysret: i32 = #[verifier::truncate] (regs.result as i32);
                SyscallModifiedArgs::Shmget(ShmgetModifiedArgs { syscall_result: sysret })
            },
            SyscallRawArgs::Shmat(_) => {
                let sysret: u64 = regs.result;
                SyscallModifiedArgs::Shmat(ShmatModifiedArgs { syscall_result: sysret })
            },
            SyscallRawArgs::Dup(_) => {
                let sysret: i32 = #[verifier::truncate] (regs.result as i32);
                SyscallModifiedArgs::Dup(DupModifiedArgs { syscall_result: sysret })
            },
            SyscallRawArgs::Dup2(_) => {
                let sysret: i32 = #[verifier::truncate] (regs.result as i32);
                SyscallModifiedArgs::Dup2(Dup2ModifiedArgs { syscall_result: sysret })
            },
            SyscallRawArgs::Pause(_) => {
                let sysret: i32 = #[verifier::truncate] (regs.result as i32);
                SyscallModifiedArgs::Pause(PauseModifiedArgs { syscall_result: sysret })
            },
            SyscallRawArgs::Nanosleep(a) => {
                let sysret: i32 = #[verifier::truncate] (regs.result as i32);
                if sysret < 0 {
                    SyscallModifiedArgs::Nanosleep(NanosleepModifiedArgs { syscall_result: sysret, rem: Err(InspectError::SyscallFailure) })
                } else {
                    let rem = read_timespec_opt(rd, a.rem);
                    SyscallModifiedArgs::Nanosleep(NanosleepModifiedArgs { syscall_result: sysret, rem })
                }
            },
            SyscallRawArgs::Alarm(_) => {
                let sysret: u32 = #[verifier::truncate] (regs.result as u32);
                SyscallModifiedArgs::Alarm(AlarmModifiedArgs { syscall_result: sysret })
            },
            SyscallRawArgs::Getpid(_) => {
                let sysret: i32 = #[verifier::truncate] (regs.result as i32);
                SyscallModifiedArgs::Getpid(GetpidModifiedArgs { syscall_result: sysret })
            },
            SyscallRawArgs::Socket(_) => {
                let sysret: i32 = #[verifier::truncate] (regs.result as i32);
                SyscallModifiedArgs::Socket(SocketModifiedArgs { syscall_result: sysret })
            },
            SyscallRawArgs::Connect(_) => {
                let sysret: i32 = #[verifier::truncate] (regs.result as i32);
                SyscallModifiedArgs::Connect(ConnectModifiedArgs { syscall_result: sysret })
            },
            SyscallRawArgs::Accept(a) => {
                let sysret: i32 = #[verifier::truncate] (regs.result as i32);
                if sysret < 0 {
                    SyscallModifiedArgs::Accept(AcceptModifiedArgs { syscall_result: sysret, addr: Err(InspectError::SyscallFailure), addrlen: Err(InspectError::SyscallFailure) })
                } else {
                    let addr = read_sockaddr(rd, a.addr);
                    let addrlen = read_u32_value(rd, a.addrlen);
                    SyscallModifiedArgs::Accept(AcceptModifiedArgs { syscall_result: sysret, addr, addrlen })
                }
            },
            SyscallRawArgs::Shutdown(_) => {
                let sysret: i32 = #[verifier::truncate] (regs.result as i32);
                SyscallModifiedArgs::Shutdown(ShutdownModifiedArgs { syscall_result: sysret })
            },
            SyscallRawArgs::Bind(_) => {
                let sysret: i32 = #[verifier::truncate] (regs.result as i32);
                SyscallModifiedArgs::Bind(BindModifiedArgs { syscall_result: sysret })
            },
            SyscallRawArgs::Listen(_) => {
                let sysret: i32 = #[verifier::truncate] (regs.result as i32);
                SyscallModifiedArgs::Listen(ListenModifiedArgs { syscall_result: sysret })
            },
            SyscallRawArgs::Getsockname(a) => {
                let sysret: i32 = #[verifier::truncate] (regs.result as i32);
                if sysret < 0 {
                    SyscallModifiedArgs::Getsockname(GetsocknameModifiedArgs { syscall_result: sysret, addr: Err(InspectError::SyscallFailure), addrlen: Err(InspectError::SyscallFailure) })
                } else {
                    let addr = read_sockaddr(rd, a.addr);
                    let addrlen = read_u32_value(rd, a.addrlen);
                    SyscallModifiedArgs::Getsockname(GetsocknameModifiedArgs { syscall_result: sysret, addr, addrlen })
                }
            },
            SyscallRawArgs::Getpeername(a) => {
                let sysret: i32 = #[verifier::truncate] (regs.result as i32);
                if sysret < 0 {
                    SyscallModifiedArgs::Getpeername(GetpeernameModifiedArgs { syscall_result: sysret, addr: Err(InspectError::SyscallFailure), addrlen: Err(InspectError::SyscallFailure) })
                } else {
                    let addr = read_sockaddr(rd, a.addr);
                    let addrlen = read_u32_value(rd, a.addrlen);
                    SyscallModifiedArgs::Getpeername(GetpeernameModifiedArgs { syscall_result: sysret, addr, addrlen })
                }
            },
            SyscallRawArgs::Socketpair(a) => {
                let sysret: i32 = #[verifier::truncate] (regs.result as i32);
                if sysret < 0 {
                    SyscallModifiedArgs::Socketpair(SocketpairModifiedArgs { syscall_result: sysret, sv: Err(InspectError::SyscallFailure) })
                } else {
                    let sv = read_i32_pair(rd, a.sv);
                    SyscallModifiedArgs::Socketpair(SocketpairModifiedArgs { syscall_result: sysret, sv })
                }
            },
            SyscallRawArgs::Clone(a) => {
                let sysret: i64 = #[verifier::truncate] (regs.result as i64);
                if sysret < 0 {
                    SyscallModifiedArgs::Clone(CloneModifiedArgs { syscall_result: sysret, parent_tid: Err(InspectError::SyscallFailure), child_tid: Err(InspectError::SyscallFailure) })
                } else {
                    let parent_tid = read_i32_value(rd, a.parent_tid);
                    let child_tid = read_i32_value(rd, a.child_tid);
                    SyscallModifiedArgs::Clone(CloneModifiedArgs { syscall_result: sysret, parent_tid, child_tid })
                }
            },
            SyscallRawArgs::Execve(_) => {
                let sysret: i32 = #[verifier::truncate] (regs.result as i32);
                SyscallModifiedArgs::Execve(ExecveModifiedArgs { syscall_result: sysret })
            },
            SyscallRawArgs::Exit(_) => {
                SyscallModifiedArgs::Exit(ExitModifiedArgs { syscall_result: Unit })
            },
            SyscallRawArgs::Kill(_) => {
                let sysret: i32 = #[verifier::truncate] (regs.result as i32);
                SyscallModifiedArgs::Kill(KillModifiedArgs { syscall_result: sysret })
            },
            SyscallRawArgs::Semget(_) => {
                let sysret: i32 = #[verifier::truncate] (regs.result as i32);
                SyscallModifiedArgs::Semget(SemgetModifiedArgs { syscall_result: sysret })
            },
            SyscallRawArgs::Semop(_) => {
                let sysret: i32 = #[verifier::truncate] (regs.result as i32);
                SyscallModifiedArgs::Semop(SemopModifiedArgs { syscall_result: sysret })
            },
            SyscallRawArgs::Semctl(_) => {
                let sysret: i32 = #[verifier::truncate] (regs.result as i32);
                SyscallModifiedArgs::Semctl(SemctlModifiedArgs { syscall_result: sysret })
            },
            SyscallRawArgs::Shmdt(_) => {
                let sysret: i32 = #[verifier::truncate] (regs.result as i32);
                SyscallModifiedArgs::Shmdt(ShmdtModifiedArgs { syscall_result: sysret })
            },
            SyscallRawArgs::Msgget(_) => {
                let sysret: i32 = #[verifier::truncate] (regs.result as i32);
                SyscallModifiedArgs::Msgget(MsggetModifiedArgs { syscall_result: sysret })
            },
            SyscallRawArgs::Msgsnd(_) => {
                let sysret: i32 = #[verifier::truncate] (regs.result as i32);
                SyscallModifiedArgs::Msgsnd(MsgsndModifiedArgs { syscall_result: sysret })
            },
            SyscallRawArgs::Fcntl(_) => {
                let sysret: i32 = #[verifier::truncate] (regs.result as i32);
                SyscallModifiedArgs::Fcntl(FcntlModifiedArgs { syscall_result: sysret })
            },
            SyscallRawArgs::Flock(_) => {
                let sysret: i32 = #[verifier::truncate] (regs.result as i32);
                SyscallModifiedArgs::Flock(FlockModifiedArgs { syscall_result: sysret })
            },
            SyscallRawArgs::Fsync(_) => {
                let sysret: i32 = #[verifier::truncate] (regs.result as i32);
                SyscallModifiedArgs::Fsync(FsyncModifiedArgs { syscall_result: sysret })
            },
            SyscallRawArgs::Fdatasync(_) => {
                let sysret: i32 = #[verifier::truncate] (regs.result as i32);
                SyscallModifiedArgs::Fdatasync(FdatasyncModifiedArgs { syscall_result: sysret })
            },
            SyscallRawArgs::Truncate(_) => {
                let sysret: i32 = #[verifier::truncate] (regs.result as i32);
                SyscallModifiedArgs::Truncate(TruncateModifiedArgs { syscall_result: sysret })
            },
            SyscallRawArgs::Ftruncate(_) => {
                let sysret: i32 = #[verifier::truncate] (regs.result as i32);
                SyscallModifiedArgs::Ftruncate(FtruncateModifiedArgs { syscall_result: sysret })
            },
            SyscallRawArgs::Getcwd(a) => {
                let sysret: i64 = #[verifier::truncate] (regs.result as i64);
                if sysret < 0 {
                    SyscallModifiedArgs::Getcwd(GetcwdModifiedArgs { syscall_result: sysret, buf: Err(InspectError::SyscallFailure) })
                } else {
                    let buf = rd.read_c_string(a.buf);
                    SyscallModifiedArgs::Getcwd(GetcwdModifiedArgs { syscall_result: sysret, buf })
                }
            },
            SyscallRawArgs::Chdir(_) => {
                let sysret: i32 = #[verifier::truncate] (regs.result as i32);
                SyscallModifiedArgs::Chdir(ChdirModifiedArgs { syscall_result: sysret })
            },
            SyscallRawArgs::Rename(_) => {
                let sysret: i32 = #[verifier::truncate] (regs.result as i32);
                SyscallModifiedArgs::Rename(RenameModifiedArgs { syscall_result: sysret })
            },
            SyscallRawArgs::Mkdir(_) => {
                let sysret: i32 = #[verifier::truncate] (regs.result as i32);
                SyscallModifiedArgs::Mkdir(MkdirModifiedArgs { syscall_result: sysret })
            },
            SyscallRawArgs::Rmdir(_) => {
                let sysret: i32 = #[verifier::truncate] (regs.result as i32);
                SyscallModifiedArgs::Rmdir(RmdirModifiedArgs { syscall_result: sysret })
            },
            SyscallRawArgs::Creat(_) => {
                let sysret: i32 = #[verifier::truncate] (regs.result as i32);
                SyscallModifiedArgs::Creat(CreatModifiedArgs { syscall_result: sysret })
            },
            SyscallRawArgs::Link(_) => {
                let sysret: i32 = #[verifier::truncate] (regs.result as i32);
                SyscallModifiedArgs::Link(LinkModifiedArgs { syscall_result: sysret })
            },
            SyscallRawArgs::Unlink(_) => {
                let sysret: i32 = #[verifier::truncate] (regs.result as i32);
                SyscallModifiedArgs::Unlink(UnlinkModifiedArgs { syscall_result: sysret })
            },
            SyscallRawArgs::Symlink(_) => {
                let sysret: i32 = #[verifier::truncate] (regs.result as i32);
                SyscallModifiedArgs::Symlink(SymlinkModifiedArgs { syscall_result: sysret })
            },
            SyscallRawArgs::Readlink(a) => {
                let sysret: i64 = #[verifier::truncate] (regs.result as i64);
                if sysret < 0 {
                    SyscallModifiedArgs::Readlink(ReadlinkModifiedArgs { syscall_result: sysret, buf: Err(InspectError::SyscallFailure) })
                } else {
                    let buf = rd.read_counted_bytes(a.buf, #[verifier::truncate] (sysret as usize));
                    SyscallModifiedArgs::Readlink(ReadlinkModifiedArgs { syscall_result: sysret, buf })
                }
            },
            SyscallRawArgs::Chmod(_) => {
                let sysret: i32 = #[verifier::truncate] (regs.result as i32);
                SyscallModifiedArgs::Chmod(ChmodModifiedArgs { syscall_result: sysret })
            },
            SyscallRawArgs::Fchmod(_) => {
                let sysret: i32 = #[verifier::truncate] (regs.result as i32);
                SyscallModifiedArgs::Fchmod(FchmodModifiedArgs { syscall_result: sysret })
            },
            SyscallRawArgs::Chown(_) => {
                let sysret: i32 = #[verifier::truncate] (regs.result as i32);
                SyscallModifiedArgs::Chown(ChownModifiedArgs { syscall_result: sysret })
            },
            SyscallRawArgs::Fchown(_) => {
                let sysret: i32 = #[verifier::truncate] (regs.result as i32);
                SyscallModifiedArgs::Fchown(FchownModifiedArgs { syscall_result: sysret })
            },
            SyscallRawArgs::Lchown(_) => {
                let sysret: i32 = #[verifier::truncate] (regs.result as i32);
                SyscallModifiedArgs::Lchown(LchownModifiedArgs { syscall_result: sysret })
            },
            SyscallRawArgs::Umask(_) => {
                let sysret: u32 = #[verifier::truncate] (regs.result as u32);
                SyscallModifiedArgs::Umask(UmaskModifiedArgs { syscall_result: sysret })
            },
            SyscallRawArgs::Gettimeofday(a) => {
                let sysret: i32 = #[verifier::truncate] (regs.result as i32);
                if sysret < 0 {
                    SyscallModifiedArgs::Gettimeofday(GettimeofdayModifiedArgs { syscall_result: sysret, tv: Err(InspectError::SyscallFailure), tz: Err(InspectError::SyscallFailure) })
                } else {
                    let tv = read_timeval(rd, a.tv);
                    let tz = read_timezone_opt(rd, a.tz);
                    SyscallModifiedArgs::Gettimeofday(GettimeofdayModifiedArgs { syscall_result: sysret, tv, tz })
                }
            },
            SyscallRawArgs::Getrlimit(a) => {
                let sysret: i32 = #[verifier::truncate] (regs.result as i32);
                if sysret < 0 {
                    SyscallModifiedArgs::Getrlimit(GetrlimitModifiedArgs { syscall_result: sysret, rlim: Err(InspectError::SyscallFailure) })
                } else {
                    let rlim = read_rlimit(rd, a.rlim);
                    SyscallModifiedArgs::Getrlimit(GetrlimitModifiedArgs { syscall_result: sysret, rlim })
                }
            },
            SyscallRawArgs::Times(a) => {
                let sysret: i64 = #[verifier::truncate] (regs.result as i64);
                if sysret < 0 {
                    SyscallModifiedArgs::Times(TimesModifiedArgs { syscall_result: sysret, buf: Err(InspectError::SyscallFailure) })
                } else {
                    let buf = read_tms(rd, a.buf);
                    SyscallModifiedArgs::Times(TimesModifiedArgs { syscall_result: sysret, buf })
                }
            },
            SyscallRawArgs::Ptrace(_) => {
                let sysret: i64 = #[verifier::truncate] (regs.result as i64);
                SyscallModifiedArgs::Ptrace(PtraceModifiedArgs { syscall_result: sysret })
            },
            SyscallRawArgs::Getuid(_) => {
                let sysret: u32 = #[verifier::truncate] (regs.result as u32);
                SyscallModifiedArgs::Getuid(GetuidModifiedArgs { syscall_result: sysret })
            },
            SyscallRawArgs::Getgid(_) => {
                let sysret: u32 = #[verifier::truncate] (regs.result as u32);
                SyscallModifiedArgs::Getgid(GetgidModifiedArgs { syscall_result: sysret })
            },
            SyscallRawArgs::Setuid(_) => {
                let sysret: i32 = #[verifier::truncate] (regs.result as i32);
                SyscallModifiedArgs::Setuid(SetuidModifiedArgs { syscall_result: sysret })
            },
            SyscallRawArgs::Setgid(_) => {
                let sysret: i32 = #[verifier::truncate] (regs.result as i32);
                SyscallModifiedArgs::Setgid(SetgidModifiedArgs { syscall_result: sysret })
            },
            SyscallRawArgs::Geteuid(_) => {
                let sysret: u32 = #[verifier::truncate] (regs.result as u32);
                SyscallModifiedArgs::Geteuid(GeteuidModifiedArgs { syscall_result: sysret })
            },
            SyscallRawArgs::Getegid(_) => {
                let sysret: u32 = #[verifier::truncate] (regs.result as u32);
                SyscallModifiedArgs::Getegid(GetegidModifiedArgs { syscall_result: sysret })
            },
            SyscallRawArgs::Setpgid(_) => {
                let sysret: i32 = #[verifier::truncate] (regs.result as i32);
                SyscallModifiedArgs::Setpgid(SetpgidModifiedArgs { syscall_result: sysret })
            },
            SyscallRawArgs::Getppid(_) => {
                let sysret: i32 = #[verifier::truncate] (regs.result as i32);
                SyscallModifiedArgs::Getppid(GetppidModifiedArgs { syscall_result: sysret })
            },
            SyscallRawArgs::Setsid(_) => {
                let sysret: i32 = #[verifier::truncate] (regs.result as i32);
                SyscallModifiedArgs::Setsid(SetsidModifiedArgs { syscall_result: sysret })
            },
            SyscallRawArgs::Setreuid(_) => {
                let sysret: i32 = #[verifier::truncate] (regs.result as i32);
                SyscallModifiedArgs::Setreuid(SetreuidModifiedArgs { syscall_result: sysret })
            },
            SyscallRawArgs::Setregid(_) => {
                let sysret: i32 = #[verifier::truncate] (regs.result as i32);
                SyscallModifiedArgs::Setregid(SetregidModifiedArgs { syscall_result: sysret })
            },
            SyscallRawArgs::Setresuid(_) => {
                let sysret: i32 = #[verifier::truncate] (regs.result as i32);
                SyscallModifiedArgs::Setresuid(SetresuidModifiedArgs { syscall_result: sysret })
            },
            SyscallRawArgs::Getresuid(a) => {
                let sysret: i32 = #[verifier::truncate] (regs.result as i32);
                if sysret < 0 {
                    SyscallModifiedArgs::Getresuid(GetresuidModifiedArgs { syscall_result: sysret, ruid: Err(InspectError::SyscallFailure), euid: Err(InspectError::SyscallFailure), suid: Err(InspectError::SyscallFailure) })
                } else {
                    let ruid = read_u32_value(rd, a.ruid);
                    let euid = read_u32_value(rd, a.euid);
                    let suid = read_u32_value(rd, a.suid);
                    SyscallModifiedArgs::Getresuid(GetresuidModifiedArgs { syscall_result: sysret, ruid, euid, suid })
                }
            },
            SyscallRawArgs::Setresgid(_) => {
                let sysret: i32 = #[verifier::truncate] (regs.result as i32);
                SyscallModifiedArgs::Setresgid(SetresgidModifiedArgs { syscall_result: sysret })
            },
            SyscallRawArgs::Getresgid(a) => {
                let sysret: i32 = #[verifier::truncate] (regs.result as i32);
                if sysret < 0 {
                    SyscallModifiedArgs::Getresgid(GetresgidModifiedArgs { syscall_result: sysret, rgid: Err(InspectError::SyscallFailure), egid: Err(InspectError::SyscallFailure), sgid: Err(InspectError::SyscallFailure) })
                } else {
                    let rgid = read_u32_value(rd, a.rgid);
                    let egid = read_u32_value(rd, a.egid);
                    let sgid = read_u32_value(rd, a.sgid);
                    SyscallModifiedArgs::Getresgid(GetresgidModifiedArgs { syscall_result: sysret, rgid, egid, sgid })
                }
            },
            SyscallRawArgs::Getpgid(_) => {
                let sysret: i32 = #[verifier::truncate] (regs.result as i32);
                SyscallModifiedArgs::Getpgid(GetpgidModifiedArgs { syscall_result: sysret })
            },
            SyscallRawArgs::Getsid(_) => {
                let sysret: i32 = #[verifier::truncate] (regs.result as i32);
                SyscallModifiedArgs::Getsid(GetsidModifiedArgs { syscall_result: sysret })
            },
            SyscallRawArgs::Capget(a) => {
                let sysret: i32 = #[verifier::truncate] (regs.result as i32);
                if sysret < 0 {
                    SyscallModifiedArgs::Capget(CapgetModifiedArgs { syscall_result: sysret, hdrp: Err(InspectError::SyscallFailure), datap: Err(InspectError::SyscallFailure) })
                } else {
                    let hdrp = read_cap_user_header(rd, a.hdrp);
                    let datap = read_cap_user_data(rd, a.datap);
                    SyscallModifiedArgs::Capget(CapgetModifiedArgs { syscall_result: sysret, hdrp, datap })
                }
            },
            SyscallRawArgs::Statfs(a) => {
                let sysret: i32 = #[verifier::truncate] (regs.result as i32);
                if sysret < 0 {
                    SyscallModifiedArgs::Statfs(StatfsModifiedArgs { syscall_result: sysret, buf: Err(InspectError::SyscallFailure) })
                } else {
                    let buf = read_statfs(rd, a.buf);
                    SyscallModifiedArgs::Statfs(StatfsModifiedArgs { syscall_result: sysret, buf })
                }
            },
            SyscallRawArgs::Fstatfs(a) => {
                let sysret: i32 = #[verifier::truncate] (regs.result as i32);
                if sysret < 0 {
                    SyscallModifiedArgs::Fstatfs(FstatfsModifiedArgs { syscall_result: sysret, buf: Err(InspectError::SyscallFailure) })
                } else {
                    let buf = read_statfs(rd, a.buf);
                    SyscallModifiedArgs::Fstatfs(FstatfsModifiedArgs { syscall_result: sysret, buf })
                }
            },
            SyscallRawArgs::Sync(_) => {
                let sysret: i32 = #[verifier::truncate] (regs.result as i32);
                SyscallModifiedArgs::Sync(SyncModifiedArgs { syscall_result: sysret })
            },
            SyscallRawArgs::Settimeofday(_) => {
                let sysret: i32 = #[verifier::truncate] (regs.result as i32);
                SyscallModifiedArgs::Settimeofday(SettimeofdayModifiedArgs { syscall_result: sysret })
            },
            SyscallRawArgs::Umount2(_) => {
                let sysret: i32 = #[verifier::truncate] (regs.result as i32);
                SyscallModifiedArgs::Umount2(Umount2ModifiedArgs { syscall_result: sysret })
            },
            SyscallRawArgs::Sethostname(_) => {
                let sysret: i32 = #[verifier::truncate] (regs.result as i32);
                SyscallModifiedArgs::Sethostname(SethostnameModifiedArgs { syscall_result: sysret })
            },
            SyscallRawArgs::Setdomainname(_) => {
                let sysret: i32 = #[verifier::truncate] (regs.result as i32);
                SyscallModifiedArgs::Setdomainname(SetdomainnameModifiedArgs { syscall_result: sysret })
            },
            SyscallRawArgs::Gettid(_) => {
                let sysret: i32 = #[verifier::truncate] (regs.result as i32);
                SyscallModifiedArgs::Gettid(GettidModifiedArgs { syscall_result: sysret })
            },
            SyscallRawArgs::Futex(a) => {
                let sysret: i64 = #[verifier::truncate] (regs.result as i64);
                if sysret < 0 {
                    SyscallModifiedArgs::Futex(FutexModifiedArgs { syscall_result: sysret, uaddr: Err(InspectError::SyscallFailure), uaddr2: Err(InspectError::SyscallFailure) })
                } else {
                    let uaddr = read_u32_value(rd, a.uaddr);
                    let uaddr2 = read_u32_value(rd, a.uaddr2);
                    SyscallModifiedArgs::Futex(FutexModifiedArgs { syscall_result: sysret, uaddr, uaddr2 })
                }
            },
            SyscallRawArgs::SchedGetaffinity(_) => {
                let sysret: i32 = #[verifier::truncate] (regs.result as i32);
                SyscallModifiedArgs::SchedGetaffinity(SchedGetaffinityModifiedArgs { syscall_result: sysret })
            },
            SyscallRawArgs::ClockSettime(_) => {
                let sysret: i32 = #[verifier::truncate] (regs.result as i32);
                SyscallModifiedArgs::ClockSettime(ClockSettimeModifiedArgs { syscall_result: sysret })
            },
            SyscallRawArgs::ClockGettime(a) => {
                let sysret: i32 = #[verifier::truncate] (regs.result as i32);
                if sysret < 0 {
                    SyscallModifiedArgs::ClockGettime(ClockGettimeModifiedArgs { syscall_result: sysret, tp: Err(InspectError::SyscallFailure) })
                } else {
                    let tp = read_timespec(rd, a.tp);
                    SyscallModifiedArgs::ClockGettime(ClockGettimeModifiedArgs { syscall_result: sysret, tp })
                }
            },
            SyscallRawArgs::ClockGetres(a) => {
                let sysret: i32 = #[verifier::truncate] (regs.result as i32);
                if sysret < 0 {
                    SyscallModifiedArgs::ClockGetres(ClockGetresModifiedArgs { syscall_result: sysret, res: Err(InspectError::SyscallFailure) })
                } else {
                    let res = read_timespec(rd, a.res);
                    SyscallModifiedArgs::ClockGetres(ClockGetresModifiedArgs { syscall_result: sysret, res })
                }
            },
            SyscallRawArgs::ClockNanosleep(a) => {
                let sysret: i32 = #[verifier::truncate] (regs.result as i32);
                if sysret < 0 {
                    SyscallModifiedArgs::ClockNanosleep(ClockNanosleepModifiedArgs { syscall_result: sysret, remain: Err(InspectError::SyscallFailure) })
                } else {
                    let remain = read_timespec_opt(rd, a.remain);
                    SyscallModifiedArgs::ClockNanosleep(ClockNanosleepModifiedArgs { syscall_result: sysret, remain })
                }
            },
            SyscallRawArgs::ExitGroup(_) => {
                SyscallModifiedArgs::ExitGroup(ExitGroupModifiedArgs { syscall_result: Unit })
            },
            SyscallRawArgs::Utimes(_) => {
                let sysret: i32 = #[verifier::truncate] (regs.result as i32);
                SyscallModifiedArgs::Utimes(UtimesModifiedArgs { syscall_result: sysret })
            },
            SyscallRawArgs::Openat(_) => {
                let sysret: i32 = #[verifier::truncate] (regs.result as i32);
                SyscallModifiedArgs::Openat(OpenatModifiedArgs { syscall_result: sysret })
            },
            SyscallRawArgs::Mkdirat(_) => {
                let sysret: i32 = #[verifier::truncate] (regs.result as i32);
                SyscallModifiedArgs::Mkdirat(MkdiratModifiedArgs { syscall_result: sysret })
            },
            SyscallRawArgs::Fchownat(_) => {
                let sysret: i32 = #[verifier::truncate] (regs.result as i32);
                SyscallModifiedArgs::Fchownat(FchownatModifiedArgs { syscall_result: sysret })
            },
            SyscallRawArgs::Newfstatat(a) => {
                let sysret: i32 = #[verifier::truncate] (regs.result as i32);
                if sysret < 0 {
                    SyscallModifiedArgs::Newfstatat(NewfstatatModifiedArgs { syscall_result: sysret, statbuf: Err(InspectError::SyscallFailure) })
                } else {
                    let statbuf = read_stat(rd, regs.arch, a.statbuf);
                    SyscallModifiedArgs::Newfstatat(NewfstatatModifiedArgs { syscall_result: sysret, statbuf })
                }
            },
            SyscallRawArgs::Unlinkat(_) => {
                let sysret: i32 = #[verifier::truncate] (regs.result as i32);
                SyscallModifiedArgs::Unlinkat(UnlinkatModifiedArgs { syscall_result: sysret })
            },
            SyscallRawArgs::Renameat(_) => {
                let sysret: i32 = #[verifier::truncate] (regs.result as i32);
                SyscallModifiedArgs::Renameat(RenameatModifiedArgs { syscall_result: sysret })
            },
            SyscallRawArgs::Linkat(_) => {
                let sysret: i32 = #[verifier::truncate] (regs.result as i32);
                SyscallModifiedArgs::Linkat(LinkatModifiedArgs { syscall_result: sysret })
            },
            SyscallRawArgs::Symlinkat(_) => {
                let sysret: i32 = #[verifier::truncate] (regs.result as i32);
                SyscallModifiedArgs::Symlinkat(SymlinkatModifiedArgs { syscall_result: sysret })
            },
            SyscallRawArgs::Readlinkat(a) => {
                let sysret: i64 = #[verifier::truncate] (regs.result as i64);
                if sysret < 0 {
                    SyscallModifiedArgs::Readlinkat(ReadlinkatModifiedArgs { syscall_result: sysret, buf: Err(InspectError::SyscallFailure) })
                } else {
                    let buf = rd.read_counted_bytes(a.buf, #[verifier::truncate] (sysret as usize));
                    SyscallModifiedArgs::Readlinkat(ReadlinkatModifiedArgs { syscall_result: sysret, buf })
                }
            },
            SyscallRawArgs::Fchmodat(_) => {
                let sysret: i32 = #[verifier::truncate] (regs.result as i32);
                SyscallModifiedArgs::Fchmodat(FchmodatModifiedArgs { syscall_result: sysret })
            },
            SyscallRawArgs::Faccessat(_) => {
                let sysret: i32 = #[verifier::truncate] (regs.result as i32);
                SyscallModifiedArgs::Faccessat(FaccessatModifiedArgs { syscall_result: sysret })
            },
            SyscallRawArgs::Accept4(a) => {
                let sysret: i32 = #[verifier::truncate] (regs.result as i32);
                if sysret < 0 {
                    SyscallModifiedArgs::Accept4(Accept4ModifiedArgs { syscall_result: sysret, addr: Err(InspectError::SyscallFailure), addrlen: Err(InspectError::SyscallFailure) })
                } else {
                    let addr = read_sockaddr(rd, a.addr);
                    let addrlen = read_u32_value(rd, a.addrlen);
                    SyscallModifiedArgs::Accept4(Accept4ModifiedArgs { syscall_result: sysret, addr, addrlen })
                }
            },
            SyscallRawArgs::Eventfd2(_) => {
                let sysret: i32 = #[verifier::truncate] (regs.result as i32);
                SyscallModifiedArgs::Eventfd2(Eventfd2ModifiedArgs { syscall_result: sysret })
            },
            SyscallRawArgs::EpollCreate1(_) => {
                let sysret: i32 = #[verifier::truncate] (regs.result as i32);
                SyscallModifiedArgs::EpollCreate1(EpollCreate1ModifiedArgs { syscall_result: sysret })
            },
            SyscallRawArgs::Dup3(_) => {
                let sysret: i32 = #[verifier::truncate] (regs.result as i32);
                SyscallModifiedArgs::Dup3(Dup3ModifiedArgs { syscall_result: sysret })
            },
            SyscallRawArgs::Pipe2(a) => {
                let sysret: i32 = #[verifier::truncate] (regs.result as i32);
                if sysret < 0 {
                    SyscallModifiedArgs::Pipe2(Pipe2ModifiedArgs { syscall_result: sysret, pipefd: Err(InspectError::SyscallFailure) })
                } else {
                    let pipefd = read_i32_pair(rd, a.pipefd);
                    SyscallModifiedArgs::Pipe2(Pipe2ModifiedArgs { syscall_result: sysret, pipefd })
                }
            },
            SyscallRawArgs::InotifyInit1(_) => {
                let sysret: i32 = #[verifier::truncate] (regs.result as i32);
                SyscallModifiedArgs::InotifyInit1(InotifyInit1ModifiedArgs { syscall_result: sysret })
            },
            SyscallRawArgs::Prlimit64(a) => {
                let sysret: i32 = #[verifier::truncate] (regs.result as i32);
                if sysret < 0 {
                    SyscallModifiedArgs::Prlimit64(Prlimit64ModifiedArgs { syscall_result: sysret, old_limit: Err(InspectError::SyscallFailure) })
                } else {
                    let old_limit = read_rlimit_opt(rd, a.old_limit);
                    SyscallModifiedArgs::Prlimit64(Prlimit64ModifiedArgs { syscall_result: sysret, old_limit })
                }
            },
            SyscallRawArgs::Getrandom(a) => {
                let sysret: i64 = #[verifier::truncate] (regs.result as i64);
                if sysret < 0 {
                    SyscallModifiedArgs::Getrandom(GetrandomModifiedArgs { syscall_result: sysret, buf: Err(InspectError::SyscallFailure) })
                } else {
                    let buf = rd.read_counted_bytes(a.buf, #[verifier::truncate] (sysret as usize));
                    SyscallModifiedArgs::Getrandom(GetrandomModifiedArgs { syscall_result: sysret, buf })
                }
            },
            SyscallRawArgs::MemfdCreate(_) => {
                let sysret: i32 = #[verifier::truncate] (regs.result as i32);
                SyscallModifiedArgs::MemfdCreate(MemfdCreateModifiedArgs { syscall_result: sysret })
            },
            SyscallRawArgs::Rseq(_) => {
                let sysret: i32 = #[verifier::truncate] (regs.result as i32);
                SyscallModifiedArgs::Rseq(RseqModifiedArgs { syscall_result: sysret })
            },
            SyscallRawArgs::PidfdOpen(_) => {
                let sysret: i32 = #[verifier::truncate] (regs.result as i32);
                SyscallModifiedArgs::PidfdOpen(PidfdOpenModifiedArgs { syscall_result: sysret })
            },
            SyscallRawArgs::CloseRange(_) => {
                let sysret: i32 = #[verifier::truncate] (regs.result as i32);
                SyscallModifiedArgs::CloseRange(CloseRangeModifiedArgs { syscall_result: sysret })
            },
            SyscallRawArgs::LandlockCreateRuleset(_) => {
                let sysret: i32 = #[verifier::truncate] (regs.result as i32);
                SyscallModifiedArgs::LandlockCreateRuleset(LandlockCreateRulesetModifiedArgs { syscall_result: sysret })
            },
            SyscallRawArgs::Cachestat(_) => {
                let sysret: i32 = #[verifier::truncate] (regs.result as i32);
                SyscallModifiedArgs::Cachestat(CachestatModifiedArgs { syscall_result: sysret })
            },
            SyscallRawArgs::Statmount(a) => {
                let sysret: i32 = #[verifier::truncate] (regs.result as i32);
                if sysret < 0 {
                    SyscallModifiedArgs::Statmount(StatmountModifiedArgs { syscall_result: sysret, buf: Err(InspectError::SyscallFailure) })
                } else {
                    let buf = read_statmount(rd, a.buf);
                    SyscallModifiedArgs::Statmount(StatmountModifiedArgs { syscall_result: sysret, buf })
                }
            },
            SyscallRawArgs::Unknown(u) => SyscallModifiedArgs::Unknown(*u),
        }
    }
}

} // verus!
