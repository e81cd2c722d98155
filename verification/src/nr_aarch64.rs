//! Syscall numbers of the aarch64 table, for callers that filter by
//! number without pattern-matching on decoded records.  Each constant is
//! proved equal to the number the syscall table assigns.

use vstd::prelude::*;

use crate::arch::Arch;
use crate::syscalls::{syscall_number_spec, SyscallId};

verus! {

pub const SYS_GETCWD: isize = 17;

pub const SYS_EVENTFD2: isize = 19;

pub const SYS_EPOLL_CREATE1: isize = 20;

pub const SYS_DUP: isize = 23;

pub const SYS_DUP3: isize = 24;

pub const SYS_FCNTL: isize = 25;

pub const SYS_INOTIFY_INIT1: isize = 26;

pub const SYS_IOCTL: isize = 29;

pub const SYS_FLOCK: isize = 32;

pub const SYS_MKDIRAT: isize = 34;

pub const SYS_UNLINKAT: isize = 35;

pub const SYS_SYMLINKAT: isize = 36;

pub const SYS_LINKAT: isize = 37;

pub const SYS_RENAMEAT: isize = 38;

pub const SYS_UMOUNT2: isize = 39;

pub const SYS_STATFS: isize = 43;

pub const SYS_FSTATFS: isize = 44;

pub const SYS_TRUNCATE: isize = 45;

pub const SYS_FTRUNCATE: isize = 46;

pub const SYS_FACCESSAT: isize = 48;

pub const SYS_CHDIR: isize = 49;

pub const SYS_FCHMOD: isize = 52;

pub const SYS_FCHMODAT: isize = 53;

pub const SYS_FCHOWNAT: isize = 54;

pub const SYS_FCHOWN: isize = 55;

pub const SYS_OPENAT: isize = 56;

pub const SYS_CLOSE: isize = 57;

pub const SYS_PIPE2: isize = 59;

pub const SYS_LSEEK: isize = 62;

pub const SYS_READ: isize = 63;

pub const SYS_WRITE: isize = 64;

pub const SYS_PREAD64: isize = 67;

pub const SYS_PWRITE64: isize = 68;

pub const SYS_READLINKAT: isize = 78;

pub const SYS_NEWFSTATAT: isize = 79;

pub const SYS_FSTAT: isize = 80;

pub const SYS_SYNC: isize = 81;

pub const SYS_FSYNC: isize = 82;

pub const SYS_FDATASYNC: isize = 83;

pub const SYS_CAPGET: isize = 90;

pub const SYS_EXIT: isize = 93;

pub const SYS_EXIT_GROUP: isize = 94;

pub const SYS_FUTEX: isize = 98;

pub const SYS_NANOSLEEP: isize = 101;

pub const SYS_CLOCK_SETTIME: isize = 112;

pub const SYS_CLOCK_GETTIME: isize = 113;

pub const SYS_CLOCK_GETRES: isize = 114;

pub const SYS_CLOCK_NANOSLEEP: isize = 115;

pub const SYS_PTRACE: isize = 117;

pub const SYS_SCHED_GETAFFINITY: isize = 123;

pub const SYS_SCHED_YIELD: isize = 124;

pub const SYS_KILL: isize = 129;

pub const SYS_RT_SIGRETURN: isize = 139;

pub const SYS_SETREGID: isize = 143;

pub const SYS_SETGID: isize = 144;

pub const SYS_SETREUID: isize = 145;

pub const SYS_SETUID: isize = 146;

pub const SYS_SETRESUID: isize = 147;

pub const SYS_GETRESUID: isize = 148;

pub const SYS_SETRESGID: isize = 149;

pub const SYS_GETRESGID: isize = 150;

pub const SYS_TIMES: isize = 153;

pub const SYS_SETPGID: isize = 154;

pub const SYS_GETPGID: isize = 155;

pub const SYS_GETSID: isize = 156;

pub const SYS_SETSID: isize = 157;

pub const SYS_SETHOSTNAME: isize = 161;

pub const SYS_SETDOMAINNAME: isize = 162;

pub const SYS_GETRLIMIT: isize = 163;

pub const SYS_UMASK: isize = 166;

pub const SYS_GETTIMEOFDAY: isize = 169;

pub const SYS_SETTIMEOFDAY: isize = 170;

pub const SYS_GETPID: isize = 172;

pub const SYS_GETPPID: isize = 173;

pub const SYS_GETUID: isize = 174;

pub const SYS_GETEUID: isize = 175;

pub const SYS_GETGID: isize = 176;

pub const SYS_GETEGID: isize = 177;

pub const SYS_GETTID: isize = 178;

pub const SYS_MSGGET: isize = 186;

pub const SYS_MSGSND: isize = 189;

pub const SYS_SEMGET: isize = 190;

pub const SYS_SEMCTL: isize = 191;

pub const SYS_SEMOP: isize = 193;

pub const SYS_SHMGET: isize = 194;

pub const SYS_SHMAT: isize = 196;

pub const SYS_SHMDT: isize = 197;

pub const SYS_SOCKET: isize = 198;

pub const SYS_SOCKETPAIR: isize = 199;

pub const SYS_BIND: isize = 200;

pub const SYS_LISTEN: isize = 201;

pub const SYS_ACCEPT: isize = 202;

pub const SYS_CONNECT: isize = 203;

pub const SYS_GETSOCKNAME: isize = 204;

pub const SYS_GETPEERNAME: isize = 205;

pub const SYS_SHUTDOWN: isize = 210;

pub const SYS_BRK: isize = 214;

pub const SYS_MUNMAP: isize = 215;

pub const SYS_MREMAP: isize = 216;

pub const SYS_CLONE: isize = 220;

pub const SYS_EXECVE: isize = 221;

pub const SYS_MMAP: isize = 222;

pub const SYS_MPROTECT: isize = 226;

pub const SYS_MSYNC: isize = 227;

pub const SYS_MADVISE: isize = 233;

pub const SYS_ACCEPT4: isize = 242;

pub const SYS_PRLIMIT64: isize = 261;

pub const SYS_GETRANDOM: isize = 278;

pub const SYS_MEMFD_CREATE: isize = 279;

pub const SYS_RSEQ: isize = 293;

pub const SYS_PIDFD_OPEN: isize = 434;

pub const SYS_CLOSE_RANGE: isize = 436;

pub const SYS_LANDLOCK_CREATE_RULESET: isize = 444;

pub const SYS_CACHESTAT: isize = 451;

pub const SYS_STATMOUNT: isize = 457;

/// Every constant in this module equals the number the declarative table
/// assigns to its syscall on aarch64.
pub proof fn lemma_constants_match_table()
    ensures
        syscall_number_spec(SyscallId::Getcwd, Arch::Aarch64) == Some(SYS_GETCWD as u64),
        syscall_number_spec(SyscallId::Eventfd2, Arch::Aarch64) == Some(SYS_EVENTFD2 as u64),
        syscall_number_spec(SyscallId::EpollCreate1, Arch::Aarch64) == Some(SYS_EPOLL_CREATE1 as u64),
        syscall_number_spec(SyscallId::Dup, Arch::Aarch64) == Some(SYS_DUP as u64),
        syscall_number_spec(SyscallId::Dup3, Arch::Aarch64) == Some(SYS_DUP3 as u64),
        syscall_number_spec(SyscallId::Fcntl, Arch::Aarch64) == Some(SYS_FCNTL as u64),
        syscall_number_spec(SyscallId::InotifyInit1, Arch::Aarch64) == Some(SYS_INOTIFY_INIT1 as u64),
        syscall_number_spec(SyscallId::Ioctl, Arch::Aarch64) == Some(SYS_IOCTL as u64),
        syscall_number_spec(SyscallId::Flock, Arch::Aarch64) == Some(SYS_FLOCK as u64),
        syscall_number_spec(SyscallId::Mkdirat, Arch::Aarch64) == Some(SYS_MKDIRAT as u64),
        syscall_number_spec(SyscallId::Unlinkat, Arch::Aarch64) == Some(SYS_UNLINKAT as u64),
        syscall_number_spec(SyscallId::Symlinkat, Arch::Aarch64) == Some(SYS_SYMLINKAT as u64),
        syscall_number_spec(SyscallId::Linkat, Arch::Aarch64) == Some(SYS_LINKAT as u64),
        syscall_number_spec(SyscallId::Renameat, Arch::Aarch64) == Some(SYS_RENAMEAT as u64),
        syscall_number_spec(SyscallId::Umount2, Arch::Aarch64) == Some(SYS_UMOUNT2 as u64),
        syscall_number_spec(SyscallId::Statfs, Arch::Aarch64) == Some(SYS_STATFS as u64),
        syscall_number_spec(SyscallId::Fstatfs, Arch::Aarch64) == Some(SYS_FSTATFS as u64),
        syscall_number_spec(SyscallId::Truncate, Arch::Aarch64) == Some(SYS_TRUNCATE as u64),
        syscall_number_spec(SyscallId::Ftruncate, Arch::Aarch64) == Some(SYS_FTRUNCATE as u64),
        syscall_number_spec(SyscallId::Faccessat, Arch::Aarch64) == Some(SYS_FACCESSAT as u64),
        syscall_number_spec(SyscallId::Chdir, Arch::Aarch64) == Some(SYS_CHDIR as u64),
        syscall_number_spec(SyscallId::Fchmod, Arch::Aarch64) == Some(SYS_FCHMOD as u64),
        syscall_number_spec(SyscallId::Fchmodat, Arch::Aarch64) == Some(SYS_FCHMODAT as u64),
        syscall_number_spec(SyscallId::Fchownat, Arch::Aarch64) == Some(SYS_FCHOWNAT as u64),
        syscall_number_spec(SyscallId::Fchown, Arch::Aarch64) == Some(SYS_FCHOWN as u64),
        syscall_number_spec(SyscallId::Openat, Arch::Aarch64) == Some(SYS_OPENAT as u64),
        syscall_number_spec(SyscallId::Close, Arch::Aarch64) == Some(SYS_CLOSE as u64),
        syscall_number_spec(SyscallId::Pipe2, Arch::Aarch64) == Some(SYS_PIPE2 as u64),
        syscall_number_spec(SyscallId::Lseek, Arch::Aarch64) == Some(SYS_LSEEK as u64),
        syscall_number_spec(SyscallId::Read, Arch::Aarch64) == Some(SYS_READ as u64),
        syscall_number_spec(SyscallId::Write, Arch::Aarch64) == Some(SYS_WRITE as u64),
        syscall_number_spec(SyscallId::Pread64, Arch::Aarch64) == Some(SYS_PREAD64 as u64),
        syscall_number_spec(SyscallId::Pwrite64, Arch::Aarch64) == Some(SYS_PWRITE64 as u64),
        syscall_number_spec(SyscallId::Readlinkat, Arch::Aarch64) == Some(SYS_READLINKAT as u64),
        syscall_number_spec(SyscallId::Newfstatat, Arch::Aarch64) == Some(SYS_NEWFSTATAT as u64),
        syscall_number_spec(SyscallId::Fstat, Arch::Aarch64) == Some(SYS_FSTAT as u64),
        syscall_number_spec(SyscallId::Sync, Arch::Aarch64) == Some(SYS_SYNC as u64),
        syscall_number_spec(SyscallId::Fsync, Arch::Aarch64) == Some(SYS_FSYNC as u64),
        syscall_number_spec(SyscallId::Fdatasync, Arch::Aarch64) == Some(SYS_FDATASYNC as u64),
        syscall_number_spec(SyscallId::Capget, Arch::Aarch64) == Some(SYS_CAPGET as u64),
        syscall_number_spec(SyscallId::Exit, Arch::Aarch64) == Some(SYS_EXIT as u64),
        syscall_number_spec(SyscallId::ExitGroup, Arch::Aarch64) == Some(SYS_EXIT_GROUP as u64),
        syscall_number_spec(SyscallId::Futex, Arch::Aarch64) == Some(SYS_FUTEX as u64),
        syscall_number_spec(SyscallId::Nanosleep, Arch::Aarch64) == Some(SYS_NANOSLEEP as u64),
        syscall_number_spec(SyscallId::ClockSettime, Arch::Aarch64) == Some(SYS_CLOCK_SETTIME as u64),
        syscall_number_spec(SyscallId::ClockGettime, Arch::Aarch64) == Some(SYS_CLOCK_GETTIME as u64),
        syscall_number_spec(SyscallId::ClockGetres, Arch::Aarch64) == Some(SYS_CLOCK_GETRES as u64),
        syscall_number_spec(SyscallId::ClockNanosleep, Arch::Aarch64) == Some(SYS_CLOCK_NANOSLEEP as u64),
        syscall_number_spec(SyscallId::Ptrace, Arch::Aarch64) == Some(SYS_PTRACE as u64),
        syscall_number_spec(SyscallId::SchedGetaffinity, Arch::Aarch64) == Some(SYS_SCHED_GETAFFINITY as u64),
        syscall_number_spec(SyscallId::SchedYield, Arch::Aarch64) == Some(SYS_SCHED_YIELD as u64),
        syscall_number_spec(SyscallId::Kill, Arch::Aarch64) == Some(SYS_KILL as u64),
        syscall_number_spec(SyscallId::RtSigreturn, Arch::Aarch64) == Some(SYS_RT_SIGRETURN as u64),
        syscall_number_spec(SyscallId::Setregid, Arch::Aarch64) == Some(SYS_SETREGID as u64),
        syscall_number_spec(SyscallId::Setgid, Arch::Aarch64) == Some(SYS_SETGID as u64),
        syscall_number_spec(SyscallId::Setreuid, Arch::Aarch64) == Some(SYS_SETREUID as u64),
        syscall_number_spec(SyscallId::Setuid, Arch::Aarch64) == Some(SYS_SETUID as u64),
        syscall_number_spec(SyscallId::Setresuid, Arch::Aarch64) == Some(SYS_SETRESUID as u64),
        syscall_number_spec(SyscallId::Getresuid, Arch::Aarch64) == Some(SYS_GETRESUID as u64),
        syscall_number_spec(SyscallId::Setresgid, Arch::Aarch64) == Some(SYS_SETRESGID as u64),
        syscall_number_spec(SyscallId::Getresgid, Arch::Aarch64) == Some(SYS_GETRESGID as u64),
        syscall_number_spec(SyscallId::Times, Arch::Aarch64) == Some(SYS_TIMES as u64),
        syscall_number_spec(SyscallId::Setpgid, Arch::Aarch64) == Some(SYS_SETPGID as u64),
        syscall_number_spec(SyscallId::Getpgid, Arch::Aarch64) == Some(SYS_GETPGID as u64),
        syscall_number_spec(SyscallId::Getsid, Arch::Aarch64) == Some(SYS_GETSID as u64),
        syscall_number_spec(SyscallId::Setsid, Arch::Aarch64) == Some(SYS_SETSID as u64),
        syscall_number_spec(SyscallId::Sethostname, Arch::Aarch64) == Some(SYS_SETHOSTNAME as u64),
        syscall_number_spec(SyscallId::Setdomainname, Arch::Aarch64) == Some(SYS_SETDOMAINNAME as u64),
        syscall_number_spec(SyscallId::Getrlimit, Arch::Aarch64) == Some(SYS_GETRLIMIT as u64),
        syscall_number_spec(SyscallId::Umask, Arch::Aarch64) == Some(SYS_UMASK as u64),
        syscall_number_spec(SyscallId::Gettimeofday, Arch::Aarch64) == Some(SYS_GETTIMEOFDAY as u64),
        syscall_number_spec(SyscallId::Settimeofday, Arch::Aarch64) == Some(SYS_SETTIMEOFDAY as u64),
        syscall_number_spec(SyscallId::Getpid, Arch::Aarch64) == Some(SYS_GETPID as u64),
        syscall_number_spec(SyscallId::Getppid, Arch::Aarch64) == Some(SYS_GETPPID as u64),
        syscall_number_spec(SyscallId::Getuid, Arch::Aarch64) == Some(SYS_GETUID as u64),
        syscall_number_spec(SyscallId::Geteuid, Arch::Aarch64) == Some(SYS_GETEUID as u64),
        syscall_number_spec(SyscallId::Getgid, Arch::Aarch64) == Some(SYS_GETGID as u64),
        syscall_number_spec(SyscallId::Getegid, Arch::Aarch64) == Some(SYS_GETEGID as u64),
        syscall_number_spec(SyscallId::Gettid, Arch::Aarch64) == Some(SYS_GETTID as u64),
        syscall_number_spec(SyscallId::Msgget, Arch::Aarch64) == Some(SYS_MSGGET as u64),
        syscall_number_spec(SyscallId::Msgsnd, Arch::Aarch64) == Some(SYS_MSGSND as u64),
        syscall_number_spec(SyscallId::Semget, Arch::Aarch64) == Some(SYS_SEMGET as u64),
        syscall_number_spec(SyscallId::Semctl, Arch::Aarch64) == Some(SYS_SEMCTL as u64),
        syscall_number_spec(SyscallId::Semop, Arch::Aarch64) == Some(SYS_SEMOP as u64),
        syscall_number_spec(SyscallId::Shmget, Arch::Aarch64) == Some(SYS_SHMGET as u64),
        syscall_number_spec(SyscallId::Shmat, Arch::Aarch64) == Some(SYS_SHMAT as u64),
        syscall_number_spec(SyscallId::Shmdt, Arch::Aarch64) == Some(SYS_SHMDT as u64),
        syscall_number_spec(SyscallId::Socket, Arch::Aarch64) == Some(SYS_SOCKET as u64),
        syscall_number_spec(SyscallId::Socketpair, Arch::Aarch64) == Some(SYS_SOCKETPAIR as u64),
        syscall_number_spec(SyscallId::Bind, Arch::Aarch64) == Some(SYS_BIND as u64),
        syscall_number_spec(SyscallId::Listen, Arch::Aarch64) == Some(SYS_LISTEN as u64),
        syscall_number_spec(SyscallId::Accept, Arch::Aarch64) == Some(SYS_ACCEPT as u64),
        syscall_number_spec(SyscallId::Connect, Arch::Aarch64) == Some(SYS_CONNECT as u64),
        syscall_number_spec(SyscallId::Getsockname, Arch::Aarch64) == Some(SYS_GETSOCKNAME as u64),
        syscall_number_spec(SyscallId::Getpeername, Arch::Aarch64) == Some(SYS_GETPEERNAME as u64),
        syscall_number_spec(SyscallId::Shutdown, Arch::Aarch64) == Some(SYS_SHUTDOWN as u64),
        syscall_number_spec(SyscallId::Brk, Arch::Aarch64) == Some(SYS_BRK as u64),
        syscall_number_spec(SyscallId::Munmap, Arch::Aarch64) == Some(SYS_MUNMAP as u64),
        syscall_number_spec(SyscallId::Mremap, Arch::Aarch64) == Some(SYS_MREMAP as u64),
        syscall_number_spec(SyscallId::Clone, Arch::Aarch64) == Some(SYS_CLONE as u64),
        syscall_number_spec(SyscallId::Execve, Arch::Aarch64) == Some(SYS_EXECVE as u64),
        syscall_number_spec(SyscallId::Mmap, Arch::Aarch64) == Some(SYS_MMAP as u64),
        syscall_number_spec(SyscallId::Mprotect, Arch::Aarch64) == Some(SYS_MPROTECT as u64),
        syscall_number_spec(SyscallId::Msync, Arch::Aarch64) == Some(SYS_MSYNC as u64),
        syscall_number_spec(SyscallId::Madvise, Arch::Aarch64) == Some(SYS_MADVISE as u64),
        syscall_number_spec(SyscallId::Accept4, Arch::Aarch64) == Some(SYS_ACCEPT4 as u64),
        syscall_number_spec(SyscallId::Prlimit64, Arch::Aarch64) == Some(SYS_PRLIMIT64 as u64),
        syscall_number_spec(SyscallId::Getrandom, Arch::Aarch64) == Some(SYS_GETRANDOM as u64),
        syscall_number_spec(SyscallId::MemfdCreate, Arch::Aarch64) == Some(SYS_MEMFD_CREATE as u64),
        syscall_number_spec(SyscallId::Rseq, Arch::Aarch64) == Some(SYS_RSEQ as u64),
        syscall_number_spec(SyscallId::PidfdOpen, Arch::Aarch64) == Some(SYS_PIDFD_OPEN as u64),
        syscall_number_spec(SyscallId::CloseRange, Arch::Aarch64) == Some(SYS_CLOSE_RANGE as u64),
        syscall_number_spec(SyscallId::LandlockCreateRuleset, Arch::Aarch64) == Some(SYS_LANDLOCK_CREATE_RULESET as u64),
        syscall_number_spec(SyscallId::Cachestat, Arch::Aarch64) == Some(SYS_CACHESTAT as u64),
        syscall_number_spec(SyscallId::Statmount, Arch::Aarch64) == Some(SYS_STATMOUNT as u64),
{
}

} // verus!
