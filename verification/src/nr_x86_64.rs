//! Syscall numbers of the x86_64 table, for callers that filter by
//! number without pattern-matching on decoded records.  Each constant is
//! proved equal to the number the syscall table assigns.

use vstd::prelude::*;

use crate::arch::Arch;
use crate::syscalls::{syscall_number_spec, SyscallId};

verus! {

pub const SYS_READ: isize = 0;

pub const SYS_WRITE: isize = 1;

pub const SYS_OPEN: isize = 2;

pub const SYS_CLOSE: isize = 3;

pub const SYS_STAT: isize = 4;

pub const SYS_FSTAT: isize = 5;

pub const SYS_LSTAT: isize = 6;

pub const SYS_LSEEK: isize = 8;

pub const SYS_MMAP: isize = 9;

pub const SYS_MPROTECT: isize = 10;

pub const SYS_MUNMAP: isize = 11;

pub const SYS_BRK: isize = 12;

pub const SYS_RT_SIGRETURN: isize = 15;

pub const SYS_IOCTL: isize = 16;

pub const SYS_PREAD64: isize = 17;

pub const SYS_PWRITE64: isize = 18;

pub const SYS_ACCESS: isize = 21;

pub const SYS_PIPE: isize = 22;

pub const SYS_SCHED_YIELD: isize = 24;

pub const SYS_MREMAP: isize = 25;

pub const SYS_MSYNC: isize = 26;

pub const SYS_MADVISE: isize = 28;

pub const SYS_SHMGET: isize = 29;

pub const SYS_SHMAT: isize = 30;

pub const SYS_DUP: isize = 32;

pub const SYS_DUP2: isize = 33;

pub const SYS_PAUSE: isize = 34;

pub const SYS_NANOSLEEP: isize = 35;

pub const SYS_ALARM: isize = 37;

pub const SYS_GETPID: isize = 39;

pub const SYS_SOCKET: isize = 41;

pub const SYS_CONNECT: isize = 42;

pub const SYS_ACCEPT: isize = 43;

pub const SYS_SHUTDOWN: isize = 48;

pub const SYS_BIND: isize = 49;

pub const SYS_LISTEN: isize = 50;

pub const SYS_GETSOCKNAME: isize = 51;

pub const SYS_GETPEERNAME: isize = 52;

pub const SYS_SOCKETPAIR: isize = 53;

pub const SYS_CLONE: isize = 56;

pub const SYS_EXECVE: isize = 59;

pub const SYS_EXIT: isize = 60;

pub const SYS_KILL: isize = 62;

pub const SYS_SEMGET: isize = 64;

pub const SYS_SEMOP: isize = 65;

pub const SYS_SEMCTL: isize = 66;

pub const SYS_SHMDT: isize = 67;

pub const SYS_MSGGET: isize = 68;

pub const SYS_MSGSND: isize = 69;

pub const SYS_FCNTL: isize = 72;

pub const SYS_FLOCK: isize = 73;

pub const SYS_FSYNC: isize = 74;

pub const SYS_FDATASYNC: isize = 75;

pub const SYS_TRUNCATE: isize = 76;

pub const SYS_FTRUNCATE: isize = 77;

pub const SYS_GETCWD: isize = 79;

pub const SYS_CHDIR: isize = 80;

pub const SYS_RENAME: isize = 82;

pub const SYS_MKDIR: isize = 83;

pub const SYS_RMDIR: isize = 84;

pub const SYS_CREAT: isize = 85;

pub const SYS_LINK: isize = 86;

pub const SYS_UNLINK: isize = 87;

pub const SYS_SYMLINK: isize = 88;

pub const SYS_READLINK: isize = 89;

pub const SYS_CHMOD: isize = 90;

pub const SYS_FCHMOD: isize = 91;

pub const SYS_CHOWN: isize = 92;

pub const SYS_FCHOWN: isize = 93;

pub const SYS_LCHOWN: isize = 94;

pub const SYS_UMASK: isize = 95;

pub const SYS_GETTIMEOFDAY: isize = 96;

pub const SYS_GETRLIMIT: isize = 97;

pub const SYS_TIMES: isize = 100;

pub const SYS_PTRACE: isize = 101;

pub const SYS_GETUID: isize = 102;

pub const SYS_GETGID: isize = 104;

pub const SYS_SETUID: isize = 105;

pub const SYS_SETGID: isize = 106;

pub const SYS_GETEUID: isize = 107;

pub const SYS_GETEGID: isize = 108;

pub const SYS_SETPGID: isize = 109;

pub const SYS_GETPPID: isize = 110;

pub const SYS_SETSID: isize = 112;

pub const SYS_SETREUID: isize = 113;

pub const SYS_SETREGID: isize = 114;

pub const SYS_SETRESUID: isize = 117;

pub const SYS_GETRESUID: isize = 118;

pub const SYS_SETRESGID: isize = 119;

pub const SYS_GETRESGID: isize = 120;

pub const SYS_GETPGID: isize = 121;

pub const SYS_GETSID: isize = 124;

pub const SYS_CAPGET: isize = 125;

pub const SYS_STATFS: isize = 137;

pub const SYS_FSTATFS: isize = 138;

pub const SYS_SYNC: isize = 162;

pub const SYS_SETTIMEOFDAY: isize = 164;

pub const SYS_UMOUNT2: isize = 166;

pub const SYS_SETHOSTNAME: isize = 170;

pub const SYS_SETDOMAINNAME: isize = 171;

pub const SYS_GETTID: isize = 186;

pub const SYS_FUTEX: isize = 202;

pub const SYS_SCHED_GETAFFINITY: isize = 204;

pub const SYS_CLOCK_SETTIME: isize = 227;

pub const SYS_CLOCK_GETTIME: isize = 228;

pub const SYS_CLOCK_GETRES: isize = 229;

pub const SYS_CLOCK_NANOSLEEP: isize = 230;

pub const SYS_EXIT_GROUP: isize = 231;

pub const SYS_UTIMES: isize = 235;

pub const SYS_OPENAT: isize = 257;

pub const SYS_MKDIRAT: isize = 258;

pub const SYS_FCHOWNAT: isize = 260;

pub const SYS_NEWFSTATAT: isize = 262;

pub const SYS_UNLINKAT: isize = 263;

pub const SYS_RENAMEAT: isize = 264;

pub const SYS_LINKAT: isize = 265;

pub const SYS_SYMLINKAT: isize = 266;

pub const SYS_READLINKAT: isize = 267;

pub const SYS_FCHMODAT: isize = 268;

pub const SYS_FACCESSAT: isize = 269;

pub const SYS_ACCEPT4: isize = 288;

pub const SYS_EVENTFD2: isize = 290;

pub const SYS_EPOLL_CREATE1: isize = 291;

pub const SYS_DUP3: isize = 292;

pub const SYS_PIPE2: isize = 293;

pub const SYS_INOTIFY_INIT1: isize = 294;

pub const SYS_PRLIMIT64: isize = 302;

pub const SYS_GETRANDOM: isize = 318;

pub const SYS_MEMFD_CREATE: isize = 319;

pub const SYS_RSEQ: isize = 334;

pub const SYS_PIDFD_OPEN: isize = 434;

pub const SYS_CLOSE_RANGE: isize = 436;

pub const SYS_LANDLOCK_CREATE_RULESET: isize = 444;

pub const SYS_CACHESTAT: isize = 451;

pub const SYS_STATMOUNT: isize = 457;

/// Every constant in this module equals the number the declarative table
/// assigns to its syscall on x86_64.
pub proof fn lemma_constants_match_table()
    ensures
        syscall_number_spec(SyscallId::Read, Arch::X86_64) == Some(SYS_READ as u64),
        syscall_number_spec(SyscallId::Write, Arch::X86_64) == Some(SYS_WRITE as u64),
        syscall_number_spec(SyscallId::Open, Arch::X86_64) == Some(SYS_OPEN as u64),
        syscall_number_spec(SyscallId::Close, Arch::X86_64) == Some(SYS_CLOSE as u64),
        syscall_number_spec(SyscallId::Stat, Arch::X86_64) == Some(SYS_STAT as u64),
        syscall_number_spec(SyscallId::Fstat, Arch::X86_64) == Some(SYS_FSTAT as u64),
        syscall_number_spec(SyscallId::Lstat, Arch::X86_64) == Some(SYS_LSTAT as u64),
        syscall_number_spec(SyscallId::Lseek, Arch::X86_64) == Some(SYS_LSEEK as u64),
        syscall_number_spec(SyscallId::Mmap, Arch::X86_64) == Some(SYS_MMAP as u64),
        syscall_number_spec(SyscallId::Mprotect, Arch::X86_64) == Some(SYS_MPROTECT as u64),
        syscall_number_spec(SyscallId::Munmap, Arch::X86_64) == Some(SYS_MUNMAP as u64),
        syscall_number_spec(SyscallId::Brk, Arch::X86_64) == Some(SYS_BRK as u64),
        syscall_number_spec(SyscallId::RtSigreturn, Arch::X86_64) == Some(SYS_RT_SIGRETURN as u64),
        syscall_number_spec(SyscallId::Ioctl, Arch::X86_64) == Some(SYS_IOCTL as u64),
        syscall_number_spec(SyscallId::Pread64, Arch::X86_64) == Some(SYS_PREAD64 as u64),
        syscall_number_spec(SyscallId::Pwrite64, Arch::X86_64) == Some(SYS_PWRITE64 as u64),
        syscall_number_spec(SyscallId::Access, Arch::X86_64) == Some(SYS_ACCESS as u64),
        syscall_number_spec(SyscallId::Pipe, Arch::X86_64) == Some(SYS_PIPE as u64),
        syscall_number_spec(SyscallId::SchedYield, Arch::X86_64) == Some(SYS_SCHED_YIELD as u64),
        syscall_number_spec(SyscallId::Mremap, Arch::X86_64) == Some(SYS_MREMAP as u64),
        syscall_number_spec(SyscallId::Msync, Arch::X86_64) == Some(SYS_MSYNC as u64),
        syscall_number_spec(SyscallId::Madvise, Arch::X86_64) == Some(SYS_MADVISE as u64),
        syscall_number_spec(SyscallId::Shmget, Arch::X86_64) == Some(SYS_SHMGET as u64),
        syscall_number_spec(SyscallId::Shmat, Arch::X86_64) == Some(SYS_SHMAT as u64),
        syscall_number_spec(SyscallId::Dup, Arch::X86_64) == Some(SYS_DUP as u64),
        syscall_number_spec(SyscallId::Dup2, Arch::X86_64) == Some(SYS_DUP2 as u64),
        syscall_number_spec(SyscallId::Pause, Arch::X86_64) == Some(SYS_PAUSE as u64),
        syscall_number_spec(SyscallId::Nanosleep, Arch::X86_64) == Some(SYS_NANOSLEEP as u64),
        syscall_number_spec(SyscallId::Alarm, Arch::X86_64) == Some(SYS_ALARM as u64),
        syscall_number_spec(SyscallId::Getpid, Arch::X86_64) == Some(SYS_GETPID as u64),
        syscall_number_spec(SyscallId::Socket, Arch::X86_64) == Some(SYS_SOCKET as u64),
        syscall_number_spec(SyscallId::Connect, Arch::X86_64) == Some(SYS_CONNECT as u64),
        syscall_number_spec(SyscallId::Accept, Arch::X86_64) == Some(SYS_ACCEPT as u64),
        syscall_number_spec(SyscallId::Shutdown, Arch::X86_64) == Some(SYS_SHUTDOWN as u64),
        syscall_number_spec(SyscallId::Bind, Arch::X86_64) == Some(SYS_BIND as u64),
        syscall_number_spec(SyscallId::Listen, Arch::X86_64) == Some(SYS_LISTEN as u64),
        syscall_number_spec(SyscallId::Getsockname, Arch::X86_64) == Some(SYS_GETSOCKNAME as u64),
        syscall_number_spec(SyscallId::Getpeername, Arch::X86_64) == Some(SYS_GETPEERNAME as u64),
        syscall_number_spec(SyscallId::Socketpair, Arch::X86_64) == Some(SYS_SOCKETPAIR as u64),
        syscall_number_spec(SyscallId::Clone, Arch::X86_64) == Some(SYS_CLONE as u64),
        syscall_number_spec(SyscallId::Execve, Arch::X86_64) == Some(SYS_EXECVE as u64),
        syscall_number_spec(SyscallId::Exit, Arch::X86_64) == Some(SYS_EXIT as u64),
        syscall_number_spec(SyscallId::Kill, Arch::X86_64) == Some(SYS_KILL as u64),
        syscall_number_spec(SyscallId::Semget, Arch::X86_64) == Some(SYS_SEMGET as u64),
        syscall_number_spec(SyscallId::Semop, Arch::X86_64) == Some(SYS_SEMOP as u64),
        syscall_number_spec(SyscallId::Semctl, Arch::X86_64) == Some(SYS_SEMCTL as u64),
        syscall_number_spec(SyscallId::Shmdt, Arch::X86_64) == Some(SYS_SHMDT as u64),
        syscall_number_spec(SyscallId::Msgget, Arch::X86_64) == Some(SYS_MSGGET as u64),
        syscall_number_spec(SyscallId::Msgsnd, Arch::X86_64) == Some(SYS_MSGSND as u64),
        syscall_number_spec(SyscallId::Fcntl, Arch::X86_64) == Some(SYS_FCNTL as u64),
        syscall_number_spec(SyscallId::Flock, Arch::X86_64) == Some(SYS_FLOCK as u64),
        syscall_number_spec(SyscallId::Fsync, Arch::X86_64) == Some(SYS_FSYNC as u64),
        syscall_number_spec(SyscallId::Fdatasync, Arch::X86_64) == Some(SYS_FDATASYNC as u64),
        syscall_number_spec(SyscallId::Truncate, Arch::X86_64) == Some(SYS_TRUNCATE as u64),
        syscall_number_spec(SyscallId::Ftruncate, Arch::X86_64) == Some(SYS_FTRUNCATE as u64),
        syscall_number_spec(SyscallId::Getcwd, Arch::X86_64) == Some(SYS_GETCWD as u64),
        syscall_number_spec(SyscallId::Chdir, Arch::X86_64) == Some(SYS_CHDIR as u64),
        syscall_number_spec(SyscallId::Rename, Arch::X86_64) == Some(SYS_RENAME as u64),
        syscall_number_spec(SyscallId::Mkdir, Arch::X86_64) == Some(SYS_MKDIR as u64),
        syscall_number_spec(SyscallId::Rmdir, Arch::X86_64) == Some(SYS_RMDIR as u64),
        syscall_number_spec(SyscallId::Creat, Arch::X86_64) == Some(SYS_CREAT as u64),
        syscall_number_spec(SyscallId::Link, Arch::X86_64) == Some(SYS_LINK as u64),
        syscall_number_spec(SyscallId::Unlink, Arch::X86_64) == Some(SYS_UNLINK as u64),
        syscall_number_spec(SyscallId::Symlink, Arch::X86_64) == Some(SYS_SYMLINK as u64),
        syscall_number_spec(SyscallId::Readlink, Arch::X86_64) == Some(SYS_READLINK as u64),
        syscall_number_spec(SyscallId::Chmod, Arch::X86_64) == Some(SYS_CHMOD as u64),
        syscall_number_spec(SyscallId::Fchmod, Arch::X86_64) == Some(SYS_FCHMOD as u64),
        syscall_number_spec(SyscallId::Chown, Arch::X86_64) == Some(SYS_CHOWN as u64),
        syscall_number_spec(SyscallId::Fchown, Arch::X86_64) == Some(SYS_FCHOWN as u64),
        syscall_number_spec(SyscallId::Lchown, Arch::X86_64) == Some(SYS_LCHOWN as u64),
        syscall_number_spec(SyscallId::Umask, Arch::X86_64) == Some(SYS_UMASK as u64),
        syscall_number_spec(SyscallId::Gettimeofday, Arch::X86_64) == Some(SYS_GETTIMEOFDAY as u64),
        syscall_number_spec(SyscallId::Getrlimit, Arch::X86_64) == Some(SYS_GETRLIMIT as u64),
        syscall_number_spec(SyscallId::Times, Arch::X86_64) == Some(SYS_TIMES as u64),
        syscall_number_spec(SyscallId::Ptrace, Arch::X86_64) == Some(SYS_PTRACE as u64),
        syscall_number_spec(SyscallId::Getuid, Arch::X86_64) == Some(SYS_GETUID as u64),
        syscall_number_spec(SyscallId::Getgid, Arch::X86_64) == Some(SYS_GETGID as u64),
        syscall_number_spec(SyscallId::Setuid, Arch::X86_64) == Some(SYS_SETUID as u64),
        syscall_number_spec(SyscallId::Setgid, Arch::X86_64) == Some(SYS_SETGID as u64),
        syscall_number_spec(SyscallId::Geteuid, Arch::X86_64) == Some(SYS_GETEUID as u64),
        syscall_number_spec(SyscallId::Getegid, Arch::X86_64) == Some(SYS_GETEGID as u64),
        syscall_number_spec(SyscallId::Setpgid, Arch::X86_64) == Some(SYS_SETPGID as u64),
        syscall_number_spec(SyscallId::Getppid, Arch::X86_64) == Some(SYS_GETPPID as u64),
        syscall_number_spec(SyscallId::Setsid, Arch::X86_64) == Some(SYS_SETSID as u64),
        syscall_number_spec(SyscallId::Setreuid, Arch::X86_64) == Some(SYS_SETREUID as u64),
        syscall_number_spec(SyscallId::Setregid, Arch::X86_64) == Some(SYS_SETREGID as u64),
        syscall_number_spec(SyscallId::Setresuid, Arch::X86_64) == Some(SYS_SETRESUID as u64),
        syscall_number_spec(SyscallId::Getresuid, Arch::X86_64) == Some(SYS_GETRESUID as u64),
        syscall_number_spec(SyscallId::Setresgid, Arch::X86_64) == Some(SYS_SETRESGID as u64),
        syscall_number_spec(SyscallId::Getresgid, Arch::X86_64) == Some(SYS_GETRESGID as u64),
        syscall_number_spec(SyscallId::Getpgid, Arch::X86_64) == Some(SYS_GETPGID as u64),
        syscall_number_spec(SyscallId::Getsid, Arch::X86_64) == Some(SYS_GETSID as u64),
        syscall_number_spec(SyscallId::Capget, Arch::X86_64) == Some(SYS_CAPGET as u64),
        syscall_number_spec(SyscallId::Statfs, Arch::X86_64) == Some(SYS_STATFS as u64),
        syscall_number_spec(SyscallId::Fstatfs, Arch::X86_64) == Some(SYS_FSTATFS as u64),
        syscall_number_spec(SyscallId::Sync, Arch::X86_64) == Some(SYS_SYNC as u64),
        syscall_number_spec(SyscallId::Settimeofday, Arch::X86_64) == Some(SYS_SETTIMEOFDAY as u64),
        syscall_number_spec(SyscallId::Umount2, Arch::X86_64) == Some(SYS_UMOUNT2 as u64),
        syscall_number_spec(SyscallId::Sethostname, Arch::X86_64) == Some(SYS_SETHOSTNAME as u64),
        syscall_number_spec(SyscallId::Setdomainname, Arch::X86_64) == Some(SYS_SETDOMAINNAME as u64),
        syscall_number_spec(SyscallId::Gettid, Arch::X86_64) == Some(SYS_GETTID as u64),
        syscall_number_spec(SyscallId::Futex, Arch::X86_64) == Some(SYS_FUTEX as u64),
        syscall_number_spec(SyscallId::SchedGetaffinity, Arch::X86_64) == Some(SYS_SCHED_GETAFFINITY as u64),
        syscall_number_spec(SyscallId::ClockSettime, Arch::X86_64) == Some(SYS_CLOCK_SETTIME as u64),
        syscall_number_spec(SyscallId::ClockGettime, Arch::X86_64) == Some(SYS_CLOCK_GETTIME as u64),
        syscall_number_spec(SyscallId::ClockGetres, Arch::X86_64) == Some(SYS_CLOCK_GETRES as u64),
        syscall_number_spec(SyscallId::ClockNanosleep, Arch::X86_64) == Some(SYS_CLOCK_NANOSLEEP as u64),
        syscall_number_spec(SyscallId::ExitGroup, Arch::X86_64) == Some(SYS_EXIT_GROUP as u64),
        syscall_number_spec(SyscallId::Utimes, Arch::X86_64) == Some(SYS_UTIMES as u64),
        syscall_number_spec(SyscallId::Openat, Arch::X86_64) == Some(SYS_OPENAT as u64),
        syscall_number_spec(SyscallId::Mkdirat, Arch::X86_64) == Some(SYS_MKDIRAT as u64),
        syscall_number_spec(SyscallId::Fchownat, Arch::X86_64) == Some(SYS_FCHOWNAT as u64),
        syscall_number_spec(SyscallId::Newfstatat, Arch::X86_64) == Some(SYS_NEWFSTATAT as u64),
        syscall_number_spec(SyscallId::Unlinkat, Arch::X86_64) == Some(SYS_UNLINKAT as u64),
        syscall_number_spec(SyscallId::Renameat, Arch::X86_64) == Some(SYS_RENAMEAT as u64),
        syscall_number_spec(SyscallId::Linkat, Arch::X86_64) == Some(SYS_LINKAT as u64),
        syscall_number_spec(SyscallId::Symlinkat, Arch::X86_64) == Some(SYS_SYMLINKAT as u64),
        syscall_number_spec(SyscallId::Readlinkat, Arch::X86_64) == Some(SYS_READLINKAT as u64),
        syscall_number_spec(SyscallId::Fchmodat, Arch::X86_64) == Some(SYS_FCHMODAT as u64),
        syscall_number_spec(SyscallId::Faccessat, Arch::X86_64) == Some(SYS_FACCESSAT as u64),
        syscall_number_spec(SyscallId::Accept4, Arch::X86_64) == Some(SYS_ACCEPT4 as u64),
        syscall_number_spec(SyscallId::Eventfd2, Arch::X86_64) == Some(SYS_EVENTFD2 as u64),
        syscall_number_spec(SyscallId::EpollCreate1, Arch::X86_64) == Some(SYS_EPOLL_CREATE1 as u64),
        syscall_number_spec(SyscallId::Dup3, Arch::X86_64) == Some(SYS_DUP3 as u64),
        syscall_number_spec(SyscallId::Pipe2, Arch::X86_64) == Some(SYS_PIPE2 as u64),
        syscall_number_spec(SyscallId::InotifyInit1, Arch::X86_64) == Some(SYS_INOTIFY_INIT1 as u64),
        syscall_number_spec(SyscallId::Prlimit64, Arch::X86_64) == Some(SYS_PRLIMIT64 as u64),
        syscall_number_spec(SyscallId::Getrandom, Arch::X86_64) == Some(SYS_GETRANDOM as u64),
        syscall_number_spec(SyscallId::MemfdCreate, Arch::X86_64) == Some(SYS_MEMFD_CREATE as u64),
        syscall_number_spec(SyscallId::Rseq, Arch::X86_64) == Some(SYS_RSEQ as u64),
        syscall_number_spec(SyscallId::PidfdOpen, Arch::X86_64) == Some(SYS_PIDFD_OPEN as u64),
        syscall_number_spec(SyscallId::CloseRange, Arch::X86_64) == Some(SYS_CLOSE_RANGE as u64),
        syscall_number_spec(SyscallId::LandlockCreateRuleset, Arch::X86_64) == Some(SYS_LANDLOCK_CREATE_RULESET as u64),
        syscall_number_spec(SyscallId::Cachestat, Arch::X86_64) == Some(SYS_CACHESTAT as u64),
        syscall_number_spec(SyscallId::Statmount, Arch::X86_64) == Some(SYS_STATMOUNT as u64),
{
}

} // verus!
