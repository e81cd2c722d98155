//! The declarative syscall table: the identity of each known syscall, its
//! per-architecture numbers, its category tags, and its raw argument record,
//! together with the dispatch from a captured register snapshot into a typed
//! raw record.
//!
//! The table functions in this module are the single point of truth: the
//! executable dispatch is specified against them, so a snapshot whose number
//! is in the current architecture's table decodes to exactly that syscall's
//! record with the slot values in its declared raw types, and any other
//! number is preserved untouched in an `Unknown` record.

use vstd::prelude::*;

use crate::arch::{Arch, RegisterSnapshot};
use crate::groups::{group_bit_spec, GroupSet, SyscallGroups, FILE_BIT, IPC_BIT, NETWORK_BIT,
    PROCESS_BIT, SIGNAL_BIT, DESC_BIT, MEMORY_BIT, STAT_BIT, LSTAT_BIT, STATFS_BIT, FSTATFS_BIT,
    STATFS_LIKE_BIT, FSTAT_BIT, STAT_LIKE_BIT, PURE_BIT, CREDS_BIT, CLOCK_BIT};
use crate::SyscallNumber;

verus! {

/// The identity of a syscall in the table, independent of architecture.
#[derive(Clone, Copy, Debug, PartialEq, Eq, Structural)]
pub enum SyscallId {
    Read,
    Write,
    Open,
    Close,
    Stat,
    Fstat,
    Lstat,
    Lseek,
    Mmap,
    Mprotect,
    Munmap,
    Brk,
    RtSigreturn,
    Ioctl,
    Pread64,
    Pwrite64,
    Access,
    Pipe,
    SchedYield,
    Mremap,
    Msync,
    Madvise,
    Shmget,
    Shmat,
    Dup,
    Dup2,
    Pause,
    Nanosleep,
    Alarm,
    Getpid,
    Socket,
    Connect,
    Accept,
    Shutdown,
    Bind,
    Listen,
    Getsockname,
    Getpeername,
    Socketpair,
    Clone,
    Execve,
    Exit,
    Kill,
    Semget,
    Semop,
    Semctl,
    Shmdt,
    Msgget,
    Msgsnd,
    Fcntl,
    Flock,
    Fsync,
    Fdatasync,
    Truncate,
    Ftruncate,
    Getcwd,
    Chdir,
    Rename,
    Mkdir,
    Rmdir,
    Creat,
    Link,
    Unlink,
    Symlink,
    Readlink,
    Chmod,
    Fchmod,
    Chown,
    Fchown,
    Lchown,
    Umask,
    Gettimeofday,
    Getrlimit,
    Times,
    Ptrace,
    Getuid,
    Getgid,
    Setuid,
    Setgid,
    Geteuid,
    Getegid,
    Setpgid,
    Getppid,
    Setsid,
    Setreuid,
    Setregid,
    Setresuid,
    Getresuid,
    Setresgid,
    Getresgid,
    Getpgid,
    Getsid,
    Capget,
    Statfs,
    Fstatfs,
    Sync,
    Settimeofday,
    Umount2,
    Sethostname,
    Setdomainname,
    Gettid,
    Futex,
    SchedGetaffinity,
    ClockSettime,
    ClockGettime,
    ClockGetres,
    ClockNanosleep,
    ExitGroup,
    Utimes,
    Openat,
    Mkdirat,
    Fchownat,
    Newfstatat,
    Unlinkat,
    Renameat,
    Linkat,
    Symlinkat,
    Readlinkat,
    Fchmodat,
    Faccessat,
    Accept4,
    Eventfd2,
    EpollCreate1,
    Dup3,
    Pipe2,
    InotifyInit1,
    Prlimit64,
    Getrandom,
    MemfdCreate,
    Rseq,
    PidfdOpen,
    CloseRange,
    LandlockCreateRuleset,
    Cachestat,
    Statmount,
}

/// The syscall that `n` names on `arch`, if any.
pub open spec fn table_lookup(arch: Arch, n: u64) -> Option<SyscallId> {
    match arch {
        Arch::X86_64 => {
            if n == 0 {
                Some(SyscallId::Read)
            } else if n == 1 {
                Some(SyscallId::Write)
            } else if n == 2 {
                Some(SyscallId::Open)
            } else if n == 3 {
                Some(SyscallId::Close)
            } else if n == 4 {
                Some(SyscallId::Stat)
            } else if n == 5 {
                Some(SyscallId::Fstat)
            } else if n == 6 {
                Some(SyscallId::Lstat)
            } else if n == 8 {
                Some(SyscallId::Lseek)
            } else if n == 9 {
                Some(SyscallId::Mmap)
            } else if n == 10 {
                Some(SyscallId::Mprotect)
            } else if n == 11 {
                Some(SyscallId::Munmap)
            } else if n == 12 {
                Some(SyscallId::Brk)
            } else if n == 15 {
                Some(SyscallId::RtSigreturn)
            } else if n == 16 {
                Some(SyscallId::Ioctl)
            } else if n == 17 {
                Some(SyscallId::Pread64)
            } else if n == 18 {
                Some(SyscallId::Pwrite64)
            } else if n == 21 {
                Some(SyscallId::Access)
            } else if n == 22 {
                Some(SyscallId::Pipe)
            } else if n == 24 {
                Some(SyscallId::SchedYield)
            } else if n == 25 {
                Some(SyscallId::Mremap)
            } else if n == 26 {
                Some(SyscallId::Msync)
            } else if n == 28 {
                Some(SyscallId::Madvise)
            } else if n == 29 {
                Some(SyscallId::Shmget)
            } else if n == 30 {
                Some(SyscallId::Shmat)
            } else if n == 32 {
                Some(SyscallId::Dup)
            } else if n == 33 {
                Some(SyscallId::Dup2)
            } else if n == 34 {
                Some(SyscallId::Pause)
            } else if n == 35 {
                Some(SyscallId::Nanosleep)
            } else if n == 37 {
                Some(SyscallId::Alarm)
            } else if n == 39 {
                Some(SyscallId::Getpid)
            } else if n == 41 {
                Some(SyscallId::Socket)
            } else if n == 42 {
                Some(SyscallId::Connect)
            } else if n == 43 {
                Some(SyscallId::Accept)
            } else if n == 48 {
                Some(SyscallId::Shutdown)
            } else if n == 49 {
                Some(SyscallId::Bind)
            } else if n == 50 {
                Some(SyscallId::Listen)
            } else if n == 51 {
                Some(SyscallId::Getsockname)
            } else if n == 52 {
                Some(SyscallId::Getpeername)
            } else if n == 53 {
                Some(SyscallId::Socketpair)
            } else if n == 56 {
                Some(SyscallId::Clone)
            } else if n == 59 {
                Some(SyscallId::Execve)
            } else if n == 60 {
                Some(SyscallId::Exit)
            } else if n == 62 {
                Some(SyscallId::Kill)
            } else if n == 64 {
                Some(SyscallId::Semget)
            } else if n == 65 {
                Some(SyscallId::Semop)
            } else if n == 66 {
                Some(SyscallId::Semctl)
            } else if n == 67 {
                Some(SyscallId::Shmdt)
            } else if n == 68 {
                Some(SyscallId::Msgget)
            } else if n == 69 {
                Some(SyscallId::Msgsnd)
            } else if n == 72 {
                Some(SyscallId::Fcntl)
            } else if n == 73 {
                Some(SyscallId::Flock)
            } else if n == 74 {
                Some(SyscallId::Fsync)
            } else if n == 75 {
                Some(SyscallId::Fdatasync)
            } else if n == 76 {
                Some(SyscallId::Truncate)
            } else if n == 77 {
                Some(SyscallId::Ftruncate)
            } else if n == 79 {
                Some(SyscallId::Getcwd)
            } else if n == 80 {
                Some(SyscallId::Chdir)
            } else if n == 82 {
                Some(SyscallId::Rename)
            } else if n == 83 {
                Some(SyscallId::Mkdir)
            } else if n == 84 {
                Some(SyscallId::Rmdir)
            } else if n == 85 {
                Some(SyscallId::Creat)
            } else if n == 86 {
                Some(SyscallId::Link)
            } else if n == 87 {
                Some(SyscallId::Unlink)
            } else if n == 88 {
                Some(SyscallId::Symlink)
            } else if n == 89 {
                Some(SyscallId::Readlink)
            } else if n == 90 {
                Some(SyscallId::Chmod)
            } else if n == 91 {
                Some(SyscallId::Fchmod)
            } else if n == 92 {
                Some(SyscallId::Chown)
            } else if n == 93 {
                Some(SyscallId::Fchown)
            } else if n == 94 {
                Some(SyscallId::Lchown)
            } else if n == 95 {
                Some(SyscallId::Umask)
            } else if n == 96 {
                Some(SyscallId::Gettimeofday)
            } else if n == 97 {
                Some(SyscallId::Getrlimit)
            } else if n == 100 {
                Some(SyscallId::Times)
            } else if n == 101 {
                Some(SyscallId::Ptrace)
            } else if n == 102 {
                Some(SyscallId::Getuid)
            } else if n == 104 {
                Some(SyscallId::Getgid)
            } else if n == 105 {
                Some(SyscallId::Setuid)
            } else if n == 106 {
                Some(SyscallId::Setgid)
            } else if n == 107 {
                Some(SyscallId::Geteuid)
            } else if n == 108 {
                Some(SyscallId::Getegid)
            } else if n == 109 {
                Some(SyscallId::Setpgid)
            } else if n == 110 {
                Some(SyscallId::Getppid)
            } else if n == 112 {
                Some(SyscallId::Setsid)
            } else if n == 113 {
                Some(SyscallId::Setreuid)
            } else if n == 114 {
                Some(SyscallId::Setregid)
            } else if n == 117 {
                Some(SyscallId::Setresuid)
            } else if n == 118 {
                Some(SyscallId::Getresuid)
            } else if n == 119 {
                Some(SyscallId::Setresgid)
            } else if n == 120 {
                Some(SyscallId::Getresgid)
            } else if n == 121 {
                Some(SyscallId::Getpgid)
            } else if n == 124 {
                Some(SyscallId::Getsid)
            } else if n == 125 {
                Some(SyscallId::Capget)
            } else if n == 137 {
                Some(SyscallId::Statfs)
            } else if n == 138 {
                Some(SyscallId::Fstatfs)
            } else if n == 162 {
                Some(SyscallId::Sync)
            } else if n == 164 {
                Some(SyscallId::Settimeofday)
            } else if n == 166 {
                Some(SyscallId::Umount2)
            } else if n == 170 {
                Some(SyscallId::Sethostname)
            } else if n == 171 {
                Some(SyscallId::Setdomainname)
            } else if n == 186 {
                Some(SyscallId::Gettid)
            } else if n == 202 {
                Some(SyscallId::Futex)
            } else if n == 204 {
                Some(SyscallId::SchedGetaffinity)
            } else if n == 227 {
                Some(SyscallId::ClockSettime)
            } else if n == 228 {
                Some(SyscallId::ClockGettime)
            } else if n == 229 {
                Some(SyscallId::ClockGetres)
            } else if n == 230 {
                Some(SyscallId::ClockNanosleep)
            } else if n == 231 {
                Some(SyscallId::ExitGroup)
            } else if n == 235 {
                Some(SyscallId::Utimes)
            } else if n == 257 {
                Some(SyscallId::Openat)
            } else if n == 258 {
                Some(SyscallId::Mkdirat)
            } else if n == 260 {
                Some(SyscallId::Fchownat)
            } else if n == 262 {
                Some(SyscallId::Newfstatat)
            } else if n == 263 {
                Some(SyscallId::Unlinkat)
            } else if n == 264 {
                Some(SyscallId::Renameat)
            } else if n == 265 {
                Some(SyscallId::Linkat)
            } else if n == 266 {
                Some(SyscallId::Symlinkat)
            } else if n == 267 {
                Some(SyscallId::Readlinkat)
            } else if n == 268 {
                Some(SyscallId::Fchmodat)
            } else if n == 269 {
                Some(SyscallId::Faccessat)
            } else if n == 288 {
                Some(SyscallId::Accept4)
            } else if n == 290 {
                Some(SyscallId::Eventfd2)
            } else if n == 291 {
                Some(SyscallId::EpollCreate1)
            } else if n == 292 {
                Some(SyscallId::Dup3)
            } else if n == 293 {
                Some(SyscallId::Pipe2)
            } else if n == 294 {
                Some(SyscallId::InotifyInit1)
            } else if n == 302 {
                Some(SyscallId::Prlimit64)
            } else if n == 318 {
                Some(SyscallId::Getrandom)
            } else if n == 319 {
                Some(SyscallId::MemfdCreate)
            } else if n == 334 {
                Some(SyscallId::Rseq)
            } else if n == 434 {
                Some(SyscallId::PidfdOpen)
            } else if n == 436 {
                Some(SyscallId::CloseRange)
            } else if n == 444 {
                Some(SyscallId::LandlockCreateRuleset)
            } else if n == 451 {
                Some(SyscallId::Cachestat)
            } else if n == 457 {
                Some(SyscallId::Statmount)
            } else {
                None
            }
        },
        Arch::Aarch64 => {
            if n == 17 {
                Some(SyscallId::Getcwd)
            } else if n == 19 {
                Some(SyscallId::Eventfd2)
            } else if n == 20 {
                Some(SyscallId::EpollCreate1)
            } else if n == 23 {
                Some(SyscallId::Dup)
            } else if n == 24 {
                Some(SyscallId::Dup3)
            } else if n == 25 {
                Some(SyscallId::Fcntl)
            } else if n == 26 {
                Some(SyscallId::InotifyInit1)
            } else if n == 29 {
                Some(SyscallId::Ioctl)
            } else if n == 32 {
                Some(SyscallId::Flock)
            } else if n == 34 {
                Some(SyscallId::Mkdirat)
            } else if n == 35 {
                Some(SyscallId::Unlinkat)
            } else if n == 36 {
                Some(SyscallId::Symlinkat)
            } else if n == 37 {
                Some(SyscallId::Linkat)
            } else if n == 38 {
                Some(SyscallId::Renameat)
            } else if n == 39 {
                Some(SyscallId::Umount2)
            } else if n == 43 {
                Some(SyscallId::Statfs)
            } else if n == 44 {
                Some(SyscallId::Fstatfs)
            } else if n == 45 {
                Some(SyscallId::Truncate)
            } else if n == 46 {
                Some(SyscallId::Ftruncate)
            } else if n == 48 {
                Some(SyscallId::Faccessat)
            } else if n == 49 {
                Some(SyscallId::Chdir)
            } else if n == 52 {
                Some(SyscallId::Fchmod)
            } else if n == 53 {
                Some(SyscallId::Fchmodat)
            } else if n == 54 {
                Some(SyscallId::Fchownat)
            } else if n == 55 {
                Some(SyscallId::Fchown)
            } else if n == 56 {
                Some(SyscallId::Openat)
            } else if n == 57 {
                Some(SyscallId::Close)
            } else if n == 59 {
                Some(SyscallId::Pipe2)
            } else if n == 62 {
                Some(SyscallId::Lseek)
            } else if n == 63 {
                Some(SyscallId::Read)
            } else if n == 64 {
                Some(SyscallId::Write)
            } else if n == 67 {
                Some(SyscallId::Pread64)
            } else if n == 68 {
                Some(SyscallId::Pwrite64)
            } else if n == 78 {
                Some(SyscallId::Readlinkat)
            } else if n == 79 {
                Some(SyscallId::Newfstatat)
            } else if n == 80 {
                Some(SyscallId::Fstat)
            } else if n == 81 {
                Some(SyscallId::Sync)
            } else if n == 82 {
                Some(SyscallId::Fsync)
            } else if n == 83 {
                Some(SyscallId::Fdatasync)
            } else if n == 90 {
                Some(SyscallId::Capget)
            } else if n == 93 {
                Some(SyscallId::Exit)
            } else if n == 94 {
                Some(SyscallId::ExitGroup)
            } else if n == 98 {
                Some(SyscallId::Futex)
            } else if n == 101 {
                Some(SyscallId::Nanosleep)
            } else if n == 112 {
                Some(SyscallId::ClockSettime)
            } else if n == 113 {
                Some(SyscallId::ClockGettime)
            } else if n == 114 {
                Some(SyscallId::ClockGetres)
            } else if n == 115 {
                Some(SyscallId::ClockNanosleep)
            } else if n == 117 {
                Some(SyscallId::Ptrace)
            } else if n == 123 {
                Some(SyscallId::SchedGetaffinity)
            } else if n == 124 {
                Some(SyscallId::SchedYield)
            } else if n == 129 {
                Some(SyscallId::Kill)
            } else if n == 139 {
                Some(SyscallId::RtSigreturn)
            } else if n == 143 {
                Some(SyscallId::Setregid)
            } else if n == 144 {
                Some(SyscallId::Setgid)
            } else if n == 145 {
                Some(SyscallId::Setreuid)
            } else if n == 146 {
                Some(SyscallId::Setuid)
            } else if n == 147 {
                Some(SyscallId::Setresuid)
            } else if n == 148 {
                Some(SyscallId::Getresuid)
            } else if n == 149 {
                Some(SyscallId::Setresgid)
            } else if n == 150 {
                Some(SyscallId::Getresgid)
            } else if n == 153 {
                Some(SyscallId::Times)
            } else if n == 154 {
                Some(SyscallId::Setpgid)
            } else if n == 155 {
                Some(SyscallId::Getpgid)
            } else if n == 156 {
                Some(SyscallId::Getsid)
            } else if n == 157 {
                Some(SyscallId::Setsid)
            } else if n == 161 {
                Some(SyscallId::Sethostname)
            } else if n == 162 {
                Some(SyscallId::Setdomainname)
            } else if n == 163 {
                Some(SyscallId::Getrlimit)
            } else if n == 166 {
                Some(SyscallId::Umask)
            } else if n == 169 {
                Some(SyscallId::Gettimeofday)
            } else if n == 170 {
                Some(SyscallId::Settimeofday)
            } else if n == 172 {
                Some(SyscallId::Getpid)
            } else if n == 173 {
                Some(SyscallId::Getppid)
            } else if n == 174 {
                Some(SyscallId::Getuid)
            } else if n == 175 {
                Some(SyscallId::Geteuid)
            } else if n == 176 {
                Some(SyscallId::Getgid)
            } else if n == 177 {
                Some(SyscallId::Getegid)
            } else if n == 178 {
                Some(SyscallId::Gettid)
            } else if n == 186 {
                Some(SyscallId::Msgget)
            } else if n == 189 {
                Some(SyscallId::Msgsnd)
            } else if n == 190 {
                Some(SyscallId::Semget)
            } else if n == 191 {
                Some(SyscallId::Semctl)
            } else if n == 193 {
                Some(SyscallId::Semop)
            } else if n == 194 {
                Some(SyscallId::Shmget)
            } else if n == 196 {
                Some(SyscallId::Shmat)
            } else if n == 197 {
                Some(SyscallId::Shmdt)
            } else if n == 198 {
                Some(SyscallId::Socket)
            } else if n == 199 {
                Some(SyscallId::Socketpair)
            } else if n == 200 {
                Some(SyscallId::Bind)
            } else if n == 201 {
                Some(SyscallId::Listen)
            } else if n == 202 {
                Some(SyscallId::Accept)
            } else if n == 203 {
                Some(SyscallId::Connect)
            } else if n == 204 {
                Some(SyscallId::Getsockname)
            } else if n == 205 {
                Some(SyscallId::Getpeername)
            } else if n == 210 {
                Some(SyscallId::Shutdown)
            } else if n == 214 {
                Some(SyscallId::Brk)
            } else if n == 215 {
                Some(SyscallId::Munmap)
            } else if n == 216 {
                Some(SyscallId::Mremap)
            } else if n == 220 {
                Some(SyscallId::Clone)
            } else if n == 221 {
                Some(SyscallId::Execve)
            } else if n == 222 {
                Some(SyscallId::Mmap)
            } else if n == 226 {
                Some(SyscallId::Mprotect)
            } else if n == 227 {
                Some(SyscallId::Msync)
            } else if n == 233 {
                Some(SyscallId::Madvise)
            } else if n == 242 {
                Some(SyscallId::Accept4)
            } else if n == 261 {
                Some(SyscallId::Prlimit64)
            } else if n == 278 {
                Some(SyscallId::Getrandom)
            } else if n == 279 {
                Some(SyscallId::MemfdCreate)
            } else if n == 293 {
                Some(SyscallId::Rseq)
            } else if n == 434 {
                Some(SyscallId::PidfdOpen)
            } else if n == 436 {
                Some(SyscallId::CloseRange)
            } else if n == 444 {
                Some(SyscallId::LandlockCreateRuleset)
            } else if n == 451 {
                Some(SyscallId::Cachestat)
            } else if n == 457 {
                Some(SyscallId::Statmount)
            } else {
                None
            }
        },
        Arch::Riscv64 => {
            if n == 17 {
                Some(SyscallId::Getcwd)
            } else if n == 19 {
                Some(SyscallId::Eventfd2)
            } else if n == 20 {
                Some(SyscallId::EpollCreate1)
            } else if n == 23 {
                Some(SyscallId::Dup)
            } else if n == 24 {
                Some(SyscallId::Dup3)
            } else if n == 25 {
                Some(SyscallId::Fcntl)
            } else if n == 26 {
                Some(SyscallId::InotifyInit1)
            } else if n == 29 {
                Some(SyscallId::Ioctl)
            } else if n == 32 {
                Some(SyscallId::Flock)
            } else if n == 34 {
                Some(SyscallId::Mkdirat)
            } else if n == 35 {
                Some(SyscallId::Unlinkat)
            } else if n == 36 {
                Some(SyscallId::Symlinkat)
            } else if n == 37 {
                Some(SyscallId::Linkat)
            } else if n == 38 {
                Some(SyscallId::Renameat)
            } else if n == 39 {
                Some(SyscallId::Umount2)
            } else if n == 43 {
                Some(SyscallId::Statfs)
            } else if n == 44 {
                Some(SyscallId::Fstatfs)
            } else if n == 45 {
                Some(SyscallId::Truncate)
            } else if n == 46 {
                Some(SyscallId::Ftruncate)
            } else if n == 48 {
                Some(SyscallId::Faccessat)
            } else if n == 49 {
                Some(SyscallId::Chdir)
            } else if n == 52 {
                Some(SyscallId::Fchmod)
            } else if n == 53 {
                Some(SyscallId::Fchmodat)
            } else if n == 54 {
                Some(SyscallId::Fchownat)
            } else if n == 55 {
                Some(SyscallId::Fchown)
            } else if n == 56 {
                Some(SyscallId::Openat)
            } else if n == 57 {
                Some(SyscallId::Close)
            } else if n == 59 {
                Some(SyscallId::Pipe2)
            } else if n == 62 {
                Some(SyscallId::Lseek)
            } else if n == 63 {
                Some(SyscallId::Read)
            } else if n == 64 {
                Some(SyscallId::Write)
            } else if n == 67 {
                Some(SyscallId::Pread64)
            } else if n == 68 {
                Some(SyscallId::Pwrite64)
            } else if n == 78 {
                Some(SyscallId::Readlinkat)
            } else if n == 79 {
                Some(SyscallId::Newfstatat)
            } else if n == 80 {
                Some(SyscallId::Fstat)
            } else if n == 81 {
                Some(SyscallId::Sync)
            } else if n == 82 {
                Some(SyscallId::Fsync)
            } else if n == 83 {
                Some(SyscallId::Fdatasync)
            } else if n == 90 {
                Some(SyscallId::Capget)
            } else if n == 93 {
                Some(SyscallId::Exit)
            } else if n == 94 {
                Some(SyscallId::ExitGroup)
            } else if n == 98 {
                Some(SyscallId::Futex)
            } else if n == 101 {
                Some(SyscallId::Nanosleep)
            } else if n == 112 {
                Some(SyscallId::ClockSettime)
            } else if n == 113 {
                Some(SyscallId::ClockGettime)
            } else if n == 114 {
                Some(SyscallId::ClockGetres)
            } else if n == 115 {
                Some(SyscallId::ClockNanosleep)
            } else if n == 117 {
                Some(SyscallId::Ptrace)
            } else if n == 123 {
                Some(SyscallId::SchedGetaffinity)
            } else if n == 124 {
                Some(SyscallId::SchedYield)
            } else if n == 129 {
                Some(SyscallId::Kill)
            } else if n == 139 {
                Some(SyscallId::RtSigreturn)
            } else if n == 143 {
                Some(SyscallId::Setregid)
            } else if n == 144 {
                Some(SyscallId::Setgid)
            } else if n == 145 {
                Some(SyscallId::Setreuid)
            } else if n == 146 {
                Some(SyscallId::Setuid)
            } else if n == 147 {
                Some(SyscallId::Setresuid)
            } else if n == 148 {
                Some(SyscallId::Getresuid)
            } else if n == 149 {
                Some(SyscallId::Setresgid)
            } else if n == 150 {
                Some(SyscallId::Getresgid)
            } else if n == 153 {
                Some(SyscallId::Times)
            } else if n == 154 {
                Some(SyscallId::Setpgid)
            } else if n == 155 {
                Some(SyscallId::Getpgid)
            } else if n == 156 {
                Some(SyscallId::Getsid)
            } else if n == 157 {
                Some(SyscallId::Setsid)
            } else if n == 161 {
                Some(SyscallId::Sethostname)
            } else if n == 162 {
                Some(SyscallId::Setdomainname)
            } else if n == 163 {
                Some(SyscallId::Getrlimit)
            } else if n == 166 {
                Some(SyscallId::Umask)
            } else if n == 169 {
                Some(SyscallId::Gettimeofday)
            } else if n == 170 {
                Some(SyscallId::Settimeofday)
            } else if n == 172 {
                Some(SyscallId::Getpid)
            } else if n == 173 {
                Some(SyscallId::Getppid)
            } else if n == 174 {
                Some(SyscallId::Getuid)
            } else if n == 175 {
                Some(SyscallId::Geteuid)
            } else if n == 176 {
                Some(SyscallId::Getgid)
            } else if n == 177 {
                Some(SyscallId::Getegid)
            } else if n == 178 {
                Some(SyscallId::Gettid)
            } else if n == 186 {
                Some(SyscallId::Msgget)
            } else if n == 189 {
                Some(SyscallId::Msgsnd)
            } else if n == 190 {
                Some(SyscallId::Semget)
            } else if n == 191 {
                Some(SyscallId::Semctl)
            } else if n == 193 {
                Some(SyscallId::Semop)
            } else if n == 194 {
                Some(SyscallId::Shmget)
            } else if n == 196 {
                Some(SyscallId::Shmat)
            } else if n == 197 {
                Some(SyscallId::Shmdt)
            } else if n == 198 {
                Some(SyscallId::Socket)
            } else if n == 199 {
                Some(SyscallId::Socketpair)
            } else if n == 200 {
                Some(SyscallId::Bind)
            } else if n == 201 {
                Some(SyscallId::Listen)
            } else if n == 202 {
                Some(SyscallId::Accept)
            } else if n == 203 {
                Some(SyscallId::Connect)
            } else if n == 204 {
                Some(SyscallId::Getsockname)
            } else if n == 205 {
                Some(SyscallId::Getpeername)
            } else if n == 210 {
                Some(SyscallId::Shutdown)
            } else if n == 214 {
                Some(SyscallId::Brk)
            } else if n == 215 {
                Some(SyscallId::Munmap)
            } else if n == 216 {
                Some(SyscallId::Mremap)
            } else if n == 220 {
                Some(SyscallId::Clone)
            } else if n == 221 {
                Some(SyscallId::Execve)
            } else if n == 222 {
                Some(SyscallId::Mmap)
            } else if n == 226 {
                Some(SyscallId::Mprotect)
            } else if n == 227 {
                Some(SyscallId::Msync)
            } else if n == 233 {
                Some(SyscallId::Madvise)
            } else if n == 242 {
                Some(SyscallId::Accept4)
            } else if n == 261 {
                Some(SyscallId::Prlimit64)
            } else if n == 278 {
                Some(SyscallId::Getrandom)
            } else if n == 279 {
                Some(SyscallId::MemfdCreate)
            } else if n == 293 {
                Some(SyscallId::Rseq)
            } else if n == 434 {
                Some(SyscallId::PidfdOpen)
            } else if n == 436 {
                Some(SyscallId::CloseRange)
            } else if n == 444 {
                Some(SyscallId::LandlockCreateRuleset)
            } else if n == 451 {
                Some(SyscallId::Cachestat)
            } else if n == 457 {
                Some(SyscallId::Statmount)
            } else {
                None
            }
        },
    }
}

/// The syscall that `n` names on `arch`, if any.
pub fn lookup(arch: Arch, n: u64) -> (r: Option<SyscallId>)
    ensures
        r == table_lookup(arch, n),
{
    match arch {
        Arch::X86_64 => {
            if n == 0 {
                Some(SyscallId::Read)
            } else if n == 1 {
                Some(SyscallId::Write)
            } else if n == 2 {
                Some(SyscallId::Open)
            } else if n == 3 {
                Some(SyscallId::Close)
            } else if n == 4 {
                Some(SyscallId::Stat)
            } else if n == 5 {
                Some(SyscallId::Fstat)
            } else if n == 6 {
                Some(SyscallId::Lstat)
            } else if n == 8 {
                Some(SyscallId::Lseek)
            } else if n == 9 {
                Some(SyscallId::Mmap)
            } else if n == 10 {
                Some(SyscallId::Mprotect)
            } else if n == 11 {
                Some(SyscallId::Munmap)
            } else if n == 12 {
                Some(SyscallId::Brk)
            } else if n == 15 {
                Some(SyscallId::RtSigreturn)
            } else if n == 16 {
                Some(SyscallId::Ioctl)
            } else if n == 17 {
                Some(SyscallId::Pread64)
            } else if n == 18 {
                Some(SyscallId::Pwrite64)
            } else if n == 21 {
                Some(SyscallId::Access)
            } else if n == 22 {
                Some(SyscallId::Pipe)
            } else if n == 24 {
                Some(SyscallId::SchedYield)
            } else if n == 25 {
                Some(SyscallId::Mremap)
            } else if n == 26 {
                Some(SyscallId::Msync)
            } else if n == 28 {
                Some(SyscallId::Madvise)
            } else if n == 29 {
                Some(SyscallId::Shmget)
            } else if n == 30 {
                Some(SyscallId::Shmat)
            } else if n == 32 {
                Some(SyscallId::Dup)
            } else if n == 33 {
                Some(SyscallId::Dup2)
            } else if n == 34 {
                Some(SyscallId::Pause)
            } else if n == 35 {
                Some(SyscallId::Nanosleep)
            } else if n == 37 {
                Some(SyscallId::Alarm)
            } else if n == 39 {
                Some(SyscallId::Getpid)
            } else if n == 41 {
                Some(SyscallId::Socket)
            } else if n == 42 {
                Some(SyscallId::Connect)
            } else if n == 43 {
                Some(SyscallId::Accept)
            } else if n == 48 {
                Some(SyscallId::Shutdown)
            } else if n == 49 {
                Some(SyscallId::Bind)
            } else if n == 50 {
                Some(SyscallId::Listen)
            } else if n == 51 {
                Some(SyscallId::Getsockname)
            } else if n == 52 {
                Some(SyscallId::Getpeername)
            } else if n == 53 {
                Some(SyscallId::Socketpair)
            } else if n == 56 {
                Some(SyscallId::Clone)
            } else if n == 59 {
                Some(SyscallId::Execve)
            } else if n == 60 {
                Some(SyscallId::Exit)
            } else if n == 62 {
                Some(SyscallId::Kill)
            } else if n == 64 {
                Some(SyscallId::Semget)
            } else if n == 65 {
                Some(SyscallId::Semop)
            } else if n == 66 {
                Some(SyscallId::Semctl)
            } else if n == 67 {
                Some(SyscallId::Shmdt)
            } else if n == 68 {
                Some(SyscallId::Msgget)
            } else if n == 69 {
                Some(SyscallId::Msgsnd)
            } else if n == 72 {
                Some(SyscallId::Fcntl)
            } else if n == 73 {
                Some(SyscallId::Flock)
            } else if n == 74 {
                Some(SyscallId::Fsync)
            } else if n == 75 {
                Some(SyscallId::Fdatasync)
            } else if n == 76 {
                Some(SyscallId::Truncate)
            } else if n == 77 {
                Some(SyscallId::Ftruncate)
            } else if n == 79 {
                Some(SyscallId::Getcwd)
            } else if n == 80 {
                Some(SyscallId::Chdir)
            } else if n == 82 {
                Some(SyscallId::Rename)
            } else if n == 83 {
                Some(SyscallId::Mkdir)
            } else if n == 84 {
                Some(SyscallId::Rmdir)
            } else if n == 85 {
                Some(SyscallId::Creat)
            } else if n == 86 {
                Some(SyscallId::Link)
            } else if n == 87 {
                Some(SyscallId::Unlink)
            } else if n == 88 {
                Some(SyscallId::Symlink)
            } else if n == 89 {
                Some(SyscallId::Readlink)
            } else if n == 90 {
                Some(SyscallId::Chmod)
            } else if n == 91 {
                Some(SyscallId::Fchmod)
            } else if n == 92 {
                Some(SyscallId::Chown)
            } else if n == 93 {
                Some(SyscallId::Fchown)
            } else if n == 94 {
                Some(SyscallId::Lchown)
            } else if n == 95 {
                Some(SyscallId::Umask)
            } else if n == 96 {
                Some(SyscallId::Gettimeofday)
            } else if n == 97 {
                Some(SyscallId::Getrlimit)
            } else if n == 100 {
                Some(SyscallId::Times)
            } else if n == 101 {
                Some(SyscallId::Ptrace)
            } else if n == 102 {
                Some(SyscallId::Getuid)
            } else if n == 104 {
                Some(SyscallId::Getgid)
            } else if n == 105 {
                Some(SyscallId::Setuid)
            } else if n == 106 {
                Some(SyscallId::Setgid)
            } else if n == 107 {
                Some(SyscallId::Geteuid)
            } else if n == 108 {
                Some(SyscallId::Getegid)
            } else if n == 109 {
                Some(SyscallId::Setpgid)
            } else if n == 110 {
                Some(SyscallId::Getppid)
            } else if n == 112 {
                Some(SyscallId::Setsid)
            } else if n == 113 {
                Some(SyscallId::Setreuid)
            } else if n == 114 {
                Some(SyscallId::Setregid)
            } else if n == 117 {
                Some(SyscallId::Setresuid)
            } else if n == 118 {
                Some(SyscallId::Getresuid)
            } else if n == 119 {
                Some(SyscallId::Setresgid)
            } else if n == 120 {
                Some(SyscallId::Getresgid)
            } else if n == 121 {
                Some(SyscallId::Getpgid)
            } else if n == 124 {
                Some(SyscallId::Getsid)
            } else if n == 125 {
                Some(SyscallId::Capget)
            } else if n == 137 {
                Some(SyscallId::Statfs)
            } else if n == 138 {
                Some(SyscallId::Fstatfs)
            } else if n == 162 {
                Some(SyscallId::Sync)
            } else if n == 164 {
                Some(SyscallId::Settimeofday)
            } else if n == 166 {
                Some(SyscallId::Umount2)
            } else if n == 170 {
                Some(SyscallId::Sethostname)
            } else if n == 171 {
                Some(SyscallId::Setdomainname)
            } else if n == 186 {
                Some(SyscallId::Gettid)
            } else if n == 202 {
                Some(SyscallId::Futex)
            } else if n == 204 {
                Some(SyscallId::SchedGetaffinity)
            } else if n == 227 {
                Some(SyscallId::ClockSettime)
            } else if n == 228 {
                Some(SyscallId::ClockGettime)
            } else if n == 229 {
                Some(SyscallId::ClockGetres)
            } else if n == 230 {
                Some(SyscallId::ClockNanosleep)
            } else if n == 231 {
                Some(SyscallId::ExitGroup)
            } else if n == 235 {
                Some(SyscallId::Utimes)
            } else if n == 257 {
                Some(SyscallId::Openat)
            } else if n == 258 {
                Some(SyscallId::Mkdirat)
            } else if n == 260 {
                Some(SyscallId::Fchownat)
            } else if n == 262 {
                Some(SyscallId::Newfstatat)
            } else if n == 263 {
                Some(SyscallId::Unlinkat)
            } else if n == 264 {
                Some(SyscallId::Renameat)
            } else if n == 265 {
                Some(SyscallId::Linkat)
            } else if n == 266 {
                Some(SyscallId::Symlinkat)
            } else if n == 267 {
                Some(SyscallId::Readlinkat)
            } else if n == 268 {
                Some(SyscallId::Fchmodat)
            } else if n == 269 {
                Some(SyscallId::Faccessat)
            } else if n == 288 {
                Some(SyscallId::Accept4)
            } else if n == 290 {
                Some(SyscallId::Eventfd2)
            } else if n == 291 {
                Some(SyscallId::EpollCreate1)
            } else if n == 292 {
                Some(SyscallId::Dup3)
            } else if n == 293 {
                Some(SyscallId::Pipe2)
            } else if n == 294 {
                Some(SyscallId::InotifyInit1)
            } else if n == 302 {
                Some(SyscallId::Prlimit64)
            } else if n == 318 {
                Some(SyscallId::Getrandom)
            } else if n == 319 {
                Some(SyscallId::MemfdCreate)
            } else if n == 334 {
                Some(SyscallId::Rseq)
            } else if n == 434 {
                Some(SyscallId::PidfdOpen)
            } else if n == 436 {
                Some(SyscallId::CloseRange)
            } else if n == 444 {
                Some(SyscallId::LandlockCreateRuleset)
            } else if n == 451 {
                Some(SyscallId::Cachestat)
            } else if n == 457 {
                Some(SyscallId::Statmount)
            } else {
                None
            }
        },
        Arch::Aarch64 => {
            if n == 17 {
                Some(SyscallId::Getcwd)
            } else if n == 19 {
                Some(SyscallId::Eventfd2)
            } else if n == 20 {
                Some(SyscallId::EpollCreate1)
            } else if n == 23 {
                Some(SyscallId::Dup)
            } else if n == 24 {
                Some(SyscallId::Dup3)
            } else if n == 25 {
                Some(SyscallId::Fcntl)
            } else if n == 26 {
                Some(SyscallId::InotifyInit1)
            } else if n == 29 {
                Some(SyscallId::Ioctl)
            } else if n == 32 {
                Some(SyscallId::Flock)
            } else if n == 34 {
                Some(SyscallId::Mkdirat)
            } else if n == 35 {
                Some(SyscallId::Unlinkat)
            } else if n == 36 {
                Some(SyscallId::Symlinkat)
            } else if n == 37 {
                Some(SyscallId::Linkat)
            } else if n == 38 {
                Some(SyscallId::Renameat)
            } else if n == 39 {
                Some(SyscallId::Umount2)
            } else if n == 43 {
                Some(SyscallId::Statfs)
            } else if n == 44 {
                Some(SyscallId::Fstatfs)
            } else if n == 45 {
                Some(SyscallId::Truncate)
            } else if n == 46 {
                Some(SyscallId::Ftruncate)
            } else if n == 48 {
                Some(SyscallId::Faccessat)
            } else if n == 49 {
                Some(SyscallId::Chdir)
            } else if n == 52 {
                Some(SyscallId::Fchmod)
            } else if n == 53 {
                Some(SyscallId::Fchmodat)
            } else if n == 54 {
                Some(SyscallId::Fchownat)
            } else if n == 55 {
                Some(SyscallId::Fchown)
            } else if n == 56 {
                Some(SyscallId::Openat)
            } else if n == 57 {
                Some(SyscallId::Close)
            } else if n == 59 {
                Some(SyscallId::Pipe2)
            } else if n == 62 {
                Some(SyscallId::Lseek)
            } else if n == 63 {
                Some(SyscallId::Read)
            } else if n == 64 {
                Some(SyscallId::Write)
            } else if n == 67 {
                Some(SyscallId::Pread64)
            } else if n == 68 {
                Some(SyscallId::Pwrite64)
            } else if n == 78 {
                Some(SyscallId::Readlinkat)
            } else if n == 79 {
                Some(SyscallId::Newfstatat)
            } else if n == 80 {
                Some(SyscallId::Fstat)
            } else if n == 81 {
                Some(SyscallId::Sync)
            } else if n == 82 {
                Some(SyscallId::Fsync)
            } else if n == 83 {
                Some(SyscallId::Fdatasync)
            } else if n == 90 {
                Some(SyscallId::Capget)
            } else if n == 93 {
                Some(SyscallId::Exit)
            } else if n == 94 {
                Some(SyscallId::ExitGroup)
            } else if n == 98 {
                Some(SyscallId::Futex)
            } else if n == 101 {
                Some(SyscallId::Nanosleep)
            } else if n == 112 {
                Some(SyscallId::ClockSettime)
            } else if n == 113 {
                Some(SyscallId::ClockGettime)
            } else if n == 114 {
                Some(SyscallId::ClockGetres)
            } else if n == 115 {
                Some(SyscallId::ClockNanosleep)
            } else if n == 117 {
                Some(SyscallId::Ptrace)
            } else if n == 123 {
                Some(SyscallId::SchedGetaffinity)
            } else if n == 124 {
                Some(SyscallId::SchedYield)
            } else if n == 129 {
                Some(SyscallId::Kill)
            } else if n == 139 {
                Some(SyscallId::RtSigreturn)
            } else if n == 143 {
                Some(SyscallId::Setregid)
            } else if n == 144 {
                Some(SyscallId::Setgid)
            } else if n == 145 {
                Some(SyscallId::Setreuid)
            } else if n == 146 {
                Some(SyscallId::Setuid)
            } else if n == 147 {
                Some(SyscallId::Setresuid)
            } else if n == 148 {
                Some(SyscallId::Getresuid)
            } else if n == 149 {
                Some(SyscallId::Setresgid)
            } else if n == 150 {
                Some(SyscallId::Getresgid)
            } else if n == 153 {
                Some(SyscallId::Times)
            } else if n == 154 {
                Some(SyscallId::Setpgid)
            } else if n == 155 {
                Some(SyscallId::Getpgid)
            } else if n == 156 {
                Some(SyscallId::Getsid)
            } else if n == 157 {
                Some(SyscallId::Setsid)
            } else if n == 161 {
                Some(SyscallId::Sethostname)
            } else if n == 162 {
                Some(SyscallId::Setdomainname)
            } else if n == 163 {
                Some(SyscallId::Getrlimit)
            } else if n == 166 {
                Some(SyscallId::Umask)
            } else if n == 169 {
                Some(SyscallId::Gettimeofday)
            } else if n == 170 {
                Some(SyscallId::Settimeofday)
            } else if n == 172 {
                Some(SyscallId::Getpid)
            } else if n == 173 {
                Some(SyscallId::Getppid)
            } else if n == 174 {
                Some(SyscallId::Getuid)
            } else if n == 175 {
                Some(SyscallId::Geteuid)
            } else if n == 176 {
                Some(SyscallId::Getgid)
            } else if n == 177 {
                Some(SyscallId::Getegid)
            } else if n == 178 {
                Some(SyscallId::Gettid)
            } else if n == 186 {
                Some(SyscallId::Msgget)
            } else if n == 189 {
                Some(SyscallId::Msgsnd)
            } else if n == 190 {
                Some(SyscallId::Semget)
            } else if n == 191 {
                Some(SyscallId::Semctl)
            } else if n == 193 {
                Some(SyscallId::Semop)
            } else if n == 194 {
                Some(SyscallId::Shmget)
            } else if n == 196 {
                Some(SyscallId::Shmat)
            } else if n == 197 {
                Some(SyscallId::Shmdt)
            } else if n == 198 {
                Some(SyscallId::Socket)
            } else if n == 199 {
                Some(SyscallId::Socketpair)
            } else if n == 200 {
                Some(SyscallId::Bind)
            } else if n == 201 {
                Some(SyscallId::Listen)
            } else if n == 202 {
                Some(SyscallId::Accept)
            } else if n == 203 {
                Some(SyscallId::Connect)
            } else if n == 204 {
                Some(SyscallId::Getsockname)
            } else if n == 205 {
                Some(SyscallId::Getpeername)
            } else if n == 210 {
                Some(SyscallId::Shutdown)
            } else if n == 214 {
                Some(SyscallId::Brk)
            } else if n == 215 {
                Some(SyscallId::Munmap)
            } else if n == 216 {
                Some(SyscallId::Mremap)
            } else if n == 220 {
                Some(SyscallId::Clone)
            } else if n == 221 {
                Some(SyscallId::Execve)
            } else if n == 222 {
                Some(SyscallId::Mmap)
            } else if n == 226 {
                Some(SyscallId::Mprotect)
            } else if n == 227 {
                Some(SyscallId::Msync)
            } else if n == 233 {
                Some(SyscallId::Madvise)
            } else if n == 242 {
                Some(SyscallId::Accept4)
            } else if n == 261 {
                Some(SyscallId::Prlimit64)
            } else if n == 278 {
                Some(SyscallId::Getrandom)
            } else if n == 279 {
                Some(SyscallId::MemfdCreate)
            } else if n == 293 {
                Some(SyscallId::Rseq)
            } else if n == 434 {
                Some(SyscallId::PidfdOpen)
            } else if n == 436 {
                Some(SyscallId::CloseRange)
            } else if n == 444 {
                Some(SyscallId::LandlockCreateRuleset)
            } else if n == 451 {
                Some(SyscallId::Cachestat)
            } else if n == 457 {
                Some(SyscallId::Statmount)
            } else {
                None
            }
        },
        Arch::Riscv64 => {
            if n == 17 {
                Some(SyscallId::Getcwd)
            } else if n == 19 {
                Some(SyscallId::Eventfd2)
            } else if n == 20 {
                Some(SyscallId::EpollCreate1)
            } else if n == 23 {
                Some(SyscallId::Dup)
            } else if n == 24 {
                Some(SyscallId::Dup3)
            } else if n == 25 {
                Some(SyscallId::Fcntl)
            } else if n == 26 {
                Some(SyscallId::InotifyInit1)
            } else if n == 29 {
                Some(SyscallId::Ioctl)
            } else if n == 32 {
                Some(SyscallId::Flock)
            } else if n == 34 {
                Some(SyscallId::Mkdirat)
            } else if n == 35 {
                Some(SyscallId::Unlinkat)
            } else if n == 36 {
                Some(SyscallId::Symlinkat)
            } else if n == 37 {
                Some(SyscallId::Linkat)
            } else if n == 38 {
                Some(SyscallId::Renameat)
            } else if n == 39 {
                Some(SyscallId::Umount2)
            } else if n == 43 {
                Some(SyscallId::Statfs)
            } else if n == 44 {
                Some(SyscallId::Fstatfs)
            } else if n == 45 {
                Some(SyscallId::Truncate)
            } else if n == 46 {
                Some(SyscallId::Ftruncate)
            } else if n == 48 {
                Some(SyscallId::Faccessat)
            } else if n == 49 {
                Some(SyscallId::Chdir)
            } else if n == 52 {
                Some(SyscallId::Fchmod)
            } else if n == 53 {
                Some(SyscallId::Fchmodat)
            } else if n == 54 {
                Some(SyscallId::Fchownat)
            } else if n == 55 {
                Some(SyscallId::Fchown)
            } else if n == 56 {
                Some(SyscallId::Openat)
            } else if n == 57 {
                Some(SyscallId::Close)
            } else if n == 59 {
                Some(SyscallId::Pipe2)
            } else if n == 62 {
                Some(SyscallId::Lseek)
            } else if n == 63 {
                Some(SyscallId::Read)
            } else if n == 64 {
                Some(SyscallId::Write)
            } else if n == 67 {
                Some(SyscallId::Pread64)
            } else if n == 68 {
                Some(SyscallId::Pwrite64)
            } else if n == 78 {
                Some(SyscallId::Readlinkat)
            } else if n == 79 {
                Some(SyscallId::Newfstatat)
            } else if n == 80 {
                Some(SyscallId::Fstat)
            } else if n == 81 {
                Some(SyscallId::Sync)
            } else if n == 82 {
                Some(SyscallId::Fsync)
            } else if n == 83 {
                Some(SyscallId::Fdatasync)
            } else if n == 90 {
                Some(SyscallId::Capget)
            } else if n == 93 {
                Some(SyscallId::Exit)
            } else if n == 94 {
                Some(SyscallId::ExitGroup)
            } else if n == 98 {
                Some(SyscallId::Futex)
            } else if n == 101 {
                Some(SyscallId::Nanosleep)
            } else if n == 112 {
                Some(SyscallId::ClockSettime)
            } else if n == 113 {
                Some(SyscallId::ClockGettime)
            } else if n == 114 {
                Some(SyscallId::ClockGetres)
            } else if n == 115 {
                Some(SyscallId::ClockNanosleep)
            } else if n == 117 {
                Some(SyscallId::Ptrace)
            } else if n == 123 {
                Some(SyscallId::SchedGetaffinity)
            } else if n == 124 {
                Some(SyscallId::SchedYield)
            } else if n == 129 {
                Some(SyscallId::Kill)
            } else if n == 139 {
                Some(SyscallId::RtSigreturn)
            } else if n == 143 {
                Some(SyscallId::Setregid)
            } else if n == 144 {
                Some(SyscallId::Setgid)
            } else if n == 145 {
                Some(SyscallId::Setreuid)
            } else if n == 146 {
                Some(SyscallId::Setuid)
            } else if n == 147 {
                Some(SyscallId::Setresuid)
            } else if n == 148 {
                Some(SyscallId::Getresuid)
            } else if n == 149 {
                Some(SyscallId::Setresgid)
            } else if n == 150 {
                Some(SyscallId::Getresgid)
            } else if n == 153 {
                Some(SyscallId::Times)
            } else if n == 154 {
                Some(SyscallId::Setpgid)
            } else if n == 155 {
                Some(SyscallId::Getpgid)
            } else if n == 156 {
                Some(SyscallId::Getsid)
            } else if n == 157 {
                Some(SyscallId::Setsid)
            } else if n == 161 {
                Some(SyscallId::Sethostname)
            } else if n == 162 {
                Some(SyscallId::Setdomainname)
            } else if n == 163 {
                Some(SyscallId::Getrlimit)
            } else if n == 166 {
                Some(SyscallId::Umask)
            } else if n == 169 {
                Some(SyscallId::Gettimeofday)
            } else if n == 170 {
                Some(SyscallId::Settimeofday)
            } else if n == 172 {
                Some(SyscallId::Getpid)
            } else if n == 173 {
                Some(SyscallId::Getppid)
            } else if n == 174 {
                Some(SyscallId::Getuid)
            } else if n == 175 {
                Some(SyscallId::Geteuid)
            } else if n == 176 {
                Some(SyscallId::Getgid)
            } else if n == 177 {
                Some(SyscallId::Getegid)
            } else if n == 178 {
                Some(SyscallId::Gettid)
            } else if n == 186 {
                Some(SyscallId::Msgget)
            } else if n == 189 {
                Some(SyscallId::Msgsnd)
            } else if n == 190 {
                Some(SyscallId::Semget)
            } else if n == 191 {
                Some(SyscallId::Semctl)
            } else if n == 193 {
                Some(SyscallId::Semop)
            } else if n == 194 {
                Some(SyscallId::Shmget)
            } else if n == 196 {
                Some(SyscallId::Shmat)
            } else if n == 197 {
                Some(SyscallId::Shmdt)
            } else if n == 198 {
                Some(SyscallId::Socket)
            } else if n == 199 {
                Some(SyscallId::Socketpair)
            } else if n == 200 {
                Some(SyscallId::Bind)
            } else if n == 201 {
                Some(SyscallId::Listen)
            } else if n == 202 {
                Some(SyscallId::Accept)
            } else if n == 203 {
                Some(SyscallId::Connect)
            } else if n == 204 {
                Some(SyscallId::Getsockname)
            } else if n == 205 {
                Some(SyscallId::Getpeername)
            } else if n == 210 {
                Some(SyscallId::Shutdown)
            } else if n == 214 {
                Some(SyscallId::Brk)
            } else if n == 215 {
                Some(SyscallId::Munmap)
            } else if n == 216 {
                Some(SyscallId::Mremap)
            } else if n == 220 {
                Some(SyscallId::Clone)
            } else if n == 221 {
                Some(SyscallId::Execve)
            } else if n == 222 {
                Some(SyscallId::Mmap)
            } else if n == 226 {
                Some(SyscallId::Mprotect)
            } else if n == 227 {
                Some(SyscallId::Msync)
            } else if n == 233 {
                Some(SyscallId::Madvise)
            } else if n == 242 {
                Some(SyscallId::Accept4)
            } else if n == 261 {
                Some(SyscallId::Prlimit64)
            } else if n == 278 {
                Some(SyscallId::Getrandom)
            } else if n == 279 {
                Some(SyscallId::MemfdCreate)
            } else if n == 293 {
                Some(SyscallId::Rseq)
            } else if n == 434 {
                Some(SyscallId::PidfdOpen)
            } else if n == 436 {
                Some(SyscallId::CloseRange)
            } else if n == 444 {
                Some(SyscallId::LandlockCreateRuleset)
            } else if n == 451 {
                Some(SyscallId::Cachestat)
            } else if n == 457 {
                Some(SyscallId::Statmount)
            } else {
                None
            }
        },
    }
}

/// The number of the syscall `id` on `arch`, where it exists there.
pub open spec fn syscall_number_spec(id: SyscallId, arch: Arch) -> Option<u64> {
    match arch {
        Arch::X86_64 => match id {
            SyscallId::Read => Some(0),
            SyscallId::Write => Some(1),
            SyscallId::Open => Some(2),
            SyscallId::Close => Some(3),
            SyscallId::Stat => Some(4),
            SyscallId::Fstat => Some(5),
            SyscallId::Lstat => Some(6),
            SyscallId::Lseek => Some(8),
            SyscallId::Mmap => Some(9),
            SyscallId::Mprotect => Some(10),
            SyscallId::Munmap => Some(11),
            SyscallId::Brk => Some(12),
            SyscallId::RtSigreturn => Some(15),
            SyscallId::Ioctl => Some(16),
            SyscallId::Pread64 => Some(17),
            SyscallId::Pwrite64 => Some(18),
            SyscallId::Access => Some(21),
            SyscallId::Pipe => Some(22),
            SyscallId::SchedYield => Some(24),
            SyscallId::Mremap => Some(25),
            SyscallId::Msync => Some(26),
            SyscallId::Madvise => Some(28),
            SyscallId::Shmget => Some(29),
            SyscallId::Shmat => Some(30),
            SyscallId::Dup => Some(32),
            SyscallId::Dup2 => Some(33),
            SyscallId::Pause => Some(34),
            SyscallId::Nanosleep => Some(35),
            SyscallId::Alarm => Some(37),
            SyscallId::Getpid => Some(39),
            SyscallId::Socket => Some(41),
            SyscallId::Connect => Some(42),
            SyscallId::Accept => Some(43),
            SyscallId::Shutdown => Some(48),
            SyscallId::Bind => Some(49),
            SyscallId::Listen => Some(50),
            SyscallId::Getsockname => Some(51),
            SyscallId::Getpeername => Some(52),
            SyscallId::Socketpair => Some(53),
            SyscallId::Clone => Some(56),
            SyscallId::Execve => Some(59),
            SyscallId::Exit => Some(60),
            SyscallId::Kill => Some(62),
            SyscallId::Semget => Some(64),
            SyscallId::Semop => Some(65),
            SyscallId::Semctl => Some(66),
            SyscallId::Shmdt => Some(67),
            SyscallId::Msgget => Some(68),
            SyscallId::Msgsnd => Some(69),
            SyscallId::Fcntl => Some(72),
            SyscallId::Flock => Some(73),
            SyscallId::Fsync => Some(74),
            SyscallId::Fdatasync => Some(75),
            SyscallId::Truncate => Some(76),
            SyscallId::Ftruncate => Some(77),
            SyscallId::Getcwd => Some(79),
            SyscallId::Chdir => Some(80),
            SyscallId::Rename => Some(82),
            SyscallId::Mkdir => Some(83),
            SyscallId::Rmdir => Some(84),
            SyscallId::Creat => Some(85),
            SyscallId::Link => Some(86),
            SyscallId::Unlink => Some(87),
            SyscallId::Symlink => Some(88),
            SyscallId::Readlink => Some(89),
            SyscallId::Chmod => Some(90),
            SyscallId::Fchmod => Some(91),
            SyscallId::Chown => Some(92),
            SyscallId::Fchown => Some(93),
            SyscallId::Lchown => Some(94),
            SyscallId::Umask => Some(95),
            SyscallId::Gettimeofday => Some(96),
            SyscallId::Getrlimit => Some(97),
            SyscallId::Times => Some(100),
            SyscallId::Ptrace => Some(101),
            SyscallId::Getuid => Some(102),
            SyscallId::Getgid => Some(104),
            SyscallId::Setuid => Some(105),
            SyscallId::Setgid => Some(106),
            SyscallId::Geteuid => Some(107),
            SyscallId::Getegid => Some(108),
            SyscallId::Setpgid => Some(109),
            SyscallId::Getppid => Some(110),
            SyscallId::Setsid => Some(112),
            SyscallId::Setreuid => Some(113),
            SyscallId::Setregid => Some(114),
            SyscallId::Setresuid => Some(117),
            SyscallId::Getresuid => Some(118),
            SyscallId::Setresgid => Some(119),
            SyscallId::Getresgid => Some(120),
            SyscallId::Getpgid => Some(121),
            SyscallId::Getsid => Some(124),
            SyscallId::Capget => Some(125),
            SyscallId::Statfs => Some(137),
            SyscallId::Fstatfs => Some(138),
            SyscallId::Sync => Some(162),
            SyscallId::Settimeofday => Some(164),
            SyscallId::Umount2 => Some(166),
            SyscallId::Sethostname => Some(170),
            SyscallId::Setdomainname => Some(171),
            SyscallId::Gettid => Some(186),
            SyscallId::Futex => Some(202),
            SyscallId::SchedGetaffinity => Some(204),
            SyscallId::ClockSettime => Some(227),
            SyscallId::ClockGettime => Some(228),
            SyscallId::ClockGetres => Some(229),
            SyscallId::ClockNanosleep => Some(230),
            SyscallId::ExitGroup => Some(231),
            SyscallId::Utimes => Some(235),
            SyscallId::Openat => Some(257),
            SyscallId::Mkdirat => Some(258),
            SyscallId::Fchownat => Some(260),
            SyscallId::Newfstatat => Some(262),
            SyscallId::Unlinkat => Some(263),
            SyscallId::Renameat => Some(264),
            SyscallId::Linkat => Some(265),
            SyscallId::Symlinkat => Some(266),
            SyscallId::Readlinkat => Some(267),
            SyscallId::Fchmodat => Some(268),
            SyscallId::Faccessat => Some(269),
            SyscallId::Accept4 => Some(288),
            SyscallId::Eventfd2 => Some(290),
            SyscallId::EpollCreate1 => Some(291),
            SyscallId::Dup3 => Some(292),
            SyscallId::Pipe2 => Some(293),
            SyscallId::InotifyInit1 => Some(294),
            SyscallId::Prlimit64 => Some(302),
            SyscallId::Getrandom => Some(318),
            SyscallId::MemfdCreate => Some(319),
            SyscallId::Rseq => Some(334),
            SyscallId::PidfdOpen => Some(434),
            SyscallId::CloseRange => Some(436),
            SyscallId::LandlockCreateRuleset => Some(444),
            SyscallId::Cachestat => Some(451),
            SyscallId::Statmount => Some(457),
        },
        Arch::Aarch64 => match id {
            SyscallId::Read => Some(63),
            SyscallId::Write => Some(64),
            SyscallId::Open => None,
            SyscallId::Close => Some(57),
            SyscallId::Stat => None,
            SyscallId::Fstat => Some(80),
            SyscallId::Lstat => None,
            SyscallId::Lseek => Some(62),
            SyscallId::Mmap => Some(222),
            SyscallId::Mprotect => Some(226),
            SyscallId::Munmap => Some(215),
            SyscallId::Brk => Some(214),
            SyscallId::RtSigreturn => Some(139),
            SyscallId::Ioctl => Some(29),
            SyscallId::Pread64 => Some(67),
            SyscallId::Pwrite64 => Some(68),
            SyscallId::Access => None,
            SyscallId::Pipe => None,
            SyscallId::SchedYield => Some(124),
            SyscallId::Mremap => Some(216),
            SyscallId::Msync => Some(227),
            SyscallId::Madvise => Some(233),
            SyscallId::Shmget => Some(194),
            SyscallId::Shmat => Some(196),
            SyscallId::Dup => Some(23),
            SyscallId::Dup2 => None,
            SyscallId::Pause => None,
            SyscallId::Nanosleep => Some(101),
            SyscallId::Alarm => None,
            SyscallId::Getpid => Some(172),
            SyscallId::Socket => Some(198),
            SyscallId::Connect => Some(203),
            SyscallId::Accept => Some(202),
            SyscallId::Shutdown => Some(210),
            SyscallId::Bind => Some(200),
            SyscallId::Listen => Some(201),
            SyscallId::Getsockname => Some(204),
            SyscallId::Getpeername => Some(205),
            SyscallId::Socketpair => Some(199),
            SyscallId::Clone => Some(220),
            SyscallId::Execve => Some(221),
            SyscallId::Exit => Some(93),
            SyscallId::Kill => Some(129),
            SyscallId::Semget => Some(190),
            SyscallId::Semop => Some(193),
            SyscallId::Semctl => Some(191),
            SyscallId::Shmdt => Some(197),
            SyscallId::Msgget => Some(186),
            SyscallId::Msgsnd => Some(189),
            SyscallId::Fcntl => Some(25),
            SyscallId::Flock => Some(32),
            SyscallId::Fsync => Some(82),
            SyscallId::Fdatasync => Some(83),
            SyscallId::Truncate => Some(45),
            SyscallId::Ftruncate => Some(46),
            SyscallId::Getcwd => Some(17),
            SyscallId::Chdir => Some(49),
            SyscallId::Rename => None,
            SyscallId::Mkdir => None,
            SyscallId::Rmdir => None,
            SyscallId::Creat => None,
            SyscallId::Link => None,
            SyscallId::Unlink => None,
            SyscallId::Symlink => None,
            SyscallId::Readlink => None,
            SyscallId::Chmod => None,
            SyscallId::Fchmod => Some(52),
            SyscallId::Chown => None,
            SyscallId::Fchown => Some(55),
            SyscallId::Lchown => None,
            SyscallId::Umask => Some(166),
            SyscallId::Gettimeofday => Some(169),
            SyscallId::Getrlimit => Some(163),
            SyscallId::Times => Some(153),
            SyscallId::Ptrace => Some(117),
            SyscallId::Getuid => Some(174),
            SyscallId::Getgid => Some(176),
            SyscallId::Setuid => Some(146),
            SyscallId::Setgid => Some(144),
            SyscallId::Geteuid => Some(175),
            SyscallId::Getegid => Some(177),
            SyscallId::Setpgid => Some(154),
            SyscallId::Getppid => Some(173),
            SyscallId::Setsid => Some(157),
            SyscallId::Setreuid => Some(145),
            SyscallId::Setregid => Some(143),
            SyscallId::Setresuid => Some(147),
            SyscallId::Getresuid => Some(148),
            SyscallId::Setresgid => Some(149),
            SyscallId::Getresgid => Some(150),
            SyscallId::Getpgid => Some(155),
            SyscallId::Getsid => Some(156),
            SyscallId::Capget => Some(90),
            SyscallId::Statfs => Some(43),
            SyscallId::Fstatfs => Some(44),
            SyscallId::Sync => Some(81),
            SyscallId::Settimeofday => Some(170),
            SyscallId::Umount2 => Some(39),
            SyscallId::Sethostname => Some(161),
            SyscallId::Setdomainname => Some(162),
            SyscallId::Gettid => Some(178),
            SyscallId::Futex => Some(98),
            SyscallId::SchedGetaffinity => Some(123),
            SyscallId::ClockSettime => Some(112),
            SyscallId::ClockGettime => Some(113),
            SyscallId::ClockGetres => Some(114),
            SyscallId::ClockNanosleep => Some(115),
            SyscallId::ExitGroup => Some(94),
            SyscallId::Utimes => None,
            SyscallId::Openat => Some(56),
            SyscallId::Mkdirat => Some(34),
            SyscallId::Fchownat => Some(54),
            SyscallId::Newfstatat => Some(79),
            SyscallId::Unlinkat => Some(35),
            SyscallId::Renameat => Some(38),
            SyscallId::Linkat => Some(37),
            SyscallId::Symlinkat => Some(36),
            SyscallId::Readlinkat => Some(78),
            SyscallId::Fchmodat => Some(53),
            SyscallId::Faccessat => Some(48),
            SyscallId::Accept4 => Some(242),
            SyscallId::Eventfd2 => Some(19),
            SyscallId::EpollCreate1 => Some(20),
            SyscallId::Dup3 => Some(24),
            SyscallId::Pipe2 => Some(59),
            SyscallId::InotifyInit1 => Some(26),
            SyscallId::Prlimit64 => Some(261),
            SyscallId::Getrandom => Some(278),
            SyscallId::MemfdCreate => Some(279),
            SyscallId::Rseq => Some(293),
            SyscallId::PidfdOpen => Some(434),
            SyscallId::CloseRange => Some(436),
            SyscallId::LandlockCreateRuleset => Some(444),
            SyscallId::Cachestat => Some(451),
            SyscallId::Statmount => Some(457),
        },
        Arch::Riscv64 => match id {
            SyscallId::Read => Some(63),
            SyscallId::Write => Some(64),
            SyscallId::Open => None,
            SyscallId::Close => Some(57),
            SyscallId::Stat => None,
            SyscallId::Fstat => Some(80),
            SyscallId::Lstat => None,
            SyscallId::Lseek => Some(62),
            SyscallId::Mmap => Some(222),
            SyscallId::Mprotect => Some(226),
            SyscallId::Munmap => Some(215),
            SyscallId::Brk => Some(214),
            SyscallId::RtSigreturn => Some(139),
            SyscallId::Ioctl => Some(29),
            SyscallId::Pread64 => Some(67),
            SyscallId::Pwrite64 => Some(68),
            SyscallId::Access => None,
            SyscallId::Pipe => None,
            SyscallId::SchedYield => Some(124),
            SyscallId::Mremap => Some(216),
            SyscallId::Msync => Some(227),
            SyscallId::Madvise => Some(233),
            SyscallId::Shmget => Some(194),
            SyscallId::Shmat => Some(196),
            SyscallId::Dup => Some(23),
            SyscallId::Dup2 => None,
            SyscallId::Pause => None,
            SyscallId::Nanosleep => Some(101),
            SyscallId::Alarm => None,
            SyscallId::Getpid => Some(172),
            SyscallId::Socket => Some(198),
            SyscallId::Connect => Some(203),
            SyscallId::Accept => Some(202),
            SyscallId::Shutdown => Some(210),
            SyscallId::Bind => Some(200),
            SyscallId::Listen => Some(201),
            SyscallId::Getsockname => Some(204),
            SyscallId::Getpeername => Some(205),
            SyscallId::Socketpair => Some(199),
            SyscallId::Clone => Some(220),
            SyscallId::Execve => Some(221),
            SyscallId::Exit => Some(93),
            SyscallId::Kill => Some(129),
            SyscallId::Semget => Some(190),
            SyscallId::Semop => Some(193),
            SyscallId::Semctl => Some(191),
            SyscallId::Shmdt => Some(197),
            SyscallId::Msgget => Some(186),
            SyscallId::Msgsnd => Some(189),
            SyscallId::Fcntl => Some(25),
            SyscallId::Flock => Some(32),
            SyscallId::Fsync => Some(82),
            SyscallId::Fdatasync => Some(83),
            SyscallId::Truncate => Some(45),
            SyscallId::Ftruncate => Some(46),
            SyscallId::Getcwd => Some(17),
            SyscallId::Chdir => Some(49),
            SyscallId::Rename => None,
            SyscallId::Mkdir => None,
            SyscallId::Rmdir => None,
            SyscallId::Creat => None,
            SyscallId::Link => None,
            SyscallId::Unlink => None,
            SyscallId::Symlink => None,
            SyscallId::Readlink => None,
            SyscallId::Chmod => None,
            SyscallId::Fchmod => Some(52),
            SyscallId::Chown => None,
            SyscallId::Fchown => Some(55),
            SyscallId::Lchown => None,
            SyscallId::Umask => Some(166),
            SyscallId::Gettimeofday => Some(169),
            SyscallId::Getrlimit => Some(163),
            SyscallId::Times => Some(153),
            SyscallId::Ptrace => Some(117),
            SyscallId::Getuid => Some(174),
            SyscallId::Getgid => Some(176),
            SyscallId::Setuid => Some(146),
            SyscallId::Setgid => Some(144),
            SyscallId::Geteuid => Some(175),
            SyscallId::Getegid => Some(177),
            SyscallId::Setpgid => Some(154),
            SyscallId::Getppid => Some(173),
            SyscallId::Setsid => Some(157),
            SyscallId::Setreuid => Some(145),
            SyscallId::Setregid => Some(143),
            SyscallId::Setresuid => Some(147),
            SyscallId::Getresuid => Some(148),
            SyscallId::Setresgid => Some(149),
            SyscallId::Getresgid => Some(150),
            SyscallId::Getpgid => Some(155),
            SyscallId::Getsid => Some(156),
            SyscallId::Capget => Some(90),
            SyscallId::Statfs => Some(43),
            SyscallId::Fstatfs => Some(44),
            SyscallId::Sync => Some(81),
            SyscallId::Settimeofday => Some(170),
            SyscallId::Umount2 => Some(39),
            SyscallId::Sethostname => Some(161),
            SyscallId::Setdomainname => Some(162),
            SyscallId::Gettid => Some(178),
            SyscallId::Futex => Some(98),
            SyscallId::SchedGetaffinity => Some(123),
            SyscallId::ClockSettime => Some(112),
            SyscallId::ClockGettime => Some(113),
            SyscallId::ClockGetres => Some(114),
            SyscallId::ClockNanosleep => Some(115),
            SyscallId::ExitGroup => Some(94),
            SyscallId::Utimes => None,
            SyscallId::Openat => Some(56),
            SyscallId::Mkdirat => Some(34),
            SyscallId::Fchownat => Some(54),
            SyscallId::Newfstatat => Some(79),
            SyscallId::Unlinkat => Some(35),
            SyscallId::Renameat => Some(38),
            SyscallId::Linkat => Some(37),
            SyscallId::Symlinkat => Some(36),
            SyscallId::Readlinkat => Some(78),
            SyscallId::Fchmodat => Some(53),
            SyscallId::Faccessat => Some(48),
            SyscallId::Accept4 => Some(242),
            SyscallId::Eventfd2 => Some(19),
            SyscallId::EpollCreate1 => Some(20),
            SyscallId::Dup3 => Some(24),
            SyscallId::Pipe2 => Some(59),
            SyscallId::InotifyInit1 => Some(26),
            SyscallId::Prlimit64 => Some(261),
            SyscallId::Getrandom => Some(278),
            SyscallId::MemfdCreate => Some(279),
            SyscallId::Rseq => Some(293),
            SyscallId::PidfdOpen => Some(434),
            SyscallId::CloseRange => Some(436),
            SyscallId::LandlockCreateRuleset => Some(444),
            SyscallId::Cachestat => Some(451),
            SyscallId::Statmount => Some(457),
        },
    }
}

/// The number of the syscall `id` on `arch`, where it exists there.
pub fn syscall_number_for(id: SyscallId, arch: Arch) -> (r: Option<u64>)
    ensures
        r == syscall_number_spec(id, arch),
{
    match arch {
        Arch::X86_64 => match id {
            SyscallId::Read => Some(0),
            SyscallId::Write => Some(1),
            SyscallId::Open => Some(2),
            SyscallId::Close => Some(3),
            SyscallId::Stat => Some(4),
            SyscallId::Fstat => Some(5),
            SyscallId::Lstat => Some(6),
            SyscallId::Lseek => Some(8),
            SyscallId::Mmap => Some(9),
            SyscallId::Mprotect => Some(10),
            SyscallId::Munmap => Some(11),
            SyscallId::Brk => Some(12),
            SyscallId::RtSigreturn => Some(15),
            SyscallId::Ioctl => Some(16),
            SyscallId::Pread64 => Some(17),
            SyscallId::Pwrite64 => Some(18),
            SyscallId::Access => Some(21),
            SyscallId::Pipe => Some(22),
            SyscallId::SchedYield => Some(24),
            SyscallId::Mremap => Some(25),
            SyscallId::Msync => Some(26),
            SyscallId::Madvise => Some(28),
            SyscallId::Shmget => Some(29),
            SyscallId::Shmat => Some(30),
            SyscallId::Dup => Some(32),
            SyscallId::Dup2 => Some(33),
            SyscallId::Pause => Some(34),
            SyscallId::Nanosleep => Some(35),
            SyscallId::Alarm => Some(37),
            SyscallId::Getpid => Some(39),
            SyscallId::Socket => Some(41),
            SyscallId::Connect => Some(42),
            SyscallId::Accept => Some(43),
            SyscallId::Shutdown => Some(48),
            SyscallId::Bind => Some(49),
            SyscallId::Listen => Some(50),
            SyscallId::Getsockname => Some(51),
            SyscallId::Getpeername => Some(52),
            SyscallId::Socketpair => Some(53),
            SyscallId::Clone => Some(56),
            SyscallId::Execve => Some(59),
            SyscallId::Exit => Some(60),
            SyscallId::Kill => Some(62),
            SyscallId::Semget => Some(64),
            SyscallId::Semop => Some(65),
            SyscallId::Semctl => Some(66),
            SyscallId::Shmdt => Some(67),
            SyscallId::Msgget => Some(68),
            SyscallId::Msgsnd => Some(69),
            SyscallId::Fcntl => Some(72),
            SyscallId::Flock => Some(73),
            SyscallId::Fsync => Some(74),
            SyscallId::Fdatasync => Some(75),
            SyscallId::Truncate => Some(76),
            SyscallId::Ftruncate => Some(77),
            SyscallId::Getcwd => Some(79),
            SyscallId::Chdir => Some(80),
            SyscallId::Rename => Some(82),
            SyscallId::Mkdir => Some(83),
            SyscallId::Rmdir => Some(84),
            SyscallId::Creat => Some(85),
            SyscallId::Link => Some(86),
            SyscallId::Unlink => Some(87),
            SyscallId::Symlink => Some(88),
            SyscallId::Readlink => Some(89),
            SyscallId::Chmod => Some(90),
            SyscallId::Fchmod => Some(91),
            SyscallId::Chown => Some(92),
            SyscallId::Fchown => Some(93),
            SyscallId::Lchown => Some(94),
            SyscallId::Umask => Some(95),
            SyscallId::Gettimeofday => Some(96),
            SyscallId::Getrlimit => Some(97),
            SyscallId::Times => Some(100),
            SyscallId::Ptrace => Some(101),
            SyscallId::Getuid => Some(102),
            SyscallId::Getgid => Some(104),
            SyscallId::Setuid => Some(105),
            SyscallId::Setgid => Some(106),
            SyscallId::Geteuid => Some(107),
            SyscallId::Getegid => Some(108),
            SyscallId::Setpgid => Some(109),
            SyscallId::Getppid => Some(110),
            SyscallId::Setsid => Some(112),
            SyscallId::Setreuid => Some(113),
            SyscallId::Setregid => Some(114),
            SyscallId::Setresuid => Some(117),
            SyscallId::Getresuid => Some(118),
            SyscallId::Setresgid => Some(119),
            SyscallId::Getresgid => Some(120),
            SyscallId::Getpgid => Some(121),
            SyscallId::Getsid => Some(124),
            SyscallId::Capget => Some(125),
            SyscallId::Statfs => Some(137),
            SyscallId::Fstatfs => Some(138),
            SyscallId::Sync => Some(162),
            SyscallId::Settimeofday => Some(164),
            SyscallId::Umount2 => Some(166),
            SyscallId::Sethostname => Some(170),
            SyscallId::Setdomainname => Some(171),
            SyscallId::Gettid => Some(186),
            SyscallId::Futex => Some(202),
            SyscallId::SchedGetaffinity => Some(204),
            SyscallId::ClockSettime => Some(227),
            SyscallId::ClockGettime => Some(228),
            SyscallId::ClockGetres => Some(229),
            SyscallId::ClockNanosleep => Some(230),
            SyscallId::ExitGroup => Some(231),
            SyscallId::Utimes => Some(235),
            SyscallId::Openat => Some(257),
            SyscallId::Mkdirat => Some(258),
            SyscallId::Fchownat => Some(260),
            SyscallId::Newfstatat => Some(262),
            SyscallId::Unlinkat => Some(263),
            SyscallId::Renameat => Some(264),
            SyscallId::Linkat => Some(265),
            SyscallId::Symlinkat => Some(266),
            SyscallId::Readlinkat => Some(267),
            SyscallId::Fchmodat => Some(268),
            SyscallId::Faccessat => Some(269),
            SyscallId::Accept4 => Some(288),
            SyscallId::Eventfd2 => Some(290),
            SyscallId::EpollCreate1 => Some(291),
            SyscallId::Dup3 => Some(292),
            SyscallId::Pipe2 => Some(293),
            SyscallId::InotifyInit1 => Some(294),
            SyscallId::Prlimit64 => Some(302),
            SyscallId::Getrandom => Some(318),
            SyscallId::MemfdCreate => Some(319),
            SyscallId::Rseq => Some(334),
            SyscallId::PidfdOpen => Some(434),
            SyscallId::CloseRange => Some(436),
            SyscallId::LandlockCreateRuleset => Some(444),
            SyscallId::Cachestat => Some(451),
            SyscallId::Statmount => Some(457),
        },
        Arch::Aarch64 => match id {
            SyscallId::Read => Some(63),
            SyscallId::Write => Some(64),
            SyscallId::Open => None,
            SyscallId::Close => Some(57),
            SyscallId::Stat => None,
            SyscallId::Fstat => Some(80),
            SyscallId::Lstat => None,
            SyscallId::Lseek => Some(62),
            SyscallId::Mmap => Some(222),
            SyscallId::Mprotect => Some(226),
            SyscallId::Munmap => Some(215),
            SyscallId::Brk => Some(214),
            SyscallId::RtSigreturn => Some(139),
            SyscallId::Ioctl => Some(29),
            SyscallId::Pread64 => Some(67),
            SyscallId::Pwrite64 => Some(68),
            SyscallId::Access => None,
            SyscallId::Pipe => None,
            SyscallId::SchedYield => Some(124),
            SyscallId::Mremap => Some(216),
            SyscallId::Msync => Some(227),
            SyscallId::Madvise => Some(233),
            SyscallId::Shmget => Some(194),
            SyscallId::Shmat => Some(196),
            SyscallId::Dup => Some(23),
            SyscallId::Dup2 => None,
            SyscallId::Pause => None,
            SyscallId::Nanosleep => Some(101),
            SyscallId::Alarm => None,
            SyscallId::Getpid => Some(172),
            SyscallId::Socket => Some(198),
            SyscallId::Connect => Some(203),
            SyscallId::Accept => Some(202),
            SyscallId::Shutdown => Some(210),
            SyscallId::Bind => Some(200),
            SyscallId::Listen => Some(201),
            SyscallId::Getsockname => Some(204),
            SyscallId::Getpeername => Some(205),
            SyscallId::Socketpair => Some(199),
            SyscallId::Clone => Some(220),
            SyscallId::Execve => Some(221),
            SyscallId::Exit => Some(93),
            SyscallId::Kill => Some(129),
            SyscallId::Semget => Some(190),
            SyscallId::Semop => Some(193),
            SyscallId::Semctl => Some(191),
            SyscallId::Shmdt => Some(197),
            SyscallId::Msgget => Some(186),
            SyscallId::Msgsnd => Some(189),
            SyscallId::Fcntl => Some(25),
            SyscallId::Flock => Some(32),
            SyscallId::Fsync => Some(82),
            SyscallId::Fdatasync => Some(83),
            SyscallId::Truncate => Some(45),
            SyscallId::Ftruncate => Some(46),
            SyscallId::Getcwd => Some(17),
            SyscallId::Chdir => Some(49),
            SyscallId::Rename => None,
            SyscallId::Mkdir => None,
            SyscallId::Rmdir => None,
            SyscallId::Creat => None,
            SyscallId::Link => None,
            SyscallId::Unlink => None,
            SyscallId::Symlink => None,
            SyscallId::Readlink => None,
            SyscallId::Chmod => None,
            SyscallId::Fchmod => Some(52),
            SyscallId::Chown => None,
            SyscallId::Fchown => Some(55),
            SyscallId::Lchown => None,
            SyscallId::Umask => Some(166),
            SyscallId::Gettimeofday => Some(169),
            SyscallId::Getrlimit => Some(163),
            SyscallId::Times => Some(153),
            SyscallId::Ptrace => Some(117),
            SyscallId::Getuid => Some(174),
            SyscallId::Getgid => Some(176),
            SyscallId::Setuid => Some(146),
            SyscallId::Setgid => Some(144),
            SyscallId::Geteuid => Some(175),
            SyscallId::Getegid => Some(177),
            SyscallId::Setpgid => Some(154),
            SyscallId::Getppid => Some(173),
            SyscallId::Setsid => Some(157),
            SyscallId::Setreuid => Some(145),
            SyscallId::Setregid => Some(143),
            SyscallId::Setresuid => Some(147),
            SyscallId::Getresuid => Some(148),
            SyscallId::Setresgid => Some(149),
            SyscallId::Getresgid => Some(150),
            SyscallId::Getpgid => Some(155),
            SyscallId::Getsid => Some(156),
            SyscallId::Capget => Some(90),
            SyscallId::Statfs => Some(43),
            SyscallId::Fstatfs => Some(44),
            SyscallId::Sync => Some(81),
            SyscallId::Settimeofday => Some(170),
            SyscallId::Umount2 => Some(39),
            SyscallId::Sethostname => Some(161),
            SyscallId::Setdomainname => Some(162),
            SyscallId::Gettid => Some(178),
            SyscallId::Futex => Some(98),
            SyscallId::SchedGetaffinity => Some(123),
            SyscallId::ClockSettime => Some(112),
            SyscallId::ClockGettime => Some(113),
            SyscallId::ClockGetres => Some(114),
            SyscallId::ClockNanosleep => Some(115),
            SyscallId::ExitGroup => Some(94),
            SyscallId::Utimes => None,
            SyscallId::Openat => Some(56),
            SyscallId::Mkdirat => Some(34),
            SyscallId::Fchownat => Some(54),
            SyscallId::Newfstatat => Some(79),
            SyscallId::Unlinkat => Some(35),
            SyscallId::Renameat => Some(38),
            SyscallId::Linkat => Some(37),
            SyscallId::Symlinkat => Some(36),
            SyscallId::Readlinkat => Some(78),
            SyscallId::Fchmodat => Some(53),
            SyscallId::Faccessat => Some(48),
            SyscallId::Accept4 => Some(242),
            SyscallId::Eventfd2 => Some(19),
            SyscallId::EpollCreate1 => Some(20),
            SyscallId::Dup3 => Some(24),
            SyscallId::Pipe2 => Some(59),
            SyscallId::InotifyInit1 => Some(26),
            SyscallId::Prlimit64 => Some(261),
            SyscallId::Getrandom => Some(278),
            SyscallId::MemfdCreate => Some(279),
            SyscallId::Rseq => Some(293),
            SyscallId::PidfdOpen => Some(434),
            SyscallId::CloseRange => Some(436),
            SyscallId::LandlockCreateRuleset => Some(444),
            SyscallId::Cachestat => Some(451),
            SyscallId::Statmount => Some(457),
        },
        Arch::Riscv64 => match id {
            SyscallId::Read => Some(63),
            SyscallId::Write => Some(64),
            SyscallId::Open => None,
            SyscallId::Close => Some(57),
            SyscallId::Stat => None,
            SyscallId::Fstat => Some(80),
            SyscallId::Lstat => None,
            SyscallId::Lseek => Some(62),
            SyscallId::Mmap => Some(222),
            SyscallId::Mprotect => Some(226),
            SyscallId::Munmap => Some(215),
            SyscallId::Brk => Some(214),
            SyscallId::RtSigreturn => Some(139),
            SyscallId::Ioctl => Some(29),
            SyscallId::Pread64 => Some(67),
            SyscallId::Pwrite64 => Some(68),
            SyscallId::Access => None,
            SyscallId::Pipe => None,
            SyscallId::SchedYield => Some(124),
            SyscallId::Mremap => Some(216),
            SyscallId::Msync => Some(227),
            SyscallId::Madvise => Some(233),
            SyscallId::Shmget => Some(194),
            SyscallId::Shmat => Some(196),
            SyscallId::Dup => Some(23),
            SyscallId::Dup2 => None,
            SyscallId::Pause => None,
            SyscallId::Nanosleep => Some(101),
            SyscallId::Alarm => None,
            SyscallId::Getpid => Some(172),
            SyscallId::Socket => Some(198),
            SyscallId::Connect => Some(203),
            SyscallId::Accept => Some(202),
            SyscallId::Shutdown => Some(210),
            SyscallId::Bind => Some(200),
            SyscallId::Listen => Some(201),
            SyscallId::Getsockname => Some(204),
            SyscallId::Getpeername => Some(205),
            SyscallId::Socketpair => Some(199),
            SyscallId::Clone => Some(220),
            SyscallId::Execve => Some(221),
            SyscallId::Exit => Some(93),
            SyscallId::Kill => Some(129),
            SyscallId::Semget => Some(190),
            SyscallId::Semop => Some(193),
            SyscallId::Semctl => Some(191),
            SyscallId::Shmdt => Some(197),
            SyscallId::Msgget => Some(186),
            SyscallId::Msgsnd => Some(189),
            SyscallId::Fcntl => Some(25),
            SyscallId::Flock => Some(32),
            SyscallId::Fsync => Some(82),
            SyscallId::Fdatasync => Some(83),
            SyscallId::Truncate => Some(45),
            SyscallId::Ftruncate => Some(46),
            SyscallId::Getcwd => Some(17),
            SyscallId::Chdir => Some(49),
            SyscallId::Rename => None,
            SyscallId::Mkdir => None,
            SyscallId::Rmdir => None,
            SyscallId::Creat => None,
            SyscallId::Link => None,
            SyscallId::Unlink => None,
            SyscallId::Symlink => None,
            SyscallId::Readlink => None,
            SyscallId::Chmod => None,
            SyscallId::Fchmod => Some(52),
            SyscallId::Chown => None,
            SyscallId::Fchown => Some(55),
            SyscallId::Lchown => None,
            SyscallId::Umask => Some(166),
            SyscallId::Gettimeofday => Some(169),
            SyscallId::Getrlimit => Some(163),
            SyscallId::Times => Some(153),
            SyscallId::Ptrace => Some(117),
            SyscallId::Getuid => Some(174),
            SyscallId::Getgid => Some(176),
            SyscallId::Setuid => Some(146),
            SyscallId::Setgid => Some(144),
            SyscallId::Geteuid => Some(175),
            SyscallId::Getegid => Some(177),
            SyscallId::Setpgid => Some(154),
            SyscallId::Getppid => Some(173),
            SyscallId::Setsid => Some(157),
            SyscallId::Setreuid => Some(145),
            SyscallId::Setregid => Some(143),
            SyscallId::Setresuid => Some(147),
            SyscallId::Getresuid => Some(148),
            SyscallId::Setresgid => Some(149),
            SyscallId::Getresgid => Some(150),
            SyscallId::Getpgid => Some(155),
            SyscallId::Getsid => Some(156),
            SyscallId::Capget => Some(90),
            SyscallId::Statfs => Some(43),
            SyscallId::Fstatfs => Some(44),
            SyscallId::Sync => Some(81),
            SyscallId::Settimeofday => Some(170),
            SyscallId::Umount2 => Some(39),
            SyscallId::Sethostname => Some(161),
            SyscallId::Setdomainname => Some(162),
            SyscallId::Gettid => Some(178),
            SyscallId::Futex => Some(98),
            SyscallId::SchedGetaffinity => Some(123),
            SyscallId::ClockSettime => Some(112),
            SyscallId::ClockGettime => Some(113),
            SyscallId::ClockGetres => Some(114),
            SyscallId::ClockNanosleep => Some(115),
            SyscallId::ExitGroup => Some(94),
            SyscallId::Utimes => None,
            SyscallId::Openat => Some(56),
            SyscallId::Mkdirat => Some(34),
            SyscallId::Fchownat => Some(54),
            SyscallId::Newfstatat => Some(79),
            SyscallId::Unlinkat => Some(35),
            SyscallId::Renameat => Some(38),
            SyscallId::Linkat => Some(37),
            SyscallId::Symlinkat => Some(36),
            SyscallId::Readlinkat => Some(78),
            SyscallId::Fchmodat => Some(53),
            SyscallId::Faccessat => Some(48),
            SyscallId::Accept4 => Some(242),
            SyscallId::Eventfd2 => Some(19),
            SyscallId::EpollCreate1 => Some(20),
            SyscallId::Dup3 => Some(24),
            SyscallId::Pipe2 => Some(59),
            SyscallId::InotifyInit1 => Some(26),
            SyscallId::Prlimit64 => Some(261),
            SyscallId::Getrandom => Some(278),
            SyscallId::MemfdCreate => Some(279),
            SyscallId::Rseq => Some(293),
            SyscallId::PidfdOpen => Some(434),
            SyscallId::CloseRange => Some(436),
            SyscallId::LandlockCreateRuleset => Some(444),
            SyscallId::Cachestat => Some(451),
            SyscallId::Statmount => Some(457),
        },
    }
}

/// Numbers identify table entries: looking a syscall's own number back up
/// on the same architecture finds that syscall.
pub proof fn lemma_number_round_trip(id: SyscallId, arch: Arch, n: u64)
    requires
        syscall_number_spec(id, arch) == Some(n),
    ensures
        table_lookup(arch, n) == Some(id),
{
}

/// A raw record is the faithful dispatch of a snapshot: its variant is what
/// the snapshot's number names in the table of the snapshot's architecture,
/// and its fields are the snapshot's slots in the declared raw types.
pub open spec fn dispatched_from(raw: SyscallRawArgs, regs: RegisterSnapshot) -> bool {
    &&& raw.tag() == table_lookup(regs.arch, regs.number)
    &&& raw_fields_ok(regs, raw)
}

/// Round trip through the raw dispatch: a snapshot built with a table
/// syscall's own number on the matching architecture dispatches to that
/// syscall's record, whose raw fields are the snapshot's slots cast to the
/// declared raw types.
pub proof fn lemma_raw_round_trip(regs: RegisterSnapshot, id: SyscallId, r: SyscallRawArgs)
    requires
        syscall_number_spec(id, regs.arch) == Some(regs.number),
        dispatched_from(r, regs),
    ensures
        r.tag() == Some(id),
        raw_fields_ok(regs, r),
{
    lemma_number_round_trip(id, regs.arch, regs.number);
}

/// Unknown preservation: a snapshot whose number is not in its architecture's
/// table dispatches to `Unknown`, with the number and all six slots carried
/// over unchanged.
pub proof fn lemma_unknown_preserved(regs: RegisterSnapshot, r: SyscallRawArgs)
    requires
        table_lookup(regs.arch, regs.number) is None,
        dispatched_from(r, regs),
    ensures
        r matches SyscallRawArgs::Unknown(u) && u.number == regs.number as isize && forall|i: int|
            0 <= i < 6 ==> u.args@[i] == regs.args@[i] as usize,
{
}

/// The category set declared for the syscall `id`.
pub open spec fn groups_of_spec(id: SyscallId) -> u32 {
    match id {
        SyscallId::Read => group_bit_spec(SyscallGroups::Desc),
        SyscallId::Write => group_bit_spec(SyscallGroups::Desc),
        SyscallId::Open => group_bit_spec(SyscallGroups::Desc) | group_bit_spec(SyscallGroups::File),
        SyscallId::Close => group_bit_spec(SyscallGroups::Desc),
        SyscallId::Stat => group_bit_spec(SyscallGroups::File) | group_bit_spec(SyscallGroups::Stat) | group_bit_spec(SyscallGroups::StatLike),
        SyscallId::Fstat => group_bit_spec(SyscallGroups::Desc) | group_bit_spec(SyscallGroups::FStat) | group_bit_spec(SyscallGroups::StatLike),
        SyscallId::Lstat => group_bit_spec(SyscallGroups::File) | group_bit_spec(SyscallGroups::LStat) | group_bit_spec(SyscallGroups::StatLike),
        SyscallId::Lseek => group_bit_spec(SyscallGroups::Desc),
        SyscallId::Mmap => group_bit_spec(SyscallGroups::Memory),
        SyscallId::Mprotect => group_bit_spec(SyscallGroups::Memory),
        SyscallId::Munmap => group_bit_spec(SyscallGroups::Memory),
        SyscallId::Brk => group_bit_spec(SyscallGroups::Memory),
        SyscallId::RtSigreturn => group_bit_spec(SyscallGroups::Signal),
        SyscallId::Ioctl => group_bit_spec(SyscallGroups::Desc),
        SyscallId::Pread64 => group_bit_spec(SyscallGroups::Desc),
        SyscallId::Pwrite64 => group_bit_spec(SyscallGroups::Desc),
        SyscallId::Access => group_bit_spec(SyscallGroups::File),
        SyscallId::Pipe => group_bit_spec(SyscallGroups::Desc),
        SyscallId::SchedYield => 0,
        SyscallId::Mremap => group_bit_spec(SyscallGroups::Memory),
        SyscallId::Msync => group_bit_spec(SyscallGroups::Memory),
        SyscallId::Madvise => group_bit_spec(SyscallGroups::Memory),
        SyscallId::Shmget => group_bit_spec(SyscallGroups::IPC),
        SyscallId::Shmat => group_bit_spec(SyscallGroups::IPC) | group_bit_spec(SyscallGroups::Memory),
        SyscallId::Dup => group_bit_spec(SyscallGroups::Desc),
        SyscallId::Dup2 => group_bit_spec(SyscallGroups::Desc),
        SyscallId::Pause => group_bit_spec(SyscallGroups::Signal),
        SyscallId::Nanosleep => group_bit_spec(SyscallGroups::Clock),
        SyscallId::Alarm => 0,
        SyscallId::Getpid => group_bit_spec(SyscallGroups::Pure),
        SyscallId::Socket => group_bit_spec(SyscallGroups::Network),
        SyscallId::Connect => group_bit_spec(SyscallGroups::Network),
        SyscallId::Accept => group_bit_spec(SyscallGroups::Network),
        SyscallId::Shutdown => group_bit_spec(SyscallGroups::Network),
        SyscallId::Bind => group_bit_spec(SyscallGroups::Network),
        SyscallId::Listen => group_bit_spec(SyscallGroups::Network),
        SyscallId::Getsockname => group_bit_spec(SyscallGroups::Network),
        SyscallId::Getpeername => group_bit_spec(SyscallGroups::Network),
        SyscallId::Socketpair => group_bit_spec(SyscallGroups::Network),
        SyscallId::Clone => group_bit_spec(SyscallGroups::Process),
        SyscallId::Execve => group_bit_spec(SyscallGroups::File) | group_bit_spec(SyscallGroups::Process),
        SyscallId::Exit => group_bit_spec(SyscallGroups::Process),
        SyscallId::Kill => group_bit_spec(SyscallGroups::Signal) | group_bit_spec(SyscallGroups::Process),
        SyscallId::Semget => group_bit_spec(SyscallGroups::IPC),
        SyscallId::Semop => group_bit_spec(SyscallGroups::IPC),
        SyscallId::Semctl => group_bit_spec(SyscallGroups::IPC),
        SyscallId::Shmdt => group_bit_spec(SyscallGroups::IPC) | group_bit_spec(SyscallGroups::Memory),
        SyscallId::Msgget => 0,
        SyscallId::Msgsnd => 0,
        SyscallId::Fcntl => group_bit_spec(SyscallGroups::Desc),
        SyscallId::Flock => group_bit_spec(SyscallGroups::Desc),
        SyscallId::Fsync => group_bit_spec(SyscallGroups::Desc),
        SyscallId::Fdatasync => group_bit_spec(SyscallGroups::Desc),
        SyscallId::Truncate => group_bit_spec(SyscallGroups::File),
        SyscallId::Ftruncate => group_bit_spec(SyscallGroups::Desc),
        SyscallId::Getcwd => group_bit_spec(SyscallGroups::File),
        SyscallId::Chdir => group_bit_spec(SyscallGroups::File),
        SyscallId::Rename => group_bit_spec(SyscallGroups::File),
        SyscallId::Mkdir => group_bit_spec(SyscallGroups::File),
        SyscallId::Rmdir => group_bit_spec(SyscallGroups::File),
        SyscallId::Creat => group_bit_spec(SyscallGroups::Desc) | group_bit_spec(SyscallGroups::File),
        SyscallId::Link => group_bit_spec(SyscallGroups::File),
        SyscallId::Unlink => group_bit_spec(SyscallGroups::File),
        SyscallId::Symlink => group_bit_spec(SyscallGroups::File),
        SyscallId::Readlink => group_bit_spec(SyscallGroups::File),
        SyscallId::Chmod => group_bit_spec(SyscallGroups::File),
        SyscallId::Fchmod => group_bit_spec(SyscallGroups::Desc),
        SyscallId::Chown => group_bit_spec(SyscallGroups::File),
        SyscallId::Fchown => group_bit_spec(SyscallGroups::Desc),
        SyscallId::Lchown => group_bit_spec(SyscallGroups::File),
        SyscallId::Umask => 0,
        SyscallId::Gettimeofday => group_bit_spec(SyscallGroups::Clock),
        SyscallId::Getrlimit => 0,
        SyscallId::Times => 0,
        SyscallId::Ptrace => 0,
        SyscallId::Getuid => group_bit_spec(SyscallGroups::Creds) | group_bit_spec(SyscallGroups::Pure),
        SyscallId::Getgid => group_bit_spec(SyscallGroups::Creds) | group_bit_spec(SyscallGroups::Pure),
        SyscallId::Setuid => group_bit_spec(SyscallGroups::Creds),
        SyscallId::Setgid => group_bit_spec(SyscallGroups::Creds),
        SyscallId::Geteuid => group_bit_spec(SyscallGroups::Creds) | group_bit_spec(SyscallGroups::Pure),
        SyscallId::Getegid => group_bit_spec(SyscallGroups::Creds) | group_bit_spec(SyscallGroups::Pure),
        SyscallId::Setpgid => 0,
        SyscallId::Getppid => group_bit_spec(SyscallGroups::Pure),
        SyscallId::Setsid => 0,
        SyscallId::Setreuid => group_bit_spec(SyscallGroups::Creds),
        SyscallId::Setregid => group_bit_spec(SyscallGroups::Creds),
        SyscallId::Setresuid => group_bit_spec(SyscallGroups::Creds),
        SyscallId::Getresuid => group_bit_spec(SyscallGroups::Creds),
        SyscallId::Setresgid => group_bit_spec(SyscallGroups::Creds),
        SyscallId::Getresgid => group_bit_spec(SyscallGroups::Creds),
        SyscallId::Getpgid => 0,
        SyscallId::Getsid => 0,
        SyscallId::Capget => group_bit_spec(SyscallGroups::Creds),
        SyscallId::Statfs => group_bit_spec(SyscallGroups::File) | group_bit_spec(SyscallGroups::StatFs) | group_bit_spec(SyscallGroups::StatFsLike),
        SyscallId::Fstatfs => group_bit_spec(SyscallGroups::Desc) | group_bit_spec(SyscallGroups::FStatFs) | group_bit_spec(SyscallGroups::StatFsLike),
        SyscallId::Sync => 0,
        SyscallId::Settimeofday => group_bit_spec(SyscallGroups::Clock),
        SyscallId::Umount2 => group_bit_spec(SyscallGroups::File),
        SyscallId::Sethostname => 0,
        SyscallId::Setdomainname => 0,
        SyscallId::Gettid => group_bit_spec(SyscallGroups::Pure),
        SyscallId::Futex => 0,
        SyscallId::SchedGetaffinity => 0,
        SyscallId::ClockSettime => group_bit_spec(SyscallGroups::Clock),
        SyscallId::ClockGettime => group_bit_spec(SyscallGroups::Clock),
        SyscallId::ClockGetres => group_bit_spec(SyscallGroups::Clock),
        SyscallId::ClockNanosleep => 0,
        SyscallId::ExitGroup => group_bit_spec(SyscallGroups::Process),
        SyscallId::Utimes => group_bit_spec(SyscallGroups::File),
        SyscallId::Openat => group_bit_spec(SyscallGroups::Desc) | group_bit_spec(SyscallGroups::File),
        SyscallId::Mkdirat => group_bit_spec(SyscallGroups::Desc) | group_bit_spec(SyscallGroups::File),
        SyscallId::Fchownat => group_bit_spec(SyscallGroups::Desc) | group_bit_spec(SyscallGroups::File),
        SyscallId::Newfstatat => group_bit_spec(SyscallGroups::Desc) | group_bit_spec(SyscallGroups::File) | group_bit_spec(SyscallGroups::FStat) | group_bit_spec(SyscallGroups::StatLike),
        SyscallId::Unlinkat => group_bit_spec(SyscallGroups::Desc) | group_bit_spec(SyscallGroups::File),
        SyscallId::Renameat => group_bit_spec(SyscallGroups::Desc) | group_bit_spec(SyscallGroups::File),
        SyscallId::Linkat => group_bit_spec(SyscallGroups::Desc) | group_bit_spec(SyscallGroups::File),
        SyscallId::Symlinkat => group_bit_spec(SyscallGroups::Desc) | group_bit_spec(SyscallGroups::File),
        SyscallId::Readlinkat => group_bit_spec(SyscallGroups::Desc) | group_bit_spec(SyscallGroups::File),
        SyscallId::Fchmodat => group_bit_spec(SyscallGroups::Desc) | group_bit_spec(SyscallGroups::File),
        SyscallId::Faccessat => group_bit_spec(SyscallGroups::Desc) | group_bit_spec(SyscallGroups::File),
        SyscallId::Accept4 => group_bit_spec(SyscallGroups::Network),
        SyscallId::Eventfd2 => group_bit_spec(SyscallGroups::Desc),
        SyscallId::EpollCreate1 => group_bit_spec(SyscallGroups::Desc),
        SyscallId::Dup3 => group_bit_spec(SyscallGroups::Desc),
        SyscallId::Pipe2 => group_bit_spec(SyscallGroups::Desc),
        SyscallId::InotifyInit1 => group_bit_spec(SyscallGroups::Desc),
        SyscallId::Prlimit64 => 0,
        SyscallId::Getrandom => 0,
        SyscallId::MemfdCreate => group_bit_spec(SyscallGroups::Desc),
        SyscallId::Rseq => 0,
        SyscallId::PidfdOpen => group_bit_spec(SyscallGroups::Desc),
        SyscallId::CloseRange => 0,
        SyscallId::LandlockCreateRuleset => group_bit_spec(SyscallGroups::Desc),
        SyscallId::Cachestat => group_bit_spec(SyscallGroups::Desc),
        SyscallId::Statmount => 0,
    }
}

/// The category set declared for the syscall `id`.
pub fn groups_of(id: SyscallId) -> (r: u32)
    ensures
        r == groups_of_spec(id),
{
    match id {
        SyscallId::Read => DESC_BIT,
        SyscallId::Write => DESC_BIT,
        SyscallId::Open => DESC_BIT | FILE_BIT,
        SyscallId::Close => DESC_BIT,
        SyscallId::Stat => FILE_BIT | STAT_BIT | STAT_LIKE_BIT,
        SyscallId::Fstat => DESC_BIT | FSTAT_BIT | STAT_LIKE_BIT,
        SyscallId::Lstat => FILE_BIT | LSTAT_BIT | STAT_LIKE_BIT,
        SyscallId::Lseek => DESC_BIT,
        SyscallId::Mmap => MEMORY_BIT,
        SyscallId::Mprotect => MEMORY_BIT,
        SyscallId::Munmap => MEMORY_BIT,
        SyscallId::Brk => MEMORY_BIT,
        SyscallId::RtSigreturn => SIGNAL_BIT,
        SyscallId::Ioctl => DESC_BIT,
        SyscallId::Pread64 => DESC_BIT,
        SyscallId::Pwrite64 => DESC_BIT,
        SyscallId::Access => FILE_BIT,
        SyscallId::Pipe => DESC_BIT,
        SyscallId::SchedYield => 0,
        SyscallId::Mremap => MEMORY_BIT,
        SyscallId::Msync => MEMORY_BIT,
        SyscallId::Madvise => MEMORY_BIT,
        SyscallId::Shmget => IPC_BIT,
        SyscallId::Shmat => IPC_BIT | MEMORY_BIT,
        SyscallId::Dup => DESC_BIT,
        SyscallId::Dup2 => DESC_BIT,
        SyscallId::Pause => SIGNAL_BIT,
        SyscallId::Nanosleep => CLOCK_BIT,
        SyscallId::Alarm => 0,
        SyscallId::Getpid => PURE_BIT,
        SyscallId::Socket => NETWORK_BIT,
        SyscallId::Connect => NETWORK_BIT,
        SyscallId::Accept => NETWORK_BIT,
        SyscallId::Shutdown => NETWORK_BIT,
        SyscallId::Bind => NETWORK_BIT,
        SyscallId::Listen => NETWORK_BIT,
        SyscallId::Getsockname => NETWORK_BIT,
        SyscallId::Getpeername => NETWORK_BIT,
        SyscallId::Socketpair => NETWORK_BIT,
        SyscallId::Clone => PROCESS_BIT,
        SyscallId::Execve => FILE_BIT | PROCESS_BIT,
        SyscallId::Exit => PROCESS_BIT,
        SyscallId::Kill => SIGNAL_BIT | PROCESS_BIT,
        SyscallId::Semget => IPC_BIT,
        SyscallId::Semop => IPC_BIT,
        SyscallId::Semctl => IPC_BIT,
        SyscallId::Shmdt => IPC_BIT | MEMORY_BIT,
        SyscallId::Msgget => 0,
        SyscallId::Msgsnd => 0,
        SyscallId::Fcntl => DESC_BIT,
        SyscallId::Flock => DESC_BIT,
        SyscallId::Fsync => DESC_BIT,
        SyscallId::Fdatasync => DESC_BIT,
        SyscallId::Truncate => FILE_BIT,
        SyscallId::Ftruncate => DESC_BIT,
        SyscallId::Getcwd => FILE_BIT,
        SyscallId::Chdir => FILE_BIT,
        SyscallId::Rename => FILE_BIT,
        SyscallId::Mkdir => FILE_BIT,
        SyscallId::Rmdir => FILE_BIT,
        SyscallId::Creat => DESC_BIT | FILE_BIT,
        SyscallId::Link => FILE_BIT,
        SyscallId::Unlink => FILE_BIT,
        SyscallId::Symlink => FILE_BIT,
        SyscallId::Readlink => FILE_BIT,
        SyscallId::Chmod => FILE_BIT,
        SyscallId::Fchmod => DESC_BIT,
        SyscallId::Chown => FILE_BIT,
        SyscallId::Fchown => DESC_BIT,
        SyscallId::Lchown => FILE_BIT,
        SyscallId::Umask => 0,
        SyscallId::Gettimeofday => CLOCK_BIT,
        SyscallId::Getrlimit => 0,
        SyscallId::Times => 0,
        SyscallId::Ptrace => 0,
        SyscallId::Getuid => CREDS_BIT | PURE_BIT,
        SyscallId::Getgid => CREDS_BIT | PURE_BIT,
        SyscallId::Setuid => CREDS_BIT,
        SyscallId::Setgid => CREDS_BIT,
        SyscallId::Geteuid => CREDS_BIT | PURE_BIT,
        SyscallId::Getegid => CREDS_BIT | PURE_BIT,
        SyscallId::Setpgid => 0,
        SyscallId::Getppid => PURE_BIT,
        SyscallId::Setsid => 0,
        SyscallId::Setreuid => CREDS_BIT,
        SyscallId::Setregid => CREDS_BIT,
        SyscallId::Setresuid => CREDS_BIT,
        SyscallId::Getresuid => CREDS_BIT,
        SyscallId::Setresgid => CREDS_BIT,
        SyscallId::Getresgid => CREDS_BIT,
        SyscallId::Getpgid => 0,
        SyscallId::Getsid => 0,
        SyscallId::Capget => CREDS_BIT,
        SyscallId::Statfs => FILE_BIT | STATFS_BIT | STATFS_LIKE_BIT,
        SyscallId::Fstatfs => DESC_BIT | FSTATFS_BIT | STATFS_LIKE_BIT,
        SyscallId::Sync => 0,
        SyscallId::Settimeofday => CLOCK_BIT,
        SyscallId::Umount2 => FILE_BIT,
        SyscallId::Sethostname => 0,
        SyscallId::Setdomainname => 0,
        SyscallId::Gettid => PURE_BIT,
        SyscallId::Futex => 0,
        SyscallId::SchedGetaffinity => 0,
        SyscallId::ClockSettime => CLOCK_BIT,
        SyscallId::ClockGettime => CLOCK_BIT,
        SyscallId::ClockGetres => CLOCK_BIT,
        SyscallId::ClockNanosleep => 0,
        SyscallId::ExitGroup => PROCESS_BIT,
        SyscallId::Utimes => FILE_BIT,
        SyscallId::Openat => DESC_BIT | FILE_BIT,
        SyscallId::Mkdirat => DESC_BIT | FILE_BIT,
        SyscallId::Fchownat => DESC_BIT | FILE_BIT,
        SyscallId::Newfstatat => DESC_BIT | FILE_BIT | FSTAT_BIT | STAT_LIKE_BIT,
        SyscallId::Unlinkat => DESC_BIT | FILE_BIT,
        SyscallId::Renameat => DESC_BIT | FILE_BIT,
        SyscallId::Linkat => DESC_BIT | FILE_BIT,
        SyscallId::Symlinkat => DESC_BIT | FILE_BIT,
        SyscallId::Readlinkat => DESC_BIT | FILE_BIT,
        SyscallId::Fchmodat => DESC_BIT | FILE_BIT,
        SyscallId::Faccessat => DESC_BIT | FILE_BIT,
        SyscallId::Accept4 => NETWORK_BIT,
        SyscallId::Eventfd2 => DESC_BIT,
        SyscallId::EpollCreate1 => DESC_BIT,
        SyscallId::Dup3 => DESC_BIT,
        SyscallId::Pipe2 => DESC_BIT,
        SyscallId::InotifyInit1 => DESC_BIT,
        SyscallId::Prlimit64 => 0,
        SyscallId::Getrandom => 0,
        SyscallId::MemfdCreate => DESC_BIT,
        SyscallId::Rseq => 0,
        SyscallId::PidfdOpen => DESC_BIT,
        SyscallId::CloseRange => 0,
        SyscallId::LandlockCreateRuleset => DESC_BIT,
        SyscallId::Cachestat => DESC_BIT,
        SyscallId::Statmount => 0,
    }
}

/// Raw arguments of `read`, as captured at a syscall-entry stop.
#[derive(Clone, Copy, Debug, PartialEq, Eq, Structural)]
pub struct ReadRawArgs {
    pub fd: i32,
    pub buf: u64,
    pub count: usize,
}

/// Raw arguments of `write`, as captured at a syscall-entry stop.
#[derive(Clone, Copy, Debug, PartialEq, Eq, Structural)]
pub struct WriteRawArgs {
    pub fd: i32,
    pub buf: u64,
    pub count: usize,
}

/// Raw arguments of `open`, as captured at a syscall-entry stop.
#[derive(Clone, Copy, Debug, PartialEq, Eq, Structural)]
pub struct OpenRawArgs {
    pub pathname: u64,
    pub flags: i32,
    pub mode: u32,
}

/// Raw arguments of `close`, as captured at a syscall-entry stop.
#[derive(Clone, Copy, Debug, PartialEq, Eq, Structural)]
pub struct CloseRawArgs {
    pub fd: i32,
}

/// Raw arguments of `stat`, as captured at a syscall-entry stop.
#[derive(Clone, Copy, Debug, PartialEq, Eq, Structural)]
pub struct StatRawArgs {
    pub pathname: u64,
    pub statbuf: u64,
}

/// Raw arguments of `fstat`, as captured at a syscall-entry stop.
#[derive(Clone, Copy, Debug, PartialEq, Eq, Structural)]
pub struct FstatRawArgs {
    pub fd: i32,
    pub statbuf: u64,
}

/// Raw arguments of `lstat`, as captured at a syscall-entry stop.
#[derive(Clone, Copy, Debug, PartialEq, Eq, Structural)]
pub struct LstatRawArgs {
    pub pathname: u64,
    pub statbuf: u64,
}

/// Raw arguments of `lseek`, as captured at a syscall-entry stop.
#[derive(Clone, Copy, Debug, PartialEq, Eq, Structural)]
pub struct LseekRawArgs {
    pub fd: i32,
    pub offset: i64,
    pub whence: i32,
}

/// Raw arguments of `mmap`, as captured at a syscall-entry stop.
#[derive(Clone, Copy, Debug, PartialEq, Eq, Structural)]
pub struct MmapRawArgs {
    pub addr: u64,
    pub length: usize,
    pub prot: i32,
    pub flags: i32,
    pub fd: i32,
    pub offset: i64,
}

/// Raw arguments of `mprotect`, as captured at a syscall-entry stop.
#[derive(Clone, Copy, Debug, PartialEq, Eq, Structural)]
pub struct MprotectRawArgs {
    pub addr: u64,
    pub len: usize,
    pub prot: i32,
}

/// Raw arguments of `munmap`, as captured at a syscall-entry stop.
#[derive(Clone, Copy, Debug, PartialEq, Eq, Structural)]
pub struct MunmapRawArgs {
    pub addr: u64,
    pub length: usize,
}

/// Raw arguments of `brk`, as captured at a syscall-entry stop.
#[derive(Clone, Copy, Debug, PartialEq, Eq, Structural)]
pub struct BrkRawArgs {
    pub addr: u64,
}

/// Raw arguments of `rt_sigreturn`, as captured at a syscall-entry stop.
#[derive(Clone, Copy, Debug, PartialEq, Eq, Structural)]
pub struct RtSigreturnRawArgs {
}

/// Raw arguments of `ioctl`, as captured at a syscall-entry stop.
#[derive(Clone, Copy, Debug, PartialEq, Eq, Structural)]
pub struct IoctlRawArgs {
    pub fd: i32,
    pub request: u64,
    pub argp: u64,
}

/// Raw arguments of `pread64`, as captured at a syscall-entry stop.
#[derive(Clone, Copy, Debug, PartialEq, Eq, Structural)]
pub struct Pread64RawArgs {
    pub fd: i32,
    pub buf: u64,
    pub count: usize,
    pub offset: i64,
}

/// Raw arguments of `pwrite64`, as captured at a syscall-entry stop.
#[derive(Clone, Copy, Debug, PartialEq, Eq, Structural)]
pub struct Pwrite64RawArgs {
    pub fd: i32,
    pub buf: u64,
    pub count: usize,
    pub offset: i64,
}

/// Raw arguments of `access`, as captured at a syscall-entry stop.
#[derive(Clone, Copy, Debug, PartialEq, Eq, Structural)]
pub struct AccessRawArgs {
    pub pathname: u64,
    pub mode: i32,
}

/// Raw arguments of `pipe`, as captured at a syscall-entry stop.
#[derive(Clone, Copy, Debug, PartialEq, Eq, Structural)]
pub struct PipeRawArgs {
    pub pipefd: u64,
}

/// Raw arguments of `sched_yield`, as captured at a syscall-entry stop.
#[derive(Clone, Copy, Debug, PartialEq, Eq, Structural)]
pub struct SchedYieldRawArgs {
}

/// Raw arguments of `mremap`, as captured at a syscall-entry stop.
#[derive(Clone, Copy, Debug, PartialEq, Eq, Structural)]
pub struct MremapRawArgs {
    pub old_address: u64,
    pub old_size: usize,
    pub new_size: usize,
    pub flags: i32,
    pub new_address: u64,
}

/// Raw arguments of `msync`, as captured at a syscall-entry stop.
#[derive(Clone, Copy, Debug, PartialEq, Eq, Structural)]
pub struct MsyncRawArgs {
    pub addr: u64,
    pub length: usize,
    pub flags: i32,
}

/// Raw arguments of `madvise`, as captured at a syscall-entry stop.
#[derive(Clone, Copy, Debug, PartialEq, Eq, Structural)]
pub struct MadviseRawArgs {
    pub addr: u64,
    pub length: usize,
    pub advice: i32,
}

/// Raw arguments of `shmget`, as captured at a syscall-entry stop.
#[derive(Clone, Copy, Debug, PartialEq, Eq, Structural)]
pub struct ShmgetRawArgs {
    pub key: i32,
    pub size: usize,
    pub shmflg: i32,
}

/// Raw arguments of `shmat`, as captured at a syscall-entry stop.
#[derive(Clone, Copy, Debug, PartialEq, Eq, Structural)]
pub struct ShmatRawArgs {
    pub shmid: i32,
    pub shmaddr: u64,
    pub shmflg: i32,
}

/// Raw arguments of `dup`, as captured at a syscall-entry stop.
#[derive(Clone, Copy, Debug, PartialEq, Eq, Structural)]
pub struct DupRawArgs {
    pub oldfd: i32,
}

/// Raw arguments of `dup2`, as captured at a syscall-entry stop.
#[derive(Clone, Copy, Debug, PartialEq, Eq, Structural)]
pub struct Dup2RawArgs {
    pub oldfd: i32,
    pub newfd: i32,
}

/// Raw arguments of `pause`, as captured at a syscall-entry stop.
#[derive(Clone, Copy, Debug, PartialEq, Eq, Structural)]
pub struct PauseRawArgs {
}

/// Raw arguments of `nanosleep`, as captured at a syscall-entry stop.
#[derive(Clone, Copy, Debug, PartialEq, Eq, Structural)]
pub struct NanosleepRawArgs {
    pub req: u64,
    pub rem: u64,
}

/// Raw arguments of `alarm`, as captured at a syscall-entry stop.
#[derive(Clone, Copy, Debug, PartialEq, Eq, Structural)]
pub struct AlarmRawArgs {
    pub seconds: u32,
}

/// Raw arguments of `getpid`, as captured at a syscall-entry stop.
#[derive(Clone, Copy, Debug, PartialEq, Eq, Structural)]
pub struct GetpidRawArgs {
}

/// Raw arguments of `socket`, as captured at a syscall-entry stop.
#[derive(Clone, Copy, Debug, PartialEq, Eq, Structural)]
pub struct SocketRawArgs {
    pub domain: i32,
    pub sock_type: i32,
    pub protocol: i32,
}

/// Raw arguments of `connect`, as captured at a syscall-entry stop.
#[derive(Clone, Copy, Debug, PartialEq, Eq, Structural)]
pub struct ConnectRawArgs {
    pub sockfd: i32,
    pub addr: u64,
    pub addrlen: u32,
}

/// Raw arguments of `accept`, as captured at a syscall-entry stop.
#[derive(Clone, Copy, Debug, PartialEq, Eq, Structural)]
pub struct AcceptRawArgs {
    pub socketfd: i32,
    pub addr: u64,
    pub addrlen: u64,
}

/// Raw arguments of `shutdown`, as captured at a syscall-entry stop.
#[derive(Clone, Copy, Debug, PartialEq, Eq, Structural)]
pub struct ShutdownRawArgs {
    pub sockfd: i32,
    pub how: i32,
}

/// Raw arguments of `bind`, as captured at a syscall-entry stop.
#[derive(Clone, Copy, Debug, PartialEq, Eq, Structural)]
pub struct BindRawArgs {
    pub socketfd: i32,
    pub addr: u64,
    pub addrlen: u32,
}

/// Raw arguments of `listen`, as captured at a syscall-entry stop.
#[derive(Clone, Copy, Debug, PartialEq, Eq, Structural)]
pub struct ListenRawArgs {
    pub sockfd: i32,
    pub backlog: i32,
}

/// Raw arguments of `getsockname`, as captured at a syscall-entry stop.
#[derive(Clone, Copy, Debug, PartialEq, Eq, Structural)]
pub struct GetsocknameRawArgs {
    pub sockfd: i32,
    pub addr: u64,
    pub addrlen: u64,
}

/// Raw arguments of `getpeername`, as captured at a syscall-entry stop.
#[derive(Clone, Copy, Debug, PartialEq, Eq, Structural)]
pub struct GetpeernameRawArgs {
    pub sockfd: i32,
    pub addr: u64,
    pub addrlen: u64,
}

/// Raw arguments of `socketpair`, as captured at a syscall-entry stop.
#[derive(Clone, Copy, Debug, PartialEq, Eq, Structural)]
pub struct SocketpairRawArgs {
    pub domain: i32,
    pub sock_type: i32,
    pub protocol: i32,
    pub sv: u64,
}

/// Raw arguments of `clone`, as captured at a syscall-entry stop.  The
/// fields are by name: on x86_64 the child-tid pointer sits in the fourth
/// slot and the tls word in the fifth, on aarch64 and riscv64 the other
/// way round.
#[derive(Clone, Copy, Debug, PartialEq, Eq, Structural)]
pub struct CloneRawArgs {
    pub flags: u64,
    pub stack: u64,
    pub parent_tid: u64,
    pub child_tid: u64,
    pub tls: u64,
}

/// Raw arguments of `execve`, as captured at a syscall-entry stop.
#[derive(Clone, Copy, Debug, PartialEq, Eq, Structural)]
pub struct ExecveRawArgs {
    pub filename: u64,
    pub argv: u64,
    pub envp: u64,
}

/// Raw arguments of `exit`, as captured at a syscall-entry stop.
#[derive(Clone, Copy, Debug, PartialEq, Eq, Structural)]
pub struct ExitRawArgs {
    pub status: i32,
}

/// Raw arguments of `kill`, as captured at a syscall-entry stop.
#[derive(Clone, Copy, Debug, PartialEq, Eq, Structural)]
pub struct KillRawArgs {
    pub pid: i32,
    pub sig: i32,
}

/// Raw arguments of `semget`, as captured at a syscall-entry stop.
#[derive(Clone, Copy, Debug, PartialEq, Eq, Structural)]
pub struct SemgetRawArgs {
    pub key: i32,
    pub nsems: i32,
    pub semflg: i32,
}

/// Raw arguments of `semop`, as captured at a syscall-entry stop.
#[derive(Clone, Copy, Debug, PartialEq, Eq, Structural)]
pub struct SemopRawArgs {
    pub semid: i32,
    pub sops: u64,
    pub nsops: usize,
}

/// Raw arguments of `semctl`, as captured at a syscall-entry stop.
#[derive(Clone, Copy, Debug, PartialEq, Eq, Structural)]
pub struct SemctlRawArgs {
    pub semid: i32,
    pub semnum: i32,
    pub cmd: i32,
    pub arg: u64,
}

/// Raw arguments of `shmdt`, as captured at a syscall-entry stop.
#[derive(Clone, Copy, Debug, PartialEq, Eq, Structural)]
pub struct ShmdtRawArgs {
    pub shmaddr: u64,
}

/// Raw arguments of `msgget`, as captured at a syscall-entry stop.
#[derive(Clone, Copy, Debug, PartialEq, Eq, Structural)]
pub struct MsggetRawArgs {
    pub key: i32,
    pub msgflg: i32,
}

/// Raw arguments of `msgsnd`, as captured at a syscall-entry stop.
#[derive(Clone, Copy, Debug, PartialEq, Eq, Structural)]
pub struct MsgsndRawArgs {
    pub msqid: i32,
    pub msgp: u64,
    pub msgsz: usize,
    pub msgflg: i32,
}

/// Raw arguments of `fcntl`, as captured at a syscall-entry stop.
#[derive(Clone, Copy, Debug, PartialEq, Eq, Structural)]
pub struct FcntlRawArgs {
    pub fd: i32,
    pub cmd: i32,
    pub arg: usize,
}

/// Raw arguments of `flock`, as captured at a syscall-entry stop.
#[derive(Clone, Copy, Debug, PartialEq, Eq, Structural)]
pub struct FlockRawArgs {
    pub fd: i32,
    pub operation: i32,
}

/// Raw arguments of `fsync`, as captured at a syscall-entry stop.
#[derive(Clone, Copy, Debug, PartialEq, Eq, Structural)]
pub struct FsyncRawArgs {
    pub fd: i32,
}

/// Raw arguments of `fdatasync`, as captured at a syscall-entry stop.
#[derive(Clone, Copy, Debug, PartialEq, Eq, Structural)]
pub struct FdatasyncRawArgs {
    pub fd: i32,
}

/// Raw arguments of `truncate`, as captured at a syscall-entry stop.
#[derive(Clone, Copy, Debug, PartialEq, Eq, Structural)]
pub struct TruncateRawArgs {
    pub path: u64,
    pub length: i64,
}

/// Raw arguments of `ftruncate`, as captured at a syscall-entry stop.
#[derive(Clone, Copy, Debug, PartialEq, Eq, Structural)]
pub struct FtruncateRawArgs {
    pub fd: i32,
    pub length: i64,
}

/// Raw arguments of `getcwd`, as captured at a syscall-entry stop.
#[derive(Clone, Copy, Debug, PartialEq, Eq, Structural)]
pub struct GetcwdRawArgs {
    pub buf: u64,
    pub size: usize,
}

/// Raw arguments of `chdir`, as captured at a syscall-entry stop.
#[derive(Clone, Copy, Debug, PartialEq, Eq, Structural)]
pub struct ChdirRawArgs {
    pub path: u64,
}

/// Raw arguments of `rename`, as captured at a syscall-entry stop.
#[derive(Clone, Copy, Debug, PartialEq, Eq, Structural)]
pub struct RenameRawArgs {
    pub oldpath: u64,
    pub newpath: u64,
}

/// Raw arguments of `mkdir`, as captured at a syscall-entry stop.
#[derive(Clone, Copy, Debug, PartialEq, Eq, Structural)]
pub struct MkdirRawArgs {
    pub pathname: u64,
    pub mode: u32,
}

/// Raw arguments of `rmdir`, as captured at a syscall-entry stop.
#[derive(Clone, Copy, Debug, PartialEq, Eq, Structural)]
pub struct RmdirRawArgs {
    pub pathname: u64,
}

/// Raw arguments of `creat`, as captured at a syscall-entry stop.
#[derive(Clone, Copy, Debug, PartialEq, Eq, Structural)]
pub struct CreatRawArgs {
    pub pathname: u64,
    pub mode: u32,
}

/// Raw arguments of `link`, as captured at a syscall-entry stop.
#[derive(Clone, Copy, Debug, PartialEq, Eq, Structural)]
pub struct LinkRawArgs {
    pub oldpath: u64,
    pub newpath: u64,
}

/// Raw arguments of `unlink`, as captured at a syscall-entry stop.
#[derive(Clone, Copy, Debug, PartialEq, Eq, Structural)]
pub struct UnlinkRawArgs {
    pub pathname: u64,
}

/// Raw arguments of `symlink`, as captured at a syscall-entry stop.
#[derive(Clone, Copy, Debug, PartialEq, Eq, Structural)]
pub struct SymlinkRawArgs {
    pub target: u64,
    pub linkpath: u64,
}

/// Raw arguments of `readlink`, as captured at a syscall-entry stop.
#[derive(Clone, Copy, Debug, PartialEq, Eq, Structural)]
pub struct ReadlinkRawArgs {
    pub pathname: u64,
    pub buf: u64,
    pub bufsiz: usize,
}

/// Raw arguments of `chmod`, as captured at a syscall-entry stop.
#[derive(Clone, Copy, Debug, PartialEq, Eq, Structural)]
pub struct ChmodRawArgs {
    pub pathname: u64,
    pub mode: u32,
}

/// Raw arguments of `fchmod`, as captured at a syscall-entry stop.
#[derive(Clone, Copy, Debug, PartialEq, Eq, Structural)]
pub struct FchmodRawArgs {
    pub fd: i32,
    pub mode: u32,
}

/// Raw arguments of `chown`, as captured at a syscall-entry stop.
#[derive(Clone, Copy, Debug, PartialEq, Eq, Structural)]
pub struct ChownRawArgs {
    pub pathname: u64,
    pub owner: u32,
    pub group: u32,
}

/// Raw arguments of `fchown`, as captured at a syscall-entry stop.
#[derive(Clone, Copy, Debug, PartialEq, Eq, Structural)]
pub struct FchownRawArgs {
    pub fd: i32,
    pub owner: u32,
    pub group: u32,
}

/// Raw arguments of `lchown`, as captured at a syscall-entry stop.
#[derive(Clone, Copy, Debug, PartialEq, Eq, Structural)]
pub struct LchownRawArgs {
    pub pathname: u64,
    pub owner: u32,
    pub group: u32,
}

/// Raw arguments of `umask`, as captured at a syscall-entry stop.
#[derive(Clone, Copy, Debug, PartialEq, Eq, Structural)]
pub struct UmaskRawArgs {
    pub mask: u32,
}

/// Raw arguments of `gettimeofday`, as captured at a syscall-entry stop.
#[derive(Clone, Copy, Debug, PartialEq, Eq, Structural)]
pub struct GettimeofdayRawArgs {
    pub tv: u64,
    pub tz: u64,
}

/// Raw arguments of `getrlimit`, as captured at a syscall-entry stop.
#[derive(Clone, Copy, Debug, PartialEq, Eq, Structural)]
pub struct GetrlimitRawArgs {
    pub resource: i32,
    pub rlim: u64,
}

/// Raw arguments of `times`, as captured at a syscall-entry stop.
#[derive(Clone, Copy, Debug, PartialEq, Eq, Structural)]
pub struct TimesRawArgs {
    pub buf: u64,
}

/// Raw arguments of `ptrace`, as captured at a syscall-entry stop.
#[derive(Clone, Copy, Debug, PartialEq, Eq, Structural)]
pub struct PtraceRawArgs {
    pub request: i32,
    pub pid: i32,
    pub addr: u64,
    pub data: u64,
}

/// Raw arguments of `getuid`, as captured at a syscall-entry stop.
#[derive(Clone, Copy, Debug, PartialEq, Eq, Structural)]
pub struct GetuidRawArgs {
}

/// Raw arguments of `getgid`, as captured at a syscall-entry stop.
#[derive(Clone, Copy, Debug, PartialEq, Eq, Structural)]
pub struct GetgidRawArgs {
}

/// Raw arguments of `setuid`, as captured at a syscall-entry stop.
#[derive(Clone, Copy, Debug, PartialEq, Eq, Structural)]
pub struct SetuidRawArgs {
    pub uid: u32,
}

/// Raw arguments of `setgid`, as captured at a syscall-entry stop.
#[derive(Clone, Copy, Debug, PartialEq, Eq, Structural)]
pub struct SetgidRawArgs {
    pub gid: u32,
}

/// Raw arguments of `geteuid`, as captured at a syscall-entry stop.
#[derive(Clone, Copy, Debug, PartialEq, Eq, Structural)]
pub struct GeteuidRawArgs {
}

/// Raw arguments of `getegid`, as captured at a syscall-entry stop.
#[derive(Clone, Copy, Debug, PartialEq, Eq, Structural)]
pub struct GetegidRawArgs {
}

/// Raw arguments of `setpgid`, as captured at a syscall-entry stop.
#[derive(Clone, Copy, Debug, PartialEq, Eq, Structural)]
pub struct SetpgidRawArgs {
    pub pid: i32,
    pub pgid: i32,
}

/// Raw arguments of `getppid`, as captured at a syscall-entry stop.
#[derive(Clone, Copy, Debug, PartialEq, Eq, Structural)]
pub struct GetppidRawArgs {
}

/// Raw arguments of `setsid`, as captured at a syscall-entry stop.
#[derive(Clone, Copy, Debug, PartialEq, Eq, Structural)]
pub struct SetsidRawArgs {
}

/// Raw arguments of `setreuid`, as captured at a syscall-entry stop.
#[derive(Clone, Copy, Debug, PartialEq, Eq, Structural)]
pub struct SetreuidRawArgs {
    pub ruid: u32,
    pub euid: u32,
}

/// Raw arguments of `setregid`, as captured at a syscall-entry stop.
#[derive(Clone, Copy, Debug, PartialEq, Eq, Structural)]
pub struct SetregidRawArgs {
    pub rgid: u32,
    pub egid: u32,
}

/// Raw arguments of `setresuid`, as captured at a syscall-entry stop.
#[derive(Clone, Copy, Debug, PartialEq, Eq, Structural)]
pub struct SetresuidRawArgs {
    pub ruid: u32,
    pub euid: u32,
    pub suid: u32,
}

/// Raw arguments of `getresuid`, as captured at a syscall-entry stop.
#[derive(Clone, Copy, Debug, PartialEq, Eq, Structural)]
pub struct GetresuidRawArgs {
    pub ruid: u64,
    pub euid: u64,
    pub suid: u64,
}

/// Raw arguments of `setresgid`, as captured at a syscall-entry stop.
#[derive(Clone, Copy, Debug, PartialEq, Eq, Structural)]
pub struct SetresgidRawArgs {
    pub rgid: u32,
    pub egid: u32,
    pub sgid: u32,
}

/// Raw arguments of `getresgid`, as captured at a syscall-entry stop.
#[derive(Clone, Copy, Debug, PartialEq, Eq, Structural)]
pub struct GetresgidRawArgs {
    pub rgid: u64,
    pub egid: u64,
    pub sgid: u64,
}

/// Raw arguments of `getpgid`, as captured at a syscall-entry stop.
#[derive(Clone, Copy, Debug, PartialEq, Eq, Structural)]
pub struct GetpgidRawArgs {
    pub pid: i32,
}

/// Raw arguments of `getsid`, as captured at a syscall-entry stop.
#[derive(Clone, Copy, Debug, PartialEq, Eq, Structural)]
pub struct GetsidRawArgs {
    pub pid: i32,
}

/// Raw arguments of `capget`, as captured at a syscall-entry stop.
#[derive(Clone, Copy, Debug, PartialEq, Eq, Structural)]
pub struct CapgetRawArgs {
    pub hdrp: u64,
    pub datap: u64,
}

/// Raw arguments of `statfs`, as captured at a syscall-entry stop.
#[derive(Clone, Copy, Debug, PartialEq, Eq, Structural)]
pub struct StatfsRawArgs {
    pub path: u64,
    pub buf: u64,
}

/// Raw arguments of `fstatfs`, as captured at a syscall-entry stop.
#[derive(Clone, Copy, Debug, PartialEq, Eq, Structural)]
pub struct FstatfsRawArgs {
    pub fd: i32,
    pub buf: u64,
}

/// Raw arguments of `sync`, as captured at a syscall-entry stop.
#[derive(Clone, Copy, Debug, PartialEq, Eq, Structural)]
pub struct SyncRawArgs {
}

/// Raw arguments of `settimeofday`, as captured at a syscall-entry stop.
#[derive(Clone, Copy, Debug, PartialEq, Eq, Structural)]
pub struct SettimeofdayRawArgs {
    pub tv: u64,
    pub tz: u64,
}

/// Raw arguments of `umount2`, as captured at a syscall-entry stop.
#[derive(Clone, Copy, Debug, PartialEq, Eq, Structural)]
pub struct Umount2RawArgs {
    pub target: u64,
    pub flags: i32,
}

/// Raw arguments of `sethostname`, as captured at a syscall-entry stop.
#[derive(Clone, Copy, Debug, PartialEq, Eq, Structural)]
pub struct SethostnameRawArgs {
    pub name: u64,
    pub len: usize,
}

/// Raw arguments of `setdomainname`, as captured at a syscall-entry stop.
#[derive(Clone, Copy, Debug, PartialEq, Eq, Structural)]
pub struct SetdomainnameRawArgs {
    pub name: u64,
    pub len: usize,
}

/// Raw arguments of `gettid`, as captured at a syscall-entry stop.
#[derive(Clone, Copy, Debug, PartialEq, Eq, Structural)]
pub struct GettidRawArgs {
}

/// Raw arguments of `futex`, as captured at a syscall-entry stop.
#[derive(Clone, Copy, Debug, PartialEq, Eq, Structural)]
pub struct FutexRawArgs {
    pub uaddr: u64,
    pub futex_op: i32,
    pub val: u32,
    pub val2: usize,
    pub uaddr2: u64,
    pub val3: u32,
}

/// Raw arguments of `sched_getaffinity`, as captured at a syscall-entry stop.
#[derive(Clone, Copy, Debug, PartialEq, Eq, Structural)]
pub struct SchedGetaffinityRawArgs {
    pub pid: i32,
    pub cpusetsize: usize,
    pub mask: u64,
}

/// Raw arguments of `clock_settime`, as captured at a syscall-entry stop.
#[derive(Clone, Copy, Debug, PartialEq, Eq, Structural)]
pub struct ClockSettimeRawArgs {
    pub clk_id: i32,
    pub tp: u64,
}

/// Raw arguments of `clock_gettime`, as captured at a syscall-entry stop.
#[derive(Clone, Copy, Debug, PartialEq, Eq, Structural)]
pub struct ClockGettimeRawArgs {
    pub clk_id: i32,
    pub tp: u64,
}

/// Raw arguments of `clock_getres`, as captured at a syscall-entry stop.
#[derive(Clone, Copy, Debug, PartialEq, Eq, Structural)]
pub struct ClockGetresRawArgs {
    pub clk_id: i32,
    pub res: u64,
}

/// Raw arguments of `clock_nanosleep`, as captured at a syscall-entry stop.
#[derive(Clone, Copy, Debug, PartialEq, Eq, Structural)]
pub struct ClockNanosleepRawArgs {
    pub clockid: i32,
    pub flags: i32,
    pub request: u64,
    pub remain: u64,
}

/// Raw arguments of `exit_group`, as captured at a syscall-entry stop.
#[derive(Clone, Copy, Debug, PartialEq, Eq, Structural)]
pub struct ExitGroupRawArgs {
    pub status: i32,
}

/// Raw arguments of `utimes`, as captured at a syscall-entry stop.
#[derive(Clone, Copy, Debug, PartialEq, Eq, Structural)]
pub struct UtimesRawArgs {
    pub filename: u64,
    pub times: u64,
}

/// Raw arguments of `openat`, as captured at a syscall-entry stop.
#[derive(Clone, Copy, Debug, PartialEq, Eq, Structural)]
pub struct OpenatRawArgs {
    pub dirfd: i32,
    pub pathname: u64,
    pub flags: i32,
    pub mode: u32,
}

/// Raw arguments of `mkdirat`, as captured at a syscall-entry stop.
#[derive(Clone, Copy, Debug, PartialEq, Eq, Structural)]
pub struct MkdiratRawArgs {
    pub dirfd: i32,
    pub pathname: u64,
    pub mode: u32,
}

/// Raw arguments of `fchownat`, as captured at a syscall-entry stop.
#[derive(Clone, Copy, Debug, PartialEq, Eq, Structural)]
pub struct FchownatRawArgs {
    pub dirfd: i32,
    pub pathname: u64,
    pub owner: u32,
    pub group: u32,
    pub flags: i32,
}

/// Raw arguments of `newfstatat`, as captured at a syscall-entry stop.
#[derive(Clone, Copy, Debug, PartialEq, Eq, Structural)]
pub struct NewfstatatRawArgs {
    pub dirfd: i32,
    pub pathname: u64,
    pub statbuf: u64,
    pub flags: i32,
}

/// Raw arguments of `unlinkat`, as captured at a syscall-entry stop.
#[derive(Clone, Copy, Debug, PartialEq, Eq, Structural)]
pub struct UnlinkatRawArgs {
    pub dirfd: i32,
    pub pathname: u64,
    pub flags: i32,
}

/// Raw arguments of `renameat`, as captured at a syscall-entry stop.
#[derive(Clone, Copy, Debug, PartialEq, Eq, Structural)]
pub struct RenameatRawArgs {
    pub olddirfd: i32,
    pub oldpath: u64,
    pub newdirfd: i32,
    pub newpath: u64,
}

/// Raw arguments of `linkat`, as captured at a syscall-entry stop.
#[derive(Clone, Copy, Debug, PartialEq, Eq, Structural)]
pub struct LinkatRawArgs {
    pub olddirfd: i32,
    pub oldpath: u64,
    pub newdirfd: i32,
    pub newpath: u64,
    pub flags: i32,
}

/// Raw arguments of `symlinkat`, as captured at a syscall-entry stop.
#[derive(Clone, Copy, Debug, PartialEq, Eq, Structural)]
pub struct SymlinkatRawArgs {
    pub target: u64,
    pub newdirfd: i32,
    pub linkpath: u64,
}

/// Raw arguments of `readlinkat`, as captured at a syscall-entry stop.
#[derive(Clone, Copy, Debug, PartialEq, Eq, Structural)]
pub struct ReadlinkatRawArgs {
    pub dirfd: i32,
    pub pathname: u64,
    pub buf: u64,
    pub bufsiz: usize,
}

/// Raw arguments of `fchmodat`, as captured at a syscall-entry stop.
#[derive(Clone, Copy, Debug, PartialEq, Eq, Structural)]
pub struct FchmodatRawArgs {
    pub dirfd: i32,
    pub pathname: u64,
    pub mode: u32,
}

/// Raw arguments of `faccessat`, as captured at a syscall-entry stop.
#[derive(Clone, Copy, Debug, PartialEq, Eq, Structural)]
pub struct FaccessatRawArgs {
    pub dirfd: i32,
    pub pathname: u64,
    pub mode: i32,
}

/// Raw arguments of `accept4`, as captured at a syscall-entry stop.
#[derive(Clone, Copy, Debug, PartialEq, Eq, Structural)]
pub struct Accept4RawArgs {
    pub socketfd: i32,
    pub addr: u64,
    pub addrlen: u64,
    pub flags: i32,
}

/// Raw arguments of `eventfd2`, as captured at a syscall-entry stop.
#[derive(Clone, Copy, Debug, PartialEq, Eq, Structural)]
pub struct Eventfd2RawArgs {
    pub initval: u32,
    pub flags: i32,
}

/// Raw arguments of `epoll_create1`, as captured at a syscall-entry stop.
#[derive(Clone, Copy, Debug, PartialEq, Eq, Structural)]
pub struct EpollCreate1RawArgs {
    pub flags: i32,
}

/// Raw arguments of `dup3`, as captured at a syscall-entry stop.
#[derive(Clone, Copy, Debug, PartialEq, Eq, Structural)]
pub struct Dup3RawArgs {
    pub oldfd: i32,
    pub newfd: i32,
    pub flags: i32,
}

/// Raw arguments of `pipe2`, as captured at a syscall-entry stop.
#[derive(Clone, Copy, Debug, PartialEq, Eq, Structural)]
pub struct Pipe2RawArgs {
    pub pipefd: u64,
    pub flags: i32,
}

/// Raw arguments of `inotify_init1`, as captured at a syscall-entry stop.
#[derive(Clone, Copy, Debug, PartialEq, Eq, Structural)]
pub struct InotifyInit1RawArgs {
    pub flags: i32,
}

/// Raw arguments of `prlimit64`, as captured at a syscall-entry stop.
#[derive(Clone, Copy, Debug, PartialEq, Eq, Structural)]
pub struct Prlimit64RawArgs {
    pub pid: i32,
    pub resource: i32,
    pub new_limit: u64,
    pub old_limit: u64,
}

/// Raw arguments of `getrandom`, as captured at a syscall-entry stop.
#[derive(Clone, Copy, Debug, PartialEq, Eq, Structural)]
pub struct GetrandomRawArgs {
    pub buf: u64,
    pub buflen: usize,
    pub flags: u32,
}

/// Raw arguments of `memfd_create`, as captured at a syscall-entry stop.
#[derive(Clone, Copy, Debug, PartialEq, Eq, Structural)]
pub struct MemfdCreateRawArgs {
    pub name: u64,
    pub flags: u32,
}

/// Raw arguments of `rseq`, as captured at a syscall-entry stop.
#[derive(Clone, Copy, Debug, PartialEq, Eq, Structural)]
pub struct RseqRawArgs {
    pub rseq: u64,
    pub rseq_len: u32,
    pub flags: i32,
    pub sig: u32,
}

/// Raw arguments of `pidfd_open`, as captured at a syscall-entry stop.
#[derive(Clone, Copy, Debug, PartialEq, Eq, Structural)]
pub struct PidfdOpenRawArgs {
    pub pid: i32,
    pub flags: u32,
}

/// Raw arguments of `close_range`, as captured at a syscall-entry stop.
#[derive(Clone, Copy, Debug, PartialEq, Eq, Structural)]
pub struct CloseRangeRawArgs {
    pub first: u32,
    pub last: u32,
    pub flags: u32,
}

/// Raw arguments of `landlock_create_ruleset`, as captured at a syscall-entry stop.
#[derive(Clone, Copy, Debug, PartialEq, Eq, Structural)]
pub struct LandlockCreateRulesetRawArgs {
    pub ruleset_attr: u64,
    pub size: usize,
    pub flags: u32,
}

/// Raw arguments of `cachestat`, as captured at a syscall-entry stop.
#[derive(Clone, Copy, Debug, PartialEq, Eq, Structural)]
pub struct CachestatRawArgs {
    pub fd: i32,
    pub cstat_range: u64,
    pub cstat: u64,
    pub flags: u32,
}

/// Raw arguments of `statmount`, as captured at a syscall-entry stop.
#[derive(Clone, Copy, Debug, PartialEq, Eq, Structural)]
pub struct StatmountRawArgs {
    pub req: u64,
    pub buf: u64,
    pub bufsize: usize,
    pub flags: u32,
}

/// The six raw slots of a syscall whose number is not in the current
/// architecture's table.  Nothing is decoded for it and no memory is read.
#[derive(Clone, Copy, Debug, PartialEq, Eq)]
pub struct UnknownArgs {
    pub number: isize,
    pub args: [usize; 6],
}

impl UnknownArgs {
    /// Carry the number and the six slots over from the snapshot, untouched.
    pub fn from_regs(regs: &RegisterSnapshot) -> (r: UnknownArgs)
        ensures
            r.number == regs.number as isize,
            forall|i: int| 0 <= i < 6 ==> r.args@[i] == regs.args@[i] as usize,
    {
        UnknownArgs {
            number: #[verifier::truncate] (regs.number as isize),
            args: [
                #[verifier::truncate] (regs.args[0] as usize),
                #[verifier::truncate] (regs.args[1] as usize),
                #[verifier::truncate] (regs.args[2] as usize),
                #[verifier::truncate] (regs.args[3] as usize),
                #[verifier::truncate] (regs.args[4] as usize),
                #[verifier::truncate] (regs.args[5] as usize),
            ],
        }
    }

    /// The empty category set: an unknown syscall claims no category.
    pub fn syscall_groups(&self) -> (r: GroupSet)
        ensures
            r.bits == 0,
    {
        GroupSet::empty()
    }
}

impl SyscallNumber for UnknownArgs {
    open spec fn syscall_number_spec(&self) -> isize {
        self.number
    }

    fn syscall_number(&self) -> (r: isize) {
        self.number
    }
}

/// The raw argument record of one captured syscall-entry stop: one variant
/// per table entry, plus `Unknown` for numbers outside the table.
#[derive(Clone, Copy, Debug, PartialEq)]
pub enum SyscallRawArgs {
    Read(ReadRawArgs),
    Write(WriteRawArgs),
    Open(OpenRawArgs),
    Close(CloseRawArgs),
    Stat(StatRawArgs),
    Fstat(FstatRawArgs),
    Lstat(LstatRawArgs),
    Lseek(LseekRawArgs),
    Mmap(MmapRawArgs),
    Mprotect(MprotectRawArgs),
    Munmap(MunmapRawArgs),
    Brk(BrkRawArgs),
    RtSigreturn(RtSigreturnRawArgs),
    Ioctl(IoctlRawArgs),
    Pread64(Pread64RawArgs),
    Pwrite64(Pwrite64RawArgs),
    Access(AccessRawArgs),
    Pipe(PipeRawArgs),
    SchedYield(SchedYieldRawArgs),
    Mremap(MremapRawArgs),
    Msync(MsyncRawArgs),
    Madvise(MadviseRawArgs),
    Shmget(ShmgetRawArgs),
    Shmat(ShmatRawArgs),
    Dup(DupRawArgs),
    Dup2(Dup2RawArgs),
    Pause(PauseRawArgs),
    Nanosleep(NanosleepRawArgs),
    Alarm(AlarmRawArgs),
    Getpid(GetpidRawArgs),
    Socket(SocketRawArgs),
    Connect(ConnectRawArgs),
    Accept(AcceptRawArgs),
    Shutdown(ShutdownRawArgs),
    Bind(BindRawArgs),
    Listen(ListenRawArgs),
    Getsockname(GetsocknameRawArgs),
    Getpeername(GetpeernameRawArgs),
    Socketpair(SocketpairRawArgs),
    Clone(CloneRawArgs),
    Execve(ExecveRawArgs),
    Exit(ExitRawArgs),
    Kill(KillRawArgs),
    Semget(SemgetRawArgs),
    Semop(SemopRawArgs),
    Semctl(SemctlRawArgs),
    Shmdt(ShmdtRawArgs),
    Msgget(MsggetRawArgs),
    Msgsnd(MsgsndRawArgs),
    Fcntl(FcntlRawArgs),
    Flock(FlockRawArgs),
    Fsync(FsyncRawArgs),
    Fdatasync(FdatasyncRawArgs),
    Truncate(TruncateRawArgs),
    Ftruncate(FtruncateRawArgs),
    Getcwd(GetcwdRawArgs),
    Chdir(ChdirRawArgs),
    Rename(RenameRawArgs),
    Mkdir(MkdirRawArgs),
    Rmdir(RmdirRawArgs),
    Creat(CreatRawArgs),
    Link(LinkRawArgs),
    Unlink(UnlinkRawArgs),
    Symlink(SymlinkRawArgs),
    Readlink(ReadlinkRawArgs),
    Chmod(ChmodRawArgs),
    Fchmod(FchmodRawArgs),
    Chown(ChownRawArgs),
    Fchown(FchownRawArgs),
    Lchown(LchownRawArgs),
    Umask(UmaskRawArgs),
    Gettimeofday(GettimeofdayRawArgs),
    Getrlimit(GetrlimitRawArgs),
    Times(TimesRawArgs),
    Ptrace(PtraceRawArgs),
    Getuid(GetuidRawArgs),
    Getgid(GetgidRawArgs),
    Setuid(SetuidRawArgs),
    Setgid(SetgidRawArgs),
    Geteuid(GeteuidRawArgs),
    Getegid(GetegidRawArgs),
    Setpgid(SetpgidRawArgs),
    Getppid(GetppidRawArgs),
    Setsid(SetsidRawArgs),
    Setreuid(SetreuidRawArgs),
    Setregid(SetregidRawArgs),
    Setresuid(SetresuidRawArgs),
    Getresuid(GetresuidRawArgs),
    Setresgid(SetresgidRawArgs),
    Getresgid(GetresgidRawArgs),
    Getpgid(GetpgidRawArgs),
    Getsid(GetsidRawArgs),
    Capget(CapgetRawArgs),
    Statfs(StatfsRawArgs),
    Fstatfs(FstatfsRawArgs),
    Sync(SyncRawArgs),
    Settimeofday(SettimeofdayRawArgs),
    Umount2(Umount2RawArgs),
    Sethostname(SethostnameRawArgs),
    Setdomainname(SetdomainnameRawArgs),
    Gettid(GettidRawArgs),
    Futex(FutexRawArgs),
    SchedGetaffinity(SchedGetaffinityRawArgs),
    ClockSettime(ClockSettimeRawArgs),
    ClockGettime(ClockGettimeRawArgs),
    ClockGetres(ClockGetresRawArgs),
    ClockNanosleep(ClockNanosleepRawArgs),
    ExitGroup(ExitGroupRawArgs),
    Utimes(UtimesRawArgs),
    Openat(OpenatRawArgs),
    Mkdirat(MkdiratRawArgs),
    Fchownat(FchownatRawArgs),
    Newfstatat(NewfstatatRawArgs),
    Unlinkat(UnlinkatRawArgs),
    Renameat(RenameatRawArgs),
    Linkat(LinkatRawArgs),
    Symlinkat(SymlinkatRawArgs),
    Readlinkat(ReadlinkatRawArgs),
    Fchmodat(FchmodatRawArgs),
    Faccessat(FaccessatRawArgs),
    Accept4(Accept4RawArgs),
    Eventfd2(Eventfd2RawArgs),
    EpollCreate1(EpollCreate1RawArgs),
    Dup3(Dup3RawArgs),
    Pipe2(Pipe2RawArgs),
    InotifyInit1(InotifyInit1RawArgs),
    Prlimit64(Prlimit64RawArgs),
    Getrandom(GetrandomRawArgs),
    MemfdCreate(MemfdCreateRawArgs),
    Rseq(RseqRawArgs),
    PidfdOpen(PidfdOpenRawArgs),
    CloseRange(CloseRangeRawArgs),
    LandlockCreateRuleset(LandlockCreateRulesetRawArgs),
    Cachestat(CachestatRawArgs),
    Statmount(StatmountRawArgs),
    Unknown(UnknownArgs),
}

impl SyscallRawArgs {
    /// Which table entry this record belongs to; `None` for `Unknown`.
    pub open spec fn tag(self) -> Option<SyscallId> {
        match self {
            SyscallRawArgs::Read(_) => Some(SyscallId::Read),
            SyscallRawArgs::Write(_) => Some(SyscallId::Write),
            SyscallRawArgs::Open(_) => Some(SyscallId::Open),
            SyscallRawArgs::Close(_) => Some(SyscallId::Close),
            SyscallRawArgs::Stat(_) => Some(SyscallId::Stat),
            SyscallRawArgs::Fstat(_) => Some(SyscallId::Fstat),
            SyscallRawArgs::Lstat(_) => Some(SyscallId::Lstat),
            SyscallRawArgs::Lseek(_) => Some(SyscallId::Lseek),
            SyscallRawArgs::Mmap(_) => Some(SyscallId::Mmap),
            SyscallRawArgs::Mprotect(_) => Some(SyscallId::Mprotect),
            SyscallRawArgs::Munmap(_) => Some(SyscallId::Munmap),
            SyscallRawArgs::Brk(_) => Some(SyscallId::Brk),
            SyscallRawArgs::RtSigreturn(_) => Some(SyscallId::RtSigreturn),
            SyscallRawArgs::Ioctl(_) => Some(SyscallId::Ioctl),
            SyscallRawArgs::Pread64(_) => Some(SyscallId::Pread64),
            SyscallRawArgs::Pwrite64(_) => Some(SyscallId::Pwrite64),
            SyscallRawArgs::Access(_) => Some(SyscallId::Access),
            SyscallRawArgs::Pipe(_) => Some(SyscallId::Pipe),
            SyscallRawArgs::SchedYield(_) => Some(SyscallId::SchedYield),
            SyscallRawArgs::Mremap(_) => Some(SyscallId::Mremap),
            SyscallRawArgs::Msync(_) => Some(SyscallId::Msync),
            SyscallRawArgs::Madvise(_) => Some(SyscallId::Madvise),
            SyscallRawArgs::Shmget(_) => Some(SyscallId::Shmget),
            SyscallRawArgs::Shmat(_) => Some(SyscallId::Shmat),
            SyscallRawArgs::Dup(_) => Some(SyscallId::Dup),
            SyscallRawArgs::Dup2(_) => Some(SyscallId::Dup2),
            SyscallRawArgs::Pause(_) => Some(SyscallId::Pause),
            SyscallRawArgs::Nanosleep(_) => Some(SyscallId::Nanosleep),
            SyscallRawArgs::Alarm(_) => Some(SyscallId::Alarm),
            SyscallRawArgs::Getpid(_) => Some(SyscallId::Getpid),
            SyscallRawArgs::Socket(_) => Some(SyscallId::Socket),
            SyscallRawArgs::Connect(_) => Some(SyscallId::Connect),
            SyscallRawArgs::Accept(_) => Some(SyscallId::Accept),
            SyscallRawArgs::Shutdown(_) => Some(SyscallId::Shutdown),
            SyscallRawArgs::Bind(_) => Some(SyscallId::Bind),
            SyscallRawArgs::Listen(_) => Some(SyscallId::Listen),
            SyscallRawArgs::Getsockname(_) => Some(SyscallId::Getsockname),
            SyscallRawArgs::Getpeername(_) => Some(SyscallId::Getpeername),
            SyscallRawArgs::Socketpair(_) => Some(SyscallId::Socketpair),
            SyscallRawArgs::Clone(_) => Some(SyscallId::Clone),
            SyscallRawArgs::Execve(_) => Some(SyscallId::Execve),
            SyscallRawArgs::Exit(_) => Some(SyscallId::Exit),
            SyscallRawArgs::Kill(_) => Some(SyscallId::Kill),
            SyscallRawArgs::Semget(_) => Some(SyscallId::Semget),
            SyscallRawArgs::Semop(_) => Some(SyscallId::Semop),
            SyscallRawArgs::Semctl(_) => Some(SyscallId::Semctl),
            SyscallRawArgs::Shmdt(_) => Some(SyscallId::Shmdt),
            SyscallRawArgs::Msgget(_) => Some(SyscallId::Msgget),
            SyscallRawArgs::Msgsnd(_) => Some(SyscallId::Msgsnd),
            SyscallRawArgs::Fcntl(_) => Some(SyscallId::Fcntl),
            SyscallRawArgs::Flock(_) => Some(SyscallId::Flock),
            SyscallRawArgs::Fsync(_) => Some(SyscallId::Fsync),
            SyscallRawArgs::Fdatasync(_) => Some(SyscallId::Fdatasync),
            SyscallRawArgs::Truncate(_) => Some(SyscallId::Truncate),
            SyscallRawArgs::Ftruncate(_) => Some(SyscallId::Ftruncate),
            SyscallRawArgs::Getcwd(_) => Some(SyscallId::Getcwd),
            SyscallRawArgs::Chdir(_) => Some(SyscallId::Chdir),
            SyscallRawArgs::Rename(_) => Some(SyscallId::Rename),
            SyscallRawArgs::Mkdir(_) => Some(SyscallId::Mkdir),
            SyscallRawArgs::Rmdir(_) => Some(SyscallId::Rmdir),
            SyscallRawArgs::Creat(_) => Some(SyscallId::Creat),
            SyscallRawArgs::Link(_) => Some(SyscallId::Link),
            SyscallRawArgs::Unlink(_) => Some(SyscallId::Unlink),
            SyscallRawArgs::Symlink(_) => Some(SyscallId::Symlink),
            SyscallRawArgs::Readlink(_) => Some(SyscallId::Readlink),
            SyscallRawArgs::Chmod(_) => Some(SyscallId::Chmod),
            SyscallRawArgs::Fchmod(_) => Some(SyscallId::Fchmod),
            SyscallRawArgs::Chown(_) => Some(SyscallId::Chown),
            SyscallRawArgs::Fchown(_) => Some(SyscallId::Fchown),
            SyscallRawArgs::Lchown(_) => Some(SyscallId::Lchown),
            SyscallRawArgs::Umask(_) => Some(SyscallId::Umask),
            SyscallRawArgs::Gettimeofday(_) => Some(SyscallId::Gettimeofday),
            SyscallRawArgs::Getrlimit(_) => Some(SyscallId::Getrlimit),
            SyscallRawArgs::Times(_) => Some(SyscallId::Times),
            SyscallRawArgs::Ptrace(_) => Some(SyscallId::Ptrace),
            SyscallRawArgs::Getuid(_) => Some(SyscallId::Getuid),
            SyscallRawArgs::Getgid(_) => Some(SyscallId::Getgid),
            SyscallRawArgs::Setuid(_) => Some(SyscallId::Setuid),
            SyscallRawArgs::Setgid(_) => Some(SyscallId::Setgid),
            SyscallRawArgs::Geteuid(_) => Some(SyscallId::Geteuid),
            SyscallRawArgs::Getegid(_) => Some(SyscallId::Getegid),
            SyscallRawArgs::Setpgid(_) => Some(SyscallId::Setpgid),
            SyscallRawArgs::Getppid(_) => Some(SyscallId::Getppid),
            SyscallRawArgs::Setsid(_) => Some(SyscallId::Setsid),
            SyscallRawArgs::Setreuid(_) => Some(SyscallId::Setreuid),
            SyscallRawArgs::Setregid(_) => Some(SyscallId::Setregid),
            SyscallRawArgs::Setresuid(_) => Some(SyscallId::Setresuid),
            SyscallRawArgs::Getresuid(_) => Some(SyscallId::Getresuid),
            SyscallRawArgs::Setresgid(_) => Some(SyscallId::Setresgid),
            SyscallRawArgs::Getresgid(_) => Some(SyscallId::Getresgid),
            SyscallRawArgs::Getpgid(_) => Some(SyscallId::Getpgid),
            SyscallRawArgs::Getsid(_) => Some(SyscallId::Getsid),
            SyscallRawArgs::Capget(_) => Some(SyscallId::Capget),
            SyscallRawArgs::Statfs(_) => Some(SyscallId::Statfs),
            SyscallRawArgs::Fstatfs(_) => Some(SyscallId::Fstatfs),
            SyscallRawArgs::Sync(_) => Some(SyscallId::Sync),
            SyscallRawArgs::Settimeofday(_) => Some(SyscallId::Settimeofday),
            SyscallRawArgs::Umount2(_) => Some(SyscallId::Umount2),
            SyscallRawArgs::Sethostname(_) => Some(SyscallId::Sethostname),
            SyscallRawArgs::Setdomainname(_) => Some(SyscallId::Setdomainname),
            SyscallRawArgs::Gettid(_) => Some(SyscallId::Gettid),
            SyscallRawArgs::Futex(_) => Some(SyscallId::Futex),
            SyscallRawArgs::SchedGetaffinity(_) => Some(SyscallId::SchedGetaffinity),
            SyscallRawArgs::ClockSettime(_) => Some(SyscallId::ClockSettime),
            SyscallRawArgs::ClockGettime(_) => Some(SyscallId::ClockGettime),
            SyscallRawArgs::ClockGetres(_) => Some(SyscallId::ClockGetres),
            SyscallRawArgs::ClockNanosleep(_) => Some(SyscallId::ClockNanosleep),
            SyscallRawArgs::ExitGroup(_) => Some(SyscallId::ExitGroup),
            SyscallRawArgs::Utimes(_) => Some(SyscallId::Utimes),
            SyscallRawArgs::Openat(_) => Some(SyscallId::Openat),
            SyscallRawArgs::Mkdirat(_) => Some(SyscallId::Mkdirat),
            SyscallRawArgs::Fchownat(_) => Some(SyscallId::Fchownat),
            SyscallRawArgs::Newfstatat(_) => Some(SyscallId::Newfstatat),
            SyscallRawArgs::Unlinkat(_) => Some(SyscallId::Unlinkat),
            SyscallRawArgs::Renameat(_) => Some(SyscallId::Renameat),
            SyscallRawArgs::Linkat(_) => Some(SyscallId::Linkat),
            SyscallRawArgs::Symlinkat(_) => Some(SyscallId::Symlinkat),
            SyscallRawArgs::Readlinkat(_) => Some(SyscallId::Readlinkat),
            SyscallRawArgs::Fchmodat(_) => Some(SyscallId::Fchmodat),
            SyscallRawArgs::Faccessat(_) => Some(SyscallId::Faccessat),
            SyscallRawArgs::Accept4(_) => Some(SyscallId::Accept4),
            SyscallRawArgs::Eventfd2(_) => Some(SyscallId::Eventfd2),
            SyscallRawArgs::EpollCreate1(_) => Some(SyscallId::EpollCreate1),
            SyscallRawArgs::Dup3(_) => Some(SyscallId::Dup3),
            SyscallRawArgs::Pipe2(_) => Some(SyscallId::Pipe2),
            SyscallRawArgs::InotifyInit1(_) => Some(SyscallId::InotifyInit1),
            SyscallRawArgs::Prlimit64(_) => Some(SyscallId::Prlimit64),
            SyscallRawArgs::Getrandom(_) => Some(SyscallId::Getrandom),
            SyscallRawArgs::MemfdCreate(_) => Some(SyscallId::MemfdCreate),
            SyscallRawArgs::Rseq(_) => Some(SyscallId::Rseq),
            SyscallRawArgs::PidfdOpen(_) => Some(SyscallId::PidfdOpen),
            SyscallRawArgs::CloseRange(_) => Some(SyscallId::CloseRange),
            SyscallRawArgs::LandlockCreateRuleset(_) => Some(SyscallId::LandlockCreateRuleset),
            SyscallRawArgs::Cachestat(_) => Some(SyscallId::Cachestat),
            SyscallRawArgs::Statmount(_) => Some(SyscallId::Statmount),
            SyscallRawArgs::Unknown(_) => None,
        }
    }
}

/// The raw record's fields are the snapshot's slots, cast to the declared
/// raw types — the per-syscall slot assignment of the table.
pub open spec fn raw_fields_ok(regs: RegisterSnapshot, r: SyscallRawArgs) -> bool {
    match r {
        SyscallRawArgs::Read(a) => a.fd == regs.args@[0] as i32 && a.buf == regs.args@[1] && a.count == regs.args@[2] as usize,
        SyscallRawArgs::Write(a) => a.fd == regs.args@[0] as i32 && a.buf == regs.args@[1] && a.count == regs.args@[2] as usize,
        SyscallRawArgs::Open(a) => a.pathname == regs.args@[0] && a.flags == regs.args@[1] as i32 && a.mode == regs.args@[2] as u32,
        SyscallRawArgs::Close(a) => a.fd == regs.args@[0] as i32,
        SyscallRawArgs::Stat(a) => a.pathname == regs.args@[0] && a.statbuf == regs.args@[1],
        SyscallRawArgs::Fstat(a) => a.fd == regs.args@[0] as i32 && a.statbuf == regs.args@[1],
        SyscallRawArgs::Lstat(a) => a.pathname == regs.args@[0] && a.statbuf == regs.args@[1],
        SyscallRawArgs::Lseek(a) => a.fd == regs.args@[0] as i32 && a.offset == regs.args@[1] as i64 && a.whence == regs.args@[2] as i32,
        SyscallRawArgs::Mmap(a) => a.addr == regs.args@[0] && a.length == regs.args@[1] as usize && a.prot == regs.args@[2] as i32 && a.flags == regs.args@[3] as i32 && a.fd == regs.args@[4] as i32 && a.offset == regs.args@[5] as i64,
        SyscallRawArgs::Mprotect(a) => a.addr == regs.args@[0] && a.len == regs.args@[1] as usize && a.prot == regs.args@[2] as i32,
        SyscallRawArgs::Munmap(a) => a.addr == regs.args@[0] && a.length == regs.args@[1] as usize,
        SyscallRawArgs::Brk(a) => a.addr == regs.args@[0],
        SyscallRawArgs::RtSigreturn(_) => true,
        SyscallRawArgs::Ioctl(a) => a.fd == regs.args@[0] as i32 && a.request == regs.args@[1] && a.argp == regs.args@[2],
        SyscallRawArgs::Pread64(a) => a.fd == regs.args@[0] as i32 && a.buf == regs.args@[1] && a.count == regs.args@[2] as usize && a.offset == regs.args@[3] as i64,
        SyscallRawArgs::Pwrite64(a) => a.fd == regs.args@[0] as i32 && a.buf == regs.args@[1] && a.count == regs.args@[2] as usize && a.offset == regs.args@[3] as i64,
        SyscallRawArgs::Access(a) => a.pathname == regs.args@[0] && a.mode == regs.args@[1] as i32,
        SyscallRawArgs::Pipe(a) => a.pipefd == regs.args@[0],
        SyscallRawArgs::SchedYield(_) => true,
        SyscallRawArgs::Mremap(a) => a.old_address == regs.args@[0] && a.old_size == regs.args@[1] as usize && a.new_size == regs.args@[2] as usize && a.flags == regs.args@[3] as i32 && a.new_address == regs.args@[4],
        SyscallRawArgs::Msync(a) => a.addr == regs.args@[0] && a.length == regs.args@[1] as usize && a.flags == regs.args@[2] as i32,
        SyscallRawArgs::Madvise(a) => a.addr == regs.args@[0] && a.length == regs.args@[1] as usize && a.advice == regs.args@[2] as i32,
        SyscallRawArgs::Shmget(a) => a.key == regs.args@[0] as i32 && a.size == regs.args@[1] as usize && a.shmflg == regs.args@[2] as i32,
        SyscallRawArgs::Shmat(a) => a.shmid == regs.args@[0] as i32 && a.shmaddr == regs.args@[1] && a.shmflg == regs.args@[2] as i32,
        SyscallRawArgs::Dup(a) => a.oldfd == regs.args@[0] as i32,
        SyscallRawArgs::Dup2(a) => a.oldfd == regs.args@[0] as i32 && a.newfd == regs.args@[1] as i32,
        SyscallRawArgs::Pause(_) => true,
        SyscallRawArgs::Nanosleep(a) => a.req == regs.args@[0] && a.rem == regs.args@[1],
        SyscallRawArgs::Alarm(a) => a.seconds == regs.args@[0] as u32,
        SyscallRawArgs::Getpid(_) => true,
        SyscallRawArgs::Socket(a) => a.domain == regs.args@[0] as i32 && a.sock_type == regs.args@[1] as i32 && a.protocol == regs.args@[2] as i32,
        SyscallRawArgs::Connect(a) => a.sockfd == regs.args@[0] as i32 && a.addr == regs.args@[1] && a.addrlen == regs.args@[2] as u32,
        SyscallRawArgs::Accept(a) => a.socketfd == regs.args@[0] as i32 && a.addr == regs.args@[1] && a.addrlen == regs.args@[2],
        SyscallRawArgs::Shutdown(a) => a.sockfd == regs.args@[0] as i32 && a.how == regs.args@[1] as i32,
        SyscallRawArgs::Bind(a) => a.socketfd == regs.args@[0] as i32 && a.addr == regs.args@[1] && a.addrlen == regs.args@[2] as u32,
        SyscallRawArgs::Listen(a) => a.sockfd == regs.args@[0] as i32 && a.backlog == regs.args@[1] as i32,
        SyscallRawArgs::Getsockname(a) => a.sockfd == regs.args@[0] as i32 && a.addr == regs.args@[1] && a.addrlen == regs.args@[2],
        SyscallRawArgs::Getpeername(a) => a.sockfd == regs.args@[0] as i32 && a.addr == regs.args@[1] && a.addrlen == regs.args@[2],
        SyscallRawArgs::Socketpair(a) => a.domain == regs.args@[0] as i32 && a.sock_type == regs.args@[1] as i32 && a.protocol == regs.args@[2] as i32 && a.sv == regs.args@[3],
        SyscallRawArgs::Clone(a) => {
            &&& a.flags == regs.args@[0]
            &&& a.stack == regs.args@[1]
            &&& a.parent_tid == regs.args@[2]
            &&& if regs.arch is X86_64 {
                a.child_tid == regs.args@[3] && a.tls == regs.args@[4]
            } else {
                a.tls == regs.args@[3] && a.child_tid == regs.args@[4]
            }
        },
        SyscallRawArgs::Execve(a) => a.filename == regs.args@[0] && a.argv == regs.args@[1] && a.envp == regs.args@[2],
        SyscallRawArgs::Exit(a) => a.status == regs.args@[0] as i32,
        SyscallRawArgs::Kill(a) => a.pid == regs.args@[0] as i32 && a.sig == regs.args@[1] as i32,
        SyscallRawArgs::Semget(a) => a.key == regs.args@[0] as i32 && a.nsems == regs.args@[1] as i32 && a.semflg == regs.args@[2] as i32,
        SyscallRawArgs::Semop(a) => a.semid == regs.args@[0] as i32 && a.sops == regs.args@[1] && a.nsops == regs.args@[2] as usize,
        SyscallRawArgs::Semctl(a) => a.semid == regs.args@[0] as i32 && a.semnum == regs.args@[1] as i32 && a.cmd == regs.args@[2] as i32 && a.arg == regs.args@[3],
        SyscallRawArgs::Shmdt(a) => a.shmaddr == regs.args@[0],
        SyscallRawArgs::Msgget(a) => a.key == regs.args@[0] as i32 && a.msgflg == regs.args@[1] as i32,
        SyscallRawArgs::Msgsnd(a) => a.msqid == regs.args@[0] as i32 && a.msgp == regs.args@[1] && a.msgsz == regs.args@[2] as usize && a.msgflg == regs.args@[3] as i32,
        SyscallRawArgs::Fcntl(a) => a.fd == regs.args@[0] as i32 && a.cmd == regs.args@[1] as i32 && a.arg == regs.args@[2] as usize,
        SyscallRawArgs::Flock(a) => a.fd == regs.args@[0] as i32 && a.operation == regs.args@[1] as i32,
        SyscallRawArgs::Fsync(a) => a.fd == regs.args@[0] as i32,
        SyscallRawArgs::Fdatasync(a) => a.fd == regs.args@[0] as i32,
        SyscallRawArgs::Truncate(a) => a.path == regs.args@[0] && a.length == regs.args@[1] as i64,
        SyscallRawArgs::Ftruncate(a) => a.fd == regs.args@[0] as i32 && a.length == regs.args@[1] as i64,
        SyscallRawArgs::Getcwd(a) => a.buf == regs.args@[0] && a.size == regs.args@[1] as usize,
        SyscallRawArgs::Chdir(a) => a.path == regs.args@[0],
        SyscallRawArgs::Rename(a) => a.oldpath == regs.args@[0] && a.newpath == regs.args@[1],
        SyscallRawArgs::Mkdir(a) => a.pathname == regs.args@[0] && a.mode == regs.args@[1] as u32,
        SyscallRawArgs::Rmdir(a) => a.pathname == regs.args@[0],
        SyscallRawArgs::Creat(a) => a.pathname == regs.args@[0] && a.mode == regs.args@[1] as u32,
        SyscallRawArgs::Link(a) => a.oldpath == regs.args@[0] && a.newpath == regs.args@[1],
        SyscallRawArgs::Unlink(a) => a.pathname == regs.args@[0],
        SyscallRawArgs::Symlink(a) => a.target == regs.args@[0] && a.linkpath == regs.args@[1],
        SyscallRawArgs::Readlink(a) => a.pathname == regs.args@[0] && a.buf == regs.args@[1] && a.bufsiz == regs.args@[2] as usize,
        SyscallRawArgs::Chmod(a) => a.pathname == regs.args@[0] && a.mode == regs.args@[1] as u32,
        SyscallRawArgs::Fchmod(a) => a.fd == regs.args@[0] as i32 && a.mode == regs.args@[1] as u32,
        SyscallRawArgs::Chown(a) => a.pathname == regs.args@[0] && a.owner == regs.args@[1] as u32 && a.group == regs.args@[2] as u32,
        SyscallRawArgs::Fchown(a) => a.fd == regs.args@[0] as i32 && a.owner == regs.args@[1] as u32 && a.group == regs.args@[2] as u32,
        SyscallRawArgs::Lchown(a) => a.pathname == regs.args@[0] && a.owner == regs.args@[1] as u32 && a.group == regs.args@[2] as u32,
        SyscallRawArgs::Umask(a) => a.mask == regs.args@[0] as u32,
        SyscallRawArgs::Gettimeofday(a) => a.tv == regs.args@[0] && a.tz == regs.args@[1],
        SyscallRawArgs::Getrlimit(a) => a.resource == regs.args@[0] as i32 && a.rlim == regs.args@[1],
        SyscallRawArgs::Times(a) => a.buf == regs.args@[0],
        SyscallRawArgs::Ptrace(a) => a.request == regs.args@[0] as i32 && a.pid == regs.args@[1] as i32 && a.addr == regs.args@[2] && a.data == regs.args@[3],
        SyscallRawArgs::Getuid(_) => true,
        SyscallRawArgs::Getgid(_) => true,
        SyscallRawArgs::Setuid(a) => a.uid == regs.args@[0] as u32,
        SyscallRawArgs::Setgid(a) => a.gid == regs.args@[0] as u32,
        SyscallRawArgs::Geteuid(_) => true,
        SyscallRawArgs::Getegid(_) => true,
        SyscallRawArgs::Setpgid(a) => a.pid == regs.args@[0] as i32 && a.pgid == regs.args@[1] as i32,
        SyscallRawArgs::Getppid(_) => true,
        SyscallRawArgs::Setsid(_) => true,
        SyscallRawArgs::Setreuid(a) => a.ruid == regs.args@[0] as u32 && a.euid == regs.args@[1] as u32,
        SyscallRawArgs::Setregid(a) => a.rgid == regs.args@[0] as u32 && a.egid == regs.args@[1] as u32,
        SyscallRawArgs::Setresuid(a) => a.ruid == regs.args@[0] as u32 && a.euid == regs.args@[1] as u32 && a.suid == regs.args@[2] as u32,
        SyscallRawArgs::Getresuid(a) => a.ruid == regs.args@[0] && a.euid == regs.args@[1] && a.suid == regs.args@[2],
        SyscallRawArgs::Setresgid(a) => a.rgid == regs.args@[0] as u32 && a.egid == regs.args@[1] as u32 && a.sgid == regs.args@[2] as u32,
        SyscallRawArgs::Getresgid(a) => a.rgid == regs.args@[0] && a.egid == regs.args@[1] && a.sgid == regs.args@[2],
        SyscallRawArgs::Getpgid(a) => a.pid == regs.args@[0] as i32,
        SyscallRawArgs::Getsid(a) => a.pid == regs.args@[0] as i32,
        SyscallRawArgs::Capget(a) => a.hdrp == regs.args@[0] && a.datap == regs.args@[1],
        SyscallRawArgs::Statfs(a) => a.path == regs.args@[0] && a.buf == regs.args@[1],
        SyscallRawArgs::Fstatfs(a) => a.fd == regs.args@[0] as i32 && a.buf == regs.args@[1],
        SyscallRawArgs::Sync(_) => true,
        SyscallRawArgs::Settimeofday(a) => a.tv == regs.args@[0] && a.tz == regs.args@[1],
        SyscallRawArgs::Umount2(a) => a.target == regs.args@[0] && a.flags == regs.args@[1] as i32,
        SyscallRawArgs::Sethostname(a) => a.name == regs.args@[0] && a.len == regs.args@[1] as usize,
        SyscallRawArgs::Setdomainname(a) => a.name == regs.args@[0] && a.len == regs.args@[1] as usize,
        SyscallRawArgs::Gettid(_) => true,
        SyscallRawArgs::Futex(a) => a.uaddr == regs.args@[0] && a.futex_op == regs.args@[1] as i32 && a.val == regs.args@[2] as u32 && a.val2 == regs.args@[3] as usize && a.uaddr2 == regs.args@[4] && a.val3 == regs.args@[5] as u32,
        SyscallRawArgs::SchedGetaffinity(a) => a.pid == regs.args@[0] as i32 && a.cpusetsize == regs.args@[1] as usize && a.mask == regs.args@[2],
        SyscallRawArgs::ClockSettime(a) => a.clk_id == regs.args@[0] as i32 && a.tp == regs.args@[1],
        SyscallRawArgs::ClockGettime(a) => a.clk_id == regs.args@[0] as i32 && a.tp == regs.args@[1],
        SyscallRawArgs::ClockGetres(a) => a.clk_id == regs.args@[0] as i32 && a.res == regs.args@[1],
        SyscallRawArgs::ClockNanosleep(a) => a.clockid == regs.args@[0] as i32 && a.flags == regs.args@[1] as i32 && a.request == regs.args@[2] && a.remain == regs.args@[3],
        SyscallRawArgs::ExitGroup(a) => a.status == regs.args@[0] as i32,
        SyscallRawArgs::Utimes(a) => a.filename == regs.args@[0] && a.times == regs.args@[1],
        SyscallRawArgs::Openat(a) => a.dirfd == regs.args@[0] as i32 && a.pathname == regs.args@[1] && a.flags == regs.args@[2] as i32 && a.mode == regs.args@[3] as u32,
        SyscallRawArgs::Mkdirat(a) => a.dirfd == regs.args@[0] as i32 && a.pathname == regs.args@[1] && a.mode == regs.args@[2] as u32,
        SyscallRawArgs::Fchownat(a) => a.dirfd == regs.args@[0] as i32 && a.pathname == regs.args@[1] && a.owner == regs.args@[2] as u32 && a.group == regs.args@[3] as u32 && a.flags == regs.args@[4] as i32,
        SyscallRawArgs::Newfstatat(a) => a.dirfd == regs.args@[0] as i32 && a.pathname == regs.args@[1] && a.statbuf == regs.args@[2] && a.flags == regs.args@[3] as i32,
        SyscallRawArgs::Unlinkat(a) => a.dirfd == regs.args@[0] as i32 && a.pathname == regs.args@[1] && a.flags == regs.args@[2] as i32,
        SyscallRawArgs::Renameat(a) => a.olddirfd == regs.args@[0] as i32 && a.oldpath == regs.args@[1] && a.newdirfd == regs.args@[2] as i32 && a.newpath == regs.args@[3],
        SyscallRawArgs::Linkat(a) => a.olddirfd == regs.args@[0] as i32 && a.oldpath == regs.args@[1] && a.newdirfd == regs.args@[2] as i32 && a.newpath == regs.args@[3] && a.flags == regs.args@[4] as i32,
        SyscallRawArgs::Symlinkat(a) => a.target == regs.args@[0] && a.newdirfd == regs.args@[1] as i32 && a.linkpath == regs.args@[2],
        SyscallRawArgs::Readlinkat(a) => a.dirfd == regs.args@[0] as i32 && a.pathname == regs.args@[1] && a.buf == regs.args@[2] && a.bufsiz == regs.args@[3] as usize,
        SyscallRawArgs::Fchmodat(a) => a.dirfd == regs.args@[0] as i32 && a.pathname == regs.args@[1] && a.mode == regs.args@[2] as u32,
        SyscallRawArgs::Faccessat(a) => a.dirfd == regs.args@[0] as i32 && a.pathname == regs.args@[1] && a.mode == regs.args@[2] as i32,
        SyscallRawArgs::Accept4(a) => a.socketfd == regs.args@[0] as i32 && a.addr == regs.args@[1] && a.addrlen == regs.args@[2] && a.flags == regs.args@[3] as i32,
        SyscallRawArgs::Eventfd2(a) => a.initval == regs.args@[0] as u32 && a.flags == regs.args@[1] as i32,
        SyscallRawArgs::EpollCreate1(a) => a.flags == regs.args@[0] as i32,
        SyscallRawArgs::Dup3(a) => a.oldfd == regs.args@[0] as i32 && a.newfd == regs.args@[1] as i32 && a.flags == regs.args@[2] as i32,
        SyscallRawArgs::Pipe2(a) => a.pipefd == regs.args@[0] && a.flags == regs.args@[1] as i32,
        SyscallRawArgs::InotifyInit1(a) => a.flags == regs.args@[0] as i32,
        SyscallRawArgs::Prlimit64(a) => a.pid == regs.args@[0] as i32 && a.resource == regs.args@[1] as i32 && a.new_limit == regs.args@[2] && a.old_limit == regs.args@[3],
        SyscallRawArgs::Getrandom(a) => a.buf == regs.args@[0] && a.buflen == regs.args@[1] as usize && a.flags == regs.args@[2] as u32,
        SyscallRawArgs::MemfdCreate(a) => a.name == regs.args@[0] && a.flags == regs.args@[1] as u32,
        SyscallRawArgs::Rseq(a) => a.rseq == regs.args@[0] && a.rseq_len == regs.args@[1] as u32 && a.flags == regs.args@[2] as i32 && a.sig == regs.args@[3] as u32,
        SyscallRawArgs::PidfdOpen(a) => a.pid == regs.args@[0] as i32 && a.flags == regs.args@[1] as u32,
        SyscallRawArgs::CloseRange(a) => a.first == regs.args@[0] as u32 && a.last == regs.args@[1] as u32 && a.flags == regs.args@[2] as u32,
        SyscallRawArgs::LandlockCreateRuleset(a) => a.ruleset_attr == regs.args@[0] && a.size == regs.args@[1] as usize && a.flags == regs.args@[2] as u32,
        SyscallRawArgs::Cachestat(a) => a.fd == regs.args@[0] as i32 && a.cstat_range == regs.args@[1] && a.cstat == regs.args@[2] && a.flags == regs.args@[3] as u32,
        SyscallRawArgs::Statmount(a) => a.req == regs.args@[0] && a.buf == regs.args@[1] && a.bufsize == regs.args@[2] as usize && a.flags == regs.args@[3] as u32,
        SyscallRawArgs::Unknown(u) => u.number == regs.number as isize && forall|i: int|
            0 <= i < 6 ==> u.args@[i] == regs.args@[i] as usize,
    }
}

impl SyscallRawArgs {
    /// Dispatch a captured snapshot into the typed raw record of its
    /// syscall: the variant is the table entry that the snapshot's number
    /// names on its architecture, and the fields are the six slots cast to
    /// the declared raw types; a number outside the table is preserved in
    /// `Unknown` with its six slots untouched.
    #[verifier::rlimit(100)]
    #[verifier::spinoff_prover]
    pub fn from_regs(regs: &RegisterSnapshot) -> (r: SyscallRawArgs)
        ensures
            r.tag() == table_lookup(regs.arch, regs.number),
            raw_fields_ok(*regs, r),
    {
        match lookup(regs.arch, regs.number) {
            None => SyscallRawArgs::Unknown(UnknownArgs::from_regs(regs)),
            Some(SyscallId::Read) => {
                SyscallRawArgs::Read(ReadRawArgs {
                    fd: #[verifier::truncate] (regs.args[0] as i32),
                    buf: regs.args[1],
                    count: #[verifier::truncate] (regs.args[2] as usize),
                })
            },
            Some(SyscallId::Write) => {
                SyscallRawArgs::Write(WriteRawArgs {
                    fd: #[verifier::truncate] (regs.args[0] as i32),
                    buf: regs.args[1],
                    count: #[verifier::truncate] (regs.args[2] as usize),
                })
            },
            Some(SyscallId::Open) => {
                SyscallRawArgs::Open(OpenRawArgs {
                    pathname: regs.args[0],
                    flags: #[verifier::truncate] (regs.args[1] as i32),
                    mode: #[verifier::truncate] (regs.args[2] as u32),
                })
            },
            Some(SyscallId::Close) => {
                SyscallRawArgs::Close(CloseRawArgs {
                    fd: #[verifier::truncate] (regs.args[0] as i32),
                })
            },
            Some(SyscallId::Stat) => {
                SyscallRawArgs::Stat(StatRawArgs {
                    pathname: regs.args[0],
                    statbuf: regs.args[1],
                })
            },
            Some(SyscallId::Fstat) => {
                SyscallRawArgs::Fstat(FstatRawArgs {
                    fd: #[verifier::truncate] (regs.args[0] as i32),
                    statbuf: regs.args[1],
                })
            },
            Some(SyscallId::Lstat) => {
                SyscallRawArgs::Lstat(LstatRawArgs {
                    pathname: regs.args[0],
                    statbuf: regs.args[1],
                })
            },
            Some(SyscallId::Lseek) => {
                SyscallRawArgs::Lseek(LseekRawArgs {
                    fd: #[verifier::truncate] (regs.args[0] as i32),
                    offset: #[verifier::truncate] (regs.args[1] as i64),
                    whence: #[verifier::truncate] (regs.args[2] as i32),
                })
            },
            Some(SyscallId::Mmap) => {
                SyscallRawArgs::Mmap(MmapRawArgs {
                    addr: regs.args[0],
                    length: #[verifier::truncate] (regs.args[1] as usize),
                    prot: #[verifier::truncate] (regs.args[2] as i32),
                    flags: #[verifier::truncate] (regs.args[3] as i32),
                    fd: #[verifier::truncate] (regs.args[4] as i32),
                    offset: #[verifier::truncate] (regs.args[5] as i64),
                })
            },
            Some(SyscallId::Mprotect) => {
                SyscallRawArgs::Mprotect(MprotectRawArgs {
                    addr: regs.args[0],
                    len: #[verifier::truncate] (regs.args[1] as usize),
                    prot: #[verifier::truncate] (regs.args[2] as i32),
                })
            },
            Some(SyscallId::Munmap) => {
                SyscallRawArgs::Munmap(MunmapRawArgs {
                    addr: regs.args[0],
                    length: #[verifier::truncate] (regs.args[1] as usize),
                })
            },
            Some(SyscallId::Brk) => {
                SyscallRawArgs::Brk(BrkRawArgs {
                    addr: regs.args[0],
                })
            },
            Some(SyscallId::RtSigreturn) => {
                SyscallRawArgs::RtSigreturn(RtSigreturnRawArgs {
                })
            },
            Some(SyscallId::Ioctl) => {
                SyscallRawArgs::Ioctl(IoctlRawArgs {
                    fd: #[verifier::truncate] (regs.args[0] as i32),
                    request: regs.args[1],
                    argp: regs.args[2],
                })
            },
            Some(SyscallId::Pread64) => {
                SyscallRawArgs::Pread64(Pread64RawArgs {
                    fd: #[verifier::truncate] (regs.args[0] as i32),
                    buf: regs.args[1],
                    count: #[verifier::truncate] (regs.args[2] as usize),
                    offset: #[verifier::truncate] (regs.args[3] as i64),
                })
            },
            Some(SyscallId::Pwrite64) => {
                SyscallRawArgs::Pwrite64(Pwrite64RawArgs {
                    fd: #[verifier::truncate] (regs.args[0] as i32),
                    buf: regs.args[1],
                    count: #[verifier::truncate] (regs.args[2] as usize),
                    offset: #[verifier::truncate] (regs.args[3] as i64),
                })
            },
            Some(SyscallId::Access) => {
                SyscallRawArgs::Access(AccessRawArgs {
                    pathname: regs.args[0],
                    mode: #[verifier::truncate] (regs.args[1] as i32),
                })
            },
            Some(SyscallId::Pipe) => {
                SyscallRawArgs::Pipe(PipeRawArgs {
                    pipefd: regs.args[0],
                })
            },
            Some(SyscallId::SchedYield) => {
                SyscallRawArgs::SchedYield(SchedYieldRawArgs {
                })
            },
            Some(SyscallId::Mremap) => {
                SyscallRawArgs::Mremap(MremapRawArgs {
                    old_address: regs.args[0],
                    old_size: #[verifier::truncate] (regs.args[1] as usize),
                    new_size: #[verifier::truncate] (regs.args[2] as usize),
                    flags: #[verifier::truncate] (regs.args[3] as i32),
                    new_address: regs.args[4],
                })
            },
            Some(SyscallId::Msync) => {
                SyscallRawArgs::Msync(MsyncRawArgs {
                    addr: regs.args[0],
                    length: #[verifier::truncate] (regs.args[1] as usize),
                    flags: #[verifier::truncate] (regs.args[2] as i32),
                })
            },
            Some(SyscallId::Madvise) => {
                SyscallRawArgs::Madvise(MadviseRawArgs {
                    addr: regs.args[0],
                    length: #[verifier::truncate] (regs.args[1] as usize),
                    advice: #[verifier::truncate] (regs.args[2] as i32),
                })
            },
            Some(SyscallId::Shmget) => {
                SyscallRawArgs::Shmget(ShmgetRawArgs {
                    key: #[verifier::truncate] (regs.args[0] as i32),
                    size: #[verifier::truncate] (regs.args[1] as usize),
                    shmflg: #[verifier::truncate] (regs.args[2] as i32),
                })
            },
            Some(SyscallId::Shmat) => {
                SyscallRawArgs::Shmat(ShmatRawArgs {
                    shmid: #[verifier::truncate] (regs.args[0] as i32),
                    shmaddr: regs.args[1],
                    shmflg: #[verifier::truncate] (regs.args[2] as i32),
                })
            },
            Some(SyscallId::Dup) => {
                SyscallRawArgs::Dup(DupRawArgs {
                    oldfd: #[verifier::truncate] (regs.args[0] as i32),
                })
            },
            Some(SyscallId::Dup2) => {
                SyscallRawArgs::Dup2(Dup2RawArgs {
                    oldfd: #[verifier::truncate] (regs.args[0] as i32),
                    newfd: #[verifier::truncate] (regs.args[1] as i32),
                })
            },
            Some(SyscallId::Pause) => {
                SyscallRawArgs::Pause(PauseRawArgs {
                })
            },
            Some(SyscallId::Nanosleep) => {
                SyscallRawArgs::Nanosleep(NanosleepRawArgs {
                    req: regs.args[0],
                    rem: regs.args[1],
                })
            },
            Some(SyscallId::Alarm) => {
                SyscallRawArgs::Alarm(AlarmRawArgs {
                    seconds: #[verifier::truncate] (regs.args[0] as u32),
                })
            },
            Some(SyscallId::Getpid) => {
                SyscallRawArgs::Getpid(GetpidRawArgs {
                })
            },
            Some(SyscallId::Socket) => {
                SyscallRawArgs::Socket(SocketRawArgs {
                    domain: #[verifier::truncate] (regs.args[0] as i32),
                    sock_type: #[verifier::truncate] (regs.args[1] as i32),
                    protocol: #[verifier::truncate] (regs.args[2] as i32),
                })
            },
            Some(SyscallId::Connect) => {
                SyscallRawArgs::Connect(ConnectRawArgs {
                    sockfd: #[verifier::truncate] (regs.args[0] as i32),
                    addr: regs.args[1],
                    addrlen: #[verifier::truncate] (regs.args[2] as u32),
                })
            },
            Some(SyscallId::Accept) => {
                SyscallRawArgs::Accept(AcceptRawArgs {
                    socketfd: #[verifier::truncate] (regs.args[0] as i32),
                    addr: regs.args[1],
                    addrlen: regs.args[2],
                })
            },
            Some(SyscallId::Shutdown) => {
                SyscallRawArgs::Shutdown(ShutdownRawArgs {
                    sockfd: #[verifier::truncate] (regs.args[0] as i32),
                    how: #[verifier::truncate] (regs.args[1] as i32),
                })
            },
            Some(SyscallId::Bind) => {
                SyscallRawArgs::Bind(BindRawArgs {
                    socketfd: #[verifier::truncate] (regs.args[0] as i32),
                    addr: regs.args[1],
                    addrlen: #[verifier::truncate] (regs.args[2] as u32),
                })
            },
            Some(SyscallId::Listen) => {
                SyscallRawArgs::Listen(ListenRawArgs {
                    sockfd: #[verifier::truncate] (regs.args[0] as i32),
                    backlog: #[verifier::truncate] (regs.args[1] as i32),
                })
            },
            Some(SyscallId::Getsockname) => {
                SyscallRawArgs::Getsockname(GetsocknameRawArgs {
                    sockfd: #[verifier::truncate] (regs.args[0] as i32),
                    addr: regs.args[1],
                    addrlen: regs.args[2],
                })
            },
            Some(SyscallId::Getpeername) => {
                SyscallRawArgs::Getpeername(GetpeernameRawArgs {
                    sockfd: #[verifier::truncate] (regs.args[0] as i32),
                    addr: regs.args[1],
                    addrlen: regs.args[2],
                })
            },
            Some(SyscallId::Socketpair) => {
                SyscallRawArgs::Socketpair(SocketpairRawArgs {
                    domain: #[verifier::truncate] (regs.args[0] as i32),
                    sock_type: #[verifier::truncate] (regs.args[1] as i32),
                    protocol: #[verifier::truncate] (regs.args[2] as i32),
                    sv: regs.args[3],
                })
            },
            Some(SyscallId::Clone) => {
                let child_slot: usize = if matches!(regs.arch, Arch::X86_64) { 3 } else { 4 };
                let tls_slot: usize = if matches!(regs.arch, Arch::X86_64) { 4 } else { 3 };
                SyscallRawArgs::Clone(CloneRawArgs {
                    flags: regs.args[0],
                    stack: regs.args[1],
                    parent_tid: regs.args[2],
                    child_tid: regs.args[child_slot],
                    tls: regs.args[tls_slot],
                })
            },
            Some(SyscallId::Execve) => {
                SyscallRawArgs::Execve(ExecveRawArgs {
                    filename: regs.args[0],
                    argv: regs.args[1],
                    envp: regs.args[2],
                })
            },
            Some(SyscallId::Exit) => {
                SyscallRawArgs::Exit(ExitRawArgs {
                    status: #[verifier::truncate] (regs.args[0] as i32),
                })
            },
            Some(SyscallId::Kill) => {
                SyscallRawArgs::Kill(KillRawArgs {
                    pid: #[verifier::truncate] (regs.args[0] as i32),
                    sig: #[verifier::truncate] (regs.args[1] as i32),
                })
            },
            Some(SyscallId::Semget) => {
                SyscallRawArgs::Semget(SemgetRawArgs {
                    key: #[verifier::truncate] (regs.args[0] as i32),
                    nsems: #[verifier::truncate] (regs.args[1] as i32),
                    semflg: #[verifier::truncate] (regs.args[2] as i32),
                })
            },
            Some(SyscallId::Semop) => {
                SyscallRawArgs::Semop(SemopRawArgs {
                    semid: #[verifier::truncate] (regs.args[0] as i32),
                    sops: regs.args[1],
                    nsops: #[verifier::truncate] (regs.args[2] as usize),
                })
            },
            Some(SyscallId::Semctl) => {
                SyscallRawArgs::Semctl(SemctlRawArgs {
                    semid: #[verifier::truncate] (regs.args[0] as i32),
                    semnum: #[verifier::truncate] (regs.args[1] as i32),
                    cmd: #[verifier::truncate] (regs.args[2] as i32),
                    arg: regs.args[3],
                })
            },
            Some(SyscallId::Shmdt) => {
                SyscallRawArgs::Shmdt(ShmdtRawArgs {
                    shmaddr: regs.args[0],
                })
            },
            Some(SyscallId::Msgget) => {
                SyscallRawArgs::Msgget(MsggetRawArgs {
                    key: #[verifier::truncate] (regs.args[0] as i32),
                    msgflg: #[verifier::truncate] (regs.args[1] as i32),
                })
            },
            Some(SyscallId::Msgsnd) => {
                SyscallRawArgs::Msgsnd(MsgsndRawArgs {
                    msqid: #[verifier::truncate] (regs.args[0] as i32),
                    msgp: regs.args[1],
                    msgsz: #[verifier::truncate] (regs.args[2] as usize),
                    msgflg: #[verifier::truncate] (regs.args[3] as i32),
                })
            },
            Some(SyscallId::Fcntl) => {
                SyscallRawArgs::Fcntl(FcntlRawArgs {
                    fd: #[verifier::truncate] (regs.args[0] as i32),
                    cmd: #[verifier::truncate] (regs.args[1] as i32),
                    arg: #[verifier::truncate] (regs.args[2] as usize),
                })
            },
            Some(SyscallId::Flock) => {
                SyscallRawArgs::Flock(FlockRawArgs {
                    fd: #[verifier::truncate] (regs.args[0] as i32),
                    operation: #[verifier::truncate] (regs.args[1] as i32),
                })
            },
            Some(SyscallId::Fsync) => {
                SyscallRawArgs::Fsync(FsyncRawArgs {
                    fd: #[verifier::truncate] (regs.args[0] as i32),
                })
            },
            Some(SyscallId::Fdatasync) => {
                SyscallRawArgs::Fdatasync(FdatasyncRawArgs {
                    fd: #[verifier::truncate] (regs.args[0] as i32),
                })
            },
            Some(SyscallId::Truncate) => {
                SyscallRawArgs::Truncate(TruncateRawArgs {
                    path: regs.args[0],
                    length: #[verifier::truncate] (regs.args[1] as i64),
                })
            },
            Some(SyscallId::Ftruncate) => {
                SyscallRawArgs::Ftruncate(FtruncateRawArgs {
                    fd: #[verifier::truncate] (regs.args[0] as i32),
                    length: #[verifier::truncate] (regs.args[1] as i64),
                })
            },
            Some(SyscallId::Getcwd) => {
                SyscallRawArgs::Getcwd(GetcwdRawArgs {
                    buf: regs.args[0],
                    size: #[verifier::truncate] (regs.args[1] as usize),
                })
            },
            Some(SyscallId::Chdir) => {
                SyscallRawArgs::Chdir(ChdirRawArgs {
                    path: regs.args[0],
                })
            },
            Some(SyscallId::Rename) => {
                SyscallRawArgs::Rename(RenameRawArgs {
                    oldpath: regs.args[0],
                    newpath: regs.args[1],
                })
            },
            Some(SyscallId::Mkdir) => {
                SyscallRawArgs::Mkdir(MkdirRawArgs {
                    pathname: regs.args[0],
                    mode: #[verifier::truncate] (regs.args[1] as u32),
                })
            },
            Some(SyscallId::Rmdir) => {
                SyscallRawArgs::Rmdir(RmdirRawArgs {
                    pathname: regs.args[0],
                })
            },
            Some(SyscallId::Creat) => {
                SyscallRawArgs::Creat(CreatRawArgs {
                    pathname: regs.args[0],
                    mode: #[verifier::truncate] (regs.args[1] as u32),
                })
            },
            Some(SyscallId::Link) => {
                SyscallRawArgs::Link(LinkRawArgs {
                    oldpath: regs.args[0],
                    newpath: regs.args[1],
                })
            },
            Some(SyscallId::Unlink) => {
                SyscallRawArgs::Unlink(UnlinkRawArgs {
                    pathname: regs.args[0],
                })
            },
            Some(SyscallId::Symlink) => {
                SyscallRawArgs::Symlink(SymlinkRawArgs {
                    target: regs.args[0],
                    linkpath: regs.args[1],
                })
            },
            Some(SyscallId::Readlink) => {
                SyscallRawArgs::Readlink(ReadlinkRawArgs {
                    pathname: regs.args[0],
                    buf: regs.args[1],
                    bufsiz: #[verifier::truncate] (regs.args[2] as usize),
                })
            },
            Some(SyscallId::Chmod) => {
                SyscallRawArgs::Chmod(ChmodRawArgs {
                    pathname: regs.args[0],
                    mode: #[verifier::truncate] (regs.args[1] as u32),
                })
            },
            Some(SyscallId::Fchmod) => {
                SyscallRawArgs::Fchmod(FchmodRawArgs {
                    fd: #[verifier::truncate] (regs.args[0] as i32),
                    mode: #[verifier::truncate] (regs.args[1] as u32),
                })
            },
            Some(SyscallId::Chown) => {
                SyscallRawArgs::Chown(ChownRawArgs {
                    pathname: regs.args[0],
                    owner: #[verifier::truncate] (regs.args[1] as u32),
                    group: #[verifier::truncate] (regs.args[2] as u32),
                })
            },
            Some(SyscallId::Fchown) => {
                SyscallRawArgs::Fchown(FchownRawArgs {
                    fd: #[verifier::truncate] (regs.args[0] as i32),
                    owner: #[verifier::truncate] (regs.args[1] as u32),
                    group: #[verifier::truncate] (regs.args[2] as u32),
                })
            },
            Some(SyscallId::Lchown) => {
                SyscallRawArgs::Lchown(LchownRawArgs {
                    pathname: regs.args[0],
                    owner: #[verifier::truncate] (regs.args[1] as u32),
                    group: #[verifier::truncate] (regs.args[2] as u32),
                })
            },
            Some(SyscallId::Umask) => {
                SyscallRawArgs::Umask(UmaskRawArgs {
                    mask: #[verifier::truncate] (regs.args[0] as u32),
                })
            },
            Some(SyscallId::Gettimeofday) => {
                SyscallRawArgs::Gettimeofday(GettimeofdayRawArgs {
                    tv: regs.args[0],
                    tz: regs.args[1],
                })
            },
            Some(SyscallId::Getrlimit) => {
                SyscallRawArgs::Getrlimit(GetrlimitRawArgs {
                    resource: #[verifier::truncate] (regs.args[0] as i32),
                    rlim: regs.args[1],
                })
            },
            Some(SyscallId::Times) => {
                SyscallRawArgs::Times(TimesRawArgs {
                    buf: regs.args[0],
                })
            },
            Some(SyscallId::Ptrace) => {
                SyscallRawArgs::Ptrace(PtraceRawArgs {
                    request: #[verifier::truncate] (regs.args[0] as i32),
                    pid: #[verifier::truncate] (regs.args[1] as i32),
                    addr: regs.args[2],
                    data: regs.args[3],
                })
            },
            Some(SyscallId::Getuid) => {
                SyscallRawArgs::Getuid(GetuidRawArgs {
                })
            },
            Some(SyscallId::Getgid) => {
                SyscallRawArgs::Getgid(GetgidRawArgs {
                })
            },
            Some(SyscallId::Setuid) => {
                SyscallRawArgs::Setuid(SetuidRawArgs {
                    uid: #[verifier::truncate] (regs.args[0] as u32),
                })
            },
            Some(SyscallId::Setgid) => {
                SyscallRawArgs::Setgid(SetgidRawArgs {
                    gid: #[verifier::truncate] (regs.args[0] as u32),
                })
            },
            Some(SyscallId::Geteuid) => {
                SyscallRawArgs::Geteuid(GeteuidRawArgs {
                })
            },
            Some(SyscallId::Getegid) => {
                SyscallRawArgs::Getegid(GetegidRawArgs {
                })
            },
            Some(SyscallId::Setpgid) => {
                SyscallRawArgs::Setpgid(SetpgidRawArgs {
                    pid: #[verifier::truncate] (regs.args[0] as i32),
                    pgid: #[verifier::truncate] (regs.args[1] as i32),
                })
            },
            Some(SyscallId::Getppid) => {
                SyscallRawArgs::Getppid(GetppidRawArgs {
                })
            },
            Some(SyscallId::Setsid) => {
                SyscallRawArgs::Setsid(SetsidRawArgs {
                })
            },
            Some(SyscallId::Setreuid) => {
                SyscallRawArgs::Setreuid(SetreuidRawArgs {
                    ruid: #[verifier::truncate] (regs.args[0] as u32),
                    euid: #[verifier::truncate] (regs.args[1] as u32),
                })
            },
            Some(SyscallId::Setregid) => {
                SyscallRawArgs::Setregid(SetregidRawArgs {
                    rgid: #[verifier::truncate] (regs.args[0] as u32),
                    egid: #[verifier::truncate] (regs.args[1] as u32),
                })
            },
            Some(SyscallId::Setresuid) => {
                SyscallRawArgs::Setresuid(SetresuidRawArgs {
                    ruid: #[verifier::truncate] (regs.args[0] as u32),
                    euid: #[verifier::truncate] (regs.args[1] as u32),
                    suid: #[verifier::truncate] (regs.args[2] as u32),
                })
            },
            Some(SyscallId::Getresuid) => {
                SyscallRawArgs::Getresuid(GetresuidRawArgs {
                    ruid: regs.args[0],
                    euid: regs.args[1],
                    suid: regs.args[2],
                })
            },
            Some(SyscallId::Setresgid) => {
                SyscallRawArgs::Setresgid(SetresgidRawArgs {
                    rgid: #[verifier::truncate] (regs.args[0] as u32),
                    egid: #[verifier::truncate] (regs.args[1] as u32),
                    sgid: #[verifier::truncate] (regs.args[2] as u32),
                })
            },
            Some(SyscallId::Getresgid) => {
                SyscallRawArgs::Getresgid(GetresgidRawArgs {
                    rgid: regs.args[0],
                    egid: regs.args[1],
                    sgid: regs.args[2],
                })
            },
            Some(SyscallId::Getpgid) => {
                SyscallRawArgs::Getpgid(GetpgidRawArgs {
                    pid: #[verifier::truncate] (regs.args[0] as i32),
                })
            },
            Some(SyscallId::Getsid) => {
                SyscallRawArgs::Getsid(GetsidRawArgs {
                    pid: #[verifier::truncate] (regs.args[0] as i32),
                })
            },
            Some(SyscallId::Capget) => {
                SyscallRawArgs::Capget(CapgetRawArgs {
                    hdrp: regs.args[0],
                    datap: regs.args[1],
                })
            },
            Some(SyscallId::Statfs) => {
                SyscallRawArgs::Statfs(StatfsRawArgs {
                    path: regs.args[0],
                    buf: regs.args[1],
                })
            },
            Some(SyscallId::Fstatfs) => {
                SyscallRawArgs::Fstatfs(FstatfsRawArgs {
                    fd: #[verifier::truncate] (regs.args[0] as i32),
                    buf: regs.args[1],
                })
            },
            Some(SyscallId::Sync) => {
                SyscallRawArgs::Sync(SyncRawArgs {
                })
            },
            Some(SyscallId::Settimeofday) => {
                SyscallRawArgs::Settimeofday(SettimeofdayRawArgs {
                    tv: regs.args[0],
                    tz: regs.args[1],
                })
            },
            Some(SyscallId::Umount2) => {
                SyscallRawArgs::Umount2(Umount2RawArgs {
                    target: regs.args[0],
                    flags: #[verifier::truncate] (regs.args[1] as i32),
                })
            },
            Some(SyscallId::Sethostname) => {
                SyscallRawArgs::Sethostname(SethostnameRawArgs {
                    name: regs.args[0],
                    len: #[verifier::truncate] (regs.args[1] as usize),
                })
            },
            Some(SyscallId::Setdomainname) => {
                SyscallRawArgs::Setdomainname(SetdomainnameRawArgs {
                    name: regs.args[0],
                    len: #[verifier::truncate] (regs.args[1] as usize),
                })
            },
            Some(SyscallId::Gettid) => {
                SyscallRawArgs::Gettid(GettidRawArgs {
                })
            },
            Some(SyscallId::Futex) => {
                SyscallRawArgs::Futex(FutexRawArgs {
                    uaddr: regs.args[0],
                    futex_op: #[verifier::truncate] (regs.args[1] as i32),
                    val: #[verifier::truncate] (regs.args[2] as u32),
                    val2: #[verifier::truncate] (regs.args[3] as usize),
                    uaddr2: regs.args[4],
                    val3: #[verifier::truncate] (regs.args[5] as u32),
                })
            },
            Some(SyscallId::SchedGetaffinity) => {
                SyscallRawArgs::SchedGetaffinity(SchedGetaffinityRawArgs {
                    pid: #[verifier::truncate] (regs.args[0] as i32),
                    cpusetsize: #[verifier::truncate] (regs.args[1] as usize),
                    mask: regs.args[2],
                })
            },
            Some(SyscallId::ClockSettime) => {
                SyscallRawArgs::ClockSettime(ClockSettimeRawArgs {
                    clk_id: #[verifier::truncate] (regs.args[0] as i32),
                    tp: regs.args[1],
                })
            },
            Some(SyscallId::ClockGettime) => {
                SyscallRawArgs::ClockGettime(ClockGettimeRawArgs {
                    clk_id: #[verifier::truncate] (regs.args[0] as i32),
                    tp: regs.args[1],
                })
            },
            Some(SyscallId::ClockGetres) => {
                SyscallRawArgs::ClockGetres(ClockGetresRawArgs {
                    clk_id: #[verifier::truncate] (regs.args[0] as i32),
                    res: regs.args[1],
                })
            },
            Some(SyscallId::ClockNanosleep) => {
                SyscallRawArgs::ClockNanosleep(ClockNanosleepRawArgs {
                    clockid: #[verifier::truncate] (regs.args[0] as i32),
                    flags: #[verifier::truncate] (regs.args[1] as i32),
                    request: regs.args[2],
                    remain: regs.args[3],
                })
            },
            Some(SyscallId::ExitGroup) => {
                SyscallRawArgs::ExitGroup(ExitGroupRawArgs {
                    status: #[verifier::truncate] (regs.args[0] as i32),
                })
            },
            Some(SyscallId::Utimes) => {
                SyscallRawArgs::Utimes(UtimesRawArgs {
                    filename: regs.args[0],
                    times: regs.args[1],
                })
            },
            Some(SyscallId::Openat) => {
                SyscallRawArgs::Openat(OpenatRawArgs {
                    dirfd: #[verifier::truncate] (regs.args[0] as i32),
                    pathname: regs.args[1],
                    flags: #[verifier::truncate] (regs.args[2] as i32),
                    mode: #[verifier::truncate] (regs.args[3] as u32),
                })
            },
            Some(SyscallId::Mkdirat) => {
                SyscallRawArgs::Mkdirat(MkdiratRawArgs {
                    dirfd: #[verifier::truncate] (regs.args[0] as i32),
                    pathname: regs.args[1],
                    mode: #[verifier::truncate] (regs.args[2] as u32),
                })
            },
            Some(SyscallId::Fchownat) => {
                SyscallRawArgs::Fchownat(FchownatRawArgs {
                    dirfd: #[verifier::truncate] (regs.args[0] as i32),
                    pathname: regs.args[1],
                    owner: #[verifier::truncate] (regs.args[2] as u32),
                    group: #[verifier::truncate] (regs.args[3] as u32),
                    flags: #[verifier::truncate] (regs.args[4] as i32),
                })
            },
            Some(SyscallId::Newfstatat) => {
                SyscallRawArgs::Newfstatat(NewfstatatRawArgs {
                    dirfd: #[verifier::truncate] (regs.args[0] as i32),
                    pathname: regs.args[1],
                    statbuf: regs.args[2],
                    flags: #[verifier::truncate] (regs.args[3] as i32),
                })
            },
            Some(SyscallId::Unlinkat) => {
                SyscallRawArgs::Unlinkat(UnlinkatRawArgs {
                    dirfd: #[verifier::truncate] (regs.args[0] as i32),
                    pathname: regs.args[1],
                    flags: #[verifier::truncate] (regs.args[2] as i32),
                })
            },
            Some(SyscallId::Renameat) => {
                SyscallRawArgs::Renameat(RenameatRawArgs {
                    olddirfd: #[verifier::truncate] (regs.args[0] as i32),
                    oldpath: regs.args[1],
                    newdirfd: #[verifier::truncate] (regs.args[2] as i32),
                    newpath: regs.args[3],
                })
            },
            Some(SyscallId::Linkat) => {
                SyscallRawArgs::Linkat(LinkatRawArgs {
                    olddirfd: #[verifier::truncate] (regs.args[0] as i32),
                    oldpath: regs.args[1],
                    newdirfd: #[verifier::truncate] (regs.args[2] as i32),
                    newpath: regs.args[3],
                    flags: #[verifier::truncate] (regs.args[4] as i32),
                })
            },
            Some(SyscallId::Symlinkat) => {
                SyscallRawArgs::Symlinkat(SymlinkatRawArgs {
                    target: regs.args[0],
                    newdirfd: #[verifier::truncate] (regs.args[1] as i32),
                    linkpath: regs.args[2],
                })
            },
            Some(SyscallId::Readlinkat) => {
                SyscallRawArgs::Readlinkat(ReadlinkatRawArgs {
                    dirfd: #[verifier::truncate] (regs.args[0] as i32),
                    pathname: regs.args[1],
                    buf: regs.args[2],
                    bufsiz: #[verifier::truncate] (regs.args[3] as usize),
                })
            },
            Some(SyscallId::Fchmodat) => {
                SyscallRawArgs::Fchmodat(FchmodatRawArgs {
                    dirfd: #[verifier::truncate] (regs.args[0] as i32),
                    pathname: regs.args[1],
                    mode: #[verifier::truncate] (regs.args[2] as u32),
                })
            },
            Some(SyscallId::Faccessat) => {
                SyscallRawArgs::Faccessat(FaccessatRawArgs {
                    dirfd: #[verifier::truncate] (regs.args[0] as i32),
                    pathname: regs.args[1],
                    mode: #[verifier::truncate] (regs.args[2] as i32),
                })
            },
            Some(SyscallId::Accept4) => {
                SyscallRawArgs::Accept4(Accept4RawArgs {
                    socketfd: #[verifier::truncate] (regs.args[0] as i32),
                    addr: regs.args[1],
                    addrlen: regs.args[2],
                    flags: #[verifier::truncate] (regs.args[3] as i32),
                })
            },
            Some(SyscallId::Eventfd2) => {
                SyscallRawArgs::Eventfd2(Eventfd2RawArgs {
                    initval: #[verifier::truncate] (regs.args[0] as u32),
                    flags: #[verifier::truncate] (regs.args[1] as i32),
                })
            },
            Some(SyscallId::EpollCreate1) => {
                SyscallRawArgs::EpollCreate1(EpollCreate1RawArgs {
                    flags: #[verifier::truncate] (regs.args[0] as i32),
                })
            },
            Some(SyscallId::Dup3) => {
                SyscallRawArgs::Dup3(Dup3RawArgs {
                    oldfd: #[verifier::truncate] (regs.args[0] as i32),
                    newfd: #[verifier::truncate] (regs.args[1] as i32),
                    flags: #[verifier::truncate] (regs.args[2] as i32),
                })
            },
            Some(SyscallId::Pipe2) => {
                SyscallRawArgs::Pipe2(Pipe2RawArgs {
                    pipefd: regs.args[0],
                    flags: #[verifier::truncate] (regs.args[1] as i32),
                })
            },
            Some(SyscallId::InotifyInit1) => {
                SyscallRawArgs::InotifyInit1(InotifyInit1RawArgs {
                    flags: #[verifier::truncate] (regs.args[0] as i32),
                })
            },
            Some(SyscallId::Prlimit64) => {
                SyscallRawArgs::Prlimit64(Prlimit64RawArgs {
                    pid: #[verifier::truncate] (regs.args[0] as i32),
                    resource: #[verifier::truncate] (regs.args[1] as i32),
                    new_limit: regs.args[2],
                    old_limit: regs.args[3],
                })
            },
            Some(SyscallId::Getrandom) => {
                SyscallRawArgs::Getrandom(GetrandomRawArgs {
                    buf: regs.args[0],
                    buflen: #[verifier::truncate] (regs.args[1] as usize),
                    flags: #[verifier::truncate] (regs.args[2] as u32),
                })
            },
            Some(SyscallId::MemfdCreate) => {
                SyscallRawArgs::MemfdCreate(MemfdCreateRawArgs {
                    name: regs.args[0],
                    flags: #[verifier::truncate] (regs.args[1] as u32),
                })
            },
            Some(SyscallId::Rseq) => {
                SyscallRawArgs::Rseq(RseqRawArgs {
                    rseq: regs.args[0],
                    rseq_len: #[verifier::truncate] (regs.args[1] as u32),
                    flags: #[verifier::truncate] (regs.args[2] as i32),
                    sig: #[verifier::truncate] (regs.args[3] as u32),
                })
            },
            Some(SyscallId::PidfdOpen) => {
                SyscallRawArgs::PidfdOpen(PidfdOpenRawArgs {
                    pid: #[verifier::truncate] (regs.args[0] as i32),
                    flags: #[verifier::truncate] (regs.args[1] as u32),
                })
            },
            Some(SyscallId::CloseRange) => {
                SyscallRawArgs::CloseRange(CloseRangeRawArgs {
                    first: #[verifier::truncate] (regs.args[0] as u32),
                    last: #[verifier::truncate] (regs.args[1] as u32),
                    flags: #[verifier::truncate] (regs.args[2] as u32),
                })
            },
            Some(SyscallId::LandlockCreateRuleset) => {
                SyscallRawArgs::LandlockCreateRuleset(LandlockCreateRulesetRawArgs {
                    ruleset_attr: regs.args[0],
                    size: #[verifier::truncate] (regs.args[1] as usize),
                    flags: #[verifier::truncate] (regs.args[2] as u32),
                })
            },
            Some(SyscallId::Cachestat) => {
                SyscallRawArgs::Cachestat(CachestatRawArgs {
                    fd: #[verifier::truncate] (regs.args[0] as i32),
                    cstat_range: regs.args[1],
                    cstat: regs.args[2],
                    flags: #[verifier::truncate] (regs.args[3] as u32),
                })
            },
            Some(SyscallId::Statmount) => {
                SyscallRawArgs::Statmount(StatmountRawArgs {
                    req: regs.args[0],
                    buf: regs.args[1],
                    bufsize: #[verifier::truncate] (regs.args[2] as usize),
                    flags: #[verifier::truncate] (regs.args[3] as u32),
                })
            },
        }
    }

    /// The category set declared in the table for this record's syscall;
    /// empty for `Unknown`.
    pub fn syscall_groups(&self) -> (r: GroupSet)
        ensures
            r.bits == match self.tag() {
                Some(id) => groups_of_spec(id),
                None => 0,
            },
    {
        match self {
            SyscallRawArgs::Read(_) => GroupSet { bits: groups_of(SyscallId::Read) },
            SyscallRawArgs::Write(_) => GroupSet { bits: groups_of(SyscallId::Write) },
            SyscallRawArgs::Open(_) => GroupSet { bits: groups_of(SyscallId::Open) },
            SyscallRawArgs::Close(_) => GroupSet { bits: groups_of(SyscallId::Close) },
            SyscallRawArgs::Stat(_) => GroupSet { bits: groups_of(SyscallId::Stat) },
            SyscallRawArgs::Fstat(_) => GroupSet { bits: groups_of(SyscallId::Fstat) },
            SyscallRawArgs::Lstat(_) => GroupSet { bits: groups_of(SyscallId::Lstat) },
            SyscallRawArgs::Lseek(_) => GroupSet { bits: groups_of(SyscallId::Lseek) },
            SyscallRawArgs::Mmap(_) => GroupSet { bits: groups_of(SyscallId::Mmap) },
            SyscallRawArgs::Mprotect(_) => GroupSet { bits: groups_of(SyscallId::Mprotect) },
            SyscallRawArgs::Munmap(_) => GroupSet { bits: groups_of(SyscallId::Munmap) },
            SyscallRawArgs::Brk(_) => GroupSet { bits: groups_of(SyscallId::Brk) },
            SyscallRawArgs::RtSigreturn(_) => GroupSet { bits: groups_of(SyscallId::RtSigreturn) },
            SyscallRawArgs::Ioctl(_) => GroupSet { bits: groups_of(SyscallId::Ioctl) },
            SyscallRawArgs::Pread64(_) => GroupSet { bits: groups_of(SyscallId::Pread64) },
            SyscallRawArgs::Pwrite64(_) => GroupSet { bits: groups_of(SyscallId::Pwrite64) },
            SyscallRawArgs::Access(_) => GroupSet { bits: groups_of(SyscallId::Access) },
            SyscallRawArgs::Pipe(_) => GroupSet { bits: groups_of(SyscallId::Pipe) },
            SyscallRawArgs::SchedYield(_) => GroupSet { bits: groups_of(SyscallId::SchedYield) },
            SyscallRawArgs::Mremap(_) => GroupSet { bits: groups_of(SyscallId::Mremap) },
            SyscallRawArgs::Msync(_) => GroupSet { bits: groups_of(SyscallId::Msync) },
            SyscallRawArgs::Madvise(_) => GroupSet { bits: groups_of(SyscallId::Madvise) },
            SyscallRawArgs::Shmget(_) => GroupSet { bits: groups_of(SyscallId::Shmget) },
            SyscallRawArgs::Shmat(_) => GroupSet { bits: groups_of(SyscallId::Shmat) },
            SyscallRawArgs::Dup(_) => GroupSet { bits: groups_of(SyscallId::Dup) },
            SyscallRawArgs::Dup2(_) => GroupSet { bits: groups_of(SyscallId::Dup2) },
            SyscallRawArgs::Pause(_) => GroupSet { bits: groups_of(SyscallId::Pause) },
            SyscallRawArgs::Nanosleep(_) => GroupSet { bits: groups_of(SyscallId::Nanosleep) },
            SyscallRawArgs::Alarm(_) => GroupSet { bits: groups_of(SyscallId::Alarm) },
            SyscallRawArgs::Getpid(_) => GroupSet { bits: groups_of(SyscallId::Getpid) },
            SyscallRawArgs::Socket(_) => GroupSet { bits: groups_of(SyscallId::Socket) },
            SyscallRawArgs::Connect(_) => GroupSet { bits: groups_of(SyscallId::Connect) },
            SyscallRawArgs::Accept(_) => GroupSet { bits: groups_of(SyscallId::Accept) },
            SyscallRawArgs::Shutdown(_) => GroupSet { bits: groups_of(SyscallId::Shutdown) },
            SyscallRawArgs::Bind(_) => GroupSet { bits: groups_of(SyscallId::Bind) },
            SyscallRawArgs::Listen(_) => GroupSet { bits: groups_of(SyscallId::Listen) },
            SyscallRawArgs::Getsockname(_) => GroupSet { bits: groups_of(SyscallId::Getsockname) },
            SyscallRawArgs::Getpeername(_) => GroupSet { bits: groups_of(SyscallId::Getpeername) },
            SyscallRawArgs::Socketpair(_) => GroupSet { bits: groups_of(SyscallId::Socketpair) },
            SyscallRawArgs::Clone(_) => GroupSet { bits: groups_of(SyscallId::Clone) },
            SyscallRawArgs::Execve(_) => GroupSet { bits: groups_of(SyscallId::Execve) },
            SyscallRawArgs::Exit(_) => GroupSet { bits: groups_of(SyscallId::Exit) },
            SyscallRawArgs::Kill(_) => GroupSet { bits: groups_of(SyscallId::Kill) },
            SyscallRawArgs::Semget(_) => GroupSet { bits: groups_of(SyscallId::Semget) },
            SyscallRawArgs::Semop(_) => GroupSet { bits: groups_of(SyscallId::Semop) },
            SyscallRawArgs::Semctl(_) => GroupSet { bits: groups_of(SyscallId::Semctl) },
            SyscallRawArgs::Shmdt(_) => GroupSet { bits: groups_of(SyscallId::Shmdt) },
            SyscallRawArgs::Msgget(_) => GroupSet { bits: groups_of(SyscallId::Msgget) },
            SyscallRawArgs::Msgsnd(_) => GroupSet { bits: groups_of(SyscallId::Msgsnd) },
            SyscallRawArgs::Fcntl(_) => GroupSet { bits: groups_of(SyscallId::Fcntl) },
            SyscallRawArgs::Flock(_) => GroupSet { bits: groups_of(SyscallId::Flock) },
            SyscallRawArgs::Fsync(_) => GroupSet { bits: groups_of(SyscallId::Fsync) },
            SyscallRawArgs::Fdatasync(_) => GroupSet { bits: groups_of(SyscallId::Fdatasync) },
            SyscallRawArgs::Truncate(_) => GroupSet { bits: groups_of(SyscallId::Truncate) },
            SyscallRawArgs::Ftruncate(_) => GroupSet { bits: groups_of(SyscallId::Ftruncate) },
            SyscallRawArgs::Getcwd(_) => GroupSet { bits: groups_of(SyscallId::Getcwd) },
            SyscallRawArgs::Chdir(_) => GroupSet { bits: groups_of(SyscallId::Chdir) },
            SyscallRawArgs::Rename(_) => GroupSet { bits: groups_of(SyscallId::Rename) },
            SyscallRawArgs::Mkdir(_) => GroupSet { bits: groups_of(SyscallId::Mkdir) },
            SyscallRawArgs::Rmdir(_) => GroupSet { bits: groups_of(SyscallId::Rmdir) },
            SyscallRawArgs::Creat(_) => GroupSet { bits: groups_of(SyscallId::Creat) },
            SyscallRawArgs::Link(_) => GroupSet { bits: groups_of(SyscallId::Link) },
            SyscallRawArgs::Unlink(_) => GroupSet { bits: groups_of(SyscallId::Unlink) },
            SyscallRawArgs::Symlink(_) => GroupSet { bits: groups_of(SyscallId::Symlink) },
            SyscallRawArgs::Readlink(_) => GroupSet { bits: groups_of(SyscallId::Readlink) },
            SyscallRawArgs::Chmod(_) => GroupSet { bits: groups_of(SyscallId::Chmod) },
            SyscallRawArgs::Fchmod(_) => GroupSet { bits: groups_of(SyscallId::Fchmod) },
            SyscallRawArgs::Chown(_) => GroupSet { bits: groups_of(SyscallId::Chown) },
            SyscallRawArgs::Fchown(_) => GroupSet { bits: groups_of(SyscallId::Fchown) },
            SyscallRawArgs::Lchown(_) => GroupSet { bits: groups_of(SyscallId::Lchown) },
            SyscallRawArgs::Umask(_) => GroupSet { bits: groups_of(SyscallId::Umask) },
            SyscallRawArgs::Gettimeofday(_) => GroupSet { bits: groups_of(SyscallId::Gettimeofday) },
            SyscallRawArgs::Getrlimit(_) => GroupSet { bits: groups_of(SyscallId::Getrlimit) },
            SyscallRawArgs::Times(_) => GroupSet { bits: groups_of(SyscallId::Times) },
            SyscallRawArgs::Ptrace(_) => GroupSet { bits: groups_of(SyscallId::Ptrace) },
            SyscallRawArgs::Getuid(_) => GroupSet { bits: groups_of(SyscallId::Getuid) },
            SyscallRawArgs::Getgid(_) => GroupSet { bits: groups_of(SyscallId::Getgid) },
            SyscallRawArgs::Setuid(_) => GroupSet { bits: groups_of(SyscallId::Setuid) },
            SyscallRawArgs::Setgid(_) => GroupSet { bits: groups_of(SyscallId::Setgid) },
            SyscallRawArgs::Geteuid(_) => GroupSet { bits: groups_of(SyscallId::Geteuid) },
            SyscallRawArgs::Getegid(_) => GroupSet { bits: groups_of(SyscallId::Getegid) },
            SyscallRawArgs::Setpgid(_) => GroupSet { bits: groups_of(SyscallId::Setpgid) },
            SyscallRawArgs::Getppid(_) => GroupSet { bits: groups_of(SyscallId::Getppid) },
            SyscallRawArgs::Setsid(_) => GroupSet { bits: groups_of(SyscallId::Setsid) },
            SyscallRawArgs::Setreuid(_) => GroupSet { bits: groups_of(SyscallId::Setreuid) },
            SyscallRawArgs::Setregid(_) => GroupSet { bits: groups_of(SyscallId::Setregid) },
            SyscallRawArgs::Setresuid(_) => GroupSet { bits: groups_of(SyscallId::Setresuid) },
            SyscallRawArgs::Getresuid(_) => GroupSet { bits: groups_of(SyscallId::Getresuid) },
            SyscallRawArgs::Setresgid(_) => GroupSet { bits: groups_of(SyscallId::Setresgid) },
            SyscallRawArgs::Getresgid(_) => GroupSet { bits: groups_of(SyscallId::Getresgid) },
            SyscallRawArgs::Getpgid(_) => GroupSet { bits: groups_of(SyscallId::Getpgid) },
            SyscallRawArgs::Getsid(_) => GroupSet { bits: groups_of(SyscallId::Getsid) },
            SyscallRawArgs::Capget(_) => GroupSet { bits: groups_of(SyscallId::Capget) },
            SyscallRawArgs::Statfs(_) => GroupSet { bits: groups_of(SyscallId::Statfs) },
            SyscallRawArgs::Fstatfs(_) => GroupSet { bits: groups_of(SyscallId::Fstatfs) },
            SyscallRawArgs::Sync(_) => GroupSet { bits: groups_of(SyscallId::Sync) },
            SyscallRawArgs::Settimeofday(_) => GroupSet { bits: groups_of(SyscallId::Settimeofday) },
            SyscallRawArgs::Umount2(_) => GroupSet { bits: groups_of(SyscallId::Umount2) },
            SyscallRawArgs::Sethostname(_) => GroupSet { bits: groups_of(SyscallId::Sethostname) },
            SyscallRawArgs::Setdomainname(_) => GroupSet { bits: groups_of(SyscallId::Setdomainname) },
            SyscallRawArgs::Gettid(_) => GroupSet { bits: groups_of(SyscallId::Gettid) },
            SyscallRawArgs::Futex(_) => GroupSet { bits: groups_of(SyscallId::Futex) },
            SyscallRawArgs::SchedGetaffinity(_) => GroupSet { bits: groups_of(SyscallId::SchedGetaffinity) },
            SyscallRawArgs::ClockSettime(_) => GroupSet { bits: groups_of(SyscallId::ClockSettime) },
            SyscallRawArgs::ClockGettime(_) => GroupSet { bits: groups_of(SyscallId::ClockGettime) },
            SyscallRawArgs::ClockGetres(_) => GroupSet { bits: groups_of(SyscallId::ClockGetres) },
            SyscallRawArgs::ClockNanosleep(_) => GroupSet { bits: groups_of(SyscallId::ClockNanosleep) },
            SyscallRawArgs::ExitGroup(_) => GroupSet { bits: groups_of(SyscallId::ExitGroup) },
            SyscallRawArgs::Utimes(_) => GroupSet { bits: groups_of(SyscallId::Utimes) },
            SyscallRawArgs::Openat(_) => GroupSet { bits: groups_of(SyscallId::Openat) },
            SyscallRawArgs::Mkdirat(_) => GroupSet { bits: groups_of(SyscallId::Mkdirat) },
            SyscallRawArgs::Fchownat(_) => GroupSet { bits: groups_of(SyscallId::Fchownat) },
            SyscallRawArgs::Newfstatat(_) => GroupSet { bits: groups_of(SyscallId::Newfstatat) },
            SyscallRawArgs::Unlinkat(_) => GroupSet { bits: groups_of(SyscallId::Unlinkat) },
            SyscallRawArgs::Renameat(_) => GroupSet { bits: groups_of(SyscallId::Renameat) },
            SyscallRawArgs::Linkat(_) => GroupSet { bits: groups_of(SyscallId::Linkat) },
            SyscallRawArgs::Symlinkat(_) => GroupSet { bits: groups_of(SyscallId::Symlinkat) },
            SyscallRawArgs::Readlinkat(_) => GroupSet { bits: groups_of(SyscallId::Readlinkat) },
            SyscallRawArgs::Fchmodat(_) => GroupSet { bits: groups_of(SyscallId::Fchmodat) },
            SyscallRawArgs::Faccessat(_) => GroupSet { bits: groups_of(SyscallId::Faccessat) },
            SyscallRawArgs::Accept4(_) => GroupSet { bits: groups_of(SyscallId::Accept4) },
            SyscallRawArgs::Eventfd2(_) => GroupSet { bits: groups_of(SyscallId::Eventfd2) },
            SyscallRawArgs::EpollCreate1(_) => GroupSet { bits: groups_of(SyscallId::EpollCreate1) },
            SyscallRawArgs::Dup3(_) => GroupSet { bits: groups_of(SyscallId::Dup3) },
            SyscallRawArgs::Pipe2(_) => GroupSet { bits: groups_of(SyscallId::Pipe2) },
            SyscallRawArgs::InotifyInit1(_) => GroupSet { bits: groups_of(SyscallId::InotifyInit1) },
            SyscallRawArgs::Prlimit64(_) => GroupSet { bits: groups_of(SyscallId::Prlimit64) },
            SyscallRawArgs::Getrandom(_) => GroupSet { bits: groups_of(SyscallId::Getrandom) },
            SyscallRawArgs::MemfdCreate(_) => GroupSet { bits: groups_of(SyscallId::MemfdCreate) },
            SyscallRawArgs::Rseq(_) => GroupSet { bits: groups_of(SyscallId::Rseq) },
            SyscallRawArgs::PidfdOpen(_) => GroupSet { bits: groups_of(SyscallId::PidfdOpen) },
            SyscallRawArgs::CloseRange(_) => GroupSet { bits: groups_of(SyscallId::CloseRange) },
            SyscallRawArgs::LandlockCreateRuleset(_) => GroupSet { bits: groups_of(SyscallId::LandlockCreateRuleset) },
            SyscallRawArgs::Cachestat(_) => GroupSet { bits: groups_of(SyscallId::Cachestat) },
            SyscallRawArgs::Statmount(_) => GroupSet { bits: groups_of(SyscallId::Statmount) },
            SyscallRawArgs::Unknown(_) => GroupSet::empty(),
        }
    }
}

} // verus!
