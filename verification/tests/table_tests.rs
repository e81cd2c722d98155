//! Dispatch-table tests: raw round trips, unknown preservation across the
//! pipeline, architecture divergence, and category sets.

use tracer_syscalls::arch::{Arch, RegisterSnapshot};
use tracer_syscalls::groups::SyscallGroups;
use tracer_syscalls::mem::VecMem;
use tracer_syscalls::reader::MemReader;
use tracer_syscalls::decode::{SyscallArgs, SyscallModifiedArgs};
use tracer_syscalls::syscalls::SyscallRawArgs;
use tracer_syscalls::SyscallNumber;
use tracer_syscalls::{nr_aarch64, nr_riscv64, nr_x86_64};

fn regs(arch: Arch, number: u64, args: [u64; 6]) -> RegisterSnapshot {
    RegisterSnapshot { arch, number, args, result: 0 }
}

fn empty_reader() -> MemReader<VecMem> {
    MemReader::new(VecMem { base: 0x1000, bytes: Vec::new() }, 4096)
}

#[test]
fn openat_round_trip_x86_64() {
    let r = regs(Arch::X86_64, 257, [11, 0x2000, 0x241, 0o600, 7, 8]);
    match SyscallRawArgs::from_regs(&r) {
        SyscallRawArgs::Openat(a) => {
            assert_eq!(a.dirfd, 11);
            assert_eq!(a.pathname, 0x2000);
            assert_eq!(a.flags, 0x241);
            assert_eq!(a.mode, 0o600);
        }
        other => panic!("expected Openat, got {:?}", other),
    }
}

#[test]
fn openat_round_trip_aarch64_and_riscv64() {
    for arch in [Arch::Aarch64, Arch::Riscv64] {
        let r = regs(arch, 56, [3, 0x3000, 0, 0o644, 0, 0]);
        match SyscallRawArgs::from_regs(&r) {
            SyscallRawArgs::Openat(a) => {
                assert_eq!(a.dirfd, 3);
                assert_eq!(a.pathname, 0x3000);
                assert_eq!(a.mode, 0o644);
            }
            other => panic!("expected Openat, got {:?}", other),
        }
    }
}

#[test]
fn read_round_trip_negative_fd() {
    // slot values are cast to the declared raw types, two's complement
    let r = regs(Arch::X86_64, 0, [(-3i64) as u64, 0xdead, 16, 0, 0, 0]);
    match SyscallRawArgs::from_regs(&r) {
        SyscallRawArgs::Read(a) => {
            assert_eq!(a.fd, -3);
            assert_eq!(a.buf, 0xdead);
            assert_eq!(a.count, 16);
        }
        other => panic!("expected Read, got {:?}", other),
    }
}

#[test]
fn open_is_x86_64_only() {
    match SyscallRawArgs::from_regs(&regs(Arch::X86_64, 2, [1, 2, 3, 0, 0, 0])) {
        SyscallRawArgs::Open(_) => {}
        other => panic!("expected Open, got {:?}", other),
    }
    // number 2 is not assigned on aarch64 or riscv64
    match SyscallRawArgs::from_regs(&regs(Arch::Aarch64, 2, [1, 2, 3, 0, 0, 0])) {
        SyscallRawArgs::Unknown(u) => assert_eq!(u.number, 2),
        other => panic!("expected Unknown, got {:?}", other),
    }
}

#[test]
fn unknown_syscall_on_x86_64() {
    // a number outside the table flows through all three stages unchanged
    let r = regs(Arch::X86_64, 9999, [1, 2, 3, 4, 5, 6]);
    let raw = SyscallRawArgs::from_regs(&r);
    let u = match raw {
        SyscallRawArgs::Unknown(u) => u,
        ref other => panic!("expected Unknown, got {:?}", other),
    };
    assert_eq!(u.number, 9999);
    assert_eq!(u.syscall_number(), 9999);
    assert_eq!(u.args, [1, 2, 3, 4, 5, 6]);
    let mut rd = empty_reader();
    match raw.inspect_sysenter(&mut rd) {
        SyscallArgs::Unknown(v) => {
            assert_eq!(v.number, 9999);
            assert_eq!(v.args, [1, 2, 3, 4, 5, 6]);
        }
        other => panic!("expected Unknown entry record, got {:?}", other),
    }
    let exit_regs = RegisterSnapshot { arch: Arch::X86_64, number: 9999, args: [1, 2, 3, 4, 5, 6], result: 77 };
    match raw.inspect_sysexit(&mut rd, &exit_regs) {
        SyscallModifiedArgs::Unknown(v) => {
            assert_eq!(v.number, 9999);
            assert_eq!(v.args, [1, 2, 3, 4, 5, 6]);
        }
        other => panic!("expected Unknown exit record, got {:?}", other),
    }
}

#[test]
fn clone_arch_divergence() {
    // x86_64: parent_tid in slot 2, child_tid in slot 3, tls in slot 4
    let r = regs(Arch::X86_64, 56, [1, 2, 30, 40, 50, 0]);
    match SyscallRawArgs::from_regs(&r) {
        SyscallRawArgs::Clone(a) => {
            assert_eq!(a.parent_tid, 30);
            assert_eq!(a.child_tid, 40);
            assert_eq!(a.tls, 50);
        }
        other => panic!("expected Clone, got {:?}", other),
    }
    // aarch64 and riscv64: tls in slot 3, child_tid in slot 4
    for arch in [Arch::Aarch64, Arch::Riscv64] {
        let r = regs(arch, 220, [1, 2, 30, 40, 50, 0]);
        match SyscallRawArgs::from_regs(&r) {
            SyscallRawArgs::Clone(a) => {
                assert_eq!(a.parent_tid, 30);
                assert_eq!(a.tls, 40);
                assert_eq!(a.child_tid, 50);
            }
            other => panic!("expected Clone, got {:?}", other),
        }
    }
}

#[test]
fn number_constants_match_tables() {
    assert_eq!(nr_x86_64::SYS_READ, 0);
    assert_eq!(nr_x86_64::SYS_OPENAT, 257);
    assert_eq!(nr_x86_64::SYS_CLONE, 56);
    assert_eq!(nr_aarch64::SYS_OPENAT, 56);
    assert_eq!(nr_aarch64::SYS_CLONE, 220);
    assert_eq!(nr_riscv64::SYS_NANOSLEEP, 101);
    assert_eq!(nr_riscv64::SYS_STATFS, 43);
}

fn groups_of(raw: &SyscallRawArgs) -> Vec<SyscallGroups> {
    let gs = raw.syscall_groups();
    let all = [
        SyscallGroups::File,
        SyscallGroups::IPC,
        SyscallGroups::Network,
        SyscallGroups::Process,
        SyscallGroups::Signal,
        SyscallGroups::Desc,
        SyscallGroups::Memory,
        SyscallGroups::Stat,
        SyscallGroups::LStat,
        SyscallGroups::StatFs,
        SyscallGroups::FStatFs,
        SyscallGroups::StatFsLike,
        SyscallGroups::FStat,
        SyscallGroups::StatLike,
        SyscallGroups::Pure,
        SyscallGroups::Creds,
        SyscallGroups::Clock,
    ];
    all.into_iter().filter(|g| gs.contains(*g)).collect()
}

#[test]
fn category_sets_are_exact() {
    let cases: Vec<(Arch, u64, Vec<SyscallGroups>)> = vec![
        (Arch::X86_64, 257, vec![SyscallGroups::File, SyscallGroups::Desc]),  // openat
        (Arch::X86_64, 102, vec![SyscallGroups::Pure, SyscallGroups::Creds]), // getuid
        (Arch::X86_64, 5, vec![SyscallGroups::Desc, SyscallGroups::FStat, SyscallGroups::StatLike]), // fstat
        (Arch::X86_64, 29, vec![SyscallGroups::IPC]),                         // shmget
        (Arch::X86_64, 62, vec![SyscallGroups::Process, SyscallGroups::Signal]), // kill
        (Arch::X86_64, 9, vec![SyscallGroups::Memory]),                       // mmap
        (Arch::X86_64, 35, vec![SyscallGroups::Clock]),                       // nanosleep
        (Arch::X86_64, 42, vec![SyscallGroups::Network]),                     // connect
        (Arch::X86_64, 4, vec![SyscallGroups::File, SyscallGroups::Stat, SyscallGroups::StatLike]), // stat
        (Arch::X86_64, 6, vec![SyscallGroups::File, SyscallGroups::LStat, SyscallGroups::StatLike]), // lstat
        (Arch::X86_64, 137, vec![SyscallGroups::File, SyscallGroups::StatFs, SyscallGroups::StatFsLike]), // statfs
        (Arch::X86_64, 138, vec![SyscallGroups::Desc, SyscallGroups::FStatFs, SyscallGroups::StatFsLike]), // fstatfs
        (Arch::X86_64, 202, vec![]),                                          // futex
        (Arch::X86_64, 60, vec![SyscallGroups::Process]),                     // exit
    ];
    for (arch, number, mut expected) in cases {
        let raw = SyscallRawArgs::from_regs(&regs(arch, number, [0; 6]));
        let mut got = groups_of(&raw);
        got.sort_by_key(|g| format!("{:?}", g));
        expected.sort_by_key(|g| format!("{:?}", g));
        assert_eq!(got, expected, "categories of syscall {} differ", number);
    }
}

#[test]
fn unknown_has_empty_category_set() {
    let raw = SyscallRawArgs::from_regs(&regs(Arch::X86_64, 9999, [0; 6]));
    assert_eq!(raw.syscall_groups().bits, 0);
    assert!(!raw.syscall_groups().contains(SyscallGroups::File));
}

#[test]
fn every_assigned_number_dispatches_to_a_table_entry() {
    let x86: &[u64] = &[
        0, 1, 2, 3, 4, 5, 6, 8, 9, 10, 11, 12, 24, 28, 29, 32, 33, 35, 39, 42, 48, 49, 50, 56,
        59, 60, 62, 74, 77, 79, 80, 83, 84, 87, 96, 102, 104, 107, 108, 110, 125, 137, 138, 186,
        202, 231, 235, 257, 258, 262, 263, 267, 292, 293, 319, 334, 444, 451,
    ];
    let generic: &[u64] = &[
        17, 23, 24, 34, 35, 43, 44, 46, 49, 56, 57, 59, 62, 63, 64, 78, 79, 80, 82, 90, 93, 94,
        98, 101, 124, 129, 169, 172, 173, 174, 175, 176, 177, 178, 194, 200, 201, 203, 210, 214,
        215, 220, 221, 222, 226, 233, 279, 293, 444, 451,
    ];
    for &n in x86 {
        let raw = SyscallRawArgs::from_regs(&regs(Arch::X86_64, n, [0; 6]));
        assert!(!matches!(raw, SyscallRawArgs::Unknown(_)), "x86_64 number {} missing", n);
    }
    for &n in generic {
        for arch in [Arch::Aarch64, Arch::Riscv64] {
            let raw = SyscallRawArgs::from_regs(&regs(arch, n, [0; 6]));
            assert!(!matches!(raw, SyscallRawArgs::Unknown(_)), "number {} missing", n);
        }
    }
}

#[test]
fn new_entries_report_their_categories() {
    let raw = SyscallRawArgs::from_regs(&regs(Arch::X86_64, 110, [0; 6])); // getppid
    assert!(raw.syscall_groups().contains(SyscallGroups::Pure));
    assert!(!raw.syscall_groups().contains(SyscallGroups::Creds));
    let raw = SyscallRawArgs::from_regs(&regs(Arch::X86_64, 107, [0; 6])); // geteuid
    assert!(raw.syscall_groups().contains(SyscallGroups::Pure));
    assert!(raw.syscall_groups().contains(SyscallGroups::Creds));
    let raw = SyscallRawArgs::from_regs(&regs(Arch::X86_64, 262, [0; 6])); // newfstatat
    for g in [SyscallGroups::Desc, SyscallGroups::File, SyscallGroups::FStat, SyscallGroups::StatLike] {
        assert!(raw.syscall_groups().contains(g));
    }
}
