//! End-to-end decoding scenarios: entry and exit records built from staged
//! register snapshots and memory images.

use tracer_syscalls::arch::{Arch, RegisterSnapshot};
use tracer_syscalls::decode::{SyscallArgs, SyscallModifiedArgs};
use tracer_syscalls::mem::{VecMem, EFAULT};
use tracer_syscalls::outcome::InspectError;
use tracer_syscalls::reader::MemReader;
use tracer_syscalls::syscalls::SyscallRawArgs;

fn regs(arch: Arch, number: u64, args: [u64; 6], result: u64) -> RegisterSnapshot {
    RegisterSnapshot { arch, number, args, result }
}

fn reader(base: u64, bytes: Vec<u8>) -> MemReader<VecMem> {
    MemReader::new(VecMem { base, bytes }, 4096)
}

#[test]
fn openat_entry() {
    // raw = (dirfd=-100, pathname=A, flags=0x241, mode=0o600), "/tmp/x\0" at A
    let a: u64 = 0x7000;
    let mut img = vec![0u8; 8];
    img[..7].copy_from_slice(b"/tmp/x\0");
    let r = regs(Arch::X86_64, 257, [(-100i64) as u64, a, 0x241, 0o600, 0, 0], 0);
    let raw = SyscallRawArgs::from_regs(&r);
    let mut rd = reader(a, img);
    match raw.inspect_sysenter(&mut rd) {
        SyscallArgs::Openat(e) => {
            assert_eq!(e.dirfd, -100);
            assert_eq!(e.pathname, Ok(b"/tmp/x".to_vec()));
            assert_eq!(e.flags, 0x241);
            assert_eq!(e.mode, 0o600);
        }
        other => panic!("expected Openat, got {:?}", other),
    }
}

#[test]
fn read_exit_success_length_from_result() {
    // raw = (fd=7, buf=B, count=16), result = 5: the buffer length is the
    // result, not the count
    let b: u64 = 0x7100;
    let raw = SyscallRawArgs::from_regs(&regs(Arch::X86_64, 0, [7, b, 16, 0, 0, 0], 0));
    let mut img = vec![0u8; 8];
    img.copy_from_slice(b"hello+++");
    let mut rd = reader(b, img);
    let exit = regs(Arch::X86_64, 0, [0; 6], 5);
    match raw.inspect_sysexit(&mut rd, &exit) {
        SyscallModifiedArgs::Read(x) => {
            assert_eq!(x.syscall_result, 5);
            assert_eq!(x.buf, Ok(b"hello".to_vec()));
        }
        other => panic!("expected Read, got {:?}", other),
    }
}

#[test]
fn read_exit_failure_marks_output_failed() {
    // result = -5: no read is attempted, the output is marked failed
    let b: u64 = 0x7100;
    let raw = SyscallRawArgs::from_regs(&regs(Arch::X86_64, 0, [7, b, 16, 0, 0, 0], 0));
    let mut rd = reader(b, vec![0u8; 16]);
    let exit = regs(Arch::X86_64, 0, [0; 6], (-5i64) as u64);
    match raw.inspect_sysexit(&mut rd, &exit) {
        SyscallModifiedArgs::Read(x) => {
            assert_eq!(x.syscall_result, -5);
            assert_eq!(x.buf, Err(InspectError::SyscallFailure));
        }
        other => panic!("expected Read, got {:?}", other),
    }
}

#[test]
fn execve_entry_with_truncated_envp() {
    let base: u64 = 0x10000;
    let mut img = vec![0u8; 0x88];
    img[0x00..0x03].copy_from_slice(b"ls\0");
    img[0x10..0x13].copy_from_slice(b"-l\0");
    img[0x20..0x24].copy_from_slice(b"A=1\0");
    img[0x30..0x34].copy_from_slice(b"B=2\0");
    // argv: two good pointers, then the null terminator
    img[0x40..0x48].copy_from_slice(&base.to_le_bytes());
    img[0x48..0x50].copy_from_slice(&(base + 0x10).to_le_bytes());
    // envp: two good pointers, then one into an unmapped page
    img[0x60..0x68].copy_from_slice(&(base + 0x20).to_le_bytes());
    img[0x68..0x70].copy_from_slice(&(base + 0x30).to_le_bytes());
    img[0x70..0x78].copy_from_slice(&0x9999_9000u64.to_le_bytes());
    img[0x80..0x83].copy_from_slice(b"x\0\0");
    let r = regs(Arch::X86_64, 59, [base + 0x80, base + 0x40, base + 0x60, 0, 0, 0], 0);
    let raw = SyscallRawArgs::from_regs(&r);
    let mut rd = reader(base, img);
    match raw.inspect_sysenter(&mut rd) {
        SyscallArgs::Execve(e) => {
            assert_eq!(e.filename, Ok(b"x".to_vec()));
            assert_eq!(e.argv, Ok(Some(vec![b"ls".to_vec(), b"-l".to_vec()])));
            match e.envp {
                Err(InspectError::ReadFailure { errno, incomplete: Some(Some(p)) }) => {
                    assert_eq!(errno, EFAULT);
                    assert_eq!(p, vec![b"A=1".to_vec(), b"B=2".to_vec()]);
                }
                other => panic!("expected a truncated envp, got {:?}", other),
            }
        }
        other => panic!("expected Execve, got {:?}", other),
    }
}

#[test]
fn execve_entry_null_argv_is_absent() {
    // a zero argv slot decodes to the absent value without any read
    let base: u64 = 0x11000;
    let mut img = vec![0u8; 8];
    img[..2].copy_from_slice(b"x\0");
    let r = regs(Arch::X86_64, 59, [base, 0, 0, 0, 0, 0], 0);
    let raw = SyscallRawArgs::from_regs(&r);
    let mut rd = reader(base, img);
    match raw.inspect_sysenter(&mut rd) {
        SyscallArgs::Execve(e) => {
            assert_eq!(e.argv, Ok(None));
            assert_eq!(e.envp, Ok(None));
        }
        other => panic!("expected Execve, got {:?}", other),
    }
}

#[test]
fn utimes_entry_null_times_is_absent() {
    let base: u64 = 0x12000;
    let mut img = vec![0u8; 8];
    img[..2].copy_from_slice(b"f\0");
    let r = regs(Arch::X86_64, 235, [base, 0, 0, 0, 0, 0], 0);
    let raw = SyscallRawArgs::from_regs(&r);
    let mut rd = reader(base, img);
    match raw.inspect_sysenter(&mut rd) {
        SyscallArgs::Utimes(e) => {
            assert_eq!(e.filename, Ok(b"f".to_vec()));
            assert_eq!(e.times, Ok(None));
        }
        other => panic!("expected Utimes, got {:?}", other),
    }
}

#[test]
fn utimes_entry_reads_both_timevals() {
    let base: u64 = 0x13000;
    let mut img = vec![0u8; 0x30];
    img[0..2].copy_from_slice(b"f\0");
    // two timevals at base + 0x10
    img[0x10..0x18].copy_from_slice(&11i64.to_le_bytes());
    img[0x18..0x20].copy_from_slice(&22i64.to_le_bytes());
    img[0x20..0x28].copy_from_slice(&33i64.to_le_bytes());
    img[0x28..0x30].copy_from_slice(&44i64.to_le_bytes());
    let r = regs(Arch::X86_64, 235, [base, base + 0x10, 0, 0, 0, 0], 0);
    let raw = SyscallRawArgs::from_regs(&r);
    let mut rd = reader(base, img);
    match raw.inspect_sysenter(&mut rd) {
        SyscallArgs::Utimes(e) => match e.times {
            Ok(Some([t0, t1])) => {
                assert_eq!((t0.tv_sec, t0.tv_usec), (11, 22));
                assert_eq!((t1.tv_sec, t1.tv_usec), (33, 44));
            }
            other => panic!("expected both timevals, got {:?}", other),
        },
        other => panic!("expected Utimes, got {:?}", other),
    }
}

#[test]
fn nanosleep_entry_and_exit() {
    let base: u64 = 0x14000;
    let mut img = vec![0u8; 0x20];
    img[0x00..0x08].copy_from_slice(&3i64.to_le_bytes());
    img[0x08..0x10].copy_from_slice(&500i64.to_le_bytes());
    let r = regs(Arch::X86_64, 35, [base, 0, 0, 0, 0, 0], 0);
    let raw = SyscallRawArgs::from_regs(&r);
    let mut rd = reader(base, img);
    match raw.inspect_sysenter(&mut rd) {
        SyscallArgs::Nanosleep(e) => {
            let req = e.req.unwrap();
            assert_eq!((req.tv_sec, req.tv_nsec), (3, 500));
        }
        other => panic!("expected Nanosleep, got {:?}", other),
    }
    // on success with a null rem pointer, the output is absent
    let exit = regs(Arch::X86_64, 35, [0; 6], 0);
    match raw.inspect_sysexit(&mut rd, &exit) {
        SyscallModifiedArgs::Nanosleep(x) => {
            assert_eq!(x.syscall_result, 0);
            assert_eq!(x.rem, Ok(None));
        }
        other => panic!("expected Nanosleep, got {:?}", other),
    }
}

#[test]
fn fstat_exit_decodes_both_layouts() {
    // the same logical record under the x86_64 and the generic layout
    let base: u64 = 0x15000;
    let mut x86 = vec![0u8; 144];
    x86[24..28].copy_from_slice(&0o100644u32.to_le_bytes()); // st_mode
    x86[16..24].copy_from_slice(&3u64.to_le_bytes()); // st_nlink
    x86[48..56].copy_from_slice(&1234i64.to_le_bytes()); // st_size
    let raw = SyscallRawArgs::from_regs(&regs(Arch::X86_64, 5, [9, base, 0, 0, 0, 0], 0));
    let mut rd = reader(base, x86);
    match raw.inspect_sysexit(&mut rd, &regs(Arch::X86_64, 5, [0; 6], 0)) {
        SyscallModifiedArgs::Fstat(x) => {
            let st = x.statbuf.unwrap();
            assert_eq!(st.st_mode, 0o100644);
            assert_eq!(st.st_nlink, 3);
            assert_eq!(st.st_size, 1234);
        }
        other => panic!("expected Fstat, got {:?}", other),
    }
    let mut gen = vec![0u8; 128];
    gen[16..20].copy_from_slice(&0o100644u32.to_le_bytes()); // st_mode
    gen[20..24].copy_from_slice(&3u32.to_le_bytes()); // st_nlink
    gen[48..56].copy_from_slice(&1234i64.to_le_bytes()); // st_size
    let raw = SyscallRawArgs::from_regs(&regs(Arch::Aarch64, 80, [9, base, 0, 0, 0, 0], 0));
    let mut rd = reader(base, gen);
    match raw.inspect_sysexit(&mut rd, &regs(Arch::Aarch64, 80, [0; 6], 0)) {
        SyscallModifiedArgs::Fstat(x) => {
            let st = x.statbuf.unwrap();
            assert_eq!(st.st_mode, 0o100644);
            assert_eq!(st.st_nlink, 3);
            assert_eq!(st.st_size, 1234);
        }
        other => panic!("expected Fstat, got {:?}", other),
    }
}

#[test]
fn clone_exit_reads_both_tids() {
    let base: u64 = 0x16000;
    let mut img = vec![0u8; 16];
    img[0..4].copy_from_slice(&111i32.to_le_bytes());
    img[8..12].copy_from_slice(&222i32.to_le_bytes());
    let r = regs(Arch::X86_64, 56, [0, 0, base, base + 8, 0, 0], 0);
    let raw = SyscallRawArgs::from_regs(&r);
    let mut rd = reader(base, img);
    match raw.inspect_sysexit(&mut rd, &regs(Arch::X86_64, 56, [0; 6], 4242)) {
        SyscallModifiedArgs::Clone(x) => {
            assert_eq!(x.syscall_result, 4242);
            assert_eq!(x.parent_tid, Ok(111));
            assert_eq!(x.child_tid, Ok(222));
        }
        other => panic!("expected Clone, got {:?}", other),
    }
}

#[test]
fn pipe2_exit_reads_both_descriptors() {
    let base: u64 = 0x17000;
    let mut img = vec![0u8; 8];
    img[0..4].copy_from_slice(&5i32.to_le_bytes());
    img[4..8].copy_from_slice(&6i32.to_le_bytes());
    let raw = SyscallRawArgs::from_regs(&regs(Arch::X86_64, 293, [base, 0, 0, 0, 0, 0], 0));
    let mut rd = reader(base, img);
    match raw.inspect_sysexit(&mut rd, &regs(Arch::X86_64, 293, [0; 6], 0)) {
        SyscallModifiedArgs::Pipe2(x) => {
            assert_eq!(x.syscall_result, 0);
            assert_eq!(x.pipefd, Ok([5, 6]));
        }
        other => panic!("expected Pipe2, got {:?}", other),
    }
}

#[test]
fn gettimeofday_exit_with_null_timezone() {
    let base: u64 = 0x18000;
    let mut img = vec![0u8; 16];
    img[0..8].copy_from_slice(&1000i64.to_le_bytes());
    img[8..16].copy_from_slice(&250i64.to_le_bytes());
    let raw = SyscallRawArgs::from_regs(&regs(Arch::X86_64, 96, [base, 0, 0, 0, 0, 0], 0));
    let mut rd = reader(base, img);
    match raw.inspect_sysexit(&mut rd, &regs(Arch::X86_64, 96, [0; 6], 0)) {
        SyscallModifiedArgs::Gettimeofday(x) => {
            let tv = x.tv.unwrap();
            assert_eq!((tv.tv_sec, tv.tv_usec), (1000, 250));
            assert_eq!(x.tz, Ok(None));
        }
        other => panic!("expected Gettimeofday, got {:?}", other),
    }
}

#[test]
fn capget_exit_reads_header_and_data() {
    let base: u64 = 0x19000;
    let mut img = vec![0u8; 24];
    img[0..4].copy_from_slice(&0x20080522u32.to_le_bytes());
    img[4..8].copy_from_slice(&1234i32.to_le_bytes());
    img[8..12].copy_from_slice(&1u32.to_le_bytes());
    img[12..16].copy_from_slice(&2u32.to_le_bytes());
    img[16..20].copy_from_slice(&3u32.to_le_bytes());
    let raw = SyscallRawArgs::from_regs(&regs(Arch::X86_64, 125, [base, base + 8, 0, 0, 0, 0], 0));
    let mut rd = reader(base, img);
    match raw.inspect_sysexit(&mut rd, &regs(Arch::X86_64, 125, [0; 6], 0)) {
        SyscallModifiedArgs::Capget(x) => {
            let h = x.hdrp.unwrap();
            assert_eq!(h.version, 0x20080522);
            assert_eq!(h.pid, 1234);
            let d = x.datap.unwrap();
            assert_eq!((d.effective, d.permitted, d.inheritable), (1, 2, 3));
        }
        other => panic!("expected Capget, got {:?}", other),
    }
}

#[test]
fn exit_failure_zeroes_every_output() {
    // every syscall with outputs marks all of them failed on a negative result
    let base: u64 = 0x1a000;
    let cases: Vec<(u64, [u64; 6])> = vec![
        (0, [7, base, 16, 0, 0, 0]),     // read
        (5, [9, base, 0, 0, 0, 0]),      // fstat
        (96, [base, base, 0, 0, 0, 0]),  // gettimeofday
        (125, [base, base, 0, 0, 0, 0]), // capget
        (293, [base, 0, 0, 0, 0, 0]),    // pipe2
    ];
    for (number, args) in cases {
        let raw = SyscallRawArgs::from_regs(&regs(Arch::X86_64, number, args, 0));
        let mut rd = reader(base, vec![0u8; 0]);
        let exit = regs(Arch::X86_64, number, [0; 6], (-13i64) as u64);
        let decoded = raw.inspect_sysexit(&mut rd, &exit);
        match decoded {
            SyscallModifiedArgs::Read(x) => {
                assert_eq!(x.buf, Err(InspectError::SyscallFailure))
            }
            SyscallModifiedArgs::Fstat(x) => {
                assert_eq!(x.statbuf, Err(InspectError::SyscallFailure))
            }
            SyscallModifiedArgs::Gettimeofday(x) => {
                assert_eq!(x.tv, Err(InspectError::SyscallFailure));
                assert_eq!(x.tz, Err(InspectError::SyscallFailure));
            }
            SyscallModifiedArgs::Capget(x) => {
                assert_eq!(x.hdrp, Err(InspectError::SyscallFailure));
                assert_eq!(x.datap, Err(InspectError::SyscallFailure));
            }
            SyscallModifiedArgs::Pipe2(x) => {
                assert_eq!(x.pipefd, Err(InspectError::SyscallFailure))
            }
            other => panic!("unexpected record {:?}", other),
        }
    }
}

#[test]
fn write_entry_reads_counted_buffer() {
    let base: u64 = 0x1b000;
    let mut img = vec![0u8; 8];
    img[..3].copy_from_slice(b"abc");
    let raw = SyscallRawArgs::from_regs(&regs(Arch::X86_64, 1, [4, base, 3, 0, 0, 0], 0));
    let mut rd = reader(base, img);
    match raw.inspect_sysenter(&mut rd) {
        SyscallArgs::Write(e) => {
            assert_eq!(e.fd, 4);
            assert_eq!(e.buf, Ok(b"abc".to_vec()));
        }
        other => panic!("expected Write, got {:?}", other),
    }
}

#[test]
fn getcwd_exit_reads_string() {
    let base: u64 = 0x1c000;
    let mut img = vec![0u8; 8];
    img[..5].copy_from_slice(b"/home");
    let raw = SyscallRawArgs::from_regs(&regs(Arch::X86_64, 79, [base, 128, 0, 0, 0, 0], 0));
    let mut rd = reader(base, img);
    match raw.inspect_sysexit(&mut rd, &regs(Arch::X86_64, 79, [0; 6], base)) {
        SyscallModifiedArgs::Getcwd(x) => {
            assert_eq!(x.syscall_result, base as i64);
            assert_eq!(x.buf, Ok(b"/home".to_vec()));
        }
        other => panic!("expected Getcwd, got {:?}", other),
    }
}

#[test]
fn mmap_exit_high_address_is_success() {
    let raw = SyscallRawArgs::from_regs(&regs(Arch::X86_64, 9, [0, 4096, 3, 34, u64::MAX, 0], 0));
    let mut rd = reader(0, vec![]);
    let addr: u64 = 0x7f00_0000_1000;
    match raw.inspect_sysexit(&mut rd, &regs(Arch::X86_64, 9, [0; 6], addr)) {
        SyscallModifiedArgs::Mmap(x) => assert_eq!(x.syscall_result, addr),
        other => panic!("expected Mmap, got {:?}", other),
    }
}

#[test]
fn exit_group_has_unit_result() {
    let raw = SyscallRawArgs::from_regs(&regs(Arch::X86_64, 231, [1, 0, 0, 0, 0, 0], 0));
    let mut rd = reader(0, vec![]);
    match raw.inspect_sysenter(&mut rd) {
        SyscallArgs::ExitGroup(e) => assert_eq!(e.status, 1),
        other => panic!("expected ExitGroup, got {:?}", other),
    }
    match raw.inspect_sysexit(&mut rd, &regs(Arch::X86_64, 231, [0; 6], u64::MAX)) {
        SyscallModifiedArgs::ExitGroup(_) => {}
        other => panic!("expected ExitGroup, got {:?}", other),
    }
}

#[test]
fn getuid_exit_result_is_unsigned() {
    let raw = SyscallRawArgs::from_regs(&regs(Arch::X86_64, 102, [0; 6], 0));
    let mut rd = reader(0, vec![]);
    match raw.inspect_sysexit(&mut rd, &regs(Arch::X86_64, 102, [0; 6], 1000)) {
        SyscallModifiedArgs::Getuid(x) => assert_eq!(x.syscall_result, 1000),
        other => panic!("expected Getuid, got {:?}", other),
    }
}

#[test]
fn futex_entry_dereferences_both_words() {
    let base: u64 = 0x1d000;
    let mut img = vec![0u8; 16];
    img[0..4].copy_from_slice(&77u32.to_le_bytes());
    img[8..12].copy_from_slice(&88u32.to_le_bytes());
    let r = regs(Arch::X86_64, 202, [base, 0, 9, 0, base + 8, 1], 0);
    let raw = SyscallRawArgs::from_regs(&r);
    let mut rd = reader(base, img);
    match raw.inspect_sysenter(&mut rd) {
        SyscallArgs::Futex(e) => {
            assert_eq!(e.uaddr, Ok(77));
            assert_eq!(e.uaddr2, Ok(88));
            assert_eq!(e.val, 9);
            assert_eq!(e.val3, 1);
        }
        other => panic!("expected Futex, got {:?}", other),
    }
}

#[test]
fn rseq_entry_reads_registered_length() {
    let base: u64 = 0x1e000;
    let mut img = vec![0u8; 32];
    img[0..4].copy_from_slice(&1u32.to_le_bytes()); // cpu_id_start
    img[4..8].copy_from_slice(&2u32.to_le_bytes()); // cpu_id
    img[8..16].copy_from_slice(&0xabcdu64.to_le_bytes()); // rseq_cs
    let r = regs(Arch::X86_64, 334, [base, 32, 0, 0x53053053, 0, 0], 0);
    let raw = SyscallRawArgs::from_regs(&r);
    let mut rd = reader(base, img);
    match raw.inspect_sysenter(&mut rd) {
        SyscallArgs::Rseq(e) => {
            let v = e.rseq.unwrap();
            assert_eq!(v.cpu_id_start, 1);
            assert_eq!(v.cpu_id, 2);
            assert_eq!(v.rseq_cs, 0xabcd);
            assert_eq!(v.end.len(), 4);
            assert_eq!(e.rseq_len, 32);
            assert_eq!(e.sig, 0x53053053);
        }
        other => panic!("expected Rseq, got {:?}", other),
    }
}

#[test]
fn cachestat_entry_reads_both_records() {
    let base: u64 = 0x1f000;
    let mut img = vec![0u8; 56];
    img[0..8].copy_from_slice(&4096u64.to_le_bytes()); // range.off
    img[8..16].copy_from_slice(&8192u64.to_le_bytes()); // range.len
    img[16..24].copy_from_slice(&10u64.to_le_bytes()); // nr_cache
    img[48..56].copy_from_slice(&5u64.to_le_bytes()); // nr_recently_evicted
    let r = regs(Arch::X86_64, 451, [3, base, base + 16, 0, 0, 0], 0);
    let raw = SyscallRawArgs::from_regs(&r);
    let mut rd = reader(base, img);
    match raw.inspect_sysenter(&mut rd) {
        SyscallArgs::Cachestat(e) => {
            let range = e.cstat_range.unwrap();
            assert_eq!((range.off, range.len), (4096, 8192));
            let cs = e.cstat.unwrap();
            assert_eq!(cs.nr_cache, 10);
            assert_eq!(cs.nr_recently_evicted, 5);
        }
        other => panic!("expected Cachestat, got {:?}", other),
    }
}

#[test]
fn connect_entry_reads_sockaddr() {
    let base: u64 = 0x20000;
    let mut img = vec![0u8; 16];
    img[0..2].copy_from_slice(&2u16.to_le_bytes()); // AF_INET
    img[2] = 0x1f;
    img[3] = 0x90; // port 8080 in network order
    let r = regs(Arch::X86_64, 42, [3, base, 16, 0, 0, 0], 0);
    let raw = SyscallRawArgs::from_regs(&r);
    let mut rd = reader(base, img);
    match raw.inspect_sysenter(&mut rd) {
        SyscallArgs::Connect(e) => {
            assert_eq!(e.sockfd, 3);
            assert_eq!(e.addrlen, 16);
            let sa = e.addr.unwrap();
            assert_eq!(sa.sa_family, 2);
            assert_eq!(sa.sa_data[0], 0x1f);
            assert_eq!(sa.sa_data[1], 0x90);
            assert_eq!(sa.sa_data.len(), 14);
        }
        other => panic!("expected Connect, got {:?}", other),
    }
}

#[test]
fn statfs_exit_decodes_record() {
    let base: u64 = 0x21000;
    let mut img = vec![0u8; 120];
    img[0..8].copy_from_slice(&0x9123683Ei64.to_le_bytes()); // f_type
    img[8..16].copy_from_slice(&4096i64.to_le_bytes()); // f_bsize
    img[16..24].copy_from_slice(&1000u64.to_le_bytes()); // f_blocks
    let raw = SyscallRawArgs::from_regs(&regs(Arch::Riscv64, 43, [0x999, base, 0, 0, 0, 0], 0));
    let mut rd = reader(base, img);
    match raw.inspect_sysexit(&mut rd, &regs(Arch::Riscv64, 43, [0; 6], 0)) {
        SyscallModifiedArgs::Statfs(x) => {
            let f = x.buf.unwrap();
            assert_eq!(f.f_type, 0x9123683E);
            assert_eq!(f.f_bsize, 4096);
            assert_eq!(f.f_blocks, 1000);
        }
        other => panic!("expected Statfs, got {:?}", other),
    }
}

#[test]
fn readlinkat_exit_length_from_result() {
    let base: u64 = 0x22000;
    let mut img = vec![0u8; 16];
    img[..12].copy_from_slice(b"/tmp/target!");
    let r = regs(Arch::Riscv64, 78, [(-100i64) as u64, base, base, 64, 0, 0], 0);
    let raw = SyscallRawArgs::from_regs(&r);
    let mut rd = reader(base, img);
    match raw.inspect_sysexit(&mut rd, &regs(Arch::Riscv64, 78, [0; 6], 11)) {
        SyscallModifiedArgs::Readlinkat(x) => {
            assert_eq!(x.syscall_result, 11);
            assert_eq!(x.buf, Ok(b"/tmp/target".to_vec()));
        }
        other => panic!("expected Readlinkat, got {:?}", other),
    }
}

#[test]
fn newfstatat_entry_and_exit() {
    let base: u64 = 0x23000;
    let mut img = vec![0u8; 160];
    img[..2].copy_from_slice(b"f\0");
    img[16 + 48..16 + 56].copy_from_slice(&77i64.to_le_bytes()); // st_size at x86_64 offset
    let r = regs(Arch::X86_64, 262, [5, base, base + 16, 0x100, 0, 0], 0);
    let raw = SyscallRawArgs::from_regs(&r);
    let mut rd = reader(base, img);
    match raw.inspect_sysenter(&mut rd) {
        SyscallArgs::Newfstatat(e) => {
            assert_eq!(e.dirfd, 5);
            assert_eq!(e.pathname, Ok(b"f".to_vec()));
            assert_eq!(e.flags, 0x100);
        }
        other => panic!("expected Newfstatat, got {:?}", other),
    }
    match raw.inspect_sysexit(&mut rd, &regs(Arch::X86_64, 262, [0; 6], 0)) {
        SyscallModifiedArgs::Newfstatat(x) => {
            assert_eq!(x.statbuf.unwrap().st_size, 77);
        }
        other => panic!("expected Newfstatat, got {:?}", other),
    }
}

#[test]
fn bind_entry_reads_sockaddr() {
    let base: u64 = 0x24000;
    let mut img = vec![0u8; 16];
    img[0..2].copy_from_slice(&1u16.to_le_bytes()); // AF_UNIX
    let r = regs(Arch::Aarch64, 200, [6, base, 16, 0, 0, 0], 0);
    let raw = SyscallRawArgs::from_regs(&r);
    let mut rd = reader(base, img);
    match raw.inspect_sysenter(&mut rd) {
        SyscallArgs::Bind(e) => {
            assert_eq!(e.socketfd, 6);
            assert_eq!(e.addr.unwrap().sa_family, 1);
        }
        other => panic!("expected Bind, got {:?}", other),
    }
}

#[test]
fn dup2_is_x86_64_only_and_dup3_everywhere() {
    match SyscallRawArgs::from_regs(&regs(Arch::X86_64, 33, [3, 4, 0, 0, 0, 0], 0)) {
        SyscallRawArgs::Dup2(a) => {
            assert_eq!(a.oldfd, 3);
            assert_eq!(a.newfd, 4);
        }
        other => panic!("expected Dup2, got {:?}", other),
    }
    match SyscallRawArgs::from_regs(&regs(Arch::Riscv64, 24, [3, 4, 0, 0, 0, 0], 0)) {
        SyscallRawArgs::Dup3(a) => {
            assert_eq!(a.oldfd, 3);
            assert_eq!(a.newfd, 4);
        }
        other => panic!("expected Dup3, got {:?}", other),
    }
    // dup2 has no number on aarch64: 33 is unassigned there
    match SyscallRawArgs::from_regs(&regs(Arch::Aarch64, 33, [3, 4, 0, 0, 0, 0], 0)) {
        SyscallRawArgs::Unknown(u) => assert_eq!(u.number, 33),
        other => panic!("expected Unknown, got {:?}", other),
    }
}

#[test]
fn lseek_round_trip_negative_offset() {
    let r = regs(Arch::X86_64, 8, [9, (-4096i64) as u64, 2, 0, 0, 0], 0);
    match SyscallRawArgs::from_regs(&r) {
        SyscallRawArgs::Lseek(a) => {
            assert_eq!(a.fd, 9);
            assert_eq!(a.offset, -4096);
            assert_eq!(a.whence, 2);
        }
        other => panic!("expected Lseek, got {:?}", other),
    }
}

#[test]
fn stat_and_lstat_entry_and_exit() {
    // stat and lstat exist only in the x86_64 table and use its layout
    let base: u64 = 0x25000;
    let mut img = vec![0u8; 160];
    img[..5].copy_from_slice(b"/etc\0");
    img[8 + 48..8 + 56].copy_from_slice(&4096i64.to_le_bytes()); // st_size
    img[8 + 24..8 + 28].copy_from_slice(&0o040755u32.to_le_bytes()); // st_mode
    for number in [4u64, 6u64] {
        let r = regs(Arch::X86_64, number, [base, base + 8, 0, 0, 0, 0], 0);
        let raw = SyscallRawArgs::from_regs(&r);
        let mut rd = reader(base, img.clone());
        let entry = raw.inspect_sysenter(&mut rd);
        let exit = raw.inspect_sysexit(&mut rd, &regs(Arch::X86_64, number, [0; 6], 0));
        match (number, entry, exit) {
            (4, SyscallArgs::Stat(e), SyscallModifiedArgs::Stat(x)) => {
                assert_eq!(e.pathname, Ok(b"/etc".to_vec()));
                let st = x.statbuf.unwrap();
                assert_eq!(st.st_size, 4096);
                assert_eq!(st.st_mode, 0o040755);
            }
            (6, SyscallArgs::Lstat(e), SyscallModifiedArgs::Lstat(x)) => {
                assert_eq!(e.pathname, Ok(b"/etc".to_vec()));
                assert_eq!(x.statbuf.unwrap().st_size, 4096);
            }
            other => panic!("unexpected records: {:?}", other),
        }
    }
}

#[test]
fn memfd_create_entry_reads_name() {
    let base: u64 = 0x26000;
    let mut img = vec![0u8; 8];
    img[..6].copy_from_slice(b"shmem\0");
    let r = regs(Arch::Aarch64, 279, [base, 1, 0, 0, 0, 0], 0);
    let raw = SyscallRawArgs::from_regs(&r);
    let mut rd = reader(base, img);
    match raw.inspect_sysenter(&mut rd) {
        SyscallArgs::MemfdCreate(e) => {
            assert_eq!(e.name, Ok(b"shmem".to_vec()));
            assert_eq!(e.flags, 1);
        }
        other => panic!("expected MemfdCreate, got {:?}", other),
    }
}

#[test]
fn shmget_round_trip_and_exit() {
    let r = regs(Arch::X86_64, 29, [0x5feed, 65536, 0o1666, 0, 0, 0], 0);
    let raw = SyscallRawArgs::from_regs(&r);
    let mut rd = reader(0, vec![]);
    match raw.inspect_sysenter(&mut rd) {
        SyscallArgs::Shmget(e) => {
            assert_eq!(e.key, 0x5feed);
            assert_eq!(e.size, 65536);
            assert_eq!(e.shmflg, 0o1666);
        }
        other => panic!("expected Shmget, got {:?}", other),
    }
    match raw.inspect_sysexit(&mut rd, &regs(Arch::X86_64, 29, [0; 6], 9)) {
        SyscallModifiedArgs::Shmget(x) => assert_eq!(x.syscall_result, 9),
        other => panic!("expected Shmget, got {:?}", other),
    }
}

#[test]
fn brk_keeps_raw_address() {
    let r = regs(Arch::Riscv64, 214, [0x5555_0000_1000, 0, 0, 0, 0, 0], 0);
    let raw = SyscallRawArgs::from_regs(&r);
    let mut rd = reader(0, vec![]);
    match raw.inspect_sysenter(&mut rd) {
        SyscallArgs::Brk(e) => assert_eq!(e.addr, 0x5555_0000_1000),
        other => panic!("expected Brk, got {:?}", other),
    }
}

#[test]
fn landlock_entry_reads_ruleset_attr() {
    let base: u64 = 0x27000;
    let mut img = vec![0u8; 8];
    img.copy_from_slice(&0x1fffu64.to_le_bytes());
    let r = regs(Arch::X86_64, 444, [base, 8, 0, 0, 0, 0], 0);
    let raw = SyscallRawArgs::from_regs(&r);
    let mut rd = reader(base, img);
    match raw.inspect_sysenter(&mut rd) {
        SyscallArgs::LandlockCreateRuleset(e) => {
            assert_eq!(e.ruleset_attr.unwrap().handled_access_fs, 0x1fff);
            assert_eq!(e.size, 8);
        }
        other => panic!("expected LandlockCreateRuleset, got {:?}", other),
    }
}

#[test]
fn rseq_too_short_length_is_dependency_failure() {
    let base: u64 = 0x28000;
    let r = regs(Arch::X86_64, 334, [base, 16, 0, 0, 0, 0], 0);
    let raw = SyscallRawArgs::from_regs(&r);
    let mut rd = reader(base, vec![0u8; 32]);
    match raw.inspect_sysenter(&mut rd) {
        SyscallArgs::Rseq(e) => match e.rseq {
            Err(InspectError::DependencyInspectFailure { field }) => {
                assert_eq!(field, "rseq_len");
            }
            other => panic!("expected a dependency failure, got {:?}", other),
        },
        other => panic!("expected Rseq, got {:?}", other),
    }
}

#[test]
fn semop_entry_reads_counted_records() {
    let base: u64 = 0x29000;
    let mut img = vec![0u8; 16];
    // two sembuf records: (num=1, op=-1, flg=0x0800) and (num=2, op=+1, flg=0)
    img[0..2].copy_from_slice(&1u16.to_le_bytes());
    img[2..4].copy_from_slice(&(-1i16).to_le_bytes());
    img[4..6].copy_from_slice(&0x0800u16.to_le_bytes());
    img[6..8].copy_from_slice(&2u16.to_le_bytes());
    img[8..10].copy_from_slice(&1i16.to_le_bytes());
    let r = regs(Arch::X86_64, 65, [7, base, 2, 0, 0, 0], 0);
    let raw = SyscallRawArgs::from_regs(&r);
    let mut rd = reader(base, img);
    match raw.inspect_sysenter(&mut rd) {
        SyscallArgs::Semop(e) => {
            assert_eq!(e.semid, 7);
            assert_eq!(e.nsops, 2);
            let sops = e.sops.unwrap();
            assert_eq!(sops.len(), 2);
            assert_eq!((sops[0].sem_num, sops[0].sem_op, sops[0].sem_flg), (1, -1, 0x0800));
            assert_eq!((sops[1].sem_num, sops[1].sem_op, sops[1].sem_flg), (2, 1, 0));
        }
        other => panic!("expected Semop, got {:?}", other),
    }
}

#[test]
fn semop_entry_keeps_prefix_on_partial_read() {
    // one whole record readable, the second one's covering words are not
    let base: u64 = 0x2a000;
    let img = vec![3u8; 8];
    let r = regs(Arch::Aarch64, 193, [7, base, 4, 0, 0, 0], 0);
    let raw = SyscallRawArgs::from_regs(&r);
    let mut rd = reader(base, img);
    match raw.inspect_sysenter(&mut rd) {
        SyscallArgs::Semop(e) => match e.sops {
            Err(InspectError::ReadFailure { errno: _, incomplete: Some(p) }) => {
                assert_eq!(p.len(), 1);
                assert_eq!(p[0].sem_num, 0x0303);
            }
            other => panic!("expected a partial record read, got {:?}", other),
        },
        other => panic!("expected Semop, got {:?}", other),
    }
}

#[test]
fn msgsnd_entry_reads_counted_message() {
    let base: u64 = 0x2b000;
    let mut img = vec![0u8; 16];
    img[..4].copy_from_slice(b"ping");
    let r = regs(Arch::X86_64, 69, [5, base, 4, 0o4000, 0, 0], 0);
    let raw = SyscallRawArgs::from_regs(&r);
    let mut rd = reader(base, img);
    match raw.inspect_sysenter(&mut rd) {
        SyscallArgs::Msgsnd(e) => {
            assert_eq!(e.msqid, 5);
            assert_eq!(e.msgp, Ok(b"ping".to_vec()));
            assert_eq!(e.msgsz, 4);
            assert_eq!(e.msgflg, 0o4000);
        }
        other => panic!("expected Msgsnd, got {:?}", other),
    }
}

#[test]
fn statmount_entry_and_sized_exit() {
    let base: u64 = 0x2c000;
    let total: usize = 512 + 8;
    let mut img = vec![0u8; 24 + total];
    // the mnt_id_req the caller passed
    img[0..4].copy_from_slice(&24u32.to_le_bytes()); // req.size
    img[8..16].copy_from_slice(&42u64.to_le_bytes()); // req.mnt_id
    // the record the kernel filled, sized by its own header
    let b = 24;
    img[b..b + 4].copy_from_slice(&(total as u32).to_le_bytes()); // size
    img[b + 40..b + 48].copy_from_slice(&42u64.to_le_bytes()); // mnt_id
    img[b + 104..b + 108].copy_from_slice(&0u32.to_le_bytes()); // mnt_root offset
    img[b + 512..b + 517].copy_from_slice(b"/mnt\0"); // string table
    let r = regs(Arch::X86_64, 457, [base, base + 24, total as u64, 0, 0, 0], 0);
    let raw = SyscallRawArgs::from_regs(&r);
    let mut rd = reader(base, img);
    match raw.inspect_sysenter(&mut rd) {
        SyscallArgs::Statmount(e) => {
            let req = e.req.unwrap();
            assert_eq!(req.size, 24);
            assert_eq!(req.mnt_id, 42);
            assert_eq!(e.bufsize, total);
        }
        other => panic!("expected Statmount, got {:?}", other),
    }
    match raw.inspect_sysexit(&mut rd, &regs(Arch::X86_64, 457, [0; 6], 0)) {
        SyscallModifiedArgs::Statmount(x) => {
            let sm = x.buf.unwrap();
            assert_eq!(sm.size as usize, total);
            assert_eq!(sm.mnt_id, 42);
            assert_eq!(sm.tail, b"/mnt\0\0\0\0".to_vec());
        }
        other => panic!("expected Statmount, got {:?}", other),
    }
}

#[test]
fn statmount_exit_rejects_short_size() {
    // a reported size smaller than the fixed header is a dependency failure
    let base: u64 = 0x2d000;
    let mut img = vec![0u8; 520];
    img[0..4].copy_from_slice(&16u32.to_le_bytes());
    let r = regs(Arch::X86_64, 457, [0, base, 520, 0, 0, 0], 0);
    let raw = SyscallRawArgs::from_regs(&r);
    let mut rd = reader(base, img);
    match raw.inspect_sysexit(&mut rd, &regs(Arch::X86_64, 457, [0; 6], 0)) {
        SyscallModifiedArgs::Statmount(x) => match x.buf {
            Err(InspectError::DependencyInspectFailure { field }) => assert_eq!(field, "size"),
            other => panic!("expected a dependency failure, got {:?}", other),
        },
        other => panic!("expected Statmount, got {:?}", other),
    }
}

#[test]
fn socketpair_exit_fills_both_descriptors() {
    let base: u64 = 0x2e000;
    let mut img = vec![0u8; 8];
    img[0..4].copy_from_slice(&8i32.to_le_bytes());
    img[4..8].copy_from_slice(&9i32.to_le_bytes());
    let r = regs(Arch::X86_64, 53, [1, 1, 0, base, 0, 0], 0);
    let raw = SyscallRawArgs::from_regs(&r);
    let mut rd = reader(base, img);
    match raw.inspect_sysexit(&mut rd, &regs(Arch::X86_64, 53, [0; 6], 0)) {
        SyscallModifiedArgs::Socketpair(x) => {
            assert_eq!(x.sv, Ok([8, 9]));
        }
        other => panic!("expected Socketpair, got {:?}", other),
    }
}

#[test]
fn clock_gettime_exit_reads_timespec() {
    let base: u64 = 0x2f000;
    let mut img = vec![0u8; 16];
    img[0..8].copy_from_slice(&7i64.to_le_bytes());
    img[8..16].copy_from_slice(&999i64.to_le_bytes());
    let r = regs(Arch::Riscv64, 113, [0, base, 0, 0, 0, 0], 0);
    let raw = SyscallRawArgs::from_regs(&r);
    let mut rd = reader(base, img);
    match raw.inspect_sysexit(&mut rd, &regs(Arch::Riscv64, 113, [0; 6], 0)) {
        SyscallModifiedArgs::ClockGettime(x) => {
            let tp = x.tp.unwrap();
            assert_eq!((tp.tv_sec, tp.tv_nsec), (7, 999));
        }
        other => panic!("expected ClockGettime, got {:?}", other),
    }
}

#[test]
fn getresuid_exit_dereferences_all_three() {
    let base: u64 = 0x30000;
    let mut img = vec![0u8; 16];
    img[0..4].copy_from_slice(&1000u32.to_le_bytes());
    img[4..8].copy_from_slice(&1001u32.to_le_bytes());
    img[8..12].copy_from_slice(&1002u32.to_le_bytes());
    let r = regs(Arch::X86_64, 118, [base, base + 4, base + 8, 0, 0, 0], 0);
    let raw = SyscallRawArgs::from_regs(&r);
    let mut rd = reader(base, img);
    match raw.inspect_sysexit(&mut rd, &regs(Arch::X86_64, 118, [0; 6], 0)) {
        SyscallModifiedArgs::Getresuid(x) => {
            assert_eq!(x.ruid, Ok(1000));
            assert_eq!(x.euid, Ok(1001));
            assert_eq!(x.suid, Ok(1002));
        }
        other => panic!("expected Getresuid, got {:?}", other),
    }
}

#[test]
fn prlimit64_reads_optional_limits() {
    let base: u64 = 0x31000;
    let mut img = vec![0u8; 16];
    img[0..8].copy_from_slice(&1024u64.to_le_bytes());
    img[8..16].copy_from_slice(&4096u64.to_le_bytes());
    // a null new limit with a filled old limit
    let r = regs(Arch::X86_64, 302, [1234, 7, 0, base, 0, 0], 0);
    let raw = SyscallRawArgs::from_regs(&r);
    let mut rd = reader(base, img);
    match raw.inspect_sysenter(&mut rd) {
        SyscallArgs::Prlimit64(e) => {
            assert_eq!(e.new_limit, Ok(None));
            let old = e.old_limit.clone().unwrap().unwrap();
            assert_eq!((old.rlim_cur, old.rlim_max), (1024, 4096));
        }
        other => panic!("expected Prlimit64, got {:?}", other),
    }
    match raw.inspect_sysexit(&mut rd, &regs(Arch::X86_64, 302, [0; 6], 0)) {
        SyscallModifiedArgs::Prlimit64(x) => {
            let old = x.old_limit.unwrap().unwrap();
            assert_eq!((old.rlim_cur, old.rlim_max), (1024, 4096));
        }
        other => panic!("expected Prlimit64, got {:?}", other),
    }
}

#[test]
fn times_exit_reads_tms_record() {
    let base: u64 = 0x32000;
    let mut img = vec![0u8; 32];
    img[0..8].copy_from_slice(&10i64.to_le_bytes());
    img[8..16].copy_from_slice(&20i64.to_le_bytes());
    img[16..24].copy_from_slice(&30i64.to_le_bytes());
    img[24..32].copy_from_slice(&40i64.to_le_bytes());
    let r = regs(Arch::X86_64, 100, [base, 0, 0, 0, 0, 0], 0);
    let raw = SyscallRawArgs::from_regs(&r);
    let mut rd = reader(base, img);
    match raw.inspect_sysexit(&mut rd, &regs(Arch::X86_64, 100, [0; 6], 123456)) {
        SyscallModifiedArgs::Times(x) => {
            assert_eq!(x.syscall_result, 123456);
            let t = x.buf.unwrap();
            assert_eq!((t.tms_utime, t.tms_stime, t.tms_cutime, t.tms_cstime), (10, 20, 30, 40));
        }
        other => panic!("expected Times, got {:?}", other),
    }
}

#[test]
fn accept_exit_reads_peer_address() {
    let base: u64 = 0x33000;
    let mut img = vec![0u8; 24];
    img[0..2].copy_from_slice(&2u16.to_le_bytes());
    img[16..20].copy_from_slice(&16u32.to_le_bytes());
    let r = regs(Arch::Aarch64, 202, [3, base, base + 16, 0, 0, 0], 0);
    let raw = SyscallRawArgs::from_regs(&r);
    let mut rd = reader(base, img);
    match raw.inspect_sysexit(&mut rd, &regs(Arch::Aarch64, 202, [0; 6], 4)) {
        SyscallModifiedArgs::Accept(x) => {
            assert_eq!(x.syscall_result, 4);
            assert_eq!(x.addr.unwrap().sa_family, 2);
            assert_eq!(x.addrlen, Ok(16));
        }
        other => panic!("expected Accept, got {:?}", other),
    }
}

#[test]
fn readlink_exit_length_from_result() {
    let base: u64 = 0x34000;
    let mut img = vec![0u8; 8];
    img[..4].copy_from_slice(b"/dst");
    let r = regs(Arch::X86_64, 89, [base, base, 64, 0, 0, 0], 0);
    let raw = SyscallRawArgs::from_regs(&r);
    let mut rd = reader(base, img);
    match raw.inspect_sysexit(&mut rd, &regs(Arch::X86_64, 89, [0; 6], 4)) {
        SyscallModifiedArgs::Readlink(x) => {
            assert_eq!(x.buf, Ok(b"/dst".to_vec()));
        }
        other => panic!("expected Readlink, got {:?}", other),
    }
}
