//! The live memory source against this very process: the bulk facility reads
//! the tracer's own address space, which exercises the kernel-backed reading
//! path without a tracee.

use nix::unistd::getpid;
use tracer_syscalls::remote::{remote_reader, system_page_size};

#[test]
fn page_size_is_positive() {
    assert!(system_page_size() >= 1);
}

#[test]
fn bulk_read_own_memory() {
    let data: Vec<u8> = (0u8..64).map(|x| x.wrapping_mul(31).wrapping_add(7)).collect();
    let addr = data.as_ptr() as usize as u64;
    let mut rd = remote_reader(getpid().as_raw());
    // 16 bytes and more go through the bulk facility, which may read the
    // calling process's own memory
    let got = rd.read_memory(addr, 64).expect("reading our own memory");
    assert_eq!(got, data);
}
