//! The live tracee as a memory source, and register capture, backed by the
//! kernel's process-tracing and cross-process reading facilities.
//!
//! Everything here that touches the kernel is a trusted item: its contract is
//! what the facility's documentation promises of a tracee that is attached and
//! stopped, and it is not re-proved.  All logic above these calls is verified
//! against those contracts.

use vstd::prelude::*;

use crate::arch::{Arch, RegisterSnapshot};
use crate::mem::{word_byte, TraceeMem};
use crate::reader::MemReader;
use crate::syscalls::{dispatched_from, SyscallRawArgs};

verus! {

/// A view of the address space of one live, stopped tracee, identified by its
/// process id.  The value is opaque: all that is known of it is said by the
/// two names below and the contracts of the trusted operations.
#[verifier::external_body]
pub struct RemoteMem {
    pid: i32,
}

/// Whether the tracee behind `m` can read the byte at `addr`.  The name is
/// fixed per attached view: it describes the tracee's memory between the stop
/// at which `m` was created and the end of decoding, during which the
/// supervisor must keep the tracee stopped.  Two separately created views are
/// unrelated.
pub uninterp spec fn remote_readable(m: RemoteMem, addr: u64) -> bool;

/// The byte at `addr` of the tracee behind `m` (meaningful only where
/// `remote_readable`).
pub uninterp spec fn remote_byte(m: RemoteMem, addr: u64) -> u8;

impl RemoteMem {
    /// View the memory of the stopped tracee `pid`.
    #[verifier::external_body]
    pub fn attach(pid: i32) -> (r: RemoteMem) {
        RemoteMem { pid }
    }

    /// Relies on `nix::sys::ptrace::read` (`PTRACE_PEEKDATA`): one machine
    /// word read from the stopped tracee, all-or-nothing, failing exactly on
    /// addresses the tracee cannot read; little-endian on every supported
    /// architecture.
    #[verifier::external_body]
    fn peek_word_raw(&self, addr: u64) -> (r: Result<u64, i32>)
        ensures
            (r is Ok) <==> (addr + 8 <= u64::MAX + 1 && forall|b: u64|
                addr <= b < addr + 8 ==> #[trigger] remote_readable(*self, b)),
            r matches Ok(w) ==> forall|i: int|
                0 <= i < 8 ==> word_byte(w, i) == remote_byte(*self, (addr + i) as u64),
    {
        let a = addr as usize as nix::sys::ptrace::AddressType;
        match nix::sys::ptrace::read(nix::unistd::Pid::from_raw(self.pid), a) {
            Ok(w) => Ok(w as u64),
            Err(e) => Err(e as i32),
        }
    }

    /// Relies on `nix::sys::uio::process_vm_readv`: transfers a prefix of
    /// the requested bytes from the stopped tracee, returning how many were
    /// read; it fails (among other reasons, administrative unavailability)
    /// without transferring anything, and a request of length zero transfers
    /// nothing.  Where a partial transfer stops is not stated: the bulk
    /// facility honours page protections that the word peek reads through,
    /// so its reach can be narrower than `remote_readable`.
    #[verifier::external_body]
    fn bulk_read_raw(&self, addr: u64, len: usize) -> (r: Result<Vec<u8>, i32>)
        ensures
            r matches Ok(v) ==> {
                &&& v@.len() <= len
                &&& addr + v@.len() <= u64::MAX + 1
                &&& forall|i: int|
                    0 <= i < v@.len() ==> #[trigger] v@[i] == remote_byte(*self, (addr + i) as u64)
                &&& forall|b: u64|
                    addr <= b < addr + v@.len() ==> #[trigger] remote_readable(*self, b)
                &&& len > 0 ==> v@.len() > 0
            },
    {
        let mut buf: Vec<u8> = Vec::new();
        buf.resize(len, 0u8);
        let mut local = [std::io::IoSliceMut::new(&mut buf)];
        let remote = [nix::sys::uio::RemoteIoVec { base: addr as usize, len }];
        let pid = nix::unistd::Pid::from_raw(self.pid);
        match nix::sys::uio::process_vm_readv(pid, &mut local, &remote) {
            Ok(n) => {
                buf.truncate(n);
                Ok(buf)
            },
            Err(e) => Err(e as i32),
        }
    }
}

impl TraceeMem for RemoteMem {
    open spec fn readable(&self, addr: u64) -> bool {
        remote_readable(*self, addr)
    }

    open spec fn byte_at(&self, addr: u64) -> u8 {
        remote_byte(*self, addr)
    }

    fn peek_word(&self, addr: u64) -> (r: Result<u64, i32>) {
        let r = self.peek_word_raw(addr);
        proof {
            if addr + 8 <= u64::MAX + 1 {
                if forall|b: u64| addr <= b < addr + 8 ==> #[trigger] remote_readable(*self, b) {
                    assert forall|b: u64| addr <= b < addr + 8 implies #[trigger] self.readable(
                        b,
                    ) by {
                        assert(remote_readable(*self, b));
                    }
                } else {
                    let b = choose|b: u64|
                        addr <= b < addr + 8 && !(#[trigger] remote_readable(*self, b));
                    assert(!self.readable(b));
                }
            }
        }
        r
    }

    fn bulk_read(&self, addr: u64, len: usize) -> (r: Result<Vec<u8>, i32>) {
        let r = self.bulk_read_raw(addr, len);
        proof {
            if r is Ok {
                let v = r->Ok_0;
                assert forall|b: u64| addr <= b < addr + v@.len() implies #[trigger] self.readable(
                    b,
                ) by {
                    assert(remote_readable(*self, b));
                }
            }
        }
        r
    }
}

/// Relies on `nix::sys::ptrace::getregs` (`PTRACE_GETREGS`): the register set
/// of the stopped tracee.  The snapshot takes the x86_64 syscall convention's
/// slots: `orig_rax`; `rdi`, `rsi`, `rdx`, `r10`, `r8`, `r9`; `rax`.
#[verifier::external_body]
pub fn capture_registers(pid: i32) -> (r: Result<RegisterSnapshot, i32>)
    ensures
        r matches Ok(snap) ==> snap.arch == Arch::X86_64,
{
    match nix::sys::ptrace::getregs(nix::unistd::Pid::from_raw(pid)) {
        Ok(regs) => Ok(
            RegisterSnapshot {
                arch: Arch::X86_64,
                number: regs.orig_rax,
                args: [regs.rdi, regs.rsi, regs.rdx, regs.r10, regs.r8, regs.r9],
                result: regs.rax,
            },
        ),
        Err(e) => Err(e as i32),
    }
}

/// Relies on `nix::unistd::sysconf(PAGE_SIZE)`: the system's page size, a
/// positive byte count; a conventional page size stands in if the system
/// will not say.
#[verifier::external_body]
pub fn system_page_size() -> (r: usize)
    ensures
        r >= 1,
{
    match nix::unistd::sysconf(nix::unistd::SysconfVar::PAGE_SIZE) {
        Ok(Some(sz)) => {
            if sz > 0 {
                sz as usize
            } else {
                4096
            }
        },
        _ => 4096,
    }
}

impl SyscallRawArgs {
    /// Capture the raw arguments of the syscall at which the tracee `pid` is
    /// stopped.  Meaningful only at a syscall-entry stop; the returned record
    /// is the table dispatch of the captured register snapshot.
    pub fn get_on_sysenter(pid: i32) -> (r: Result<SyscallRawArgs, i32>)
        ensures
            r matches Ok(raw) ==> exists|regs: RegisterSnapshot|
                #[trigger] dispatched_from(raw, regs) && regs.arch == Arch::X86_64,
    {
        match capture_registers(pid) {
            Ok(regs) => {
                let raw = SyscallRawArgs::from_regs(&regs);
                proof {
                    assert(dispatched_from(raw, regs));
                }
                Ok(raw)
            },
            Err(e) => Err(e),
        }
    }
}

/// Capture the raw arguments of the syscall at which the tracee `pid` is
/// stopped, as [`SyscallRawArgs::get_on_sysenter`].
pub fn get_raw_args(pid: i32) -> (r: Result<SyscallRawArgs, i32>)
    ensures
        r matches Ok(raw) ==> exists|regs: RegisterSnapshot|
            #[trigger] dispatched_from(raw, regs) && regs.arch == Arch::X86_64,
{
    SyscallRawArgs::get_on_sysenter(pid)
}

/// A fresh reader over the live tracee `pid`, with the bulk facility enabled.
pub fn remote_reader(pid: i32) -> (r: MemReader<RemoteMem>)
    ensures
        r.wf(),
        r.bulk_disabled == false,
{
    let ps = system_page_size();
    MemReader::new(RemoteMem::attach(pid), ps)
}

} // verus!
