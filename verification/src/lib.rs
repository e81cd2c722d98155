//! A Linux syscall-inspection library.
//!
//! A tracer attached to a child process observes syscall-entry and
//! syscall-exit stops.  At each stop this library decodes the six raw
//! register-sized argument slots into a strongly typed, per-syscall record,
//! reading pointer arguments (paths, strings, argv/envp arrays, fixed-size
//! kernel records) out of the tracee's address space with fault-tolerant,
//! partial-read-preserving semantics.
//!
//! The library is organised in three layers:
//! - [`arch`]: a uniform view of a stop's registers per architecture;
//! - [`mem`] / [`reader`] / [`remote`]: the remote-memory reading engine,
//!   verified against an abstract model of the tracee's address space;
//! - [`syscalls`] / [`decode`]: the per-syscall table, the typed records and
//!   the dispatch into and out of them.

use vstd::prelude::*;

pub mod arch;
pub mod bytes;
pub mod outcome;
pub mod mem;
pub mod reader;
pub mod remote;
pub mod types;
pub mod groups;
pub mod nr_x86_64;
pub mod nr_aarch64;
pub mod nr_riscv64;
pub mod syscalls;
pub mod decode;

pub use arch::{Arch, RegisterSnapshot};
pub use decode::{SyscallArgs, SyscallModifiedArgs};
pub use groups::{GroupSet, SyscallGroups};
pub use outcome::{InspectError, InspectResult};
pub use remote::get_raw_args;
pub use syscalls::{SyscallId, SyscallRawArgs, UnknownArgs};

verus! {

/// Syscall-number getter implemented by decoded records: the getter returns
/// the record's own syscall number.
pub trait SyscallNumber {
    /// The syscall number this record carries.
    spec fn syscall_number_spec(&self) -> isize;

    fn syscall_number(&self) -> (r: isize)
        ensures
            r == self.syscall_number_spec(),
    ;
}

} // verus!
