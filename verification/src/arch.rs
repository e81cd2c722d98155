//! Architecture abstraction: a uniform view of the registers captured at a
//! syscall stop, for each supported instruction set.
//!
//! The register snapshot is a plain record holding the syscall number, the six
//! argument slots, and the result slot, in the order fixed by the syscall
//! calling convention of the architecture that produced it.  Capturing a
//! snapshot from a live tracee is the job of the platform layer; everything
//! downstream works on this record alone, so the architecture is a run-time
//! value rather than a compile-time choice.

use vstd::prelude::*;

verus! {

/// The instruction sets whose syscall tables this library knows.
#[derive(Clone, Copy, Debug, PartialEq, Eq, Structural)]
pub enum Arch {
    X86_64,
    Aarch64,
    Riscv64,
}

/// The registers of a tracee at a syscall stop, reduced to what syscall
/// decoding needs: the syscall number, the six argument slots, and the result
/// slot.  Each slot is one machine word.
///
/// On x86_64 the slots come from `orig_rax`, `rdi`, `rsi`, `rdx`, `r10`, `r8`,
/// `r9` and `rax`; on aarch64 from `x8`, `x0`..`x5` and `x0`; on riscv64 from
/// `a7`, `a0`..`a5` and `a0`.
#[derive(Clone, Copy, Debug, PartialEq, Eq)]
pub struct RegisterSnapshot {
    pub arch: Arch,
    pub number: u64,
    pub args: [u64; 6],
    pub result: u64,
}

impl RegisterSnapshot {
    /// The syscall number slot.
    pub fn syscall_number(&self) -> (r: u64)
        ensures
            r == self.number,
    {
        self.number
    }

    /// Argument slot `i`, for `i` in `0..6`.
    pub fn arg(&self, i: usize) -> (r: u64)
        requires
            i < 6,
        ensures
            r == self.args@[i as int],
    {
        self.args[i]
    }

    /// The result slot (meaningful only at a syscall-exit stop).
    pub fn result(&self) -> (r: u64)
        ensures
            r == self.result,
    {
        self.result
    }
}

} // verus!
