//! The three-way outcome of inspecting one field of a syscall record.
//!
//! Every field whose value has to be read out of the tracee's address space is
//! wrapped in [`InspectResult`].  A failed read never aborts the decoding of a
//! whole record: the failure, together with any prefix that had already been
//! accumulated, is kept as data in the field itself.

use vstd::prelude::*;

verus! {

/// Why inspecting one field failed.
#[derive(Debug, Clone, PartialEq)]
pub enum InspectError<T> {
    /// The syscall itself failed, so output fields were never filled by the
    /// kernel and are not read at all.
    SyscallFailure,
    /// Reading the tracee's memory failed with `errno`.  For container
    /// values, `incomplete` holds the proper prefix that had been read
    /// before the failure.
    ReadFailure { errno: i32, incomplete: Option<T> },
    /// A sibling field that this field's size or location depends on could
    /// not be decoded.
    DependencyInspectFailure { field: &'static str },
}

/// The outcome of inspecting one field.
pub type InspectResult<T> = Result<T, InspectError<T>>;

impl<T> InspectError<T> {
    /// Carry a failure over to a field of another type, converting any
    /// accumulated prefix with `f`.
    pub fn map_ptrace_failure<U, F: FnOnce(T) -> U>(self, f: F) -> (r: InspectError<U>)
        requires
            forall|x: T| #[trigger] call_requires(f, (x,)),
        ensures
            self is SyscallFailure ==> (r is SyscallFailure),
            self matches InspectError::DependencyInspectFailure { field }
                ==> (r == InspectError::<U>::DependencyInspectFailure { field }),
            self matches InspectError::ReadFailure { errno, incomplete: None::<T> }
                ==> (r == InspectError::<U>::ReadFailure { errno, incomplete: None }),
            self matches InspectError::ReadFailure { errno, incomplete: Some(x) }
                ==> (r matches InspectError::ReadFailure { errno: e2, incomplete: Some(y) }
                    && e2 == errno && call_ensures(f, (x,), y)),
    {
        match self {
            InspectError::SyscallFailure => InspectError::SyscallFailure,
            InspectError::ReadFailure { errno, incomplete } => InspectError::ReadFailure {
                errno,
                incomplete: match incomplete {
                    Some(x) => Some(f(x)),
                    None => None,
                },
            },
            InspectError::DependencyInspectFailure { field } => {
                InspectError::DependencyInspectFailure { field }
            },
        }
    }
}

} // verus!
