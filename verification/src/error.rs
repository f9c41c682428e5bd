//! The conditions an operation on a slot can report.

use vstd::prelude::*;

verus! {

/// Why an operation on a thread's slot did not succeed.
#[derive(Clone, Copy, Debug, PartialEq, Eq, Structural)]
pub enum SlotError {
    /// A read found no value: the slot was never initialised, was destroyed,
    /// or belongs to a thread whose storage is already gone.
    EmptyThreadLocal,
    /// No storage could be had for a fresh value: the allocator gave none,
    /// or the thread has ended and its slot takes nothing in any more.
    AllocationFailure,
}

} // verus!
