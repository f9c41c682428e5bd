//! The three operations that a host calls, each on the calling thread's
//! slot. The caller reaches for that slot in the thread's storage and hands
//! in what it found: the slot, or `None` where the storage is already gone.
//! What is decided about it is decided here.

use vstd::prelude::*;
use crate::error::SlotError;
use crate::slot::ThreadLocalSlot;
use crate::state::{read_through, SlotOp, SlotView};

verus! {

/// A slot as a read reaches it, as plain values.
pub open spec fn access_view(access: Option<&ThreadLocalSlot>) -> Option<SlotView> {
    match access {
        Some(slot) => slot@.access(),
        None => None,
    }
}

/// Gives the calling thread's slot a fresh value, releasing the one it held.
/// On a running thread it fails only where the allocation does. Where the
/// thread has ended or its storage is gone there is nothing to hold a value,
/// and the call fails. A failure is always `AllocationFailure` and leaves the
/// slot untouched.
pub fn initialize_tls(access: Option<&mut ThreadLocalSlot>) -> (done: Result<(), SlotError>)
    ensures
        done is Err ==> done == Err::<(), SlotError>(SlotError::AllocationFailure),
        match access {
            Some(slot) => {
                &&& slot@.ended ==> done is Err
                &&& final(slot)@ == slot@.after(SlotOp::Initialize { allocated: done is Ok })
                &&& final(slot)@.wf()
            },
            None => done is Err,
        },
{
    match access {
        Some(slot) => slot.initialize(),
        None => Err(SlotError::AllocationFailure),
    }
}

/// Reads the calling thread's value. An absent slot, the slot of a thread
/// that has ended, and storage that is gone all report `EmptyThreadLocal`.
pub fn tls_read(access: Option<&ThreadLocalSlot>) -> (got: Result<i32, SlotError>)
    ensures
        got == read_through(access_view(access)),
{
    match access {
        Some(slot) => slot.read(),
        None => Err(SlotError::EmptyThreadLocal),
    }
}

/// Releases the calling thread's value, if it has one. Safe to call at any
/// time and any number of times; where the storage is gone there is nothing
/// left to release.
pub fn force_cleanup(access: Option<&mut ThreadLocalSlot>)
    ensures
        match access {
            Some(slot) => final(slot)@ == slot@.after(SlotOp::Destroy) && final(slot)@.wf(),
            None => true,
        },
{
    match access {
        Some(slot) => slot.destroy(),
        None => {},
    }
}

} // verus!
