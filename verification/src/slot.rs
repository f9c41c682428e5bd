//! One thread's slot: either absent, or present with an owned value.

use vstd::prelude::*;
use crate::error::SlotError;
use crate::object::TLSObject;
use crate::state::{read_through, SlotOp, SlotView, ThreadState};

verus! {

/// The integer inside the outcome of an allocation, if there is an object.
pub open spec fn allocation_view(allocation: Option<TLSObject>) -> Option<i32> {
    match allocation {
        Some(object) => Some(object@),
        None => None,
    }
}

/// A holder of at most one owned value, meant to live in one thread's
/// storage and to be used by that thread alone. Once its thread has ended it
/// stays absent: no call puts a value into it again.
pub struct ThreadLocalSlot {
    value: Option<TLSObject>,
    ended: bool,
    stored: Ghost<nat>,
    released: Ghost<nat>,
}

impl View for ThreadLocalSlot {
    type V = ThreadState;

    closed spec fn view(&self) -> ThreadState {
        ThreadState {
            slot: SlotView {
                value: match self.value {
                    Some(object) => Some(object@),
                    None => None,
                },
                stored: self.stored@,
                released: self.released@,
            },
            ended: self.ended,
        }
    }
}

impl ThreadLocalSlot {
    #[verifier::type_invariant]
    spec fn well_formed(self) -> bool {
        self@.wf()
    }

    /// An absent slot with an empty ledger, of a thread that is running.
    pub fn new() -> (slot: ThreadLocalSlot)
        ensures
            slot@ == ThreadState::untouched(),
    {
        ThreadLocalSlot { value: None, ended: false, stored: Ghost(0), released: Ghost(0) }
    }

    /// Whether the slot holds a value.
    pub fn is_present(&self) -> (present: bool)
        ensures
            present == self@.slot.is_present(),
            self@.wf(),
    {
        proof {
            use_type_invariant(self);
        }
        self.value.is_some()
    }

    /// Whether the owning thread has ended.
    pub fn has_ended(&self) -> (ended: bool)
        ensures
            ended == self@.ended,
            self@.wf(),
    {
        proof {
            use_type_invariant(self);
        }
        self.ended
    }

    /// Offers the outcome of an allocation to the slot. With an object, and
    /// while the thread runs, the slot releases what it held before and then
    /// holds the object. Without an object, or once the thread has ended, the
    /// call fails with `AllocationFailure` and the slot stays as it was; an
    /// object that was not taken in is released at once.
    pub fn install(&mut self, allocation: Option<TLSObject>) -> (done: Result<(), SlotError>)
        ensures
            done == old(self)@.offer_report(allocation_view(allocation)),
            final(self)@ == old(self)@.offered(allocation_view(allocation)),
            final(self)@.wf(),
    {
        proof {
            use_type_invariant(&*self);
        }
        if self.ended {
            return Err(SlotError::AllocationFailure);
        }
        match allocation {
            Some(object) => {
                let ghost before = self@.slot;
                *self = ThreadLocalSlot {
                    value: Some(object),
                    ended: false,
                    stored: Ghost(before.stored + 1),
                    released: Ghost(before.released + before.held()),
                };
                Ok(())
            },
            None => Err(SlotError::AllocationFailure),
        }
    }

    /// Makes a fresh object and installs it. While the thread runs, the one
    /// thing that can go wrong is the allocation. Once the thread has ended
    /// the call fails without asking for storage. Where it fails the slot is
    /// left exactly as it was.
    pub fn initialize(&mut self) -> (done: Result<(), SlotError>)
        ensures
            done is Err ==> done == Err::<(), SlotError>(SlotError::AllocationFailure),
            old(self)@.ended ==> done is Err,
            final(self)@ == old(self)@.after(SlotOp::Initialize { allocated: done is Ok }),
            final(self)@.wf(),
    {
        proof {
            use_type_invariant(&*self);
        }
        if self.ended {
            Err(SlotError::AllocationFailure)
        } else {
            self.install(TLSObject::new())
        }
    }

    /// The value held, or `EmptyThreadLocal` when there is none or the
    /// thread has ended. The slot is not changed.
    pub fn read(&self) -> (got: Result<i32, SlotError>)
        ensures
            got == read_through(self@.access()),
            self@.wf(),
    {
        proof {
            use_type_invariant(self);
        }
        match &self.value {
            Some(object) => Ok(object.get_value()),
            None => Err(SlotError::EmptyThreadLocal),
        }
    }

    /// Releases the value held, if any, and leaves the slot absent. On an
    /// absent slot nothing happens.
    pub fn destroy(&mut self)
        ensures
            final(self)@ == old(self)@.after(SlotOp::Destroy),
            final(self)@.wf(),
    {
        proof {
            use_type_invariant(&*self);
        }
        if self.value.is_some() {
            let ghost before = self@.slot;
            *self = ThreadLocalSlot {
                value: None,
                ended: false,
                stored: Ghost(before.stored),
                released: Ghost(before.released + 1),
            };
        }
    }

    /// What the owning thread's end does to the slot: the value still held,
    /// if any, is released, and the slot is absent from then on. A second
    /// call changes nothing.
    pub fn teardown(&mut self)
        ensures
            final(self)@ == old(self)@.after(SlotOp::Teardown),
            final(self)@.wf(),
    {
        proof {
            use_type_invariant(&*self);
        }
        if !self.ended {
            let ghost before = self@.slot;
            *self = ThreadLocalSlot {
                value: None,
                ended: true,
                stored: Ghost(before.stored),
                released: Ghost(before.released + before.held()),
            };
        }
    }
}

} // verus!
