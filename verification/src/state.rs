//! What a slot is and how each call changes it, as plain values: the model
//! that the contracts of the executable code are stated over.

use vstd::prelude::*;
use crate::error::SlotError;
use crate::object::FRESH_VALUE;

verus! {

/// What a slot is, as plain values: the integer it holds, if any, and a
/// ledger of how many values it has taken in and how many it has released.
pub struct SlotView {
    pub value: Option<i32>,
    pub stored: nat,
    pub released: nat,
}

impl SlotView {
    /// A slot that nothing has touched yet.
    pub open spec fn untouched() -> SlotView {
        SlotView { value: None, stored: 0, released: 0 }
    }

    /// Whether the slot holds a value.
    pub open spec fn is_present(self) -> bool {
        self.value is Some
    }

    /// How many values the slot owns right now: one or none.
    pub open spec fn held(self) -> nat {
        if self.value is Some { 1 } else { 0 }
    }

    /// Every value ever taken in is either still held or was released, once.
    pub open spec fn balanced(self) -> bool {
        self.stored == self.released + self.held()
    }

    /// The slot after it took in `value`: what it held before is released
    /// first.
    pub open spec fn installed(self, value: i32) -> SlotView {
        SlotView {
            value: Some(value),
            stored: self.stored + 1,
            released: self.released + self.held(),
        }
    }

    /// The slot after it let go of what it held, if anything.
    pub open spec fn destroyed(self) -> SlotView {
        SlotView { value: None, stored: self.stored, released: self.released + self.held() }
    }

    /// What a read reports. It changes nothing.
    pub open spec fn read(self) -> Result<i32, SlotError> {
        match self.value {
            Some(value) => Ok(value),
            None => Err(SlotError::EmptyThreadLocal),
        }
    }

    /// Taking a value in and letting one go both keep the ledger balanced.
    pub proof fn lemma_steps_keep_balance(self, value: i32)
        requires
            self.balanced(),
        ensures
            SlotView::untouched().balanced(),
            self.installed(value).balanced(),
            self.destroyed().balanced(),
    {
    }

    /// Whatever happened to a slot before, a read right after a value was
    /// installed gives that value.
    pub proof fn lemma_read_after_install(self, value: i32)
        ensures
            self.installed(value).read() == Ok::<i32, SlotError>(value),
    {
    }

    /// Installing twice with nothing in between releases the first value
    /// before the second is held: one more value is released, one is held,
    /// and a read gives the second.
    pub proof fn lemma_install_twice(self, first: i32, second: i32)
        ensures
            self.installed(first).installed(second).read() == Ok::<i32, SlotError>(second),
            self.installed(first).installed(second).released == self.installed(first).released
                + 1,
            self.installed(first).installed(second).held() == 1,
    {
    }

    /// Destroying twice in a row leaves the slot exactly as destroying once
    /// does: absent, with nothing released a second time.
    pub proof fn lemma_destroy_idempotent(self)
        ensures
            self.destroyed().destroyed() == self.destroyed(),
            !self.destroyed().is_present(),
            self.destroyed().released == self.released + self.held(),
    {
    }

    /// A read of an absent slot reports `EmptyThreadLocal`, and an untouched
    /// slot and a destroyed one are both absent.
    pub proof fn lemma_read_absent(self)
        ensures
            !self.is_present() ==> self.read() == Err::<i32, SlotError>(
                SlotError::EmptyThreadLocal,
            ),
            SlotView::untouched().read() == Err::<i32, SlotError>(SlotError::EmptyThreadLocal),
            self.destroyed().read() == Err::<i32, SlotError>(SlotError::EmptyThreadLocal),
    {
    }
}

/// One call that a thread makes on its own slot, or the thread's end.
pub enum SlotOp {
    /// An initialise; `allocated` says whether storage for the fresh value
    /// could be had.
    Initialize { allocated: bool },
    Read,
    Destroy,
    /// The owning thread ends and its storage goes away.
    Teardown,
}

/// What a read finds when it reaches for the thread's slot: the slot, or
/// nothing once the thread's storage is gone.
pub open spec fn read_through(access: Option<SlotView>) -> Result<i32, SlotError> {
    match access {
        Some(slot) => slot.read(),
        None => Err(SlotError::EmptyThreadLocal),
    }
}

/// One thread's slot together with whether the thread has ended.
pub struct ThreadState {
    pub slot: SlotView,
    pub ended: bool,
}

impl ThreadState {
    /// A thread that has not touched its slot.
    pub open spec fn untouched() -> ThreadState {
        ThreadState { slot: SlotView::untouched(), ended: false }
    }

    /// A running thread whose slot is `slot`.
    pub open spec fn live(slot: SlotView) -> ThreadState {
        ThreadState { slot, ended: false }
    }

    /// The slot as a call can still reach it.
    pub open spec fn access(self) -> Option<SlotView> {
        if self.ended {
            None
        } else {
            Some(self.slot)
        }
    }

    /// What holds of every slot at all times: its ledger is balanced, and
    /// once its thread has ended it holds nothing.
    pub open spec fn wf(self) -> bool {
        &&& self.slot.balanced()
        &&& self.ended ==> !self.slot.is_present()
    }

    /// Whether the slot can take in the outcome of an allocation: the
    /// thread is still running and the allocator gave an object.
    pub open spec fn takes(self, allocation: Option<i32>) -> bool {
        !self.ended && allocation is Some
    }

    /// The state after the outcome of an allocation was offered to the slot.
    /// It is taken in where `takes` holds; otherwise nothing changes.
    pub open spec fn offered(self, allocation: Option<i32>) -> ThreadState {
        match allocation {
            Some(value) if !self.ended => ThreadState::live(self.slot.installed(value)),
            _ => self,
        }
    }

    /// What an initialise reports: success where the value was taken in,
    /// `AllocationFailure` where it was not.
    pub open spec fn offer_report(self, allocation: Option<i32>) -> Result<(), SlotError> {
        if self.takes(allocation) {
            Ok(())
        } else {
            Err(SlotError::AllocationFailure)
        }
    }

    /// The state after one call. Once the thread has ended nothing changes
    /// any more.
    pub open spec fn after(self, op: SlotOp) -> ThreadState {
        if self.ended {
            self
        } else {
            match op {
                SlotOp::Initialize { allocated } => self.offered(
                    if allocated {
                        Some(FRESH_VALUE)
                    } else {
                        None
                    },
                ),
                SlotOp::Read => self,
                SlotOp::Destroy => ThreadState { slot: self.slot.destroyed(), ended: false },
                SlotOp::Teardown => ThreadState { slot: self.slot.destroyed(), ended: true },
            }
        }
    }

    /// The state after a run of calls, first to last.
    pub open spec fn after_all(self, ops: Seq<SlotOp>) -> ThreadState
        decreases ops.len(),
    {
        if ops.len() == 0 {
            self
        } else {
            self.after_all(ops.drop_last()).after(ops.last())
        }
    }

    /// What the reads among a run of calls report, in the order they were
    /// made.
    pub open spec fn reads(self, ops: Seq<SlotOp>) -> Seq<Result<i32, SlotError>>
        decreases ops.len(),
    {
        if ops.len() == 0 {
            Seq::empty()
        } else if ops.last() is Read {
            self.reads(ops.drop_last()).push(
                read_through(self.after_all(ops.drop_last()).access()),
            )
        } else {
            self.reads(ops.drop_last())
        }
    }
}

/// After any run of calls on a thread that is still alive, an initialise that
/// got its storage followed at once by a read reports the fresh value.
pub proof fn lemma_read_after_initialize(start: ThreadState, history: Seq<SlotOp>)
    requires
        !start.after_all(history).ended,
    ensures
        start.reads(history.push(SlotOp::Initialize { allocated: true }).push(SlotOp::Read)).last()
            == Ok::<i32, SlotError>(FRESH_VALUE),
{
    let with_init = history.push(SlotOp::Initialize { allocated: true });
    let all = with_init.push(SlotOp::Read);
    assert(all.drop_last() =~= with_init);
    assert(with_init.drop_last() =~= history);
}

/// Every call keeps a well-formed state well-formed, and so does the offer
/// of an allocation's outcome.
pub proof fn lemma_steps_keep_wf(state: ThreadState, op: SlotOp, allocation: Option<i32>)
    requires
        state.wf(),
    ensures
        ThreadState::untouched().wf(),
        state.after(op).wf(),
        state.offered(allocation).wf(),
{
}

/// Once a thread has ended, its slot is absent for good: no later call
/// changes anything, no allocation is taken in, and every later read reports
/// `EmptyThreadLocal`.
pub proof fn lemma_ended_is_final(ended: ThreadState, later: Seq<SlotOp>)
    requires
        ended.ended,
    ensures
        ended.after_all(later) == ended,
        forall|allocation: Option<i32>|
            #![auto]
            ended.offered(allocation) == ended && ended.offer_report(allocation) == Err::<
                (),
                SlotError,
            >(SlotError::AllocationFailure),
        read_through(ended.access()) == Err::<i32, SlotError>(SlotError::EmptyThreadLocal),
        forall|i: int|
            0 <= i < ended.reads(later).len() ==> ended.reads(later)[i] == Err::<i32, SlotError>(
                SlotError::EmptyThreadLocal,
            ),
    decreases later.len(),
{
    if later.len() > 0 {
        lemma_ended_is_final(ended, later.drop_last());
    }
}

/// A thread's end releases the value its slot still holds, once, and leaves
/// the slot absent and out of reach.
pub proof fn lemma_teardown_releases(alive: ThreadState)
    requires
        !alive.ended,
    ensures
        alive.after(SlotOp::Teardown).ended,
        alive.after(SlotOp::Teardown).access() is None,
        !alive.after(SlotOp::Teardown).slot.is_present(),
        alive.after(SlotOp::Teardown).slot.released == alive.slot.released + alive.slot.held(),
        alive.after(SlotOp::Teardown).slot.stored == alive.slot.stored,
{
}

} // verus!
