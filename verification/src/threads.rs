//! Many threads, each with a slot of its own: a model of their calls, and the
//! proof that no thread's calls reach another thread's slot.

use vstd::prelude::*;
use crate::error::SlotError;
use crate::state::{read_through, SlotOp, ThreadState};

verus! {

/// A call together with the thread that makes it.
pub struct Call {
    pub thread: nat,
    pub op: SlotOp,
}

/// The state of `thread` among `slots`; a thread that is not there yet has
/// not touched its slot.
pub open spec fn slot_of(slots: Map<nat, ThreadState>, thread: nat) -> ThreadState {
    if slots.contains_key(thread) {
        slots[thread]
    } else {
        ThreadState::untouched()
    }
}

/// All threads' states after the calls of `trace` ran one after another,
/// each on its caller's slot.
pub open spec fn run(slots: Map<nat, ThreadState>, trace: Seq<Call>) -> Map<nat, ThreadState>
    decreases trace.len(),
{
    if trace.len() == 0 {
        slots
    } else {
        let before = run(slots, trace.drop_last());
        let call = trace.last();
        before.insert(call.thread, slot_of(before, call.thread).after(call.op))
    }
}

/// What the reads of `thread` report while `trace` runs.
pub open spec fn observed(slots: Map<nat, ThreadState>, trace: Seq<Call>, thread: nat) -> Seq<
    Result<i32, SlotError>,
>
    decreases trace.len(),
{
    if trace.len() == 0 {
        Seq::empty()
    } else if trace.last().thread == thread && trace.last().op is Read {
        observed(slots, trace.drop_last(), thread).push(
            read_through(slot_of(run(slots, trace.drop_last()), thread).access()),
        )
    } else {
        observed(slots, trace.drop_last(), thread)
    }
}

/// The calls of `thread` in `trace`, in order.
pub open spec fn own_ops(trace: Seq<Call>, thread: nat) -> Seq<SlotOp>
    decreases trace.len(),
{
    if trace.len() == 0 {
        Seq::empty()
    } else if trace.last().thread == thread {
        own_ops(trace.drop_last(), thread).push(trace.last().op)
    } else {
        own_ops(trace.drop_last(), thread)
    }
}

/// However the calls of many threads interleave, each thread's slot ends as
/// if that thread had made its own calls alone.
pub proof fn lemma_threads_isolated(slots: Map<nat, ThreadState>, trace: Seq<Call>, thread: nat)
    ensures
        slot_of(run(slots, trace), thread) == slot_of(slots, thread).after_all(
            own_ops(trace, thread),
        ),
    decreases trace.len(),
{
    if trace.len() > 0 {
        lemma_threads_isolated(slots, trace.drop_last(), thread);
        if trace.last().thread == thread {
            let mine = own_ops(trace.drop_last(), thread);
            assert(mine.push(trace.last().op).drop_last() =~= mine);
        }
    }
}

/// However the calls of many threads interleave, each thread's reads report
/// what they would have reported had the thread run alone.
pub proof fn lemma_reads_isolated(slots: Map<nat, ThreadState>, trace: Seq<Call>, thread: nat)
    ensures
        observed(slots, trace, thread) == slot_of(slots, thread).reads(own_ops(trace, thread)),
    decreases trace.len(),
{
    if trace.len() > 0 {
        lemma_reads_isolated(slots, trace.drop_last(), thread);
        lemma_threads_isolated(slots, trace.drop_last(), thread);
        if trace.last().thread == thread {
            let mine = own_ops(trace.drop_last(), thread);
            assert(mine.push(trace.last().op).drop_last() =~= mine);
        }
    }
}

/// A call by one thread leaves every other thread's state as it was.
pub proof fn lemma_call_leaves_others(slots: Map<nat, ThreadState>, call: Call, other: nat)
    requires
        other != call.thread,
    ensures
        slot_of(run(slots, seq![call]), other) == slot_of(slots, other),
{
    assert(seq![call].drop_last() =~= Seq::<Call>::empty());
    assert(run(slots, Seq::<Call>::empty()) == slots);
}

} // verus!
