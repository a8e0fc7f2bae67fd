//! A model of the adapter's queue: a bounded buffer of capacity exactly one.
//!
//! The real queue between the notification source and the drain loop is a
//! bounded channel of capacity one; its blocking send is the adapter's sole
//! flow-control mechanism.  This model makes that mechanism checkable: an
//! offer to a full slot is refused and changes nothing, so a producer driven
//! by these contracts cannot overwrite or reorder what the consumer has not
//! yet taken.

use vstd::prelude::*;

use crate::obs::Observation;

verus! {

/// The abstract state of the slot: at most one buffered observation, and
/// whether the producer side is gone.
pub struct SlotState {
    /// The observation sent but not yet taken, if any.
    pub buffered: Option<Observation>,
    /// Whether the producer side has been dropped.
    pub closed: bool,
}

impl SlotState {
    /// An offer is accepted exactly when the slot is empty and still open.
    pub open spec fn accepts(self) -> bool {
        self.buffered is None && !self.closed
    }

    /// The consumer has seen everything and the producer is gone: the drain
    /// loop finishes.
    pub open spec fn drained(self) -> bool {
        self.buffered is None && self.closed
    }
}

/// What an offer of `ob` does to the slot: accepted only into an empty, open
/// slot; otherwise the offer waits and the slot is unchanged.
pub open spec fn spec_offer(state: SlotState, ob: Observation) -> (SlotState, bool) {
    if state.accepts() {
        (SlotState { buffered: Some(ob), closed: state.closed }, true)
    } else {
        (state, false)
    }
}

/// What one take does to the slot: it empties the buffer and returns the
/// buffered observation, if there was one.
pub open spec fn spec_take(state: SlotState) -> (SlotState, Option<Observation>) {
    (SlotState { buffered: Option::None, closed: state.closed }, state.buffered)
}

/// What dropping the producer does to the slot: the watch is over, so an
/// observation still sitting in the buffer — sent but never dispatched — is
/// discarded with it.  Nothing is delivered to the consumer once the producer
/// is gone.
pub open spec fn spec_close(state: SlotState) -> SlotState {
    SlotState { buffered: Option::None, closed: true }
}

/// A bounded buffer of capacity one, the executable form of `SlotState`.
pub struct EventSlot {
    buffer: Option<Observation>,
    shut: bool,
}

impl EventSlot {
    /// The abstract state of this slot.
    pub closed spec fn state(&self) -> SlotState {
        SlotState { buffered: self.buffer, closed: self.shut }
    }

    /// An empty, open slot.
    pub fn new() -> (slot: Self)
        ensures
            slot.state() == (SlotState { buffered: Option::None, closed: false }),
    {
        EventSlot { buffer: Option::None, shut: false }
    }

    /// The producer's side of a send: the offer is accepted exactly when the
    /// slot is empty and open, and a refused offer leaves the slot as it was.
    /// The real producer repeats a refused offer until the consumer has made
    /// room; that wait is the adapter's backpressure.
    pub fn offer(&mut self, ob: Observation) -> (accepted: bool)
        ensures
            (final(self).state(), accepted) == spec_offer(old(self).state(), ob),
    {
        if self.shut {
            false
        } else {
            match self.buffer {
                Option::Some(_) => false,
                Option::None => {
                    self.buffer = Option::Some(ob);
                    true
                }
            }
        }
    }

    /// The consumer's side of a receive: takes the buffered observation if
    /// one is there, making room for the next offer.
    pub fn take(&mut self) -> (taken: Option<Observation>)
        ensures
            (final(self).state(), taken) == spec_take(old(self).state()),
    {
        let taken = self.buffer.take();
        taken
    }

    /// Drops the producer side.  A buffered observation is discarded — once
    /// the producer is gone nothing more reaches the consumer — and no
    /// further offer is ever accepted.
    pub fn close(&mut self)
        ensures
            final(self).state() == spec_close(old(self).state()),
    {
        self.buffer = Option::None;
        self.shut = true;
    }

    /// Whether the queue reports closed to the consumer: producer gone and
    /// nothing left to take.  This, and only this, finishes the drain loop.
    pub fn drained(&self) -> (done: bool)
        ensures
            done == self.state().drained(),
    {
        self.shut && self.buffer.is_none()
    }
}

/// Backpressure: while the first observation sits untaken in the slot, an
/// offer of a second one is refused and alters nothing; once the consumer
/// takes the first, the second offer is accepted and is the next observation
/// taken.
pub proof fn lemma_backpressure(state: SlotState, first: Observation, second: Observation)
    requires
        state.accepts(),
    ensures
        ({
            let (full, accepted_first) = spec_offer(state, first);
            let (still_full, accepted_early) = spec_offer(full, second);
            let (empty_again, taken_first) = spec_take(still_full);
            let (refilled, accepted_second) = spec_offer(empty_again, second);
            let (_, taken_second) = spec_take(refilled);
            accepted_first && !accepted_early && still_full == full && taken_first == Some(first)
                && accepted_second && taken_second == Some(second)
        }),
{
}

/// Clean shutdown: when the producer disappears while one observation sits
/// in the queue only — sent but never dispatched — that observation is never
/// delivered.  The queue reports drained at once, a take yields nothing, and
/// no offer after the close is ever accepted.
pub proof fn lemma_shutdown(state: SlotState, pending: Observation, late: Observation)
    requires
        state.accepts(),
    ensures
        ({
            let (full, accepted) = spec_offer(state, pending);
            let gone = spec_close(full);
            let (emptied, taken) = spec_take(gone);
            let (after_late, accepted_late) = spec_offer(emptied, late);
            accepted && gone.drained() && taken is None && emptied.drained() && !accepted_late
                && after_late == emptied
        }),
{
}

} // verus!
