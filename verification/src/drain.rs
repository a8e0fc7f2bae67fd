//! The pull side of the adapter: a sink capability and the drain over a
//! sequence of observations.

use vstd::prelude::*;

use crate::obs::Observation;
use crate::obs::delivered;
use crate::obs::lemma_successes_push;
use crate::obs::successes;
use crate::slot::EventSlot;

verus! {

/// The consumer capability: handle one change event.  A sink's abstract state
/// is the sequence of events it has received so far; handling an event
/// appends exactly that event.  The drain waits for one call to return before
/// making the next, so handling never overlaps and events arrive in queue
/// order.
pub trait HandleEvent {
    /// The events this sink has received so far, oldest first.
    spec fn handled(&self) -> Seq<notify::Event>;

    /// Receives one change event.
    fn handle_event(&mut self, event: notify::Event)
        ensures
            final(self).handled() == old(self).handled().push(event),
    ;
}

/// A sink that records every event it is handed.
pub struct EventLog {
    events: Vec<notify::Event>,
}

impl EventLog {
    /// A log that has received nothing yet.
    pub fn new() -> (log: Self)
        ensures
            log.handled() == Seq::<notify::Event>::empty(),
    {
        EventLog { events: Vec::new() }
    }

    /// The events received so far, oldest first.
    pub fn events(&self) -> (events: &Vec<notify::Event>)
        ensures
            events@ == self.handled(),
    {
        &self.events
    }
}

impl HandleEvent for EventLog {
    closed spec fn handled(&self) -> Seq<notify::Event> {
        self.events@
    }

    fn handle_event(&mut self, event: notify::Event) {
        self.events.push(event);
    }
}

/// Drains a finished sequence of observations into a sink, as the watch loop
/// does with the observations the queue hands it one at a time.  The sink
/// receives exactly the successful events among them, in their original
/// order, appended to whatever it had received before; faults are discarded
/// and never reach the sink.
pub fn run_drain<S: HandleEvent>(items: Vec<Observation>, sink: &mut S)
    ensures
        final(sink).handled() == old(sink).handled() + successes(items@),
{
    let ghost start: Seq<notify::Event> = old(sink).handled();
    let ghost all: Seq<Observation> = items@;
    let ghost mut seen: Seq<Observation> = Seq::empty();
    let mut pending = items;
    proof {
        assert(seen + pending@ =~= all);
    }
    while pending.len() > 0
        invariant
            seen + pending@ == all,
            sink.handled() == start + successes(seen),
        decreases pending.len(),
    {
        let ob = pending.remove(0);
        let ghost observed: Observation = ob;
        match ob {
            Observation::Change(event) => {
                sink.handle_event(event);
            }
            Observation::Fault(_) => {},
        }
        proof {
            lemma_successes_push(seen, observed);
            let prev = seen;
            seen = seen.push(observed);
            assert(seen + pending@ =~= all);
            assert(successes(seen) =~= successes(prev) + delivered(Some(observed)));
            assert(sink.handled() =~= start + successes(seen));
        }
    }
    proof {
        assert(seen =~= all);
    }
}

/// The adapter's rhythm rehearsed on a finite feed: every observation goes
/// through a queue of capacity one, and the producer offers the next one
/// only after the consumer has taken — and the sink has finished with — the
/// previous one.  Under that discipline no offer is ever refused, nothing is
/// lost or reordered, and the sink receives exactly the successful events in
/// production order; after the producer closes the queue, it reports
/// drained.
pub fn relay_through_slot<S: HandleEvent>(items: Vec<Observation>, sink: &mut S)
    ensures
        final(sink).handled() == old(sink).handled() + successes(items@),
{
    let ghost start: Seq<notify::Event> = old(sink).handled();
    let ghost all: Seq<Observation> = items@;
    let ghost mut seen: Seq<Observation> = Seq::empty();
    let mut slot = EventSlot::new();
    let mut pending = items;
    proof {
        assert(seen + pending@ =~= all);
    }
    while pending.len() > 0
        invariant
            seen + pending@ == all,
            sink.handled() == start + successes(seen),
            slot.state().accepts(),
        decreases pending.len(),
    {
        let ob = pending.remove(0);
        let ghost observed: Observation = ob;
        let accepted = slot.offer(ob);
        proof {
            assert(accepted);
        }
        let taken = slot.take();
        proof {
            assert(taken == Some(observed));
        }
        match taken {
            Option::Some(Observation::Change(event)) => {
                sink.handle_event(event);
            }
            Option::Some(Observation::Fault(_)) => {},
            Option::None => {},
        }
        proof {
            lemma_successes_push(seen, observed);
            let prev = seen;
            seen = seen.push(observed);
            assert(seen + pending@ =~= all);
            assert(successes(seen) =~= successes(prev) + delivered(Some(observed)));
            assert(sink.handled() =~= start + successes(seen));
        }
    }
    slot.close();
    let done = slot.drained();
    proof {
        assert(done);
        assert(seen =~= all);
    }
}

} // verus!
