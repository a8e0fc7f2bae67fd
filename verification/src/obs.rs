//! The items that flow through the adapter's queue, and the decision taken on
//! each of them by the drain loop.

use vstd::prelude::*;

verus! {

/// One invocation of the notification source's callback: either a decoded
/// change event or a per-observation error.  The adapter forwards both into
/// the queue; it never drops a callback invocation.
pub enum Observation {
    /// A successfully decoded change event, owed to the sink.
    Change(notify::Event),
    /// A failed observation: noted by the drain loop, never delivered to the
    /// sink, and never fatal to the watch.
    Fault(notify::Error),
}

/// Why a watch could not be started.  Nothing of the watch survives such a
/// failure: no queue, no armed source.
pub enum SetupError {
    /// Constructing the underlying notification facility failed.
    Init(notify::Error),
    /// The facility was built, but the requested path could not be armed
    /// (for instance, it does not exist).
    Arm(notify::Error),
}

/// What the callback's raw argument becomes in the queue.
pub open spec fn classified(raw: Result<notify::Event, notify::Error>) -> Observation {
    match raw {
        Ok(event) => Observation::Change(event),
        Err(fault) => Observation::Fault(fault),
    }
}

/// Turns the raw callback argument into the observation that is enqueued.
pub fn classify(raw: Result<notify::Event, notify::Error>) -> (ob: Observation)
    ensures
        ob == classified(raw),
{
    match raw {
        Ok(event) => Observation::Change(event),
        Err(fault) => Observation::Fault(fault),
    }
}

/// What the drain loop does with one answer from the queue.
pub enum LoopAction {
    /// Hand the event to the sink and wait for the sink to finish with it
    /// before pulling the next observation.
    Dispatch(notify::Event),
    /// Note the failed observation for diagnostics and pull the next one.
    Note(notify::Error),
    /// The queue reported closed: the source is gone, the loop returns.
    Finish,
}

/// The drain loop's decision on one answer from the queue: `None` means the
/// queue reported closed.
pub open spec fn action_for(item: Option<Observation>) -> LoopAction {
    match item {
        Option::None => LoopAction::Finish,
        Option::Some(Observation::Change(event)) => LoopAction::Dispatch(event),
        Option::Some(Observation::Fault(fault)) => LoopAction::Note(fault),
    }
}

/// Decides what the drain loop does with one answer from the queue.  An error
/// is only ever noted, never dispatched and never fatal; a closed queue is
/// the only thing that finishes the loop.
pub fn next_action(item: Option<Observation>) -> (action: LoopAction)
    ensures
        action == action_for(item),
{
    match item {
        Option::None => LoopAction::Finish,
        Option::Some(Observation::Change(event)) => LoopAction::Dispatch(event),
        Option::Some(Observation::Fault(fault)) => LoopAction::Note(fault),
    }
}

/// The events a sink receives from one answer of the queue: one event for a
/// successful observation, nothing for a fault or a closed queue.
pub open spec fn delivered(item: Option<Observation>) -> Seq<notify::Event> {
    match item {
        Option::Some(Observation::Change(event)) => seq![event],
        _ => Seq::empty(),
    }
}

/// The events a sink receives from a sequence of observations: exactly the
/// successful ones, in the order they were produced.
pub open spec fn successes(items: Seq<Observation>) -> Seq<notify::Event>
    decreases items.len(),
{
    if items.len() == 0 {
        Seq::empty()
    } else {
        let rest = successes(items.drop_last());
        match items.last() {
            Observation::Change(event) => rest.push(event),
            Observation::Fault(_) => rest,
        }
    }
}

/// Appending one observation extends the delivered events by what that one
/// observation delivers.
pub proof fn lemma_successes_push(items: Seq<Observation>, ob: Observation)
    ensures
        successes(items.push(ob)) == successes(items) + delivered(Some(ob)),
{
    assert(items.push(ob).drop_last() =~= items);
    assert(items.push(ob).last() == ob);
    match ob {
        Observation::Change(event) => {
            assert(successes(items).push(event) =~= successes(items) + delivered(Some(ob)));
        }
        Observation::Fault(_) => {
            assert(successes(items) =~= successes(items) + delivered(Some(ob)));
        }
    }
}

/// Delivery distributes over concatenation of observation sequences.
pub proof fn lemma_successes_concat(left: Seq<Observation>, right: Seq<Observation>)
    ensures
        successes(left + right) == successes(left) + successes(right),
    decreases right.len(),
{
    if right.len() == 0 {
        assert(left + right =~= left);
        assert(successes(left) + successes(right) =~= successes(left));
    } else {
        lemma_successes_concat(left, right.drop_last());
        assert((left + right).drop_last() =~= left + right.drop_last());
        assert((left + right).last() == right.last());
        match right.last() {
            Observation::Change(event) => {
                assert(successes(left) + successes(right.drop_last()).push(event) =~= successes(
                    left,
                ) + successes(right));
            }
            Observation::Fault(_) => {
                assert(successes(right.drop_last()) == successes(right));
            }
        }
    }
}

/// The successful events among a sequence of raw callback arguments, in
/// their original order.
pub open spec fn ok_events(raws: Seq<Result<notify::Event, notify::Error>>) -> Seq<notify::Event>
    decreases raws.len(),
{
    if raws.len() == 0 {
        Seq::empty()
    } else {
        let rest = ok_events(raws.drop_last());
        match raws.last() {
            Ok(event) => rest.push(event),
            Err(_) => rest,
        }
    }
}

/// Ordering, end to end: feed any sequence of raw callback arguments through
/// classification and the drain delivers exactly the successful events among
/// them, in the order the source produced them.
pub proof fn lemma_classified_delivery(raws: Seq<Result<notify::Event, notify::Error>>)
    ensures
        successes(raws.map_values(|raw| classified(raw))) == ok_events(raws),
    decreases raws.len(),
{
    let classify_all = |raw| classified(raw);
    if raws.len() > 0 {
        lemma_classified_delivery(raws.drop_last());
        assert(raws.map_values(classify_all).drop_last() =~= raws.drop_last().map_values(
            classify_all,
        ));
        assert(raws.map_values(classify_all).last() == classified(raws.last()));
    }
}

/// A sequence made of faults alone delivers nothing to the sink.
pub proof fn lemma_faults_deliver_nothing(faults: Seq<Observation>)
    requires
        forall|i: int| 0 <= i < faults.len() ==> faults[i] is Fault,
    ensures
        successes(faults) == Seq::<notify::Event>::empty(),
    decreases faults.len(),
{
    if faults.len() > 0 {
        lemma_faults_deliver_nothing(faults.drop_last());
    }
}

/// Error isolation: any run of faults injected between two stretches of
/// observations is invisible to the sink.  The events delivered are exactly
/// those of the surrounding stretches, in their unchanged order.
pub proof fn lemma_error_isolation(
    before: Seq<Observation>,
    faults: Seq<Observation>,
    after: Seq<Observation>,
)
    requires
        forall|i: int| 0 <= i < faults.len() ==> faults[i] is Fault,
    ensures
        successes(before + faults + after) == successes(before) + successes(after),
{
    lemma_successes_concat(before + faults, after);
    lemma_successes_concat(before, faults);
    lemma_faults_deliver_nothing(faults);
    assert(successes(before) + successes(faults) =~= successes(before));
}

} // verus!
