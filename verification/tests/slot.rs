use std::path::PathBuf;

use notify::Event;
use notify::EventKind;

use watch_bridge::EventLog;
use watch_bridge::EventSlot;
use watch_bridge::Observation;
use watch_bridge::relay_through_slot;

fn change(path: &str) -> Observation {
    Observation::Change(Event::new(EventKind::Any).add_path(PathBuf::from(path)))
}

fn fault() -> Observation {
    Observation::Fault(notify::Error::generic("observation failed"))
}

#[test]
fn second_event_waits_for_the_first() {
    let mut slot = EventSlot::new();
    assert!(slot.offer(change("/first")));
    // While the first event is untaken, the producer's offer of the second
    // one does not go through: this is the adapter's backpressure.
    assert!(!slot.offer(change("/second")));
    let first = slot.take();
    assert!(matches!(first, Some(Observation::Change(e))
        if e == Event::new(EventKind::Any).add_path(PathBuf::from("/first"))));
    // Once the consumer has taken the first event, the second goes through
    // and is the next one taken.
    assert!(slot.offer(change("/second")));
    let second = slot.take();
    assert!(matches!(second, Some(Observation::Change(e))
        if e == Event::new(EventKind::Any).add_path(PathBuf::from("/second"))));
}

#[test]
fn shutdown_discards_the_pending_item() {
    let mut slot = EventSlot::new();
    assert!(slot.offer(change("/pending")));
    slot.close();
    // The source is gone: the pending, never-dispatched observation is
    // discarded with it, and the queue reports drained at once.
    assert!(slot.drained());
    assert!(slot.take().is_none());
    assert!(slot.drained());
}

#[test]
fn no_offer_is_accepted_after_close() {
    let mut slot = EventSlot::new();
    slot.close();
    assert!(!slot.offer(change("/late")));
    assert!(slot.take().is_none());
    assert!(slot.drained());
}

#[test]
fn relay_keeps_order_and_drops_faults() {
    let mut log = EventLog::new();
    let items = vec![
        change("/a"),
        fault(),
        change("/b"),
        fault(),
        fault(),
        change("/c"),
    ];
    relay_through_slot(items, &mut log);
    assert_eq!(log.events().len(), 3);
    assert!(log.events()[0].paths[0].to_str() == Some("/a"));
    assert!(log.events()[1].paths[0].to_str() == Some("/b"));
    assert!(log.events()[2].paths[0].to_str() == Some("/c"));
}

#[test]
fn faults_travel_the_queue_like_events() {
    let mut slot = EventSlot::new();
    assert!(slot.offer(fault()));
    assert!(!slot.offer(change("/behind")));
    assert!(matches!(slot.take(), Some(Observation::Fault(_))));
    assert!(slot.offer(change("/behind")));
    assert!(matches!(slot.take(), Some(Observation::Change(_))));
}
