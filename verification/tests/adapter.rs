use std::path::PathBuf;

use notify::Event;
use notify::EventKind;

use watch_bridge::EventLog;
use watch_bridge::LoopAction;
use watch_bridge::Observation;
use watch_bridge::classify;
use watch_bridge::next_action;
use watch_bridge::run_drain;

fn event(path: &str) -> Event {
    Event::new(EventKind::Any).add_path(PathBuf::from(path))
}

fn fault() -> notify::Error {
    notify::Error::generic("observation failed")
}

#[test]
fn ordering_preserved() {
    let mut log = EventLog::new();
    let items = vec![
        Observation::Change(event("/a")),
        Observation::Change(event("/b")),
        Observation::Change(event("/c")),
    ];
    run_drain(items, &mut log);
    assert_eq!(log.events().len(), 3);
    assert_eq!(log.events()[0], event("/a"));
    assert_eq!(log.events()[1], event("/b"));
    assert_eq!(log.events()[2], event("/c"));
}

#[test]
fn error_between_events_is_invisible() {
    let mut log = EventLog::new();
    let items = vec![
        Observation::Change(event("/a")),
        Observation::Fault(fault()),
        Observation::Change(event("/b")),
    ];
    run_drain(items, &mut log);
    assert_eq!(log.events().len(), 2);
    assert_eq!(log.events()[0], event("/a"));
    assert_eq!(log.events()[1], event("/b"));
}

#[test]
fn error_alone_is_never_delivered() {
    let mut log = EventLog::new();
    run_drain(vec![Observation::Fault(fault())], &mut log);
    assert_eq!(log.events().len(), 0);
}

#[test]
fn repeated_errors_are_tolerated() {
    let mut log = EventLog::new();
    let mut items = Vec::new();
    let mut i: usize = 0;
    while i < 100 {
        items.push(Observation::Fault(fault()));
        i += 1;
    }
    items.push(Observation::Change(event("/after")));
    run_drain(items, &mut log);
    assert_eq!(log.events().len(), 1);
    assert_eq!(log.events()[0], event("/after"));
}

#[test]
fn empty_input_delivers_nothing() {
    let mut log = EventLog::new();
    run_drain(Vec::new(), &mut log);
    assert_eq!(log.events().len(), 0);
}

#[test]
fn drain_appends_to_earlier_deliveries() {
    let mut log = EventLog::new();
    run_drain(vec![Observation::Change(event("/a"))], &mut log);
    run_drain(vec![Observation::Change(event("/b"))], &mut log);
    assert_eq!(log.events().len(), 2);
    assert_eq!(log.events()[0], event("/a"));
    assert_eq!(log.events()[1], event("/b"));
}

#[test]
fn raw_feed_delivers_the_successes_in_order() {
    let raws = vec![
        Ok(event("/a")),
        Err(fault()),
        Ok(event("/b")),
        Err(fault()),
        Ok(event("/c")),
    ];
    let mut items = Vec::new();
    for raw in raws {
        items.push(classify(raw));
    }
    let mut log = EventLog::new();
    run_drain(items, &mut log);
    assert_eq!(log.events().len(), 3);
    assert_eq!(log.events()[0], event("/a"));
    assert_eq!(log.events()[1], event("/b"));
    assert_eq!(log.events()[2], event("/c"));
}

#[test]
fn classify_keeps_the_event() {
    let classified = classify(Ok(event("/a")));
    assert!(matches!(classified, Observation::Change(e) if e == event("/a")));
}

#[test]
fn classify_keeps_the_fault() {
    let classified = classify(Err(fault()));
    assert!(matches!(classified, Observation::Fault(_)));
}

#[test]
fn event_is_dispatched() {
    let action = next_action(Some(Observation::Change(event("/a"))));
    assert!(matches!(action, LoopAction::Dispatch(e) if e == event("/a")));
}

#[test]
fn fault_is_noted_not_dispatched() {
    let action = next_action(Some(Observation::Fault(fault())));
    assert!(matches!(action, LoopAction::Note(_)));
}

#[test]
fn closed_queue_finishes_the_loop() {
    let action = next_action(None);
    assert!(matches!(action, LoopAction::Finish));
}
