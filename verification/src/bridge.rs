//! The push-to-pull bridge over the real notification facility.
//!
//! The `notify` crate pushes each raw observation into a callback on its own
//! delivery thread.  Here that callback does exactly one thing: it classifies
//! the raw argument and forwards it into a bounded queue of capacity one with
//! a blocking send.  The blocking send is the adapter's only flow control —
//! while the consumer has not taken the previous observation, the source's
//! delivery thread waits.  The consumer side pulls one observation at a time
//! and acts on it as `obs::action_for` decides.

use vstd::prelude::*;

use notify::Watcher;

use crate::drain::HandleEvent;
use crate::obs::LoopAction;
use crate::obs::Observation;
use crate::obs::SetupError;
use crate::obs::classify;
use crate::obs::delivered;
use crate::obs::next_action;

verus! {

/// Relies on `tokio::sync::mpsc::channel`: returns the two ends of a bounded
/// first-in-first-out queue of the given capacity.  tokio panics on a
/// capacity of zero and on one above its semaphore's maximum number of
/// permits, so both are excluded here.
#[verifier::external_body]
fn make_queue(capacity: usize) -> (ends: (
    tokio::sync::mpsc::Sender<Observation>,
    tokio::sync::mpsc::Receiver<Observation>,
))
    requires
        1 <= capacity <= usize::MAX / 8,
{
    tokio::sync::mpsc::channel(capacity)
}

/// Relies on `tokio::sync::mpsc::Sender::blocking_send`: parks the calling
/// thread until the queue has room, then delivers the observation; it fails
/// only when the receiver is gone.  tokio panics when this is called from
/// inside an asynchronous execution context; the adapter calls it only from
/// the notification source's own delivery thread.
#[verifier::external_body]
fn offer_blocking(queue: &tokio::sync::mpsc::Sender<Observation>, ob: Observation) -> (sent: bool)
{
    queue.blocking_send(ob).is_ok()
}

/// Relies on `tokio::sync::mpsc::Receiver::blocking_recv`: parks the calling
/// thread until the queue holds an observation or every sender is gone;
/// `None` means the queue is closed and drained.  tokio panics when this is
/// called from inside an asynchronous execution context.
#[verifier::external_body]
fn take_blocking(queue: &mut tokio::sync::mpsc::Receiver<Observation>) -> (item: Option<
    Observation,
>) {
    queue.blocking_recv()
}

/// Relies on `tokio::sync::mpsc::Receiver::is_closed`: true exactly when
/// every sender is gone — here, when the notification source holding the
/// producer half has been dropped — or when the receiver itself closed the
/// queue.
#[verifier::external_body]
fn queue_closed(queue: &tokio::sync::mpsc::Receiver<Observation>) -> (closed: bool) {
    queue.is_closed()
}

/// What the notification source's callback does with one raw observation:
/// classify it and forward it into the queue, waiting while the queue is
/// full.  A failed forward means the consumer is gone; the source is about to
/// be torn down with it, so the observation is dropped.
pub(crate) fn forward(
    queue: &tokio::sync::mpsc::Sender<Observation>,
    raw: Result<notify::Event, notify::Error>,
) {
    let ob = classify(raw);
    let _ = offer_blocking(queue, ob);
}

/// Relies on `notify::RecommendedWatcher::new` (through the `Watcher`
/// trait): builds the platform's notification source with its default
/// configuration.  Every invocation of the source's callback is handed to
/// `forward`, so every raw observation the source ever produces goes through
/// the queue, successes and failures alike.
#[verifier::external_body]
fn new_watcher(queue: tokio::sync::mpsc::Sender<Observation>) -> (made: Result<
    notify::RecommendedWatcher,
    notify::Error,
>) {
    notify::RecommendedWatcher::new(
        move |raw: Result<notify::Event, notify::Error>| forward(&queue, raw),
        notify::Config::default(),
    )
}

/// Relies on `notify::Watcher::watch`: arms the source to observe the path,
/// recursively when the path is a directory.  Whether arming succeeds is
/// decided by the operating system — the path must exist and be accessible —
/// so nothing is promised of the outcome.
#[verifier::external_body]
fn watch_path(source: &mut notify::RecommendedWatcher, path: &str) -> (armed: Result<
    (),
    notify::Error,
>) {
    source.watch(std::path::Path::new(path), notify::RecursiveMode::Recursive)
}

/// A live watch: the armed notification source together with the consumer
/// half of its queue.  Dropping it drops the source, which tears the
/// underlying watch down and closes the queue.
pub struct Watch {
    source: notify::RecommendedWatcher,
    queue: tokio::sync::mpsc::Receiver<Observation>,
}

/// Starts watching a path: builds the capacity-one queue, builds the
/// notification source around it, and arms the source on the path.  On any
/// failure the partially built pieces are dropped before returning, so no
/// watch outlives a `SetupError`; the error says which step failed.
pub fn arm(path: &str) -> (started: Result<Watch, SetupError>) {
    let (sender, receiver) = make_queue(1);
    match new_watcher(sender) {
        Err(fault) => Err(SetupError::Init(fault)),
        Ok(source) => {
            let mut source = source;
            match watch_path(&mut source, path) {
                Err(fault) => Err(SetupError::Arm(fault)),
                Ok(_) => Ok(Watch { source, queue: receiver }),
            }
        }
    }
}

/// One turn of the drain loop: wait for the queue's next answer and act on
/// it.  Before anything is dispatched, the turn checks whether the source is
/// gone; a turn that reports done never invokes the sink, so an observation
/// that still sat in the queue undispatched when the source disappeared is
/// discarded, never delivered.  Otherwise the sink receives exactly the
/// event of a successful observation — a fault adds nothing.
pub fn pump_one<S: HandleEvent>(watch: &mut Watch, sink: &mut S) -> (done: bool)
    ensures
        done ==> final(sink).handled() == old(sink).handled(),
        exists|item: Option<Observation>|
            final(sink).handled() == old(sink).handled() + #[trigger] delivered(item),
{
    let item = take_blocking(&mut watch.queue);
    let ghost received: Option<Observation> = item;
    if queue_closed(&watch.queue) {
        // The source is gone: whatever was just taken stays undispatched.
        proof {
            assert(sink.handled() =~= old(sink).handled() + delivered(
                Option::<Observation>::None,
            ));
        }
        return true;
    }
    match next_action(item) {
        LoopAction::Dispatch(event) => {
            sink.handle_event(event);
            proof {
                assert(received == Some(Observation::Change(event)));
                assert(sink.handled() =~= old(sink).handled() + delivered(received));
            }
            false
        }
        LoopAction::Note(_) => {
            proof {
                assert(received matches Some(Observation::Fault(_)));
                assert(sink.handled() =~= old(sink).handled() + delivered(received));
            }
            false
        }
        LoopAction::Finish => {
            proof {
                assert(received is None);
                assert(sink.handled() =~= old(sink).handled() + delivered(received));
            }
            true
        }
    }
}

} // verus!
