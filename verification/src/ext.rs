//! Declarations of the outside types that flow through the adapter.
//!
//! Values of these types are opaque to the verifier: the adapter carries them
//! through the queue and into the sink without reading their contents.

use vstd::prelude::*;

verus! {

/// Declares `notify::Event`, the record the notification facility produces
/// for one observed filesystem change.  The adapter never inspects it.
#[verifier::external_type_specification]
#[verifier::external_body]
pub struct ExEvent(notify::Event);

/// Declares `notify::Error`, the facility's description of a failed
/// construction, a failed watch registration, or a failed observation.
#[verifier::external_type_specification]
#[verifier::external_body]
pub struct ExError(notify::Error);

/// Declares `notify::RecommendedWatcher`, the armed notification source.
/// Dropping it tears the underlying watch down.
#[verifier::external_type_specification]
#[verifier::external_body]
pub struct ExWatcher(notify::RecommendedWatcher);

/// Declares `tokio::sync::mpsc::Sender`, the producer half of the bounded
/// queue the source's callback feeds.
#[verifier::external_type_specification]
#[verifier::external_body]
#[verifier::reject_recursive_types(T)]
pub struct ExSender<T>(tokio::sync::mpsc::Sender<T>);

/// Declares `tokio::sync::mpsc::Receiver`, the consumer half of the bounded
/// queue the drain step pulls from.
#[verifier::external_type_specification]
#[verifier::external_body]
#[verifier::reject_recursive_types(T)]
pub struct ExReceiver<T>(tokio::sync::mpsc::Receiver<T>);

} // verus!
