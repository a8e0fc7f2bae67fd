//! A bridge from a callback-driven filesystem-change notification facility to
//! a pull-based consumer.
//!
//! The watch primitive of the `notify` crate pushes each observation into a
//! callback on its own delivery thread.  This crate turns that push interface
//! into a pull interface: every observation is forwarded into a bounded queue
//! of capacity one, and a drain step takes observations out of the queue one
//! at a time, dispatching each successfully decoded change event to a sink
//! and discarding observation errors after noting them.

pub mod ext;
pub mod obs;
pub mod drain;
pub mod slot;
pub mod bridge;

pub use drain::EventLog;
pub use drain::HandleEvent;
pub use drain::relay_through_slot;
pub use drain::run_drain;
pub use obs::LoopAction;
pub use obs::Observation;
pub use obs::SetupError;
pub use obs::classify;
pub use obs::next_action;
pub use bridge::Watch;
pub use bridge::arm;
pub use bridge::pump_one;
pub use slot::EventSlot;
pub use slot::SlotState;
