//! A retry adapter for a sink that may fail.
//!
//! The adapter wraps a sink that accepts one event at a time, such as a log
//! drain writing to a network connection. When the sink reports an error, the
//! adapter discards it, has a new one built by a factory and hands the same
//! event to the new sink. A [`Strategy`] says how long to wait before each
//! reconnection attempt and how many attempts to make; once it runs out, the
//! adapter gives up on the event and reports an [`Error`]. It stays usable:
//! the next event starts a new campaign with a fresh strategy.
//!
//! The adapter itself performs no I/O. [`Retry`] is a state machine: each of
//! its operations returns a [`Step`] that tells the caller what to do next
//! (wait and build a sink, hand the event to the current sink) or how the
//! operation ended, and the caller reports the outcome of what it did. The
//! caller therefore owns sleeping, the factory and the call into the sink,
//! while every decision is taken here.

pub mod delay;
pub mod error;
pub mod laws;
pub mod model;
pub mod retry;
pub mod strategy;

pub use crate::delay::Delay;
pub use crate::error::{Cause, Error};
pub use crate::model::{Input, Phase, RetryView, Step};
pub use crate::retry::Retry;
pub use crate::strategy::{default_new_strategy, NewStrategy, Strategy, StrategyView};
