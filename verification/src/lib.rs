//! The decision logic of a count-down latch: a counter that tasks
//! decrement, and a list of tasks that wait until it reaches zero.
//!
//! The latch's state lives in [`latch::CountDownState`]; every operation on
//! it is a verified transition. What drives the transitions (locks, futures,
//! wakers, timers) is left to the caller.

pub mod latch;
pub mod laws;

pub use latch::{CountDownState, LatchView, TimedWaitOutcome, wait_for_outcome};
