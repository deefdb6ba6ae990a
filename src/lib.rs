//! Racing an asynchronous computation against a deadline timer.
//!
//! The verified part of the combinator is its poll step: the timer is
//! consulted first, and only when it has not fired is the inner computation
//! polled. `race` states the step; `trace` models a run of successive polls
//! and proves how a run resolves.
pub mod race;
pub mod trace;

pub use race::{poll_timeout, Readiness};
