//! A bounded byte pipe between one writing task and one reading task.
//!
//! [`pipe::pipe`] makes the two ends. The writer appends bytes until the pipe
//! holds `capacity` of them, the reader takes them out in the order they went
//! in, and either end may close the pipe for good. An operation that cannot
//! make progress leaves a waker behind and reports
//! [`protocol::Poll::Pending`]; the other end wakes it when that may have
//! changed.
//!
//! - [`buffer`] is the bounded queue, with exact contracts on what a transfer
//!   moves.
//! - [`decision`] holds what an end does after a look at the pipe.
//! - [`pipe`] holds the two ends, which work on state that they share between
//!   threads. Their contracts say what holds of every outcome.
//! - [`protocol`] is the pipe as a state machine that takes one operation at a
//!   time, and [`guarantees`] is what is proved of it.
//! - [`interleaving`] is the same protocol with the moves of the two ends in
//!   any order, and the proof that no wakeup and no byte is lost in it.
//! - [`sync`] is what is taken on trust.

pub mod buffer;
pub mod decision;
pub mod guarantees;
pub mod interleaving;
pub mod pipe;
pub mod protocol;
pub mod sync;
