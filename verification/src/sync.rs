//! What the pipe takes on trust: the wakeup slot of the `atomic_waker` crate
//! and two items of the standard library. Nothing in this file is proved.
//!
//! A wakeup slot is shared between threads, so what a call finds in it depends
//! on what the other end did meanwhile. The contracts here therefore promise
//! nothing about results. That the calls return at all rests on the wakers
//! handed to this library: a slot clones, wakes and drops them, and none of
//! that is expected to panic.

use atomic_waker::AtomicWaker;
use std::sync::atomic::Ordering;
use std::task::Waker;
use vstd::prelude::*;

verus! {

/// `std::task::Waker`, the handle by which a suspended task is resumed. The
/// library only passes it on.
#[verifier::external_type_specification]
#[verifier::external_body]
pub struct ExWaker(Waker);

/// `atomic_waker::AtomicWaker`, a cell that holds at most one waker and may be
/// used from several threads at once.
#[verifier::external_type_specification]
#[verifier::external_body]
pub struct ExAtomicWaker(AtomicWaker);

/// `AtomicWaker::new` makes a slot that holds no waker. Nothing is claimed of
/// the value.
pub assume_specification[ AtomicWaker::new ]() -> AtomicWaker
;

/// `AtomicWaker::register` stores a clone of `waker` in the slot, in place of
/// any waker stored before; if a `wake` runs at the same moment it wakes
/// `waker` instead. Nothing is claimed of the slot afterwards.
pub assume_specification[ AtomicWaker::register ](slot: &AtomicWaker, waker: &Waker)
;

/// `AtomicWaker::take` empties the slot and hands out the waker it held, or
/// `None` if it held none or another thread is at the slot. Which of these
/// happens depends on the other threads, so nothing is claimed of the result.
pub assume_specification[ AtomicWaker::take ](slot: &AtomicWaker) -> Option<Waker>
;

/// `AtomicWaker::wake` takes the waker out of the slot, if one is there, and
/// wakes it. Nothing is claimed of the slot afterwards.
pub assume_specification[ AtomicWaker::wake ](slot: &AtomicWaker)
;

/// `std::sync::atomic::fence` orders the memory operations around it. It
/// panics for `Relaxed`, which the precondition rules out.
pub assume_specification[ std::sync::atomic::fence ](order: Ordering)
    requires
        order != Ordering::Relaxed,
;

} // verus!
