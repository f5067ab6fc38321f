//! What an end decides after a look at the pipe.
//!
//! An operation looks at the pipe, and where that does not let it proceed it
//! registers its waker and looks again before it gives up: a change that
//! the other end makes in between is then either seen by the second look or
//! followed by a wakeup. [`Entry`] is the decision after the first look,
//! [`Recheck`] the one after the second.

use vstd::prelude::*;

verus! {

/// What an end does after its first look at the pipe.
#[derive(Clone, Copy, Debug, PartialEq, Eq)]
pub enum Entry {
    /// Move bytes now.
    Transfer,
    /// Complete with no bytes moved.
    Finish,
    /// Leave the waker in the slot, then look again.
    Register,
}

/// What an end does after it has registered its waker and looked again.
#[derive(Clone, Copy, Debug, PartialEq, Eq)]
pub enum Recheck {
    /// Move bytes after all.
    Transfer,
    /// Complete with no bytes moved.
    Finish,
    /// Report `Pending` and wait to be woken.
    Suspend,
}

impl Entry {
    /// For a read that found `queued` bytes and has room for `wanted`:
    /// bytes that are there are taken; with none there, a read that wants
    /// none is done and any other registers.
    pub open spec fn of_read(queued: nat, wanted: nat) -> Entry {
        if queued > 0 {
            Entry::Transfer
        } else if wanted == 0 {
            Entry::Finish
        } else {
            Entry::Register
        }
    }

    /// For a write that read the closed flag as `closed` and found the
    /// queue full or not: a closed pipe takes nothing, a full one makes the
    /// writer register.
    pub open spec fn of_write(closed: bool, full: bool) -> Entry {
        if closed {
            Entry::Finish
        } else if full {
            Entry::Register
        } else {
            Entry::Transfer
        }
    }
}

impl Recheck {
    /// For a read that, registered, read the closed flag as `closed` and
    /// then found `queued` bytes: bytes that are there are taken; with none
    /// there, the stream has ended if the pipe was closed, and the reader
    /// waits if it was open.
    pub open spec fn of_read(closed: bool, queued: nat) -> Recheck {
        if queued > 0 {
            Recheck::Transfer
        } else if closed {
            Recheck::Finish
        } else {
            Recheck::Suspend
        }
    }

    /// For a write that, registered, found the queue full or not and then
    /// read the closed flag as `closed`: room that is there is used; with
    /// none there, a closed pipe takes nothing, and on an open one the
    /// writer waits.
    pub open spec fn of_write(full: bool, closed: bool) -> Recheck {
        if !full {
            Recheck::Transfer
        } else if closed {
            Recheck::Finish
        } else {
            Recheck::Suspend
        }
    }
}

/// Decides what a read does after its first look at the pipe, where it found
/// `queued` bytes, with a destination of length `wanted`.
pub fn read_entry(queued: usize, wanted: usize) -> (entry: Entry)
    ensures
        entry == Entry::of_read(queued as nat, wanted as nat),
{
    if queued > 0 {
        Entry::Transfer
    } else if wanted == 0 {
        Entry::Finish
    } else {
        Entry::Register
    }
}

/// Decides what a read does once it has registered, read the closed flag as
/// `closed`, and then found `queued` bytes.
pub fn read_recheck(closed: bool, queued: usize) -> (recheck: Recheck)
    ensures
        recheck == Recheck::of_read(closed, queued as nat),
{
    if queued > 0 {
        Recheck::Transfer
    } else if closed {
        Recheck::Finish
    } else {
        Recheck::Suspend
    }
}

/// Decides what a write does after its first look at the pipe, where it read
/// the closed flag as `closed` and found the queue full or not.
pub fn write_entry(closed: bool, full: bool) -> (entry: Entry)
    ensures
        entry == Entry::of_write(closed, full),
{
    if closed {
        Entry::Finish
    } else if full {
        Entry::Register
    } else {
        Entry::Transfer
    }
}

/// Decides what a write does once it has registered, found the queue full or
/// not, and then read the closed flag as `closed`.
pub fn write_recheck(full: bool, closed: bool) -> (recheck: Recheck)
    ensures
        recheck == Recheck::of_write(full, closed),
{
    if !full {
        Recheck::Transfer
    } else if closed {
        Recheck::Finish
    } else {
        Recheck::Suspend
    }
}

} // verus!
