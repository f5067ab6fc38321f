//! The pipe as a state machine: what each operation returns and how it
//! changes the shared state, as functions on plain values.
//!
//! One step of the machine is one whole operation, taken as if nothing else
//! touched the pipe meanwhile: the decisions of [`crate::decision`], and the
//! transfer that [`crate::buffer`] makes under the lock.

use crate::buffer::after_drain;
use crate::buffer::after_fill;
use crate::buffer::filled;
use crate::buffer::transfer_len;
use crate::decision::Entry;
use crate::decision::Recheck;
use vstd::prelude::*;

verus! {

/// How an operation that may have to wait ends.
#[derive(Debug, PartialEq, Eq)]
pub enum Poll<T> {
    /// It is done, with this result.
    Ready(T),
    /// It could make no progress. Its waker is registered and the caller is
    /// to try again once woken.
    Pending,
}

impl View for Poll<usize> {
    type V = Poll<nat>;

    open spec fn view(&self) -> Poll<nat> {
        match *self {
            Poll::Ready(n) => Poll::Ready(n as nat),
            Poll::Pending => Poll::Pending,
        }
    }
}

/// The shared state of a pipe.
pub struct State {
    /// The bytes written and not yet read, oldest first.
    pub queue: Seq<u8>,
    /// The most that `queue` may hold.
    pub capacity: nat,
    /// Whether either end has closed the pipe.
    pub closed: bool,
    /// Whether the reader's wakeup slot holds a waker.
    pub reader_slot: bool,
    /// Whether the writer's wakeup slot holds a waker.
    pub writer_slot: bool,
}

impl State {
    /// The queue is within its bound.
    pub open spec fn wf(self) -> bool {
        self.queue.len() <= self.capacity
    }

    /// The state of a pipe that was just made: open, empty, nobody waiting.
    pub open spec fn fresh(capacity: nat) -> State {
        State {
            queue: Seq::empty(),
            capacity,
            closed: false,
            reader_slot: false,
            writer_slot: false,
        }
    }

    pub open spec fn is_empty(self) -> bool {
        self.queue.len() == 0
    }

    pub open spec fn is_full(self) -> bool {
        self.queue.len() == self.capacity
    }

    /// The room left in the queue.
    pub open spec fn room(self) -> nat {
        (self.capacity - self.queue.len()) as nat
    }

    /// An open pipe of this capacity that holds `queue`, with nobody
    /// waiting.
    pub open spec fn holding(capacity: nat, queue: Seq<u8>) -> State {
        State { queue, capacity, closed: false, reader_slot: false, writer_slot: false }
    }
}

/// What one operation did.
pub struct Step {
    /// The state it leaves behind.
    pub next: State,
    /// How it ended; for a transfer, with the number of bytes moved.
    pub result: Poll<nat>,
    /// Whether it fired the reader's slot while that held a waker.
    pub wakes_reader: bool,
    /// Whether it fired the writer's slot while that held a waker.
    pub wakes_writer: bool,
}

/// One operation on a pipe, with what the caller hands it.
pub enum Op {
    /// A read into a destination that holds these bytes.
    Read(Seq<u8>),
    /// A write of these bytes.
    Write(Seq<u8>),
    Flush,
    Close,
    ReleaseReader,
    ReleaseWriter,
}

impl State {
    /// A step that leaves the state as it is and completes with 0.
    pub open spec fn stay(self) -> Step {
        Step { next: self, result: Poll::Ready(0), wakes_reader: false, wakes_writer: false }
    }

    /// The reader's waker is in its slot.
    pub open spec fn with_reader_registered(self) -> State {
        State { reader_slot: true, ..self }
    }

    /// The writer's waker is in its slot.
    pub open spec fn with_writer_registered(self) -> State {
        State { writer_slot: true, ..self }
    }

    /// The transfer of a read: the reader clears its own slot, takes as many
    /// bytes as the destination has room for, and fires the writer's slot.
    pub open spec fn take_bytes(self, dest: Seq<u8>) -> Step {
        let n = transfer_len(self.queue.len(), dest.len());
        Step {
            next: State {
                queue: after_drain(self.queue, n),
                reader_slot: false,
                writer_slot: false,
                ..self
            },
            result: Poll::Ready(n),
            wakes_reader: false,
            wakes_writer: self.writer_slot,
        }
    }

    /// The transfer of a write: the writer clears its own slot, appends as
    /// many bytes as there is room for, and fires the reader's slot.
    pub open spec fn put_bytes(self, src: Seq<u8>) -> Step {
        let n = transfer_len(src.len(), self.room());
        Step {
            next: State {
                queue: after_fill(self.queue, src, n),
                reader_slot: false,
                writer_slot: false,
                ..self
            },
            result: Poll::Ready(n),
            wakes_reader: self.reader_slot,
            wakes_writer: false,
        }
    }

    /// A read into a destination that holds `dest`.
    ///
    /// On a queue that holds bytes the read is a transfer. On an empty queue
    /// nothing is moved: a destination of length zero is done at once;
    /// otherwise the reader registers, and then is at the end of the stream
    /// if the pipe is closed and suspended if it is open.
    pub open spec fn read(self, dest: Seq<u8>) -> Step {
        match Entry::of_read(self.queue.len(), dest.len()) {
            Entry::Transfer => self.take_bytes(dest),
            Entry::Finish => self.stay(),
            Entry::Register => {
                let registered = self.with_reader_registered();
                match Recheck::of_read(self.closed, self.queue.len()) {
                    Recheck::Transfer => registered.take_bytes(dest),
                    Recheck::Finish => registered.stay(),
                    Recheck::Suspend => Step { result: Poll::Pending, ..registered.stay() },
                }
            },
        }
    }

    /// What the destination of a read holds afterwards.
    pub open spec fn read_into(self, dest: Seq<u8>) -> Seq<u8> {
        filled(self.queue, dest, transfer_len(self.queue.len(), dest.len()))
    }

    /// A write of the bytes `src`.
    ///
    /// On a closed pipe nothing is taken. On an open pipe that is full the
    /// writer registers and is suspended. Otherwise the write is a transfer.
    pub open spec fn write(self, src: Seq<u8>) -> Step {
        match Entry::of_write(self.closed, self.is_full()) {
            Entry::Transfer => self.put_bytes(src),
            Entry::Finish => self.stay(),
            Entry::Register => {
                let registered = self.with_writer_registered();
                match Recheck::of_write(self.is_full(), self.closed) {
                    Recheck::Transfer => registered.put_bytes(src),
                    Recheck::Finish => registered.stay(),
                    Recheck::Suspend => Step { result: Poll::Pending, ..registered.stay() },
                }
            },
        }
    }

    /// A flush: there is nothing to force out.
    pub open spec fn flush(self) -> Step {
        self.stay()
    }

    /// A close by the writer: the pipe is closed and both slots are fired.
    pub open spec fn close(self) -> Step {
        Step {
            next: State { closed: true, reader_slot: false, writer_slot: false, ..self },
            result: Poll::Ready(0),
            wakes_reader: self.reader_slot,
            wakes_writer: self.writer_slot,
        }
    }

    /// The reader is released: the pipe is closed and the writer's slot is
    /// fired.
    pub open spec fn release_reader(self) -> Step {
        Step {
            next: State { closed: true, writer_slot: false, ..self },
            result: Poll::Ready(0),
            wakes_reader: false,
            wakes_writer: self.writer_slot,
        }
    }

    /// The writer is released: the pipe is closed and the reader's slot is
    /// fired.
    pub open spec fn release_writer(self) -> Step {
        Step {
            next: State { closed: true, reader_slot: false, ..self },
            result: Poll::Ready(0),
            wakes_reader: self.reader_slot,
            wakes_writer: false,
        }
    }

    /// The step that `op` takes from this state.
    pub open spec fn apply(self, op: Op) -> Step {
        match op {
            Op::Read(dest) => self.read(dest),
            Op::Write(src) => self.write(src),
            Op::Flush => self.flush(),
            Op::Close => self.close(),
            Op::ReleaseReader => self.release_reader(),
            Op::ReleaseWriter => self.release_writer(),
        }
    }

    /// The bytes that `op` hands to the reader: for a read, those it takes
    /// from the front of the queue.
    pub open spec fn delivered_by(self, op: Op) -> Seq<u8> {
        match op {
            Op::Read(dest) => self.queue.take(transfer_len(self.queue.len(), dest.len()) as int),
            _ => Seq::empty(),
        }
    }

    /// The bytes that `op` takes from the writer: for a write that completes,
    /// the front of its source, as far as the result counts.
    pub open spec fn accepted_by(self, op: Op) -> Seq<u8> {
        match op {
            Op::Write(src) => match self.write(src).result {
                Poll::Ready(n) => src.take(n as int),
                Poll::Pending => Seq::empty(),
            },
            _ => Seq::empty(),
        }
    }
}

/// Where a pipe stands after a series of operations, and what has passed
/// through it.
pub struct History {
    pub state: State,
    /// All bytes that writes have taken, in order.
    pub accepted: Seq<u8>,
    /// All bytes that reads have handed out, in order.
    pub delivered: Seq<u8>,
}

/// The history of a fresh pipe of this capacity after the operations `ops`,
/// one after the other.
pub open spec fn run(capacity: nat, ops: Seq<Op>) -> History
    decreases ops.len(),
{
    if ops.len() == 0 {
        History { state: State::fresh(capacity), accepted: Seq::empty(), delivered: Seq::empty() }
    } else {
        let before = run(capacity, ops.drop_last());
        History {
            state: before.state.apply(ops.last()).next,
            accepted: before.accepted + before.state.accepted_by(ops.last()),
            delivered: before.delivered + before.state.delivered_by(ops.last()),
        }
    }
}

/// Whether a look at some pipe of this capacity can find `queued` bytes in
/// its queue.
pub open spec fn len_allows(capacity: nat, queued: nat) -> bool {
    exists|s: State| #[trigger] s.wf() && s.capacity == capacity && s.queue.len() == queued
}

/// Whether a look at some pipe of this capacity can find its queue full, if
/// `full` says so, or with room, if it says not.
pub open spec fn full_allows(capacity: nat, full: bool) -> bool {
    exists|s: State| #[trigger] s.wf() && s.capacity == capacity && s.is_full() == full
}

/// Whether a read into `dest` on some pipe of this capacity can end with
/// `result` and leave `after` in the destination.
pub open spec fn read_allows(
    capacity: nat,
    dest: Seq<u8>,
    result: Poll<nat>,
    after: Seq<u8>,
) -> bool {
    exists|s: State|
        s.wf() && s.capacity == capacity && (#[trigger] s.read(dest)).result == result
            && s.read_into(dest) == after
}

/// Whether a write of `src` on some pipe of this capacity can end with
/// `result`.
pub open spec fn write_allows(capacity: nat, src: Seq<u8>, result: Poll<nat>) -> bool {
    exists|s: State|
        s.wf() && s.capacity == capacity && (#[trigger] s.write(src)).result == result
}

/// What a look can find, spelled out: any number of bytes up to the
/// capacity.
pub proof fn lemma_len_allows(capacity: nat, queued: nat)
    ensures
        len_allows(capacity, queued) <==> queued <= capacity,
{
    if queued <= capacity {
        let s = State::holding(capacity, Seq::new(queued, |i: int| 0u8));
        assert(s.wf() && s.capacity == capacity && s.queue.len() == queued);
    }
}

/// What a look can find, spelled out: a queue with room only where the
/// capacity is not zero. A pipe of capacity zero is always full.
pub proof fn lemma_full_allows(capacity: nat, full: bool)
    ensures
        full_allows(capacity, full) <==> (capacity == 0 ==> full),
{
    if full {
        let s = State::holding(capacity, Seq::new(capacity, |i: int| 0u8));
        assert(s.wf() && s.capacity == capacity && s.is_full() == full);
    } else if capacity > 0 {
        let s = State::holding(capacity, Seq::empty());
        assert(s.wf() && s.capacity == capacity && s.is_full() == full);
    }
}

/// The outcomes of a read, spelled out: a completed read moved no more bytes
/// than the destination or the pipe can hold and left the rest of the
/// destination alone; a suspended read had somewhere to put a byte and moved
/// none.
pub proof fn lemma_read_allows(capacity: nat, dest: Seq<u8>, result: Poll<nat>, after: Seq<u8>)
    ensures
        read_allows(capacity, dest, result, after) <==> match result {
            Poll::Ready(n) => {
                &&& n <= dest.len()
                &&& n <= capacity
                &&& after.len() == dest.len()
                &&& after.skip(n as int) == dest.skip(n as int)
            },
            Poll::Pending => dest.len() > 0 && after == dest,
        },
{
    if read_allows(capacity, dest, result, after) {
        let s = choose|s: State|
            s.wf() && s.capacity == capacity && (#[trigger] s.read(dest)).result == result
                && s.read_into(dest) == after;
        let n = transfer_len(s.queue.len(), dest.len());
        assert(after =~= s.queue.take(n as int) + dest.skip(n as int));
        assert(after.skip(n as int) =~= dest.skip(n as int));
        if s.is_empty() {
            assert(after =~= dest);
        }
    }
    match result {
        Poll::Ready(n) => {
            if n <= dest.len() && n <= capacity && after.len() == dest.len() && after.skip(n as int)
                == dest.skip(n as int) {
                let s = State {
                    queue: after.take(n as int),
                    capacity,
                    closed: true,
                    reader_slot: false,
                    writer_slot: false,
                };
                assert(after.take(n as int) + after.skip(n as int) =~= after);
                assert(s.queue.take(n as int) =~= s.queue);
                assert(s.read(dest).result == result);
                assert(s.read_into(dest) == after);
            }
        },
        Poll::Pending => {
            if dest.len() > 0 && after == dest {
                let s = State::fresh(capacity);
                assert(s.read(dest).result == result);
                assert(s.read_into(dest) =~= after);
            }
        },
    }
}

/// The outcomes of a write, spelled out: a completed write took no more bytes
/// than it was offered or than the pipe can hold. A write may be suspended
/// whatever it offers.
pub proof fn lemma_write_allows(capacity: nat, src: Seq<u8>, result: Poll<nat>)
    ensures
        write_allows(capacity, src, result) <==> match result {
            Poll::Ready(n) => n <= src.len() && n <= capacity,
            Poll::Pending => true,
        },
{
    match result {
        Poll::Ready(n) => {
            if n <= src.len() && n <= capacity {
                let s = State {
                    queue: Seq::new((capacity - n) as nat, |i: int| 0u8),
                    capacity,
                    closed: n == 0,
                    reader_slot: false,
                    writer_slot: false,
                };
                assert(s.write(src).result == result);
            }
        },
        Poll::Pending => {
            let s = State {
                queue: Seq::new(capacity, |i: int| 0u8),
                capacity,
                closed: false,
                reader_slot: false,
                writer_slot: false,
            };
            assert(s.write(src).result == result);
        },
    }
}

} // verus!
