//! The two ends of a pipe and the state they share.

use crate::buffer::Buffer;
use crate::decision::Entry;
use crate::decision::Recheck;
use crate::decision::read_entry;
use crate::decision::read_recheck;
use crate::decision::write_entry;
use crate::decision::write_recheck;
use crate::protocol::Poll;
use crate::protocol::State;
use crate::protocol::full_allows;
use crate::protocol::len_allows;
use crate::protocol::lemma_read_allows;
use crate::protocol::lemma_write_allows;
use crate::protocol::read_allows;
use crate::protocol::write_allows;
use atomic_waker::AtomicWaker;
use std::sync::Arc;
use std::sync::atomic::AtomicBool;
use std::sync::atomic::Ordering;
use std::task::Waker;
use vstd::prelude::*;
use vstd::rwlock::RwLock;
use vstd::rwlock::RwLockPredicate;

verus! {

/// What the lock on the queue guarantees of its contents at every moment:
/// a well-formed queue of the capacity the pipe was made with.
pub struct Bounded {
    /// The capacity the pipe was made with.
    pub capacity: usize,
}

impl RwLockPredicate<Buffer> for Bounded {
    open spec fn inv(self, v: Buffer) -> bool {
        v.wf() && v.capacity() == self.capacity
    }
}

/// The state that the two ends share.
struct Pipe {
    /// The queued bytes. Only touched under the lock.
    buffer: RwLock<Buffer, Bounded>,
    /// Set once, by whichever end closes first, and never cleared.
    closed: AtomicBool,
    /// Where a suspended reader leaves its waker.
    reader: AtomicWaker,
    /// Where a suspended writer leaves its waker.
    writer: AtomicWaker,
}

impl Pipe {
    spec fn capacity(&self) -> usize {
        self.buffer.pred().capacity
    }

    /// The pipe as the lock showed it: open, for all that the queue tells,
    /// and holding what `found` holds.
    spec fn shown_by(&self, found: Buffer) -> State {
        State::holding(self.capacity() as nat, found@)
    }

    /// A snapshot of the number of queued bytes: the length of the queue
    /// that the lock held when it was taken.
    fn len(&self) -> (n: usize)
        ensures
            len_allows(self.capacity() as nat, n as nat),
            n <= self.capacity(),
    {
        let handle = self.buffer.acquire_read();
        let n = handle.borrow().len();
        proof {
            assert(self.shown_by(handle@).wf());
        }
        handle.release_read();
        n
    }

    /// A snapshot of whether the queue has no room: whether the queue that
    /// the lock held when it was taken was at the capacity.
    fn is_full(&self) -> (full: bool)
        ensures
            full_allows(self.capacity() as nat, full),
            self.capacity() == 0 ==> full,
    {
        let handle = self.buffer.acquire_read();
        let full = handle.borrow().is_full();
        proof {
            assert(self.shown_by(handle@).wf());
        }
        handle.release_read();
        full
    }

    /// A snapshot of the closed flag. Once it is `true` it stays so.
    fn is_closed(&self) -> bool {
        self.closed.load(Ordering::SeqCst)
    }

    /// Sets the closed flag. Nothing in this file ever clears it.
    fn shut(&self) {
        self.closed.store(true, Ordering::SeqCst);
    }
}

/// Orders a registration in a wakeup slot before the looks at the pipe that
/// follow it: the other end either sees the registration when it fires the
/// slot, or has made its change early enough for those looks to find it.
fn full_fence() {
    std::sync::atomic::fence(Ordering::SeqCst);
}

/// The reading end of a pipe.
pub struct Reader {
    pipe: Arc<Pipe>,
}

/// The writing end of a pipe.
pub struct Writer {
    pipe: Arc<Pipe>,
    /// Whether this end has closed the pipe itself. The shared flag is then
    /// set as well, so a write need not look at it.
    closed: bool,
}

/// Makes a pipe that holds at most `cap` bytes and returns its two ends.
///
/// The pipe starts open and empty. With `cap == 0` it is full from the start:
/// every write suspends until the pipe is closed, and no byte ever passes.
pub fn pipe(cap: usize) -> (ends: (Reader, Writer))
    ensures
        ends.0.capacity() == cap,
        ends.1.capacity() == cap,
        ends.0.is_paired_with(&ends.1),
        !ends.1.has_closed(),
{
    let shared = Arc::new(
        Pipe {
            buffer: RwLock::new(Buffer::new(cap), Ghost(Bounded { capacity: cap })),
            closed: AtomicBool::new(false),
            reader: AtomicWaker::new(),
            writer: AtomicWaker::new(),
        },
    );
    let r = Reader { pipe: shared.clone() };
    let w = Writer { pipe: shared, closed: false };
    (r, w)
}

impl Reader {
    /// The capacity the pipe was made with.
    pub closed spec fn capacity(&self) -> usize {
        self.pipe.capacity()
    }

    /// Whether `writer` is the other end of this reader's pipe.
    pub closed spec fn is_paired_with(&self, writer: &Writer) -> bool {
        self.pipe == writer.pipe
    }

    /// The number of bytes in the pipe at the moment of the call.
    ///
    /// What the look finds depends on the other end, so the contract says
    /// what holds of every look: the result is the length of the queue in
    /// some state of a pipe of this capacity, and so within the capacity.
    pub fn len(&self) -> (n: usize)
        ensures
            len_allows(self.capacity() as nat, n as nat),
            n <= self.capacity(),
    {
        self.pipe.len()
    }

    /// Tries to read into `buf` and returns how many bytes were read.
    ///
    /// Bytes come out in the order they were written. If the pipe is empty,
    /// the read is `Ready(0)` when `buf` has length zero or the pipe is
    /// closed; otherwise `waker` is left in the reader's slot and the read is
    /// `Pending`, to be tried again after the writer has written, closed or
    /// been released. A read that finds bytes wakes a suspended writer.
    ///
    /// What the read finds depends on the writer, so the contract says what
    /// holds of every outcome: it is one that
    /// [`crate::protocol::State::read`] gives on some state of a pipe of
    /// this capacity.
    pub fn poll_read(&mut self, waker: &Waker, buf: &mut [u8]) -> (r: Poll<usize>)
        ensures
            *final(self) == *old(self),
            read_allows(old(self).capacity() as nat, old(buf)@, r@, final(buf)@),
            final(buf)@.len() == old(buf)@.len(),
            r matches Poll::Ready(n) ==> {
                &&& n <= old(buf)@.len()
                &&& n <= old(self).capacity()
                &&& final(buf)@.skip(n as int) == old(buf)@.skip(n as int)
            },
            r is Pending ==> final(buf)@ == old(buf)@,
            old(buf)@.len() == 0 ==> r == Poll::Ready(0usize),
    {
        proof {
            lemma_read_allows(self.capacity() as nat, buf@, Poll::Ready(0nat), buf@);
            lemma_read_allows(self.capacity() as nat, buf@, Poll::Pending, buf@);
        }
        match read_entry(self.len(), buf.len()) {
            Entry::Transfer => {},
            Entry::Finish => {
                return Poll::Ready(0);
            },
            Entry::Register => {
                self.pipe.reader.register(waker);
                full_fence();
                // The flag is read before the queue is looked at again. A
                // writer closes only after its last write, so a queue that
                // is found empty after the flag was seen set stays empty:
                // the end of the stream is never reported ahead of bytes
                // still to come.
                let closed = self.pipe.is_closed();
                match read_recheck(closed, self.len()) {
                    Recheck::Transfer => {},
                    Recheck::Finish => {
                        return Poll::Ready(0);
                    },
                    Recheck::Suspend => {
                        return Poll::Pending;
                    },
                }
            },
        }
        self.pipe.reader.take();
        let (mut buffer, handle) = self.pipe.buffer.acquire_write();
        let n = buffer.drain_into(buf);
        proof {
            assert(buf@.skip(n as int) =~= old(buf)@.skip(n as int));
            lemma_read_allows(self.capacity() as nat, old(buf)@, Poll::Ready(n as nat), buf@);
        }
        handle.release_write(buffer);
        self.pipe.writer.wake();
        Poll::Ready(n)
    }

    /// Gives the reading end up: closes the pipe and wakes a suspended
    /// writer, which then learns that nobody will read again. Bytes still
    /// queued are never read.
    pub fn release(self) {
        self.pipe.shut();
        self.pipe.writer.wake();
    }
}

impl Writer {
    /// The capacity the pipe was made with.
    pub closed spec fn capacity(&self) -> usize {
        self.pipe.capacity()
    }

    /// Whether this end has closed the pipe.
    pub closed spec fn has_closed(&self) -> bool {
        self.closed
    }

    /// The number of bytes in the pipe at the moment of the call.
    ///
    /// What the look finds depends on the other end, so the contract says
    /// what holds of every look: the result is the length of the queue in
    /// some state of a pipe of this capacity, and so within the capacity.
    pub fn len(&self) -> (n: usize)
        ensures
            len_allows(self.capacity() as nat, n as nat),
            n <= self.capacity(),
    {
        self.pipe.len()
    }

    /// Tries to write the bytes of `buf` and returns how many were taken,
    /// always from the front of `buf`.
    ///
    /// On a closed pipe the write is `Ready(0)` and nothing is taken; after
    /// this end's own [`Writer::poll_close`] that is so of every write. On an
    /// open pipe that is full `waker` is left in the writer's slot and the
    /// write is `Pending`, to be tried again after the reader has read or
    /// been released, or the pipe was closed. Otherwise as many bytes are
    /// appended as there is room for, and a suspended reader is woken; the
    /// caller writes the rest in a later call.
    ///
    /// What the write finds depends on the reader, so the contract says what
    /// holds of every outcome: it is one that
    /// [`crate::protocol::State::write`] gives on some state of a pipe of
    /// this capacity.
    pub fn poll_write(&mut self, waker: &Waker, buf: &[u8]) -> (r: Poll<usize>)
        ensures
            *final(self) == *old(self),
            old(self).has_closed() ==> r == Poll::Ready(0usize),
            write_allows(old(self).capacity() as nat, buf@, r@),
            r matches Poll::Ready(n) ==> n <= buf@.len() && n <= old(self).capacity(),
    {
        proof {
            lemma_write_allows(self.capacity() as nat, buf@, Poll::Ready(0nat));
            lemma_write_allows(self.capacity() as nat, buf@, Poll::Pending);
        }
        let closed = self.closed || self.pipe.is_closed();
        match write_entry(closed, self.pipe.is_full()) {
            Entry::Transfer => {},
            Entry::Finish => {
                return Poll::Ready(0);
            },
            Entry::Register => {
                self.pipe.writer.register(waker);
                full_fence();
                // The queue is looked at before the flag is read. A queue
                // that is found full, on a pipe that is seen open later, was
                // full on an open pipe: the writer waits only for room that
                // was not there.
                let full = self.pipe.is_full();
                match write_recheck(full, self.pipe.is_closed()) {
                    Recheck::Transfer => {},
                    Recheck::Finish => {
                        return Poll::Ready(0);
                    },
                    Recheck::Suspend => {
                        return Poll::Pending;
                    },
                }
            },
        }
        self.pipe.writer.take();
        let (mut buffer, handle) = self.pipe.buffer.acquire_write();
        let n = buffer.fill_from(buf);
        proof {
            lemma_write_allows(self.capacity() as nat, buf@, Poll::Ready(n as nat));
        }
        handle.release_write(buffer);
        self.pipe.reader.wake();
        Poll::Ready(n)
    }

    /// Completes at once: the pipe has no staging area to force out.
    pub fn poll_flush(&mut self) -> (r: Poll<()>)
        ensures
            *final(self) == *old(self),
            r == Poll::Ready(()),
    {
        Poll::Ready(())
    }

    /// Closes the pipe for good and wakes both ends, then completes at once.
    /// Closing a closed pipe changes nothing.
    pub fn poll_close(&mut self) -> (r: Poll<()>)
        ensures
            r == Poll::Ready(()),
            final(self).has_closed(),
            final(self).capacity() == old(self).capacity(),
    {
        self.closed = true;
        self.pipe.shut();
        self.pipe.reader.wake();
        self.pipe.writer.wake();
        Poll::Ready(())
    }

    /// Gives the writing end up: closes the pipe and wakes a suspended
    /// reader, which then drains what is left and finds the end of the
    /// stream.
    pub fn release(self) {
        self.pipe.shut();
        self.pipe.reader.wake();
    }
}

} // verus!
