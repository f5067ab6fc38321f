//! The queue of bytes that the two ends of a pipe share.

use std::collections::VecDeque;
use vstd::prelude::*;

verus! {

/// How many bytes one transfer moves: all that are on offer, or as many of
/// them as there is room for.
pub open spec fn transfer_len(offered: nat, room: nat) -> nat {
    if offered <= room {
        offered
    } else {
        room
    }
}

/// What a queue holds after a reader has taken `count` bytes from its front.
pub open spec fn after_drain(queue: Seq<u8>, count: nat) -> Seq<u8> {
    queue.skip(count as int)
}

/// What a destination holds after `count` bytes from the front of `queue`
/// were written over its first `count` places.
pub open spec fn filled(queue: Seq<u8>, dest: Seq<u8>, count: nat) -> Seq<u8> {
    queue.take(count as int) + dest.skip(count as int)
}

/// What a queue holds after a writer has appended the first `count` bytes of
/// `src`.
pub open spec fn after_fill(queue: Seq<u8>, src: Seq<u8>, count: nat) -> Seq<u8> {
    queue + src.take(count as int)
}

/// A first-in, first-out queue of bytes with a fixed upper bound on its length.
///
/// Its view is the sequence of queued bytes, oldest first. A queue of
/// capacity zero is always empty and always full.
pub struct Buffer {
    bytes: VecDeque<u8>,
    capacity: usize,
}

impl View for Buffer {
    type V = Seq<u8>;

    closed spec fn view(&self) -> Seq<u8> {
        self.bytes@
    }
}

impl Buffer {
    /// The invariant of the type: no more bytes are queued than the capacity
    /// allows. Every constructor establishes it and every method keeps it.
    pub open spec fn wf(&self) -> bool {
        self@.len() <= self.capacity()
    }

    /// The bound that was fixed when the queue was made.
    pub closed spec fn spec_capacity(&self) -> usize {
        self.capacity
    }

    /// An empty queue that will hold at most `capacity` bytes.
    pub fn new(capacity: usize) -> (buffer: Buffer)
        ensures
            buffer.wf(),
            buffer@ == Seq::<u8>::empty(),
            buffer.capacity() == capacity,
    {
        Buffer { bytes: VecDeque::new(), capacity }
    }

    /// The number of queued bytes.
    pub fn len(&self) -> (n: usize)
        ensures
            n == self@.len(),
    {
        self.bytes.len()
    }

    /// Whether nothing is queued.
    pub fn is_empty(&self) -> (empty: bool)
        ensures
            empty <==> self@.len() == 0,
    {
        self.bytes.len() == 0
    }

    /// Whether the queue has no room left.
    pub fn is_full(&self) -> (full: bool)
        ensures
            full <==> self@.len() == self.capacity(),
    {
        self.bytes.len() == self.capacity
    }

    /// Moves bytes from the front of the queue into `dest`, oldest first,
    /// until the queue is empty or `dest` is full, and returns how many were
    /// moved. The rest of `dest` keeps what it held.
    pub fn drain_into(&mut self, dest: &mut [u8]) -> (n: usize)
        requires
            old(self).wf(),
        ensures
            final(self).wf(),
            n == transfer_len(old(self)@.len(), old(dest)@.len()),
            final(self)@ == after_drain(old(self)@, n as nat),
            final(dest)@ == filled(old(self)@, old(dest)@, n as nat),
            final(self).capacity() == old(self).capacity(),
    {
        let n: usize = if self.bytes.len() <= dest.len() {
            self.bytes.len()
        } else {
            dest.len()
        };
        let mut i: usize = 0;
        while i < n
            invariant
                i <= n,
                n <= old(self)@.len(),
                n <= old(dest)@.len(),
                self.capacity == old(self).capacity,
                self.bytes@ == old(self)@.skip(i as int),
                dest@ == old(self)@.take(i as int) + old(dest)@.skip(i as int),
            decreases n - i,
        {
            let front = self.bytes.pop_front();
            match front {
                Some(byte) => {
                    dest[i] = byte;
                },
                None => {},
            }
            i = i + 1;
            assert(self.bytes@ =~= old(self)@.skip(i as int));
            assert(dest@ =~= old(self)@.take(i as int) + old(dest)@.skip(i as int));
        }
        n
    }

    /// Appends bytes from the front of `src` to the queue, in order, until
    /// `src` is used up or the queue is full, and returns how many were
    /// appended.
    pub fn fill_from(&mut self, src: &[u8]) -> (n: usize)
        requires
            old(self).wf(),
        ensures
            final(self).wf(),
            n == transfer_len(src@.len(), (old(self).capacity() - old(self)@.len()) as nat),
            final(self)@ == after_fill(old(self)@, src@, n as nat),
            final(self).capacity() == old(self).capacity(),
    {
        let room: usize = self.capacity - self.bytes.len();
        let n: usize = if src.len() <= room {
            src.len()
        } else {
            room
        };
        let mut i: usize = 0;
        while i < n
            invariant
                i <= n,
                n <= src@.len(),
                old(self)@.len() + n <= self.capacity,
                self.capacity == old(self).capacity,
                self.bytes@ == old(self)@ + src@.take(i as int),
            decreases n - i,
        {
            self.bytes.push_back(src[i]);
            i = i + 1;
            assert(self.bytes@ =~= old(self)@ + src@.take(i as int));
        }
        n
    }

    /// The bound on the queue's length.
    #[verifier::when_used_as_spec(spec_capacity)]
    pub fn capacity(&self) -> (c: usize)
        ensures
            c == self.spec_capacity(),
    {
        self.capacity
    }
}

} // verus!
